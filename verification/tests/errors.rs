use chunkwm::ChunkWMError;

#[test]
fn description_of_each_kind() {
    assert_eq!(ChunkWMError::NullPointer.description(), "The raw pointer is outlived.");
    assert_eq!(ChunkWMError::CVarNotFound("x").description(), "A `CVar` cannot be found.");
    assert_eq!(
        ChunkWMError::ParseError("x").description(),
        "Something could not be parsed from a string."
    );
    assert_eq!(
        ChunkWMError::Internal("x").description(),
        "An error occured in a chunkwm function."
    );
}

#[test]
fn description_does_not_depend_on_the_detail() {
    assert_eq!(
        ChunkWMError::Internal("one").description(),
        ChunkWMError::Internal("two").description()
    );
}

#[test]
fn detail_of_each_kind() {
    assert_eq!(ChunkWMError::NullPointer.detail(), None);
    assert_eq!(ChunkWMError::CVarNotFound("name").detail(), Some("name"));
    assert_eq!(ChunkWMError::ParseError("what").detail(), Some("what"));
    assert_eq!(ChunkWMError::Internal("why").detail(), Some("why"));
}

#[test]
fn kinds_are_distinct() {
    assert_ne!(ChunkWMError::CVarNotFound("x"), ChunkWMError::ParseError("x"));
    assert_ne!(ChunkWMError::ParseError("x"), ChunkWMError::Internal("x"));
    assert_ne!(ChunkWMError::NullPointer, ChunkWMError::Internal(""));
}
