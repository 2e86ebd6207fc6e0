//! A bridge between a window-manager host and a plugin module loaded into it.
//!
//! The host owns applications, windows, displays and spaces. It tells the
//! plugin about them by handing over a notification tag and a block of its own
//! memory, and it keeps a store of named, text-valued configuration variables
//! that the plugin may read and write.
//!
//! This crate is the part of the bridge that decides: it turns a snapshot of a
//! host structure into an owned value, a tag and a snapshot into a typed
//! [`event::Event`], and a configuration request into the calls that the host
//! is asked to perform. Every function carries a contract, and the contracts
//! are proved. Reading the host's memory and calling its functions is left to
//! the caller, which hands plain values in and takes plain values back.

use vstd::prelude::*;

pub mod api;
pub mod application;
pub mod display;
pub mod event;
pub mod payload;
pub mod prelude;
pub mod raw;
pub mod text;
pub mod window;

verus! {

/// Why a bridge operation failed.
#[derive(Debug, Clone, Copy, PartialEq, Eq)]
pub enum ChunkWMError {
    /// A handle that has to be valid is null: the object behind it is gone, or
    /// the handle was never set.
    NullPointer,
    /// The host has no configuration variable of this name.
    CVarNotFound(&'static str),
    /// A configuration value could not be read as the requested type.
    ParseError(&'static str),
    /// The host reported that an operation failed.
    Internal(&'static str),
}

/// The text that describes each kind of error.
pub open spec fn description_of(error: ChunkWMError) -> Seq<char> {
    match error {
        ChunkWMError::NullPointer => "The raw pointer is outlived."@,
        ChunkWMError::CVarNotFound(_) => "A `CVar` cannot be found."@,
        ChunkWMError::ParseError(_) => "Something could not be parsed from a string."@,
        ChunkWMError::Internal(_) => "An error occured in a chunkwm function."@,
    }
}

impl ChunkWMError {
    /// A short description of the kind of error, without its detail.
    pub fn description(&self) -> (text: &'static str)
        ensures
            text@ == description_of(*self),
    {
        match self {
            ChunkWMError::NullPointer => "The raw pointer is outlived.",
            ChunkWMError::CVarNotFound(_) => "A `CVar` cannot be found.",
            ChunkWMError::ParseError(_) => "Something could not be parsed from a string.",
            ChunkWMError::Internal(_) => "An error occured in a chunkwm function.",
        }
    }

    /// The detail that the error carries: the name of the variable, or what
    /// went wrong. `NullPointer` carries none.
    pub fn detail(&self) -> (text: Option<&'static str>)
        ensures
            text == match *self {
                ChunkWMError::NullPointer => None,
                ChunkWMError::CVarNotFound(name) => Some(name),
                ChunkWMError::ParseError(what) => Some(what),
                ChunkWMError::Internal(what) => Some(what),
            },
    {
        match self {
            ChunkWMError::NullPointer => None,
            ChunkWMError::CVarNotFound(name) => Some(*name),
            ChunkWMError::ParseError(what) => Some(*what),
            ChunkWMError::Internal(what) => Some(*what),
        }
    }
}

} // verus!
