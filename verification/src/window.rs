//! Windows: the flags the host keeps on a window, and the owned value that the
//! bridge makes of a window.

use crate::application::{Application, ApplicationView};
use crate::raw::{copy_text, text_of, AXUIElementRef, RawWindow};
use crate::ChunkWMError;
use core_graphics::geometry::{CGPoint, CGSize};
use vstd::prelude::*;
use vstd::seq_lib::lemma_seq_contains_after_push;

verus! {

/// A flag that the host keeps on a window. Each flag is one bit of the host's
/// flag word.
#[derive(Debug, Clone, Copy, PartialEq, Eq, Structural)]
pub enum WindowFlag {
    InitMinimized,
    Movable,
    Resizable,
    Minimized,
    Float,
    Sticky,
    Invalid,
    ForeTile,
}

/// How many flags are defined. The host's flag word has as many meaningful
/// bits, the lowest ones.
pub const FLAG_COUNT: u32 = 8;

/// The flags that a flag word holds: those whose bit is set. Bits that belong
/// to no flag do not count.
pub open spec fn flags_in(word: u32) -> Set<WindowFlag> {
    Set::new(|flag: WindowFlag| word & flag.mask() != 0)
}

/// The flag word that holds exactly the given flags.
pub open spec fn word_of(flags: Set<WindowFlag>) -> u32 {
    part(flags, WindowFlag::InitMinimized) | part(flags, WindowFlag::Movable) | part(
        flags,
        WindowFlag::Resizable,
    ) | part(flags, WindowFlag::Minimized) | part(flags, WindowFlag::Float) | part(
        flags,
        WindowFlag::Sticky,
    ) | part(flags, WindowFlag::Invalid) | part(flags, WindowFlag::ForeTile)
}

/// What one flag adds to the word of a set: its bit if it is a member, else
/// nothing.
pub open spec fn part(flags: Set<WindowFlag>, flag: WindowFlag) -> u32 {
    if flags.contains(flag) {
        flag.mask()
    } else {
        0
    }
}

/// Whether a sequence lists flags by rising bit position. Such a sequence
/// holds no flag twice.
pub open spec fn rising(flags: Seq<WindowFlag>) -> bool {
    forall|i: int, j: int| 0 <= i < j < flags.len() ==> flags[i].index() < flags[j].index()
}

impl WindowFlag {
    /// The position of the flag's bit in the host's flag word.
    pub open spec fn index(self) -> u32 {
        match self {
            WindowFlag::InitMinimized => 0,
            WindowFlag::Movable => 1,
            WindowFlag::Resizable => 2,
            WindowFlag::Minimized => 3,
            WindowFlag::Float => 4,
            WindowFlag::Sticky => 5,
            WindowFlag::Invalid => 6,
            WindowFlag::ForeTile => 7,
        }
    }

    /// The flag word in which only this flag's bit is set.
    pub open spec fn mask(self) -> u32 {
        1u32 << self.index()
    }

    /// The flag whose bit is at the given position; `None` for a position that
    /// belongs to no flag.
    pub fn at(position: u32) -> (flag: Option<WindowFlag>)
        ensures
            match flag {
                Some(flag) => flag.index() == position,
                None => position >= FLAG_COUNT,
            },
    {
        if position == 0 {
            Some(WindowFlag::InitMinimized)
        } else if position == 1 {
            Some(WindowFlag::Movable)
        } else if position == 2 {
            Some(WindowFlag::Resizable)
        } else if position == 3 {
            Some(WindowFlag::Minimized)
        } else if position == 4 {
            Some(WindowFlag::Float)
        } else if position == 5 {
            Some(WindowFlag::Sticky)
        } else if position == 6 {
            Some(WindowFlag::Invalid)
        } else if position == 7 {
            Some(WindowFlag::ForeTile)
        } else {
            None
        }
    }

    /// The position of this flag's bit.
    pub fn position(self) -> (position: u32)
        ensures
            position == self.index(),
            position < FLAG_COUNT,
    {
        match self {
            WindowFlag::InitMinimized => 0,
            WindowFlag::Movable => 1,
            WindowFlag::Resizable => 2,
            WindowFlag::Minimized => 3,
            WindowFlag::Float => 4,
            WindowFlag::Sticky => 5,
            WindowFlag::Invalid => 6,
            WindowFlag::ForeTile => 7,
        }
    }

    /// The flag word in which only this flag's bit is set.
    pub fn bit(self) -> (word: u32)
        ensures
            word == self.mask(),
    {
        1u32 << self.position()
    }

    /// Decodes a flag word: the flags whose bit is set, by rising bit position.
    /// Bits above the defined ones are ignored.
    pub fn from(flag: u32) -> (flags: Vec<WindowFlag>)
        ensures
            forall|f: WindowFlag| flags@.contains(f) <==> flag & f.mask() != 0,
            rising(flags@),
            flags@.to_set() == flags_in(flag),
    {
        let mut flags: Vec<WindowFlag> = Vec::new();
        let mut position: u32 = 0;
        while position < FLAG_COUNT
            invariant
                position <= FLAG_COUNT,
                forall|f: WindowFlag|
                    flags@.contains(f) <==> (f.index() < position && flag & f.mask() != 0),
                rising(flags@),
            decreases FLAG_COUNT - position,
        {
            match WindowFlag::at(position) {
                Some(candidate) => {
                    if flag & candidate.bit() != 0 {
                        proof {
                            assert forall|f: WindowFlag|
                                flags@.push(candidate).contains(f) <==> (f.index() < position + 1
                                    && flag & f.mask() != 0) by {
                                lemma_seq_contains_after_push(flags@, candidate, f);
                            }
                            assert forall|i: int| 0 <= i < flags@.len() implies flags@[i].index()
                                < position by {
                                assert(flags@.contains(flags@[i]));
                            }
                        }
                        flags.push(candidate);
                    }
                },
                None => {},
            }
            position = position + 1;
        }
        assert(flags@.to_set() =~= flags_in(flag));
        flags
    }

    /// Encodes a list of flags as a flag word: the bit of each listed flag is
    /// set and no other. The order of the list and repetitions in it do not
    /// matter.
    pub fn encode(flags: &Vec<WindowFlag>) -> (word: u32)
        ensures
            word == word_of(flags@.to_set()),
            forall|f: WindowFlag| word & f.mask() != 0 <==> flags@.contains(f),
    {
        let mut word: u32 = 0;
        let mut i: usize = 0;
        proof {
            assert(flags@.take(0) =~= Seq::<WindowFlag>::empty());
            lemma_word_of_empty();
        }
        while i < flags.len()
            invariant
                i <= flags.len(),
                word == word_of(flags@.take(i as int).to_set()),
            decreases flags.len() - i,
        {
            let flag = flags[i];
            proof {
                let before = flags@.take(i as int);
                assert(flags@.take(i + 1) =~= before.push(flag));
                before.lemma_push_to_set_commute(flag);
                lemma_word_of_insert(before.to_set(), flag);
            }
            word = word | flag.bit();
            i = i + 1;
        }
        proof {
            assert(flags@.take(i as int) =~= flags@);
            assert forall|f: WindowFlag| word & f.mask() != 0 <==> flags@.contains(f) by {
                lemma_word_holds(flags@.to_set(), f);
            }
        }
        word
    }
}

/// Two flags share a bit only if they are the same flag.
pub proof fn lemma_masks_apart(a: WindowFlag, b: WindowFlag)
    ensures
        (a.mask() & b.mask() != 0) <==> a == b,
        a.mask() != 0,
        a.mask() < 256,
{
    let i = a.index();
    let j = b.index();
    assert(i < 8 && j < 8 ==> (((1u32 << i) & (1u32 << j)) != 0 <==> i == j)) by (bit_vector);
    assert(i < 8 ==> (1u32 << i) != 0 && (1u32 << i) < 256) by (bit_vector);
}

/// The word of the empty set has no bit set.
pub proof fn lemma_word_of_empty()
    ensures
        word_of(Set::<WindowFlag>::empty()) == 0,
{
    assert(0u32 | 0u32 | 0u32 | 0u32 | 0u32 | 0u32 | 0u32 | 0u32 == 0u32) by (bit_vector);
}

/// A bit of the word of a set is set exactly when its flag is a member.
pub proof fn lemma_word_holds(flags: Set<WindowFlag>, flag: WindowFlag)
    ensures
        (word_of(flags) & flag.mask() != 0) <==> flags.contains(flag),
        word_of(flags) < 256,
{
    let b0 = part(flags, WindowFlag::InitMinimized);
    let b1 = part(flags, WindowFlag::Movable);
    let b2 = part(flags, WindowFlag::Resizable);
    let b3 = part(flags, WindowFlag::Minimized);
    let b4 = part(flags, WindowFlag::Float);
    let b5 = part(flags, WindowFlag::Sticky);
    let b6 = part(flags, WindowFlag::Invalid);
    let b7 = part(flags, WindowFlag::ForeTile);
    let m = flag.mask();
    lemma_masks_apart(WindowFlag::InitMinimized, flag);
    lemma_masks_apart(WindowFlag::Movable, flag);
    lemma_masks_apart(WindowFlag::Resizable, flag);
    lemma_masks_apart(WindowFlag::Minimized, flag);
    lemma_masks_apart(WindowFlag::Float, flag);
    lemma_masks_apart(WindowFlag::Sticky, flag);
    lemma_masks_apart(WindowFlag::Invalid, flag);
    lemma_masks_apart(WindowFlag::ForeTile, flag);
    assert(0u32 & m == 0) by (bit_vector);
    assert(((b0 | b1 | b2 | b3 | b4 | b5 | b6 | b7) & m != 0) <==> (b0 & m != 0 || b1 & m != 0 || b2
        & m != 0 || b3 & m != 0 || b4 & m != 0 || b5 & m != 0 || b6 & m != 0 || b7 & m != 0))
        by (bit_vector);
    assert(b0 < 256 && b1 < 256 && b2 < 256 && b3 < 256 && b4 < 256 && b5 < 256 && b6 < 256 && b7
        < 256 ==> (b0 | b1 | b2 | b3 | b4 | b5 | b6 | b7) < 256) by (bit_vector);
}

/// Adding a flag to a set sets its bit in the word, and changes nothing else.
pub proof fn lemma_word_of_insert(flags: Set<WindowFlag>, flag: WindowFlag)
    ensures
        word_of(flags.insert(flag)) == word_of(flags) | flag.mask(),
{
    let more = flags.insert(flag);
    let a = word_of(more);
    let b = word_of(flags);
    let m = flag.mask();
    assert forall|f: WindowFlag| (a & f.mask() != 0) <==> ((b | m) & f.mask() != 0) by {
        let n = f.mask();
        lemma_word_holds(more, f);
        lemma_word_holds(flags, f);
        lemma_masks_apart(flag, f);
        assert(((b | m) & n != 0) <==> (b & n != 0 || m & n != 0)) by (bit_vector);
    }
    lemma_word_holds(more, flag);
    lemma_word_holds(flags, flag);
    lemma_masks_apart(flag, flag);
    assert(b < 256 && m < 256 ==> (b | m) < 256) by (bit_vector);
    lemma_words_equal(a, (b | m));
}

/// Two words below 256 that agree on the bit of every flag are equal.
proof fn lemma_words_equal(a: u32, b: u32)
    requires
        a < 256,
        b < 256,
        forall|f: WindowFlag| (a & f.mask() != 0) <==> (b & f.mask() != 0),
    ensures
        a == b,
{
    assert(WindowFlag::InitMinimized.mask() == 1u32 << 0u32);
    assert(WindowFlag::Movable.mask() == 1u32 << 1u32);
    assert(WindowFlag::Resizable.mask() == 1u32 << 2u32);
    assert(WindowFlag::Minimized.mask() == 1u32 << 3u32);
    assert(WindowFlag::Float.mask() == 1u32 << 4u32);
    assert(WindowFlag::Sticky.mask() == 1u32 << 5u32);
    assert(WindowFlag::Invalid.mask() == 1u32 << 6u32);
    assert(WindowFlag::ForeTile.mask() == 1u32 << 7u32);
    assert(a < 256 && b < 256 && ((a & (1u32 << 0u32) != 0) <==> (b & (1u32 << 0u32) != 0)) && ((a
        & (1u32 << 1u32) != 0) <==> (b & (1u32 << 1u32) != 0)) && ((a & (1u32 << 2u32) != 0) <==> (b
        & (1u32 << 2u32) != 0)) && ((a & (1u32 << 3u32) != 0) <==> (b & (1u32 << 3u32) != 0)) && ((a
        & (1u32 << 4u32) != 0) <==> (b & (1u32 << 4u32) != 0)) && ((a & (1u32 << 5u32) != 0) <==> (b
        & (1u32 << 5u32) != 0)) && ((a & (1u32 << 6u32) != 0) <==> (b & (1u32 << 6u32) != 0)) && ((a
        & (1u32 << 7u32) != 0) <==> (b & (1u32 << 7u32) != 0)) ==> a == b) by (bit_vector);
}

/// Decoding undoes encoding: the flags in the word of a set are the set.
pub proof fn law_decode_encode(flags: Set<WindowFlag>)
    ensures
        flags_in(word_of(flags)) == flags,
{
    assert forall|f: WindowFlag| flags_in(word_of(flags)).contains(f) <==> flags.contains(f) by {
        lemma_word_holds(flags, f);
    }
    assert(flags_in(word_of(flags)) =~= flags);
}

/// Bits above the defined ones change nothing: a word decodes as its lowest
/// eight bits do.
pub proof fn law_high_bits_ignored(word: u32)
    ensures
        flags_in(word) == flags_in(word & 0xff),
{
    assert forall|f: WindowFlag| flags_in(word).contains(f) <==> flags_in(word & 0xff).contains(
        f,
    ) by {
        let i = f.index();
        assert(i < 8 ==> (((word & 0xff) & (1u32 << i)) == (word & (1u32 << i)))) by (bit_vector);
    }
    assert(flags_in(word) =~= flags_in(word & 0xff));
}

/// Encoding undoes decoding on the defined bits: the word of the flags in a
/// word is the word without its undefined bits.
pub proof fn law_encode_decode(word: u32)
    ensures
        word_of(flags_in(word)) == word & 0xff,
{
    let a = word_of(flags_in(word));
    let b = word & 0xff;
    assert forall|f: WindowFlag| (a & f.mask() != 0) <==> (b & f.mask() != 0) by {
        lemma_word_holds(flags_in(word), f);
        let i = f.index();
        assert(i < 8 ==> (((word & 0xff) & (1u32 << i)) == (word & (1u32 << i)))) by (bit_vector);
    }
    lemma_word_holds(flags_in(word), WindowFlag::InitMinimized);
    assert((word & 0xff) < 256) by (bit_vector);
    lemma_words_equal(a, b);
}

/// Clearing the bit of a flag in a word takes the flag out of the set that the
/// word holds, and changes nothing else.
pub proof fn lemma_clear_removes(word: u32, flag: WindowFlag)
    ensures
        flags_in(word & !flag.mask()) == flags_in(word).remove(flag),
{
    let j = flag.index();
    assert forall|f: WindowFlag|
        flags_in(word & !flag.mask()).contains(f) <==> flags_in(word).remove(flag).contains(
            f,
        ) by {
        let i = f.index();
        assert(i < 8 && j < 8 ==> ((((word & !(1u32 << j)) & (1u32 << i)) != 0) <==> ((word & (1u32
            << i)) != 0 && i != j))) by (bit_vector);
    }
    assert(flags_in(word & !flag.mask()) =~= flags_in(word).remove(flag));
}

/// What a window is, to a contract.
pub struct WindowView {
    pub element: AXUIElementRef,
    pub main_role: Option<Seq<char>>,
    pub sub_role: Option<Seq<char>>,
    pub owner: ApplicationView,
    pub id: u32,
    pub name: Option<Seq<char>>,
    pub flags: Set<WindowFlag>,
    pub level: u32,
    pub position: CGPoint,
    pub size: CGSize,
}

impl WindowView {
    /// Whether the window can still be reached: its element reference is not
    /// null.
    pub open spec fn live(self) -> bool {
        !self.element.null()
    }
}

/// The window that the host's record describes, given the application that
/// its owner was converted to.
pub open spec fn window_of(raw: RawWindow, owner: ApplicationView) -> WindowView {
    WindowView {
        element: raw.element,
        main_role: text_of(raw.main_role),
        sub_role: text_of(raw.sub_role),
        owner,
        id: raw.id,
        name: text_of(raw.name),
        flags: flags_in(raw.flags),
        level: raw.level,
        position: raw.position,
        size: raw.size,
    }
}

/// Whether a record of a window can be converted: the pointer to it is not
/// null, and neither is its owner.
pub open spec fn converts(record: Option<RawWindow>) -> bool {
    record matches Some(raw) && raw.owner is Some
}

/// What the host is told when it rejects a new position.
pub open spec fn position_rejected() -> ChunkWMError {
    ChunkWMError::Internal("could not run set_position successfully")
}

/// What the host is told when it rejects a new size.
pub open spec fn size_rejected() -> ChunkWMError {
    ChunkWMError::Internal("could not run set_size successfully")
}

/// What the host is told when it does not close the window.
pub open spec fn close_rejected() -> ChunkWMError {
    ChunkWMError::Internal("could not run close successfully")
}

/// A window, copied out of the host's record of it. The copy shares nothing
/// with the host's memory. It holds its owner by value and its flags decoded.
///
/// The host may change a window after the copy was made: what the copy says
/// was true when it was taken.
#[derive(Debug)]
pub struct Window {
    element: AXUIElementRef,
    main_role: Option<String>,
    sub_role: Option<String>,
    owner: Application,
    id: u32,
    name: Option<String>,
    flags: Vec<WindowFlag>,
    level: u32,
    position: CGPoint,
    size: CGSize,
}

impl View for Window {
    type V = WindowView;

    closed spec fn view(&self) -> WindowView {
        WindowView {
            element: self.element,
            main_role: text_of(self.main_role),
            sub_role: text_of(self.sub_role),
            owner: self.owner@,
            id: self.id,
            name: text_of(self.name),
            flags: self.flags@.to_set(),
            level: self.level,
            position: self.position,
            size: self.size,
        }
    }
}

impl Window {
    /// The flags are listed by rising bit position, so none is listed twice.
    #[verifier::type_invariant]
    closed spec fn flags_rising(self) -> bool {
        rising(self.flags@)
    }

    /// Makes a window of the host's record of it. The owner is converted with
    /// it. A null pointer to the record, here `None`, gives `NullPointer`, and
    /// so does a record whose owner is null; any other record gives a window
    /// that holds what the record holds.
    pub fn from_raw(raw: Option<&RawWindow>) -> (converted: Result<Window, ChunkWMError>)
        ensures
            match raw {
                Some(raw) => match raw.owner {
                    Some(owner) => converted matches Ok(window) && window@ == window_of(
                        *raw,
                        owner@,
                    ),
                    None => converted == Err::<Window, ChunkWMError>(ChunkWMError::NullPointer),
                },
                None => converted == Err::<Window, ChunkWMError>(ChunkWMError::NullPointer),
            },
    {
        match raw {
            Some(raw) => match Application::from_raw(raw.owner.as_ref()) {
                Ok(owner) => Ok(
                    Window {
                        element: raw.element,
                        main_role: copy_text(&raw.main_role),
                        sub_role: copy_text(&raw.sub_role),
                        owner,
                        id: raw.id,
                        name: copy_text(&raw.name),
                        flags: WindowFlag::from(raw.flags),
                        level: raw.level,
                        position: raw.position,
                        size: raw.size,
                    },
                ),
                Err(error) => Err(error),
            },
            None => Err(ChunkWMError::NullPointer),
        }
    }

    /// Makes windows of the host's records of the windows of an application,
    /// in the order of the records. An application whose element is null
    /// gives `NullPointer`, and so does a record that cannot be converted: a
    /// null pointer, here `None`, or a record whose owner is null.
    pub fn list_for_application(
        application: &Application,
        records: &[Option<RawWindow>],
    ) -> (windows: Result<Vec<Window>, ChunkWMError>)
        ensures
            match windows {
                Ok(list) => {
                    &&& application@.live()
                    &&& list@.len() == records@.len()
                    &&& forall|i: int|
                        0 <= i < records@.len() ==> converts(records@[i]) && (#[trigger] list@[i])@
                            == window_of(records@[i]->Some_0, records@[i]->Some_0.owner->Some_0@)
                },
                Err(error) => error == ChunkWMError::NullPointer && (!application@.live()
                    || exists|i: int| 0 <= i < records@.len() && !converts(records@[i])),
            },
    {
        match application.get_element() {
            Ok(_) => {},
            Err(error) => {
                return Err(error);
            },
        }
        let mut list: Vec<Window> = Vec::new();
        let mut i: usize = 0;
        while i < records.len()
            invariant
                i <= records.len(),
                list@.len() == i,
                forall|j: int|
                    0 <= j < i ==> converts(records@[j]) && (#[trigger] list@[j])@ == window_of(
                        records@[j]->Some_0,
                        records@[j]->Some_0.owner->Some_0@,
                    ),
            decreases records.len() - i,
        {
            match Window::from_raw(records[i].as_ref()) {
                Ok(window) => list.push(window),
                Err(error) => {
                    assert(!converts(records@[i as int]));
                    return Err(error);
                },
            }
            i = i + 1;
        }
        Ok(list)
    }

    /// The window as a record of the host: the flags as a flag word, the
    /// owner as its record. Converting that record gives this window again.
    /// Fails with `NullPointer` if the window's element is null.
    pub fn window_ref(&self) -> (raw: Result<RawWindow, ChunkWMError>)
        ensures
            match raw {
                Ok(raw) => {
                    &&& self@.live()
                    &&& raw.owner is Some
                    &&& window_of(raw, raw.owner->Some_0@) == self@
                    &&& raw.flags == word_of(self@.flags)
                },
                Err(error) => error == ChunkWMError::NullPointer && !self@.live(),
            },
    {
        match self.element() {
            Ok(_) => {
                proof {
                    law_decode_encode(self.flags@.to_set());
                }
                Ok(
                    RawWindow {
                        element: self.element,
                        main_role: copy_text(&self.main_role),
                        sub_role: copy_text(&self.sub_role),
                        owner: Some(self.owner.record().clone()),
                        id: self.id,
                        name: copy_text(&self.name),
                        flags: WindowFlag::encode(&self.flags),
                        level: self.level,
                        position: self.position,
                        size: self.size,
                    },
                )
            },
            Err(error) => Err(error),
        }
    }

    /// The window's element reference, or `NullPointer` if it is null. Every
    /// other accessor makes this test first.
    pub fn element(&self) -> (element: Result<AXUIElementRef, ChunkWMError>)
        ensures
            element == if self@.live() {
                Ok(self@.element)
            } else {
                Err(ChunkWMError::NullPointer)
            },
    {
        if self.element.is_null() {
            Err(ChunkWMError::NullPointer)
        } else {
            Ok(self.element)
        }
    }

    /// The window's main role. Fails with `NullPointer` as well if the host
    /// gave none.
    pub fn main_role(&self) -> (role: Result<String, ChunkWMError>)
        ensures
            match role {
                Ok(role) => self@.live() && self@.main_role == Some(role@),
                Err(error) => error == ChunkWMError::NullPointer && (!self@.live()
                    || self@.main_role is None),
            },
    {
        match self.element() {
            Ok(_) => match &self.main_role {
                Some(role) => Ok(role.clone()),
                None => Err(ChunkWMError::NullPointer),
            },
            Err(error) => Err(error),
        }
    }

    /// The window's sub role. Fails with `NullPointer` as well if the host
    /// gave none.
    pub fn sub_role(&self) -> (role: Result<String, ChunkWMError>)
        ensures
            match role {
                Ok(role) => self@.live() && self@.sub_role == Some(role@),
                Err(error) => error == ChunkWMError::NullPointer && (!self@.live()
                    || self@.sub_role is None),
            },
    {
        match self.element() {
            Ok(_) => match &self.sub_role {
                Some(role) => Ok(role.clone()),
                None => Err(ChunkWMError::NullPointer),
            },
            Err(error) => Err(error),
        }
    }

    /// The application that the window belongs to.
    pub fn owner(&self) -> (owner: Result<Application, ChunkWMError>)
        ensures
            match owner {
                Ok(owner) => self@.live() && owner@ == self@.owner,
                Err(error) => error == ChunkWMError::NullPointer && !self@.live(),
            },
    {
        match self.element() {
            Ok(_) => Ok(self.owner.clone()),
            Err(error) => Err(error),
        }
    }

    /// The window's name. Fails with `NullPointer` as well if the host gave
    /// none.
    pub fn name(&self) -> (name: Result<String, ChunkWMError>)
        ensures
            match name {
                Ok(name) => self@.live() && self@.name == Some(name@),
                Err(error) => error == ChunkWMError::NullPointer && (!self@.live()
                    || self@.name is None),
            },
    {
        match self.element() {
            Ok(_) => match &self.name {
                Some(name) => Ok(name.clone()),
                None => Err(ChunkWMError::NullPointer),
            },
            Err(error) => Err(error),
        }
    }

    /// The window's id.
    pub fn id(&self) -> (id: Result<u32, ChunkWMError>)
        ensures
            id == if self@.live() {
                Ok(self@.id)
            } else {
                Err(ChunkWMError::NullPointer)
            },
    {
        match self.element() {
            Ok(_) => Ok(self.id),
            Err(error) => Err(error),
        }
    }

    /// The window's flags, by rising bit position.
    pub fn flags(&self) -> (flags: Result<Vec<WindowFlag>, ChunkWMError>)
        ensures
            match flags {
                Ok(flags) => self@.live() && flags@.to_set() == self@.flags && rising(flags@),
                Err(error) => error == ChunkWMError::NullPointer && !self@.live(),
            },
    {
        proof {
            use_type_invariant(self);
        }
        match self.element() {
            Ok(_) => Ok(copy_flags(&self.flags)),
            Err(error) => Err(error),
        }
    }

    /// The window's level.
    pub fn level(&self) -> (level: Result<u32, ChunkWMError>)
        ensures
            level == if self@.live() {
                Ok(self@.level)
            } else {
                Err(ChunkWMError::NullPointer)
            },
    {
        match self.element() {
            Ok(_) => Ok(self.level),
            Err(error) => Err(error),
        }
    }

    /// The window's position.
    pub fn position(&self) -> (position: Result<CGPoint, ChunkWMError>)
        ensures
            position == if self@.live() {
                Ok(self@.position)
            } else {
                Err(ChunkWMError::NullPointer)
            },
    {
        match self.element() {
            Ok(_) => Ok(self.position),
            Err(error) => Err(error),
        }
    }

    /// The window's size.
    pub fn size(&self) -> (size: Result<CGSize, ChunkWMError>)
        ensures
            size == if self@.live() {
                Ok(self@.size)
            } else {
                Err(ChunkWMError::NullPointer)
            },
    {
        match self.element() {
            Ok(_) => Ok(self.size),
            Err(error) => Err(error),
        }
    }

    /// Records what became of a request to move the window. `accepted` is the
    /// host's answer to that request. A window whose element is null fails
    /// with `NullPointer`; a request that the host rejected fails with
    /// `Internal`; in both cases the window is unchanged. Otherwise the window
    /// is at the new position.
    pub fn set_position(&mut self, position: CGPoint, accepted: bool) -> (done: Result<
        (),
        ChunkWMError,
    >)
        ensures
            !old(self)@.live() ==> done == Err::<(), ChunkWMError>(ChunkWMError::NullPointer)
                && final(self)@ == old(self)@,
            old(self)@.live() && !accepted ==> done == Err::<(), ChunkWMError>(position_rejected())
                && final(self)@ == old(self)@,
            old(self)@.live() && accepted ==> done == Ok::<(), ChunkWMError>(()) && final(self)@
                == (WindowView { position, ..old(self)@ }),
    {
        proof {
            use_type_invariant(&*self);
        }
        match self.element() {
            Ok(_) => {
                if accepted {
                    self.position = position;
                    Ok(())
                } else {
                    Err(ChunkWMError::Internal("could not run set_position successfully"))
                }
            },
            Err(error) => Err(error),
        }
    }

    /// Records what became of a request to resize the window. `accepted` is
    /// the host's answer to that request. A window whose element is null fails
    /// with `NullPointer`; a request that the host rejected fails with
    /// `Internal`; in both cases the window is unchanged. Otherwise the window
    /// has the new size.
    pub fn set_size(&mut self, size: CGSize, accepted: bool) -> (done: Result<(), ChunkWMError>)
        ensures
            !old(self)@.live() ==> done == Err::<(), ChunkWMError>(ChunkWMError::NullPointer)
                && final(self)@ == old(self)@,
            old(self)@.live() && !accepted ==> done == Err::<(), ChunkWMError>(size_rejected())
                && final(self)@ == old(self)@,
            old(self)@.live() && accepted ==> done == Ok::<(), ChunkWMError>(()) && final(self)@
                == (WindowView { size, ..old(self)@ }),
    {
        proof {
            use_type_invariant(&*self);
        }
        match self.element() {
            Ok(_) => {
                if accepted {
                    self.size = size;
                    Ok(())
                } else {
                    Err(ChunkWMError::Internal("could not run set_size successfully"))
                }
            },
            Err(error) => Err(error),
        }
    }

    /// Says what became of a request to close the window. `accepted` is the
    /// host's answer to that request. A window whose element is null fails
    /// with `NullPointer`, a request that the host rejected with `Internal`.
    pub fn close(&self, accepted: bool) -> (done: Result<(), ChunkWMError>)
        ensures
            done == if !self@.live() {
                Err(ChunkWMError::NullPointer)
            } else if accepted {
                Ok(())
            } else {
                Err(close_rejected())
            },
    {
        match self.element() {
            Ok(_) => {
                if accepted {
                    Ok(())
                } else {
                    Err(ChunkWMError::Internal("could not run close successfully"))
                }
            },
            Err(error) => Err(error),
        }
    }

    /// Adds a flag to the window's flags. Adding a flag that is there
    /// changes nothing. A window whose element is null fails with
    /// `NullPointer` and is unchanged.
    pub fn add_flag(&mut self, flag: WindowFlag) -> (done: Result<(), ChunkWMError>)
        ensures
            !old(self)@.live() ==> done == Err::<(), ChunkWMError>(ChunkWMError::NullPointer)
                && final(self)@ == old(self)@,
            old(self)@.live() ==> done == Ok::<(), ChunkWMError>(()) && final(self)@ == (WindowView {
                flags: old(self)@.flags.insert(flag),
                ..old(self)@
            }),
    {
        match self.element() {
            Ok(_) => {
                let word = WindowFlag::encode(&self.flags);
                proof {
                    lemma_word_of_insert(self.flags@.to_set(), flag);
                    law_decode_encode(self.flags@.to_set().insert(flag));
                }
                self.flags = WindowFlag::from(word | flag.bit());
                Ok(())
            },
            Err(error) => Err(error),
        }
    }

    /// Whether the window has a flag.
    pub fn has_flag(&self, flag: WindowFlag) -> (has: Result<bool, ChunkWMError>)
        ensures
            has == if self@.live() {
                Ok(self@.flags.contains(flag))
            } else {
                Err(ChunkWMError::NullPointer)
            },
    {
        match self.element() {
            Ok(_) => {
                let word = WindowFlag::encode(&self.flags);
                Ok(word & flag.bit() != 0)
            },
            Err(error) => Err(error),
        }
    }

    /// Removes a flag from the window's flags. Removing a flag that is not
    /// there changes nothing. A window whose element is null fails with
    /// `NullPointer` and is unchanged.
    pub fn remove_flag(&mut self, flag: WindowFlag) -> (done: Result<(), ChunkWMError>)
        ensures
            !old(self)@.live() ==> done == Err::<(), ChunkWMError>(ChunkWMError::NullPointer)
                && final(self)@ == old(self)@,
            old(self)@.live() ==> done == Ok::<(), ChunkWMError>(()) && final(self)@ == (WindowView {
                flags: old(self)@.flags.remove(flag),
                ..old(self)@
            }),
    {
        match self.element() {
            Ok(_) => {
                let word = WindowFlag::encode(&self.flags);
                proof {
                    law_decode_encode(self.flags@.to_set());
                    lemma_clear_removes(word, flag);
                }
                self.flags = WindowFlag::from(word & !flag.bit());
                Ok(())
            },
            Err(error) => Err(error),
        }
    }
}

/// A copy of a list of flags.
fn copy_flags(flags: &Vec<WindowFlag>) -> (copy: Vec<WindowFlag>)
    ensures
        copy@ == flags@,
{
    let mut copy: Vec<WindowFlag> = Vec::new();
    let mut i: usize = 0;
    while i < flags.len()
        invariant
            i <= flags.len(),
            copy@ == flags@.take(i as int),
        decreases flags.len() - i,
    {
        copy.push(flags[i]);
        proof {
            assert(flags@.take(i + 1) =~= flags@.take(i as int).push(flags@[i as int]));
        }
        i = i + 1;
    }
    proof {
        assert(flags@.take(i as int) =~= flags@);
    }
    copy
}

} // verus!
