//! Displays and spaces.

use crate::raw::{CFStringRef, CGSSpaceID, RawDisplay, RawSpace, Scalar};
use crate::ChunkWMError;
use vstd::prelude::*;

verus! {

/// The way the dock is oriented.
#[derive(Debug, Clone, Copy, PartialEq, Eq, Structural)]
pub enum DockOrientation {
    Top,
    Bottom,
    Left,
    Right,
}

/// The orientation that a number of the host stands for, if any.
pub open spec fn orientation_of(code: u32) -> Option<DockOrientation> {
    if code == 1 {
        Some(DockOrientation::Top)
    } else if code == 2 {
        Some(DockOrientation::Bottom)
    } else if code == 3 {
        Some(DockOrientation::Left)
    } else if code == 4 {
        Some(DockOrientation::Right)
    } else {
        None
    }
}

impl DockOrientation {
    /// The number by which the host knows this orientation.
    pub open spec fn spec_code(self) -> u32 {
        match self {
            DockOrientation::Top => 1,
            DockOrientation::Bottom => 2,
            DockOrientation::Left => 3,
            DockOrientation::Right => 4,
        }
    }

    /// The number by which the host knows this orientation.
    pub fn code(self) -> (code: u32)
        ensures
            code == self.spec_code(),
            orientation_of(code) == Some(self),
    {
        match self {
            DockOrientation::Top => 1,
            DockOrientation::Bottom => 2,
            DockOrientation::Left => 3,
            DockOrientation::Right => 4,
        }
    }

    /// The orientation that a number of the host stands for; `None` for a
    /// number that stands for none.
    pub fn from_raw(code: u32) -> (orientation: Option<DockOrientation>)
        ensures
            orientation == orientation_of(code),
            orientation matches Some(o) ==> o.spec_code() == code,
    {
        if code == 1 {
            Some(DockOrientation::Top)
        } else if code == 2 {
            Some(DockOrientation::Bottom)
        } else if code == 3 {
            Some(DockOrientation::Left)
        } else if code == 4 {
            Some(DockOrientation::Right)
        } else {
            None
        }
    }
}

/// The space type.
#[derive(Debug, Clone, Copy, PartialEq, Eq, Structural)]
pub enum SpaceType {
    /// Space is handled by user.
    User,
    /// Space is a fullscreen application.
    Fullscreen,
    /// Space is handled by system.
    System,
    /// Any other kind of space.
    Unknown,
}

/// The space type that a number of the host stands for. A number that the
/// bridge does not know stands for `Unknown`.
pub open spec fn space_type_of(code: u32) -> SpaceType {
    if code == 0 {
        SpaceType::User
    } else if code == 1 {
        SpaceType::Fullscreen
    } else if code == 2 {
        SpaceType::System
    } else {
        SpaceType::Unknown
    }
}

impl SpaceType {
    /// The number by which the host knows this space type.
    pub open spec fn spec_code(self) -> u32 {
        match self {
            SpaceType::User => 0,
            SpaceType::Fullscreen => 1,
            SpaceType::System => 2,
            SpaceType::Unknown => 3,
        }
    }

    /// The number by which the host knows this space type.
    pub fn code(self) -> (code: u32)
        ensures
            code == self.spec_code(),
            space_type_of(code) == self,
    {
        match self {
            SpaceType::User => 0,
            SpaceType::Fullscreen => 1,
            SpaceType::System => 2,
            SpaceType::Unknown => 3,
        }
    }

    /// The space type that a number of the host stands for.
    pub fn from_raw(code: u32) -> (space_type: SpaceType)
        ensures
            space_type == space_type_of(code),
    {
        if code == 0 {
            SpaceType::User
        } else if code == 1 {
            SpaceType::Fullscreen
        } else if code == 2 {
            SpaceType::System
        } else {
            SpaceType::Unknown
        }
    }
}

/// A display, copied out of the host's record of it.
#[derive(Debug, Clone, Copy)]
pub struct Display {
    raw: RawDisplay,
}

impl View for Display {
    type V = RawDisplay;

    closed spec fn view(&self) -> RawDisplay {
        self.raw
    }
}

impl Display {
    /// Whether the display can still be reached: the reference to its
    /// identifier is not null.
    pub open spec fn live(&self) -> bool {
        !self@.display_ref.null()
    }

    /// Makes a display of the host's record of it. A null pointer to the
    /// record, here `None`, gives `NullPointer`; any record gives a display
    /// that holds what the record holds.
    pub fn from_raw(raw: Option<&RawDisplay>) -> (converted: Result<Display, ChunkWMError>)
        ensures
            match raw {
                Some(raw) => converted matches Ok(display) && display@ == *raw,
                None => converted == Err::<Display, ChunkWMError>(ChunkWMError::NullPointer),
            },
    {
        match raw {
            Some(raw) => Ok(Display { raw: *raw }),
            None => Err(ChunkWMError::NullPointer),
        }
    }

    /// The record that the display holds, or `NullPointer` if the reference
    /// to its identifier is null.
    pub fn display_ref(&self) -> (raw: Result<&RawDisplay, ChunkWMError>)
        ensures
            match raw {
                Ok(raw) => self.live() && *raw == self@,
                Err(error) => error == ChunkWMError::NullPointer && !self.live(),
            },
    {
        match self.display_identifier_ref() {
            Ok(_) => Ok(&self.raw),
            Err(error) => Err(error),
        }
    }

    /// The reference to the display's identifier, or `NullPointer` if it is
    /// null. Every other accessor makes this test first.
    pub fn display_identifier_ref(&self) -> (identifier: Result<CFStringRef, ChunkWMError>)
        ensures
            identifier == if self.live() {
                Ok(self@.display_ref)
            } else {
                Err(ChunkWMError::NullPointer)
            },
    {
        if self.raw.display_ref.is_null() {
            Err(ChunkWMError::NullPointer)
        } else {
            Ok(self.raw.display_ref)
        }
    }

    /// The display's id.
    pub fn id(&self) -> (id: Result<u32, ChunkWMError>)
        ensures
            id == if self.live() {
                Ok(self@.id)
            } else {
                Err(ChunkWMError::NullPointer)
            },
    {
        match self.display_identifier_ref() {
            Ok(_) => Ok(self.raw.id),
            Err(error) => Err(error),
        }
    }

    /// The display's place in the arrangement of displays.
    pub fn arrangement(&self) -> (arrangement: Result<u32, ChunkWMError>)
        ensures
            arrangement == if self.live() {
                Ok(self@.arrangement)
            } else {
                Err(ChunkWMError::NullPointer)
            },
    {
        match self.display_identifier_ref() {
            Ok(_) => Ok(self.raw.arrangement),
            Err(error) => Err(error),
        }
    }

    /// The x coordinate of the display.
    pub fn x(&self) -> (x: Result<Scalar, ChunkWMError>)
        ensures
            x == if self.live() {
                Ok(self@.x)
            } else {
                Err(ChunkWMError::NullPointer)
            },
    {
        match self.display_identifier_ref() {
            Ok(_) => Ok(self.raw.x),
            Err(error) => Err(error),
        }
    }

    /// The y coordinate of the display.
    pub fn y(&self) -> (y: Result<Scalar, ChunkWMError>)
        ensures
            y == if self.live() {
                Ok(self@.y)
            } else {
                Err(ChunkWMError::NullPointer)
            },
    {
        match self.display_identifier_ref() {
            Ok(_) => Ok(self.raw.y),
            Err(error) => Err(error),
        }
    }

    /// The display's width.
    pub fn width(&self) -> (width: Result<Scalar, ChunkWMError>)
        ensures
            width == if self.live() {
                Ok(self@.width)
            } else {
                Err(ChunkWMError::NullPointer)
            },
    {
        match self.display_identifier_ref() {
            Ok(_) => Ok(self.raw.width),
            Err(error) => Err(error),
        }
    }

    /// The display's height.
    pub fn height(&self) -> (height: Result<Scalar, ChunkWMError>)
        ensures
            height == if self.live() {
                Ok(self@.height)
            } else {
                Err(ChunkWMError::NullPointer)
            },
    {
        match self.display_identifier_ref() {
            Ok(_) => Ok(self.raw.height),
            Err(error) => Err(error),
        }
    }
}

/// A space (a virtual desktop), copied out of the host's record of it.
#[derive(Debug, Clone, Copy)]
pub struct Space {
    raw: RawSpace,
}

impl View for Space {
    type V = RawSpace;

    closed spec fn view(&self) -> RawSpace {
        self.raw
    }
}

impl Space {
    /// Whether the space can still be reached: the reference to its identifier
    /// is not null.
    pub open spec fn live(&self) -> bool {
        !self@.space_ref.null()
    }

    /// Makes a space of the host's record of it. A null pointer to the record,
    /// here `None`, gives `NullPointer`; any record gives a space that holds
    /// what the record holds.
    pub fn from_raw(raw: Option<&RawSpace>) -> (converted: Result<Space, ChunkWMError>)
        ensures
            match raw {
                Some(raw) => converted matches Ok(space) && space@ == *raw,
                None => converted == Err::<Space, ChunkWMError>(ChunkWMError::NullPointer),
            },
    {
        match raw {
            Some(raw) => Ok(Space { raw: *raw }),
            None => Err(ChunkWMError::NullPointer),
        }
    }

    /// The record that the space holds, or `NullPointer` if the reference to
    /// its identifier is null.
    pub fn space_ref(&self) -> (raw: Result<&RawSpace, ChunkWMError>)
        ensures
            match raw {
                Ok(raw) => self.live() && *raw == self@,
                Err(error) => error == ChunkWMError::NullPointer && !self.live(),
            },
    {
        match self.space_identifier_ref() {
            Ok(_) => Ok(&self.raw),
            Err(error) => Err(error),
        }
    }

    /// The reference to the space's identifier, or `NullPointer` if it is
    /// null. Every other accessor makes this test first.
    pub fn space_identifier_ref(&self) -> (identifier: Result<CFStringRef, ChunkWMError>)
        ensures
            identifier == if self.live() {
                Ok(self@.space_ref)
            } else {
                Err(ChunkWMError::NullPointer)
            },
    {
        if self.raw.space_ref.is_null() {
            Err(ChunkWMError::NullPointer)
        } else {
            Ok(self.raw.space_ref)
        }
    }

    /// The space's id.
    pub fn id(&self) -> (id: Result<CGSSpaceID, ChunkWMError>)
        ensures
            id == if self.live() {
                Ok(self@.id)
            } else {
                Err(ChunkWMError::NullPointer)
            },
    {
        match self.space_identifier_ref() {
            Ok(_) => Ok(self.raw.id),
            Err(error) => Err(error),
        }
    }

    /// The space type.
    pub fn space_type(&self) -> (space_type: Result<SpaceType, ChunkWMError>)
        ensures
            space_type == if self.live() {
                Ok(space_type_of(self@.space_type))
            } else {
                Err(ChunkWMError::NullPointer)
            },
    {
        match self.space_identifier_ref() {
            Ok(_) => Ok(SpaceType::from_raw(self.raw.space_type)),
            Err(error) => Err(error),
        }
    }
}

} // verus!
