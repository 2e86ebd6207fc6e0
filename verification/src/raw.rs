//! What the host hands over, as plain values.
//!
//! The host describes its objects in structures of its own layout and passes
//! their addresses. Whoever reads such a structure copies it into one of the
//! types below while the address is still valid: a reference to an opaque host
//! object becomes a [`Handle`], a pointer to text becomes an owned string, and
//! a pointer to another structure becomes that structure's own snapshot. A
//! null pointer becomes `None`.

use vstd::prelude::*;

verus! {

/// `core_graphics::geometry::CGPoint`, a point on the screen, declared so that
/// it can stand in fields and signatures. Nothing is assumed of it: the bridge
/// carries such a value through and never looks inside.
#[verifier::external_type_specification]
#[verifier::external_body]
pub struct ExCGPoint(core_graphics::geometry::CGPoint);

/// `core_graphics::geometry::CGSize`, the extent of a rectangle on the screen,
/// declared so that it can stand in fields and signatures. Nothing is assumed
/// of it: the bridge carries such a value through and never looks inside.
#[verifier::external_type_specification]
#[verifier::external_body]
pub struct ExCGSize(core_graphics::geometry::CGSize);

/// A reference to an object that only the host can interpret, held as the
/// address the host gave. Address zero is the null reference.
#[derive(Debug, Clone, Copy, PartialEq, Eq, Hash, Structural)]
pub struct Handle {
    pub address: usize,
}

impl Handle {
    /// Whether this is the null reference.
    pub open spec fn null(self) -> bool {
        self.address == 0
    }

    /// The handle for an address.
    pub fn new(address: usize) -> (handle: Handle)
        ensures
            handle.address == address,
    {
        Handle { address }
    }

    /// Whether this is the null reference.
    pub fn is_null(&self) -> (null: bool)
        ensures
            null == self.null(),
    {
        self.address == 0
    }
}

/// The reference to a UI element.
pub type AXUIElementRef = Handle;

/// The reference to a string object of the host.
pub type CFStringRef = Handle;

/// The process identifier type.
pub type PID = i32;

/// The error code of an accessibility call.
pub type AXError = i32;

/// The identifier of a space.
pub type CGSSpaceID = i32;

/// A single-precision number of the host, held as its bit pattern.
#[derive(Debug, Clone, Copy, PartialEq, Eq, Structural)]
pub struct Scalar {
    pub bits: u32,
}

/// The observer that the host attaches to an application.
#[derive(Debug, Clone, Copy, PartialEq, Eq, Structural)]
pub struct RawObserver {
    pub observer: AXUIElementRef,
    pub enabled: bool,
    pub valid: bool,
}

/// The process serial number, in its two halves.
#[derive(Debug, Clone, Copy, PartialEq, Eq, Structural)]
pub struct ProcessSerialNumber {
    pub high_long: u64,
    pub low_long: u64,
}

/// The host's record of an application.
#[derive(Debug, PartialEq, Eq)]
pub struct RawApplication {
    pub element: AXUIElementRef,
    pub observer: RawObserver,
    /// The application's name; `None` where the host's pointer is null.
    pub name: Option<String>,
    /// Process id.
    pub pid: PID,
    /// Process serial number.
    pub process_serial_number: ProcessSerialNumber,
}

/// The host's record of a window.
#[derive(Debug)]
pub struct RawWindow {
    pub element: AXUIElementRef,
    /// The text of the main role; `None` where the host's reference is null.
    pub main_role: Option<String>,
    /// The text of the sub role; `None` where the host's reference is null.
    pub sub_role: Option<String>,
    /// The application the window belongs to; `None` where the host's pointer
    /// is null.
    pub owner: Option<RawApplication>,
    /// The window's id.
    pub id: u32,
    /// The window's name; `None` where the host's pointer is null.
    pub name: Option<String>,
    /// The flag word of the window.
    pub flags: u32,
    /// The window's level.
    pub level: u32,
    /// The window's position.
    pub position: core_graphics::geometry::CGPoint,
    /// The window's size.
    pub size: core_graphics::geometry::CGSize,
}

/// The host's record of a command that came in over the daemon's socket.
#[derive(Debug, PartialEq, Eq)]
pub struct RawPayload {
    pub sock_fd: i32,
    /// The command; `None` where the host's pointer is null.
    pub command: Option<String>,
    /// The message; `None` where the host's pointer is null.
    pub message: Option<String>,
}

/// The host's record of a display.
#[derive(Debug, Clone, Copy, PartialEq, Eq, Structural)]
pub struct RawDisplay {
    pub display_ref: CFStringRef,
    pub id: u32,
    pub arrangement: u32,
    pub x: Scalar,
    pub y: Scalar,
    pub width: Scalar,
    pub height: Scalar,
}

/// The host's record of a space.
#[derive(Debug, Clone, Copy, PartialEq, Eq, Structural)]
pub struct RawSpace {
    pub space_ref: CFStringRef,
    pub id: CGSSpaceID,
    /// The type of the space, as the number the host stores.
    pub space_type: u32,
}

impl Clone for RawApplication {
    fn clone(&self) -> (copy: Self)
        ensures
            copy == *self,
    {
        RawApplication {
            element: self.element,
            observer: self.observer,
            name: copy_text(&self.name),
            pid: self.pid,
            process_serial_number: self.process_serial_number,
        }
    }
}

impl Clone for RawWindow {
    fn clone(&self) -> (copy: Self)
        ensures
            copy == *self,
    {
        RawWindow {
            element: self.element,
            main_role: copy_text(&self.main_role),
            sub_role: copy_text(&self.sub_role),
            owner: match &self.owner {
                Some(owner) => Some(owner.clone()),
                None => None,
            },
            id: self.id,
            name: copy_text(&self.name),
            flags: self.flags,
            level: self.level,
            position: self.position,
            size: self.size,
        }
    }
}

impl Clone for RawPayload {
    fn clone(&self) -> (copy: Self)
        ensures
            copy == *self,
    {
        RawPayload {
            sock_fd: self.sock_fd,
            command: copy_text(&self.command),
            message: copy_text(&self.message),
        }
    }
}

/// The text of an optional string.
pub open spec fn text_of(text: Option<String>) -> Option<Seq<char>> {
    match text {
        Some(text) => Some(text@),
        None => None,
    }
}

/// A copy of an optional string.
pub fn copy_text(text: &Option<String>) -> (copy: Option<String>)
    ensures
        copy == *text,
{
    match text {
        Some(text) => Some(text.clone()),
        None => None,
    }
}

} // verus!
