//! Commands that reach the plugin over the daemon's socket.

use crate::raw::{text_of, RawPayload};
use crate::ChunkWMError;
use vstd::prelude::*;

verus! {

/// What a payload is, to a contract.
pub struct PayloadView {
    pub sock_fd: i32,
    pub command: Option<Seq<char>>,
    pub message: Option<Seq<char>>,
}

impl View for RawPayload {
    type V = PayloadView;

    open spec fn view(&self) -> PayloadView {
        PayloadView {
            sock_fd: self.sock_fd,
            command: text_of(self.command),
            message: text_of(self.message),
        }
    }
}

/// A command from the daemon's socket, copied out of the host's record of it.
/// The host takes its memory back as soon as the notification returns, so the
/// copy is complete and shares nothing with it.
#[derive(Debug)]
pub struct Payload {
    raw: RawPayload,
}

impl View for Payload {
    type V = PayloadView;

    closed spec fn view(&self) -> PayloadView {
        self.raw@
    }
}

impl Payload {
    /// Makes a payload of the host's record of it. A null pointer to the
    /// record, here `None`, gives `NullPointer`; any record gives a payload
    /// that holds what the record holds.
    pub fn from_raw(raw: Option<&RawPayload>) -> (converted: Result<Payload, ChunkWMError>)
        ensures
            match raw {
                Some(raw) => converted matches Ok(payload) && payload@ == raw@,
                None => converted == Err::<Payload, ChunkWMError>(ChunkWMError::NullPointer),
            },
    {
        match raw {
            Some(raw) => Ok(Payload { raw: raw.clone() }),
            None => Err(ChunkWMError::NullPointer),
        }
    }

    /// The record that the payload holds. A payload holds no reference into
    /// the host, so this never fails.
    pub fn payload_ref(&self) -> (raw: Result<&RawPayload, ChunkWMError>)
        ensures
            raw matches Ok(raw) && raw@ == self@,
    {
        Ok(&self.raw)
    }

    /// The descriptor of the socket on which the command came in. A payload
    /// holds no reference into the host, so this never fails.
    pub fn sock_fd(&self) -> (sock_fd: Result<i32, ChunkWMError>)
        ensures
            sock_fd == Ok::<i32, ChunkWMError>(self@.sock_fd),
    {
        Ok(self.raw.sock_fd)
    }

    /// The command, as in `chunkc plugin::command message`. Fails with
    /// `NullPointer` if the host gave none.
    pub fn command(&self) -> (command: Result<String, ChunkWMError>)
        ensures
            match command {
                Ok(command) => self@.command == Some(command@),
                Err(error) => error == ChunkWMError::NullPointer && self@.command is None,
            },
    {
        match &self.raw.command {
            Some(command) => Ok(command.clone()),
            None => Err(ChunkWMError::NullPointer),
        }
    }

    /// The message, as in `chunkc plugin::command message`. Fails with
    /// `NullPointer` if the host gave none.
    pub fn message(&self) -> (message: Result<String, ChunkWMError>)
        ensures
            match message {
                Ok(message) => self@.message == Some(message@),
                Err(error) => error == ChunkWMError::NullPointer && self@.message is None,
            },
    {
        match &self.raw.message {
            Some(message) => Ok(message.clone()),
            None => Err(ChunkWMError::NullPointer),
        }
    }
}

} // verus!
