//! Applications: the owned value that the bridge makes of the host's record
//! of an application.

use crate::raw::{text_of, AXUIElementRef, ProcessSerialNumber, RawApplication, RawObserver, PID};
use crate::ChunkWMError;
use vstd::prelude::*;

verus! {

/// What an application is, to a contract.
pub struct ApplicationView {
    pub element: AXUIElementRef,
    pub observer: RawObserver,
    pub name: Option<Seq<char>>,
    pub pid: PID,
    pub process_serial_number: ProcessSerialNumber,
}

impl ApplicationView {
    /// Whether the application can still be reached: its element reference is
    /// not null.
    pub open spec fn live(self) -> bool {
        !self.element.null()
    }
}

impl View for RawApplication {
    type V = ApplicationView;

    open spec fn view(&self) -> ApplicationView {
        ApplicationView {
            element: self.element,
            observer: self.observer,
            name: text_of(self.name),
            pid: self.pid,
            process_serial_number: self.process_serial_number,
        }
    }
}

/// Whether an application holds what a record holds. It holds nothing of a
/// null pointer, here `None`.
pub open spec fn taken_from(application: Application, record: Option<RawApplication>) -> bool {
    record matches Some(raw) && application@ == raw@
}

/// An application, copied out of the host's record of it. The copy shares
/// nothing with the host's memory.
#[derive(Debug)]
pub struct Application {
    raw: RawApplication,
}

impl View for Application {
    type V = ApplicationView;

    closed spec fn view(&self) -> ApplicationView {
        self.raw@
    }
}

impl Clone for Application {
    fn clone(&self) -> (copy: Self)
        ensures
            copy == *self,
    {
        Application { raw: self.raw.clone() }
    }
}

impl Application {
    /// Makes an application of the host's record of it. A null pointer to the
    /// record, here `None`, gives `NullPointer`; any record gives an
    /// application that holds what the record holds.
    pub fn from_raw(raw: Option<&RawApplication>) -> (converted: Result<Application, ChunkWMError>)
        ensures
            match raw {
                Some(raw) => converted matches Ok(application) && application@ == raw@,
                None => converted == Err::<Application, ChunkWMError>(ChunkWMError::NullPointer),
            },
    {
        match raw {
            Some(raw) => Ok(Application { raw: raw.clone() }),
            None => Err(ChunkWMError::NullPointer),
        }
    }

    /// The record that the application holds, whether it can still be
    /// reached or not.
    pub fn record(&self) -> (raw: &RawApplication)
        ensures
            raw@ == self@,
    {
        &self.raw
    }

    /// The record that the application holds, or `NullPointer` if its element
    /// reference is null.
    pub fn get_application_ref(&self) -> (raw: Result<&RawApplication, ChunkWMError>)
        ensures
            match raw {
                Ok(raw) => self@.live() && raw@ == self@,
                Err(error) => error == ChunkWMError::NullPointer && !self@.live(),
            },
    {
        match self.get_element() {
            Ok(_) => Ok(&self.raw),
            Err(error) => Err(error),
        }
    }

    /// Makes applications of the host's records of the running processes, in
    /// the order of the records. A null pointer among them, here `None`, gives
    /// `NullPointer`.
    pub fn get_processes(records: &[Option<RawApplication>]) -> (processes: Result<
        Vec<Application>,
        ChunkWMError,
    >)
        ensures
            match processes {
                Ok(list) => {
                    &&& list@.len() == records@.len()
                    &&& forall|i: int|
                        0 <= i < records@.len() ==> taken_from(list@[i], records@[i])
                },
                Err(error) => error == ChunkWMError::NullPointer && exists|i: int|
                    0 <= i < records@.len() && records@[i] is None,
            },
    {
        let mut list: Vec<Application> = Vec::new();
        let mut i: usize = 0;
        while i < records.len()
            invariant
                i <= records.len(),
                list@.len() == i,
                forall|j: int|
                    0 <= j < i ==> taken_from(list@[j], records@[j]),
            decreases records.len() - i,
        {
            match Application::from_raw(records[i].as_ref()) {
                Ok(application) => list.push(application),
                Err(error) => {
                    assert(records@[i as int] is None);
                    return Err(error);
                },
            }
            i = i + 1;
        }
        Ok(list)
    }

    /// The application's element reference, or `NullPointer` if it is null.
    /// Every other accessor makes this test first.
    pub fn get_element(&self) -> (element: Result<AXUIElementRef, ChunkWMError>)
        ensures
            element == if self@.live() {
                Ok(self@.element)
            } else {
                Err(ChunkWMError::NullPointer)
            },
    {
        if self.raw.element.is_null() {
            Err(ChunkWMError::NullPointer)
        } else {
            Ok(self.raw.element)
        }
    }

    /// The application's observer.
    pub fn get_observer(&self) -> (observer: Result<RawObserver, ChunkWMError>)
        ensures
            observer == if self@.live() {
                Ok(self@.observer)
            } else {
                Err(ChunkWMError::NullPointer)
            },
    {
        match self.get_element() {
            Ok(_) => Ok(self.raw.observer),
            Err(error) => Err(error),
        }
    }

    /// The application's name. Fails with `NullPointer` as well if the host
    /// gave no name.
    pub fn get_name(&self) -> (name: Result<String, ChunkWMError>)
        ensures
            match name {
                Ok(name) => self@.live() && self@.name == Some(name@),
                Err(error) => error == ChunkWMError::NullPointer && (!self@.live()
                    || self@.name is None),
            },
    {
        match self.get_element() {
            Ok(_) => match &self.raw.name {
                Some(name) => Ok(name.clone()),
                None => Err(ChunkWMError::NullPointer),
            },
            Err(error) => Err(error),
        }
    }

    /// The application's process id.
    pub fn get_pid(&self) -> (pid: Result<PID, ChunkWMError>)
        ensures
            pid == if self@.live() {
                Ok(self@.pid)
            } else {
                Err(ChunkWMError::NullPointer)
            },
    {
        match self.get_element() {
            Ok(_) => Ok(self.raw.pid),
            Err(error) => Err(error),
        }
    }

    /// The application's process serial number.
    pub fn get_process_serial_number(&self) -> (number: Result<
        ProcessSerialNumber,
        ChunkWMError,
    >)
        ensures
            number == if self@.live() {
                Ok(self@.process_serial_number)
            } else {
                Err(ChunkWMError::NullPointer)
            },
    {
        match self.get_element() {
            Ok(_) => Ok(self.raw.process_serial_number),
            Err(error) => Err(error),
        }
    }
}

} // verus!
