//! Events and error codes of the DECI2 debug protocol.
use vstd::prelude::*;

verus! {

#[derive(Debug, Clone, Copy, PartialEq, Eq, PartialOrd, Ord, Structural)]
pub enum Event {
    Read,
    ReadDone,
    Write,
    WriteDone,
    ChStatus,
    Error,
}

pub open spec fn event_code(e: Event) -> int {
    match e {
        Event::Read => 1,
        Event::ReadDone => 2,
        Event::Write => 3,
        Event::WriteDone => 4,
        Event::ChStatus => 5,
        Event::Error => 6,
    }
}

impl Event {
    /// The event's number on the wire.
    pub fn code(&self) -> (r: i32)
        ensures
            r == event_code(*self),
    {
        match self {
            Event::Read => 1,
            Event::ReadDone => 2,
            Event::Write => 3,
            Event::WriteDone => 4,
            Event::ChStatus => 5,
            Event::Error => 6,
        }
    }

    /// The event of number `code`, if any.
    pub fn from_code(code: i32) -> (r: Option<Event>)
        ensures
            r matches Some(e) ==> event_code(e) == code,
            r is None <==> !(1 <= code <= 6),
    {
        match code {
            1 => Some(Event::Read),
            2 => Some(Event::ReadDone),
            3 => Some(Event::Write),
            4 => Some(Event::WriteDone),
            5 => Some(Event::ChStatus),
            6 => Some(Event::Error),
            _ => None,
        }
    }
}

#[derive(Debug, Clone, Copy, PartialEq, Eq, PartialOrd, Ord, Structural)]
pub enum Error {
    /// Invalid argument.
    Invalid,
    /// Invalid socket descriptor.
    InvalidSock,
    /// Protocol number already used.
    AlreadyUse,
    /// Too many open protocols.
    MFile,
    /// Invalid address for buffer.
    InvalidAddr,
    /// Buffer is too small.
    PktSize,
    /// Blocks in spite asynchronous.
    WouldBlock,
    /// Already locked.
    AlreadyLock,
    /// Not locked.
    NotLocked,
    /// No route to host.
    NoRoute,
    /// No room left on manager.
    NoSpace,
    /// Invalid deci2 header.
    InvalHead,
}

pub open spec fn error_code(e: Error) -> int {
    match e {
        Error::Invalid => -1,
        Error::InvalidSock => -2,
        Error::AlreadyUse => -3,
        Error::MFile => -4,
        Error::InvalidAddr => -5,
        Error::PktSize => -6,
        Error::WouldBlock => -7,
        Error::AlreadyLock => -8,
        Error::NotLocked => -9,
        Error::NoRoute => -10,
        Error::NoSpace => -11,
        Error::InvalHead => -12,
    }
}

impl Error {
    /// The negative status that reports this error.
    pub fn code(&self) -> (r: i32)
        ensures
            r == error_code(*self),
    {
        match self {
            Error::Invalid => -1,
            Error::InvalidSock => -2,
            Error::AlreadyUse => -3,
            Error::MFile => -4,
            Error::InvalidAddr => -5,
            Error::PktSize => -6,
            Error::WouldBlock => -7,
            Error::AlreadyLock => -8,
            Error::NotLocked => -9,
            Error::NoRoute => -10,
            Error::NoSpace => -11,
            Error::InvalHead => -12,
        }
    }

    /// The error that status `code` reports, if any.
    pub fn from_code(code: i32) -> (r: Option<Error>)
        ensures
            r matches Some(e) ==> error_code(e) == code,
            r is None <==> !(-12 <= code <= -1),
    {
        match code {
            -1 => Some(Error::Invalid),
            -2 => Some(Error::InvalidSock),
            -3 => Some(Error::AlreadyUse),
            -4 => Some(Error::MFile),
            -5 => Some(Error::InvalidAddr),
            -6 => Some(Error::PktSize),
            -7 => Some(Error::WouldBlock),
            -8 => Some(Error::AlreadyLock),
            -9 => Some(Error::NotLocked),
            -10 => Some(Error::NoRoute),
            -11 => Some(Error::NoSpace),
            -12 => Some(Error::InvalHead),
            _ => None,
        }
    }
}

} // verus!
