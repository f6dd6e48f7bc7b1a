//! The serial transport boundary: a line-oriented connection to one
//! device, with raw writes and line-buffered reads under a fixed read
//! timeout. A real serial-port implementation lives outside this crate;
//! the scripted [`MockTransport`] here replays response lines for tests.

use vstd::prelude::*;
use crate::error::Error;

verus! {

/// A line-oriented serial transport. Reads and writes block until a
/// result or an error is available; a read that sees no full line within
/// the configured timeout fails with the distinguished timeout error.
pub trait Transport: Sized {
    /// The writes completed on this connection so far, in order — the
    /// ghost history that lets callers state what they sent. An
    /// implementation that does not supply a history leaves it
    /// unspecified, and nothing can then be concluded from it.
    open spec fn written_log(&self) -> Seq<Seq<char>> {
        vstd::pervasive::arbitrary()
    }

    /// Opens the named device at the given baud rate with the given read
    /// timeout in milliseconds. Fails with [`Error::OpenFailed`] when the
    /// device is missing, busy, or not permitted.
    fn open(device: &str, baud_rate: u32, timeout_ms: u64) -> (r: Result<Self, Error>)
        ensures
            r matches Ok(t) ==> t.written_log() == Seq::<Seq<char>>::empty(),
            r matches Err(e) ==> e == Error::OpenFailed,
    ;

    /// Writes all characters of `data` to the open connection; a partial
    /// write is a failure, never a success. The history records only the
    /// writes that completed: a failed write adds nothing to it.
    fn write_str(&mut self, data: &str) -> (r: Result<(), Error>)
        ensures
            r is Ok ==> final(self).written_log() == old(self).written_log().push(data@),
            r is Err ==> final(self).written_log() == old(self).written_log(),
            r matches Err(e) ==> e == Error::Io || e == Error::Timeout,
    ;

    /// Reads one line up to and including the next newline; reading
    /// writes nothing. Fails with [`Error::Timeout`] when no newline
    /// arrives within the read timeout, and with [`Error::Io`] on any
    /// other failure.
    fn read_line(&mut self) -> (r: Result<String, Error>)
        ensures
            final(self).written_log() == old(self).written_log(),
            r matches Err(e) ==> e == Error::Timeout || e == Error::Io,
    ;

    /// Duplicates the underlying connection into an independent handle.
    fn try_clone(&self) -> (r: Result<Self, Error>)
        ensures
            r matches Err(e) ==> e == Error::Io,
    ;
}

/// One scripted transport event.
#[derive(Debug, Clone)]
pub enum MockEvent {
    /// The next read yields this line.
    Line(String),
    /// The next read times out.
    TimedOut,
    /// The next read fails with a generic I/O error.
    IoFailed,
}

/// A scripted in-memory transport: reads consume the events in order and
/// writes are logged, so a test can replay a modem conversation and then
/// inspect what was sent. An exhausted script times out, like a silent
/// device.
#[derive(Debug, Clone)]
pub struct MockTransport {
    /// The events still to be replayed, front first.
    pub events: Vec<MockEvent>,
    /// Every write so far, in order.
    pub written: Vec<String>,
}

impl MockTransport {
    /// A transport that will replay the given events.
    pub fn with_events(events: Vec<MockEvent>) -> (r: MockTransport)
        ensures
            r.events == events,
            r.written@ == Seq::<String>::empty(),
    {
        MockTransport { events, written: Vec::new() }
    }
}

impl Transport for MockTransport {
    open spec fn written_log(&self) -> Seq<Seq<char>> {
        self.written.deep_view()
    }

    fn open(_device: &str, _baud_rate: u32, _timeout_ms: u64) -> (r: Result<Self, Error>) {
        let t = MockTransport { events: Vec::new(), written: Vec::new() };
        proof {
            assert(t.written.deep_view() =~= Seq::<Seq<char>>::empty());
        }
        Ok(t)
    }

    fn write_str(&mut self, data: &str) -> (r: Result<(), Error>) {
        let ghost prev = self.written.deep_view();
        self.written.push(data.to_owned());
        proof {
            assert(self.written.deep_view() =~= prev.push(data@));
        }
        Ok(())
    }

    fn read_line(&mut self) -> (r: Result<String, Error>)
        ensures
            old(self).events@.len() == 0 ==> r == Err::<String, Error>(Error::Timeout)
                && final(self).events@ == old(self).events@,
            old(self).events@.len() > 0 ==> final(self).events@ == old(self).events@.drop_first()
                && (match old(self).events@[0] {
                MockEvent::Line(s) => r == Ok::<String, Error>(s),
                MockEvent::TimedOut => r == Err::<String, Error>(Error::Timeout),
                MockEvent::IoFailed => r == Err::<String, Error>(Error::Io),
            }),
    {
        if self.events.len() == 0 {
            Err(Error::Timeout)
        } else {
            let ev = self.events.remove(0);
            proof {
                assert(self.events@ =~= old(self).events@.drop_first());
            }
            match ev {
                MockEvent::Line(s) => Ok(s),
                MockEvent::TimedOut => Err(Error::Timeout),
                MockEvent::IoFailed => Err(Error::Io),
            }
        }
    }

    fn try_clone(&self) -> (r: Result<Self, Error>) {
        Ok(self.clone())
    }
}

} // verus!
