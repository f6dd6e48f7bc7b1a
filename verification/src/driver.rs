//! The protocol driver: typed operations over a line-oriented transport.
//! Every operation is one short synchronous request/response exchange;
//! the handle auto-opens the transport when an operation needs it.

use vstd::prelude::*;
use vstd::string::StrSliceExecFns;
use crate::error::Error;
use crate::loradev::LoRaChannels;
use crate::loradev::RF95LoraDevice;
use crate::loradev::ModemConfig;
use crate::loradev::RxPacket;
use crate::loradev::Status;
use crate::protocol::freq_command;
use crate::protocol::info_command;
use crate::protocol::lemma_status_error_kinds;
use crate::protocol::lemma_status_terminated;
use crate::protocol::mode_command;
use crate::protocol::parse_send_response;
use crate::protocol::parse_status;
use crate::protocol::require_prefix;
use crate::protocol::tx_command;
use crate::text::spec_starts_with;
use crate::text::starts_with;
use crate::transport::Transport;

verus! {

/// The fixed per-line read timeout, in milliseconds.
pub const READ_TIMEOUT_MS: u64 = 1000;

/// The most response lines one operation scans before giving up with a
/// protocol mismatch. The per-line read timeout bounds each read, but a
/// modem that babbles lines forever would otherwise block an operation
/// without bound; this cap gives every operation an overall deadline.
pub const MAX_RESPONSE_LINES: usize = 1024;

/// A handle to one rf95modem device over a transport `T`: the device
/// path, the baud rate, the fixed read timeout, and the transport
/// connection once the handle is open.
pub struct RF95modem<T: Transport> {
    /// The device path the transport opens.
    pub device: String,
    /// The baud rate the device is opened at.
    pub baud_rate: u32,
    /// The per-line read timeout, in milliseconds.
    pub timeout_ms: u64,
    /// The open transport connection, when there is one.
    pub port: Option<T>,
}

impl<T: Transport> RF95modem<T> {
    /// A new, unopened handle for the device at `device` and `baud_rate`.
    /// The receive timeout is fixed at one second.
    pub fn new(device: &str, baud_rate: u32) -> (r: Self)
        ensures
            r.device@ == device@,
            r.baud_rate == baud_rate,
            r.timeout_ms == READ_TIMEOUT_MS,
            r.port is None,
    {
        RF95modem { device: device.to_owned(), baud_rate, timeout_ms: READ_TIMEOUT_MS, port: None }
    }

    /// A handle that already owns an open transport connection.
    pub fn with_port(device: &str, baud_rate: u32, port: T) -> (r: Self)
        ensures
            r.device@ == device@,
            r.baud_rate == baud_rate,
            r.timeout_ms == READ_TIMEOUT_MS,
            r.port == Some(port),
    {
        RF95modem {
            device: device.to_owned(),
            baud_rate,
            timeout_ms: READ_TIMEOUT_MS,
            port: Some(port),
        }
    }

    /// Duplicates the handle: an open handle yields a fresh, independently
    /// open handle over a duplicated connection, an unopened handle an
    /// unopened one. Fails explicitly when the connection cannot be
    /// duplicated.
    pub fn try_clone(&self) -> (r: Result<Self, Error>)
        ensures
            r matches Ok(c) ==> c.device == self.device && c.baud_rate == self.baud_rate
                && c.timeout_ms == self.timeout_ms && (c.port is Some <==> self.port is Some),
            self.port is None ==> (r matches Ok(c) && c.port is None),
            r matches Err(e) ==> e == Error::Io,
    {
        let port: Option<T> = match &self.port {
            Some(p) => match p.try_clone() {
                Ok(t) => Some(t),
                Err(e) => {
                    return Err(e);
                },
            },
            None => None,
        };
        Ok(
            RF95modem {
                device: self.device.clone(),
                baud_rate: self.baud_rate,
                timeout_ms: self.timeout_ms,
                port,
            },
        )
    }

    /// Writes a command line directly to the modem. The device must be
    /// opened first.
    pub fn raw_write(&mut self, buf: &str) -> (r: Result<(), Error>)
        requires
            old(self).port is Some,
        ensures
            final(self).port is Some,
            final(self).device == old(self).device,
            final(self).baud_rate == old(self).baud_rate,
            final(self).timeout_ms == old(self).timeout_ms,
            r is Ok ==> final(self).written() == old(self).written().push(buf@),
            r is Err ==> final(self).written() == old(self).written(),
            r matches Err(e) ==> e == Error::Io || e == Error::Timeout,
    {
        match &mut self.port {
            Some(p) => p.write_str(buf),
            None => Err(Error::Io),
        }
    }

    // opens the transport when the handle is not open yet
    fn ensure_open(&mut self) -> (r: Result<(), Error>)
        ensures
            r is Ok ==> final(self).port is Some && final(self).written() == old(self).written(),
            r matches Err(e) ==> e == Error::OpenFailed && *final(self) == *old(self),
            old(self).port is Some ==> r is Ok && *final(self) == *old(self),
    {
        if self.port.is_none() {
            let t = match T::open(self.device.as_str(), self.baud_rate, self.timeout_ms) {
                Ok(t) => t,
                Err(e) => {
                    return Err(e);
                },
            };
            self.port = Some(t);
        }
        Ok(())
    }

    // reads one line and demands the given prefix of it
    fn expect(&mut self, prefix: &str) -> (r: Result<String, Error>)
        ensures
            r matches Ok(line) ==> spec_starts_with(line@, prefix@) && final(self).is_open(),
            final(self).written() == old(self).written(),
            r matches Err(e) ==> (e == Error::OpenFailed || e == Error::Timeout || e == Error::Io
                || e == Error::UnexpectedResponse),
            old(self).is_open() ==> (r matches Err(e) ==> e != Error::OpenFailed),
    {
        let line = match self.read_line() {
            Ok(l) => l,
            Err(e) => {
                return Err(e);
            },
        };
        require_prefix(line, prefix)
    }
}

impl<T: Transport> RF95LoraDevice for RF95modem<T> {
    open spec fn is_open(&self) -> bool {
        self.port is Some
    }

    open spec fn written(&self) -> Seq<Seq<char>> {
        match self.port {
            Some(p) => p.written_log(),
            None => Seq::<Seq<char>>::empty(),
        }
    }

    fn open(&mut self) -> (r: Result<(), Error>) {
        match T::open(self.device.as_str(), self.baud_rate, self.timeout_ms) {
            Ok(t) => {
                self.port = Some(t);
                Ok(())
            },
            Err(e) => Err(e),
        }
    }

    fn set_frequency(&mut self, freq_centi_mhz: u32) -> (r: Result<(), Error>) {
        match self.ensure_open() {
            Ok(()) => {},
            Err(e) => {
                return Err(e);
            },
        }
        let cmd = freq_command(freq_centi_mhz);
        match self.raw_write(cmd.as_str()) {
            Ok(()) => {},
            Err(e) => {
                return Err(e);
            },
        }
        match self.expect("+FREQ") {
            Ok(_) => Ok(()),
            Err(e) => Err(e),
        }
    }

    fn set_channel(&mut self, channel: LoRaChannels) -> (r: Result<(), Error>) {
        self.set_frequency(channel.freq_centi_mhz())
    }

    fn config(&mut self) -> (r: Result<Status, Error>) {
        match self.ensure_open() {
            Ok(()) => {},
            Err(e) => {
                return Err(e);
            },
        }
        match self.raw_write(info_command()) {
            Ok(()) => {},
            Err(e) => {
                return Err(e);
            },
        }
        let mut lines: Vec<String> = Vec::new();
        let mut k: usize = 0;
        let ghost sent = self.written();
        loop
            invariant_except_break
                k <= MAX_RESPONSE_LINES,
                self.port is Some,
                self.written() == sent,
                sent == old(self).written().push(crate::protocol::spec_info_command()),
            ensures
                self.port is Some,
                self.written() == sent,
                sent == old(self).written().push(crate::protocol::spec_info_command()),
                lines.deep_view().len() > 0,
                spec_starts_with(lines.deep_view().last(), "+OK"@),
            decreases MAX_RESPONSE_LINES - k,
        {
            if k == MAX_RESPONSE_LINES {
                return Err(Error::UnexpectedResponse);
            }
            let line = match self.read_line() {
                Ok(l) => l,
                Err(e) => {
                    return Err(e);
                },
            };
            let terminator = starts_with(line.as_str(), "+OK");
            let ghost prev = lines.deep_view();
            let ghost linev = line@;
            lines.push(line);
            proof {
                assert(lines.deep_view() =~= prev.push(linev));
            }
            k = k + 1;
            if terminator {
                break ;
            }
        }
        proof {
            lemma_status_terminated(
                crate::loradev::spec_default_status(),
                lines.deep_view(),
                lines.deep_view().len() - 1,
            );
            lemma_status_error_kinds(crate::loradev::spec_default_status(), lines.deep_view());
        }
        parse_status(&lines)
    }

    fn set_mode(&mut self, mode: ModemConfig) -> (r: Result<(), Error>) {
        match self.ensure_open() {
            Ok(()) => {},
            Err(e) => {
                return Err(e);
            },
        }
        let cmd = mode_command(mode);
        match self.raw_write(cmd.as_str()) {
            Ok(()) => {},
            Err(e) => {
                return Err(e);
            },
        }
        match self.expect("+OK") {
            Ok(_) => Ok(()),
            Err(e) => Err(e),
        }
    }

    fn send_data(&mut self, data: Vec<u8>) -> (r: Result<usize, Error>) {
        match self.ensure_open() {
            Ok(()) => {},
            Err(e) => {
                return Err(e);
            },
        }
        let cmd = tx_command(data.as_slice());
        match self.raw_write(cmd.as_str()) {
            Ok(()) => {},
            Err(e) => {
                return Err(e);
            },
        }
        let line = match self.read_line() {
            Ok(l) => l,
            Err(e) => {
                return Err(e);
            },
        };
        parse_send_response(line.as_str(), data.len())
    }

    fn read_packet(&mut self) -> (r: Result<RxPacket, Error>) {
        let mut k: usize = 0;
        loop
            invariant
                k <= MAX_RESPONSE_LINES,
                self.written() == old(self).written(),
            decreases MAX_RESPONSE_LINES - k,
        {
            if k == MAX_RESPONSE_LINES {
                return Err(Error::UnexpectedResponse);
            }
            let line = match self.read_line() {
                Ok(l) => l,
                Err(e) => {
                    return Err(e);
                },
            };
            if starts_with(line.as_str(), "+RX ") {
                return RxPacket::try_from(line.as_str());
            }
            k = k + 1;
        }
    }

    fn read_line(&mut self) -> (r: Result<String, Error>) {
        match self.ensure_open() {
            Ok(()) => {},
            Err(e) => {
                return Err(e);
            },
        }
        match &mut self.port {
            Some(p) => p.read_line(),
            None => Err(Error::Io),
        }
    }
}

} // verus!
