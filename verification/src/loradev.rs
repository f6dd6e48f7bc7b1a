//! The typed data model of the modem: radio configuration profiles, the
//! fixed channel table, the status snapshot and the received packet,
//! together with the exact parser for the receive notification line.

use vstd::prelude::*;
use vstd::string::StrSliceExecFns;
use vstd::string::StringExecFns;
use crate::error::Error;
use crate::hex::spec_unhexify;
use crate::hex::unhexify;
use crate::num::spec_parse_i16;
use crate::num::spec_parse_usize;
use crate::num::parse_i16;
use crate::num::parse_usize;
use crate::text::spec_find;
use crate::text::spec_starts_with;
use crate::text::spec_trim;
use crate::text::find_from;
use crate::text::starts_with;
use crate::text::trim;

verus! {

/// The four fixed LoRa modulation presets, each bound to a stable small
/// integer code on the wire.
#[derive(Clone, Copy, Debug, PartialEq, Eq, Structural)]
pub enum ModemConfig {
    /// Medium range (the default).
    MediumBw125Cr45Sf128Crc,
    /// Fast transmission, short range.
    FastShortBw500Cr45Sf128Crc,
    /// Slow transmission, long range.
    SlowLongBw3125Cr48Sf512Crc,
    /// Slow transmission, long range.
    SlowLongBw125Cr48Sf4096Crc,
}

impl ModemConfig {
    /// The integer code this preset carries on the wire.
    pub open spec fn spec_wire_code(self) -> usize {
        match self {
            ModemConfig::MediumBw125Cr45Sf128Crc => 0,
            ModemConfig::FastShortBw500Cr45Sf128Crc => 1,
            ModemConfig::SlowLongBw3125Cr48Sf512Crc => 2,
            ModemConfig::SlowLongBw125Cr48Sf4096Crc => 3,
        }
    }

    /// The integer code this preset carries on the wire.
    pub fn wire_code(&self) -> (r: usize)
        ensures
            r == self.spec_wire_code(),
    {
        match self {
            ModemConfig::MediumBw125Cr45Sf128Crc => 0,
            ModemConfig::FastShortBw500Cr45Sf128Crc => 1,
            ModemConfig::SlowLongBw3125Cr48Sf512Crc => 2,
            ModemConfig::SlowLongBw125Cr48Sf4096Crc => 3,
        }
    }

    /// The preset a wire code denotes: defined for the codes zero through
    /// three, an unknown-profile error for every other code.
    pub open spec fn spec_try_from(value: usize) -> Result<ModemConfig, Error> {
        if value == 0 {
            Ok(ModemConfig::MediumBw125Cr45Sf128Crc)
        } else if value == 1 {
            Ok(ModemConfig::FastShortBw500Cr45Sf128Crc)
        } else if value == 2 {
            Ok(ModemConfig::SlowLongBw3125Cr48Sf512Crc)
        } else if value == 3 {
            Ok(ModemConfig::SlowLongBw125Cr48Sf4096Crc)
        } else {
            Err(Error::UnknownProfile)
        }
    }

    /// Converts a wire integer code into a preset. Succeeds exactly on the
    /// codes zero through three and fails with [`Error::UnknownProfile`] on
    /// every other code.
    pub fn try_from(value: usize) -> (r: Result<ModemConfig, Error>)
        ensures
            r == ModemConfig::spec_try_from(value),
            r is Ok <==> value <= 3,
    {
        if value == 0 {
            Ok(ModemConfig::MediumBw125Cr45Sf128Crc)
        } else if value == 1 {
            Ok(ModemConfig::FastShortBw500Cr45Sf128Crc)
        } else if value == 2 {
            Ok(ModemConfig::SlowLongBw3125Cr48Sf512Crc)
        } else if value == 3 {
            Ok(ModemConfig::SlowLongBw125Cr48Sf4096Crc)
        } else {
            Err(Error::UnknownProfile)
        }
    }
}

/// Law: every preset converts to its wire code and back without loss.
pub proof fn lemma_profile_code_round_trip(m: ModemConfig)
    ensures
        ModemConfig::spec_try_from(m.spec_wire_code()) == Ok::<ModemConfig, Error>(m),
{
}

/// Law: every wire code above three is rejected as an unknown profile.
pub proof fn lemma_profile_code_unknown(value: usize)
    requires
        value > 3,
    ensures
        ModemConfig::spec_try_from(value) == Err::<ModemConfig, Error>(Error::UnknownProfile),
{
}

/// Predefined LoRa channels: EU 868 MHz channels 1 to 17 and US 915 MHz
/// channels 0 to 12, each bound to its frequency in centi-MHz (MHz times
/// one hundred, so the table needs no floating point).
#[derive(Clone, Copy, Debug, PartialEq, Eq, Structural)]
#[allow(non_camel_case_types)]
pub enum LoRaChannels {
    Ch01_868,
    Ch02_868,
    Ch03_868,
    Ch04_868,
    Ch05_868,
    Ch06_868,
    Ch07_868,
    Ch08_868,
    Ch09_868,
    Ch10_868,
    Ch11_868,
    Ch12_868,
    Ch13_868,
    Ch14_868,
    Ch15_868,
    Ch16_868,
    Ch17_868,
    Ch00_900,
    Ch01_900,
    Ch02_900,
    Ch03_900,
    Ch04_900,
    Ch05_900,
    Ch06_900,
    Ch07_900,
    Ch08_900,
    Ch09_900,
    Ch10_900,
    Ch11_900,
    Ch12_900,
}

impl LoRaChannels {
    /// The channel's frequency in centi-MHz.
    pub open spec fn spec_freq_centi_mhz(self) -> u32 {
        match self {
            LoRaChannels::Ch01_868 => 86810,
            LoRaChannels::Ch02_868 => 86830,
            LoRaChannels::Ch03_868 => 86850,
            LoRaChannels::Ch04_868 => 86710,
            LoRaChannels::Ch05_868 => 86730,
            LoRaChannels::Ch06_868 => 86750,
            LoRaChannels::Ch07_868 => 86770,
            LoRaChannels::Ch08_868 => 86790,
            LoRaChannels::Ch09_868 => 86880,
            LoRaChannels::Ch10_868 => 86520,
            LoRaChannels::Ch11_868 => 86550,
            LoRaChannels::Ch12_868 => 86580,
            LoRaChannels::Ch13_868 => 86610,
            LoRaChannels::Ch14_868 => 86640,
            LoRaChannels::Ch15_868 => 86670,
            LoRaChannels::Ch16_868 => 86700,
            LoRaChannels::Ch17_868 => 86800,
            LoRaChannels::Ch00_900 => 90308,
            LoRaChannels::Ch01_900 => 90524,
            LoRaChannels::Ch02_900 => 90740,
            LoRaChannels::Ch03_900 => 90956,
            LoRaChannels::Ch04_900 => 91172,
            LoRaChannels::Ch05_900 => 91388,
            LoRaChannels::Ch06_900 => 91604,
            LoRaChannels::Ch07_900 => 91820,
            LoRaChannels::Ch08_900 => 92036,
            LoRaChannels::Ch09_900 => 92252,
            LoRaChannels::Ch10_900 => 92468,
            LoRaChannels::Ch11_900 => 92684,
            LoRaChannels::Ch12_900 => 91500,
        }
    }

    /// The channel's frequency in centi-MHz.
    pub fn freq_centi_mhz(&self) -> (r: u32)
        ensures
            r == self.spec_freq_centi_mhz(),
    {
        match self {
            LoRaChannels::Ch01_868 => 86810,
            LoRaChannels::Ch02_868 => 86830,
            LoRaChannels::Ch03_868 => 86850,
            LoRaChannels::Ch04_868 => 86710,
            LoRaChannels::Ch05_868 => 86730,
            LoRaChannels::Ch06_868 => 86750,
            LoRaChannels::Ch07_868 => 86770,
            LoRaChannels::Ch08_868 => 86790,
            LoRaChannels::Ch09_868 => 86880,
            LoRaChannels::Ch10_868 => 86520,
            LoRaChannels::Ch11_868 => 86550,
            LoRaChannels::Ch12_868 => 86580,
            LoRaChannels::Ch13_868 => 86610,
            LoRaChannels::Ch14_868 => 86640,
            LoRaChannels::Ch15_868 => 86670,
            LoRaChannels::Ch16_868 => 86700,
            LoRaChannels::Ch17_868 => 86800,
            LoRaChannels::Ch00_900 => 90308,
            LoRaChannels::Ch01_900 => 90524,
            LoRaChannels::Ch02_900 => 90740,
            LoRaChannels::Ch03_900 => 90956,
            LoRaChannels::Ch04_900 => 91172,
            LoRaChannels::Ch05_900 => 91388,
            LoRaChannels::Ch06_900 => 91604,
            LoRaChannels::Ch07_900 => 91820,
            LoRaChannels::Ch08_900 => 92036,
            LoRaChannels::Ch09_900 => 92252,
            LoRaChannels::Ch10_900 => 92468,
            LoRaChannels::Ch11_900 => 92684,
            LoRaChannels::Ch12_900 => 91500,
        }
    }
}

/// The mathematical value of a [`Status`] snapshot.
#[verifier::ext_equal]
pub struct StatusV {
    pub version: Seq<char>,
    pub config: ModemConfig,
    pub max_pkt_size: usize,
    pub frequency_centi_mhz: u32,
    pub rx_listener: bool,
    pub rx_bad: usize,
    pub rx_good: usize,
    pub tx_good: usize,
}

/// A snapshot of modem firmware state, filled in by parsing the status
/// report. Frequency is held in centi-MHz (MHz times one hundred).
#[derive(Debug, Clone, PartialEq, Eq)]
pub struct Status {
    /// Firmware version running on the modem.
    pub version: String,
    /// Current LoRa configuration preset.
    pub config: ModemConfig,
    /// Maximum packet size supported, in bytes.
    pub max_pkt_size: usize,
    /// Current frequency configured on the modem, in centi-MHz.
    pub frequency_centi_mhz: u32,
    /// Whether receiving of incoming packets is activated.
    pub rx_listener: bool,
    /// Number of receive errors.
    pub rx_bad: usize,
    /// Number of successfully received packets.
    pub rx_good: usize,
    /// Number of successfully transmitted packets.
    pub tx_good: usize,
}

impl View for Status {
    type V = StatusV;

    open spec fn view(&self) -> StatusV {
        StatusV {
            version: self.version@,
            config: self.config,
            max_pkt_size: self.max_pkt_size,
            frequency_centi_mhz: self.frequency_centi_mhz,
            rx_listener: self.rx_listener,
            rx_bad: self.rx_bad,
            rx_good: self.rx_good,
            tx_good: self.tx_good,
        }
    }
}

/// The fresh snapshot a status query starts from: every numeric field
/// zero, the listener flag false, a sentinel version, and the default
/// profile.
pub open spec fn spec_default_status() -> StatusV {
    StatusV {
        version: "0.0"@,
        config: ModemConfig::MediumBw125Cr45Sf128Crc,
        max_pkt_size: 0,
        frequency_centi_mhz: 0,
        rx_listener: false,
        rx_bad: 0,
        rx_good: 0,
        tx_good: 0,
    }
}

impl Status {
    /// A fresh snapshot, before parsing fills it in.
    pub fn new() -> (r: Status)
        ensures
            r@ == spec_default_status(),
    {
        let r = Status {
            version: String::from_str("0.0"),
            config: ModemConfig::MediumBw125Cr45Sf128Crc,
            max_pkt_size: 0,
            frequency_centi_mhz: 0,
            rx_listener: false,
            rx_bad: 0,
            rx_good: 0,
            tx_good: 0,
        };
        proof {
            assert(r@ =~= spec_default_status());
        }
        r
    }
}

impl Default for Status {
    /// Same as [`Status::new`].
    fn default() -> (r: Status)
        ensures
            r@ == spec_default_status(),
    {
        Status::new()
    }
}

/// The mathematical value of an [`RxPacket`].
#[verifier::ext_equal]
pub struct RxPacketV {
    pub rssi: i16,
    pub snr: i16,
    pub data: Seq<u8>,
}

/// A LoRa packet received from the modem. Constructed only by
/// successfully parsing one well-formed receive notification line.
#[derive(Debug, Clone, PartialEq, Eq)]
pub struct RxPacket {
    /// Signal strength, in dBm.
    pub rssi: i16,
    /// Signal-to-noise ratio.
    pub snr: i16,
    /// Received binary data.
    pub data: Vec<u8>,
}

impl View for RxPacket {
    type V = RxPacketV;

    open spec fn view(&self) -> RxPacketV {
        RxPacketV { rssi: self.rssi, snr: self.snr, data: self.data@ }
    }
}

/// The packet the four comma-separated fields of a receive notification
/// denote: declared length, hex payload, rssi, snr.
pub open spec fn spec_rx_fields(
    f0: Seq<char>,
    f1: Seq<char>,
    f2: Seq<char>,
    f3: Seq<char>,
) -> Result<RxPacketV, Error> {
    match spec_parse_usize(f0) {
        None => Err(Error::Decode),
        Some(len) => match spec_unhexify(f1) {
            None => Err(Error::Decode),
            Some(data) => if data.len() != len {
                Err(Error::LengthMismatch)
            } else {
                match spec_parse_i16(f2) {
                    None => Err(Error::Decode),
                    Some(rssi) => match spec_parse_i16(f3) {
                        None => Err(Error::Decode),
                        Some(snr) => Ok(RxPacketV { rssi, snr, data }),
                    },
                }
            },
        },
    }
}

/// The packet a receive notification line denotes. The `+RX ` prefix is
/// stripped when present; the remainder is trimmed and must split on
/// commas into exactly four fields, else the line is a protocol mismatch.
pub open spec fn spec_parse_rx(item: Seq<char>) -> Result<RxPacketV, Error> {
    let stripped = if spec_starts_with(item, "+RX "@) {
        item.skip(4)
    } else {
        item
    };
    let t = spec_trim(stripped);
    match spec_find(t, ',') {
        None => Err(Error::UnexpectedResponse),
        Some(i1) => {
            let rest1 = t.skip(i1 + 1);
            match spec_find(rest1, ',') {
                None => Err(Error::UnexpectedResponse),
                Some(i2) => {
                    let rest2 = rest1.skip(i2 + 1);
                    match spec_find(rest2, ',') {
                        None => Err(Error::UnexpectedResponse),
                        Some(i3) => {
                            let rest3 = rest2.skip(i3 + 1);
                            match spec_find(rest3, ',') {
                                Some(_) => Err(Error::UnexpectedResponse),
                                None => spec_rx_fields(
                                    t.take(i1),
                                    rest1.take(i2),
                                    rest2.take(i3),
                                    rest3,
                                ),
                            }
                        },
                    }
                },
            }
        },
    }
}

// the four comma-separated fields, parsed and checked against each other
fn rx_fields(f0: &str, f1: &str, f2: &str, f3: &str) -> (r: Result<RxPacket, Error>)
    ensures
        match spec_rx_fields(f0@, f1@, f2@, f3@) {
            Ok(p) => r matches Ok(q) && q@ == p,
            Err(e) => r == Err::<RxPacket, Error>(e),
        },
{
    let len: usize = match parse_usize(f0) {
        Some(v) => v,
        None => {
            return Err(Error::Decode);
        },
    };
    let data: Vec<u8> = match unhexify(f1) {
        Ok(v) => v,
        Err(_) => {
            return Err(Error::Decode);
        },
    };
    if data.len() != len {
        return Err(Error::LengthMismatch);
    }
    let rssi: i16 = match parse_i16(f2) {
        Some(v) => v,
        None => {
            return Err(Error::Decode);
        },
    };
    let snr: i16 = match parse_i16(f3) {
        Some(v) => v,
        None => {
            return Err(Error::Decode);
        },
    };
    let r = RxPacket { rssi, snr, data };
    proof {
        assert(r@ =~= spec_rx_fields(f0@, f1@, f2@, f3@)->Ok_0);
    }
    Ok(r)
}

impl RxPacket {
    /// Parses one receive notification line into a packet, exactly as
    /// [`spec_parse_rx`] reads it: a wrong field count is a protocol
    /// mismatch, an undecodable field a decode failure, and a declared
    /// length that does not match the decoded payload a length mismatch.
    #[verifier::rlimit(50)]
    pub fn try_from(item: &str) -> (r: Result<RxPacket, Error>)
        ensures
            match spec_parse_rx(item@) {
                Ok(p) => r matches Ok(q) && q@ == p,
                Err(e) => r == Err::<RxPacket, Error>(e),
            },
    {
        let n: usize = item.unicode_len();
        let stripped: &str = if starts_with(item, "+RX ") {
            proof {
                reveal_strlit("+RX ");
                assert(item@.subrange(4, n as int) =~= item@.skip(4));
            }
            item.substring_char(4, n)
        } else {
            item
        };
        let t = trim(stripped);
        let tn: usize = t.unicode_len();
        proof {
            assert(t@.skip(0) =~= t@);
        }
        let i1: usize = match find_from(t, 0, ',') {
            Some(i) => i,
            None => {
                return Err(Error::UnexpectedResponse);
            },
        };
        let i2: usize = match find_from(t, i1 + 1, ',') {
            Some(i) => i,
            None => {
                return Err(Error::UnexpectedResponse);
            },
        };
        proof {
            assert(t@.skip(i1 + 1).skip(i2 - i1) =~= t@.skip(i2 + 1));
        }
        let i3: usize = match find_from(t, i2 + 1, ',') {
            Some(i) => i,
            None => {
                return Err(Error::UnexpectedResponse);
            },
        };
        proof {
            assert(t@.skip(i2 + 1).skip(i3 - i2) =~= t@.skip(i3 + 1));
        }
        if let Some(_) = find_from(t, i3 + 1, ',') {
            return Err(Error::UnexpectedResponse);
        }
        let f0 = t.substring_char(0, i1);
        let f1 = t.substring_char(i1 + 1, i2);
        let f2 = t.substring_char(i2 + 1, i3);
        let f3 = t.substring_char(i3 + 1, tn);
        proof {
            assert(f0@ =~= t@.take(i1 as int));
            assert(f1@ =~= t@.skip(i1 + 1).take(i2 - i1 - 1));
            assert(f2@ =~= t@.skip(i2 + 1).take(i3 - i2 - 1));
            assert(f3@ =~= t@.skip(i3 + 1));
        }
        rx_fields(f0, f1, f2, f3)
    }
}

/// The typed operations of an rf95modem-class device.
pub trait RF95LoraDevice: Sized {
    /// The handle currently holds an open transport connection.
    spec fn is_open(&self) -> bool;

    /// The command lines written to the device over the current
    /// connection, in order; an unopened handle has written nothing.
    spec fn written(&self) -> Seq<Seq<char>>;

    /// Explicitly (re-)opens the serial device. Opening an already open
    /// handle re-opens the connection, which starts with nothing written.
    fn open(&mut self) -> (r: Result<(), Error>)
        ensures
            r is Ok ==> final(self).is_open() && final(self).written() == Seq::<Seq<char>>::empty(),
            r matches Err(e) ==> e == Error::OpenFailed && *final(self) == *old(self),
    ;

    /// Sets the frequency, handed as a count of centi-MHz (MHz times one
    /// hundred). On success exactly the frequency command went out and the
    /// modem acknowledged it; whatever the outcome, at most that one
    /// command went out, and an open failure writes nothing.
    fn set_frequency(&mut self, freq_centi_mhz: u32) -> (r: Result<(), Error>)
        ensures
            r is Ok ==> final(self).is_open() && final(self).written() == old(self).written().push(
                crate::protocol::spec_freq_command(freq_centi_mhz),
            ),
            final(self).written() == old(self).written() || final(self).written() == old(
                self,
            ).written().push(crate::protocol::spec_freq_command(freq_centi_mhz)),
            r == Err::<(), Error>(Error::OpenFailed) ==> final(self).written() == old(
                self,
            ).written(),
            r matches Err(e) ==> (e == Error::OpenFailed || e == Error::Io || e == Error::Timeout
                || e == Error::UnexpectedResponse),
    ;

    /// Sets the frequency to a predefined channel's.
    fn set_channel(&mut self, channel: LoRaChannels) -> (r: Result<(), Error>)
        ensures
            r is Ok ==> final(self).is_open() && final(self).written() == old(self).written().push(
                crate::protocol::spec_freq_command(channel.spec_freq_centi_mhz()),
            ),
            final(self).written() == old(self).written() || final(self).written() == old(
                self,
            ).written().push(crate::protocol::spec_freq_command(channel.spec_freq_centi_mhz())),
            r == Err::<(), Error>(Error::OpenFailed) ==> final(self).written() == old(
                self,
            ).written(),
            r matches Err(e) ==> (e == Error::OpenFailed || e == Error::Io || e == Error::Timeout
                || e == Error::UnexpectedResponse),
    ;

    /// Queries the modem firmware state. On success exactly the status
    /// request went out and the snapshot is parsed from the response lines
    /// up to the first terminator; whatever the outcome, at most that one
    /// command went out, and an open failure writes nothing.
    fn config(&mut self) -> (r: Result<Status, Error>)
        ensures
            r is Ok ==> final(self).is_open() && final(self).written() == old(self).written().push(
                crate::protocol::spec_info_command(),
            ),
            final(self).written() == old(self).written() || final(self).written() == old(
                self,
            ).written().push(crate::protocol::spec_info_command()),
            r == Err::<Status, Error>(Error::OpenFailed) ==> final(self).written() == old(
                self,
            ).written(),
            r matches Err(e) ==> e != Error::LengthMismatch,
    ;

    /// Selects a radio configuration preset. On success exactly the mode
    /// command went out and the modem acknowledged it; whatever the
    /// outcome, at most that one command went out, and an open failure
    /// writes nothing.
    fn set_mode(&mut self, mode: ModemConfig) -> (r: Result<(), Error>)
        ensures
            r is Ok ==> final(self).is_open() && final(self).written() == old(self).written().push(
                crate::protocol::spec_mode_command(mode),
            ),
            final(self).written() == old(self).written() || final(self).written() == old(
                self,
            ).written().push(crate::protocol::spec_mode_command(mode)),
            r == Err::<(), Error>(Error::OpenFailed) ==> final(self).written() == old(
                self,
            ).written(),
            r matches Err(e) ==> (e == Error::OpenFailed || e == Error::Io || e == Error::Timeout
                || e == Error::UnexpectedResponse),
    ;

    /// Transmits a binary payload. On success the returned count equals
    /// the payload length, and exactly the transmit command — the payload
    /// as lowercase hex — went out; whatever the outcome, at most that one
    /// command went out, and an open failure writes nothing.
    fn send_data(&mut self, data: Vec<u8>) -> (r: Result<usize, Error>)
        ensures
            r matches Ok(n) ==> n == data@.len() && final(self).is_open() && final(self).written()
                == old(self).written().push(crate::protocol::spec_tx_command(data@)),
            final(self).written() == old(self).written() || final(self).written() == old(
                self,
            ).written().push(crate::protocol::spec_tx_command(data@)),
            r == Err::<usize, Error>(Error::OpenFailed) ==> final(self).written() == old(
                self,
            ).written(),
    ;

    /// Blocks until the modem reports one received packet. Receiving
    /// writes no command, whatever the outcome.
    fn read_packet(&mut self) -> (r: Result<RxPacket, Error>)
        ensures
            r is Ok ==> final(self).is_open(),
            final(self).written() == old(self).written(),
    ;

    /// Reads one raw line from the serial device, writing nothing,
    /// whatever the outcome. On an already open handle the read fails
    /// only with the timeout or the generic I/O error.
    fn read_line(&mut self) -> (r: Result<String, Error>)
        ensures
            r is Ok ==> final(self).is_open(),
            final(self).written() == old(self).written(),
            r matches Err(e) ==> (e == Error::OpenFailed || e == Error::Timeout || e
                == Error::Io),
            old(self).is_open() ==> (r matches Err(e) ==> e == Error::Timeout || e == Error::Io),
    ;
}

} // verus!
