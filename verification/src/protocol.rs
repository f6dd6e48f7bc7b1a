//! The protocol core: framing of outgoing AT-command lines and exact
//! parsing of the textual responses — the status report, the send
//! acknowledgment and the label/value lines.

use vstd::prelude::*;
use vstd::string::StrSliceExecFns;
use vstd::string::StringExecFns;
use crate::error::Error;
use crate::hex::hexify;
use crate::hex::spec_hexify;
use crate::loradev::ModemConfig;
use crate::loradev::Status;
use crate::loradev::StatusV;
use crate::loradev::spec_default_status;
use crate::num::dec_digits;
use crate::num::digit_char;
use crate::num::digit_str;
use crate::num::parse_centi_mhz;
use crate::num::parse_usize;
use crate::num::spec_parse_centi_mhz;
use crate::num::spec_parse_usize;
use crate::num::u32_dec;
use crate::text::find_from;
use crate::text::spec_find;
use crate::text::spec_starts_with;
use crate::text::spec_trim;
use crate::text::spec_ws_tokens;
use crate::text::starts_with;
use crate::text::trim;
use crate::text::ws_tokens;

verus! {

/// The value a label line carries: when `input` starts with `key`, the
/// text between the first colon and the second colon (or the end),
/// trimmed; nothing when the prefix or the colon is missing.
pub open spec fn spec_match_split(input: Seq<char>, key: Seq<char>) -> Option<Seq<char>> {
    if spec_starts_with(input, key) {
        match spec_find(input, ':') {
            None => None,
            Some(i) => {
                let rest = input.skip(i + 1);
                let v = match spec_find(rest, ':') {
                    None => rest,
                    Some(j) => rest.take(j),
                };
                Some(spec_trim(v))
            },
        }
    } else {
        None
    }
}

/// Extracts the value of a label line, as [`spec_match_split`] reads it.
pub fn match_split(input: &str, key: &str) -> (r: Option<String>)
    ensures
        match spec_match_split(input@, key@) {
            Some(v) => r matches Some(s) && s@ == v,
            None => r is None,
        },
{
    if !starts_with(input, key) {
        return None;
    }
    let n: usize = input.unicode_len();
    proof {
        assert(input@.skip(0) =~= input@);
    }
    let i: usize = match find_from(input, 0, ':') {
        Some(i) => i,
        None => {
            return None;
        },
    };
    let end: usize = match find_from(input, i + 1, ':') {
        Some(j) => j,
        None => n,
    };
    let seg = input.substring_char(i + 1, end);
    proof {
        let rest = input@.skip(i + 1);
        match spec_find(rest, ':') {
            Some(j) => {
                assert(seg@ =~= rest.take(j));
            },
            None => {
                assert(seg@ =~= rest);
            },
        }
    }
    Some(trim(seg).to_owned())
}

/// The snapshot after one status line: the line's label decides which
/// field is set from the colon-separated value; a line that matches no
/// label leaves the snapshot unchanged; a value that cannot be decoded
/// fails the whole parse.
pub open spec fn spec_apply_status_line(st: StatusV, line: Seq<char>) -> Result<StatusV, Error> {
    if spec_match_split(line, "firmware"@) is Some {
        Ok(
            StatusV {
                version: spec_match_split(line, "firmware"@)->Some_0,
                config: st.config,
                max_pkt_size: st.max_pkt_size,
                frequency_centi_mhz: st.frequency_centi_mhz,
                rx_listener: st.rx_listener,
                rx_bad: st.rx_bad,
                rx_good: st.rx_good,
                tx_good: st.tx_good,
            },
        )
    } else if spec_match_split(line, "max pkt size"@) is Some {
        match spec_parse_usize(spec_match_split(line, "max pkt size"@)->Some_0) {
            None => Err(Error::Decode),
            Some(v) => Ok(
                StatusV {
                    version: st.version,
                    config: st.config,
                    max_pkt_size: v,
                    frequency_centi_mhz: st.frequency_centi_mhz,
                    rx_listener: st.rx_listener,
                    rx_bad: st.rx_bad,
                    rx_good: st.rx_good,
                    tx_good: st.tx_good,
                },
            ),
        }
    } else if spec_match_split(line, "frequency"@) is Some {
        match spec_parse_centi_mhz(spec_match_split(line, "frequency"@)->Some_0) {
            None => Err(Error::Decode),
            Some(v) => Ok(
                StatusV {
                    version: st.version,
                    config: st.config,
                    max_pkt_size: st.max_pkt_size,
                    frequency_centi_mhz: v,
                    rx_listener: st.rx_listener,
                    rx_bad: st.rx_bad,
                    rx_good: st.rx_good,
                    tx_good: st.tx_good,
                },
            ),
        }
    } else if spec_match_split(line, "rx listener"@) is Some {
        match spec_parse_usize(spec_match_split(line, "rx listener"@)->Some_0) {
            None => Err(Error::Decode),
            Some(v) => Ok(
                StatusV {
                    version: st.version,
                    config: st.config,
                    max_pkt_size: st.max_pkt_size,
                    frequency_centi_mhz: st.frequency_centi_mhz,
                    rx_listener: v == 1,
                    rx_bad: st.rx_bad,
                    rx_good: st.rx_good,
                    tx_good: st.tx_good,
                },
            ),
        }
    } else if spec_match_split(line, "rx bad"@) is Some {
        match spec_parse_usize(spec_match_split(line, "rx bad"@)->Some_0) {
            None => Err(Error::Decode),
            Some(v) => Ok(
                StatusV {
                    version: st.version,
                    config: st.config,
                    max_pkt_size: st.max_pkt_size,
                    frequency_centi_mhz: st.frequency_centi_mhz,
                    rx_listener: st.rx_listener,
                    rx_bad: v,
                    rx_good: st.rx_good,
                    tx_good: st.tx_good,
                },
            ),
        }
    } else if spec_match_split(line, "rx good"@) is Some {
        match spec_parse_usize(spec_match_split(line, "rx good"@)->Some_0) {
            None => Err(Error::Decode),
            Some(v) => Ok(
                StatusV {
                    version: st.version,
                    config: st.config,
                    max_pkt_size: st.max_pkt_size,
                    frequency_centi_mhz: st.frequency_centi_mhz,
                    rx_listener: st.rx_listener,
                    rx_bad: st.rx_bad,
                    rx_good: v,
                    tx_good: st.tx_good,
                },
            ),
        }
    } else if spec_match_split(line, "tx good"@) is Some {
        match spec_parse_usize(spec_match_split(line, "tx good"@)->Some_0) {
            None => Err(Error::Decode),
            Some(v) => Ok(
                StatusV {
                    version: st.version,
                    config: st.config,
                    max_pkt_size: st.max_pkt_size,
                    frequency_centi_mhz: st.frequency_centi_mhz,
                    rx_listener: st.rx_listener,
                    rx_bad: st.rx_bad,
                    rx_good: st.rx_good,
                    tx_good: v,
                },
            ),
        }
    } else if spec_match_split(line, "modem config"@) is Some {
        let v = spec_match_split(line, "modem config"@)->Some_0;
        let cut = match spec_find(v, '|') {
            None => v,
            Some(k) => v.take(k),
        };
        match spec_parse_usize(spec_trim(cut)) {
            None => Err(Error::Decode),
            Some(code) => match ModemConfig::spec_try_from(code) {
                Ok(m) => Ok(
                    StatusV {
                        version: st.version,
                        config: m,
                        max_pkt_size: st.max_pkt_size,
                        frequency_centi_mhz: st.frequency_centi_mhz,
                        rx_listener: st.rx_listener,
                        rx_bad: st.rx_bad,
                        rx_good: st.rx_good,
                        tx_good: st.tx_good,
                    },
                ),
                Err(e) => Err(e),
            },
        }
    } else {
        Ok(st)
    }
}

/// `line` carries one of the eight labels the status parser reads.
pub open spec fn spec_line_recognized(line: Seq<char>) -> bool {
    ||| spec_match_split(line, "firmware"@) is Some
    ||| spec_match_split(line, "max pkt size"@) is Some
    ||| spec_match_split(line, "frequency"@) is Some
    ||| spec_match_split(line, "rx listener"@) is Some
    ||| spec_match_split(line, "rx bad"@) is Some
    ||| spec_match_split(line, "rx good"@) is Some
    ||| spec_match_split(line, "tx good"@) is Some
    ||| spec_match_split(line, "modem config"@) is Some
}

/// Applies one status line to a snapshot, as [`spec_apply_status_line`]
/// reads it.
#[verifier::rlimit(50)]
pub fn apply_status_line(st: &Status, line: &str) -> (r: Result<Status, Error>)
    ensures
        match spec_apply_status_line(st@, line@) {
            Ok(v) => r matches Ok(s2) && s2@ == v,
            Err(e) => r == Err::<Status, Error>(e),
        },
{
    if let Some(v) = match_split(line, "firmware") {
        let s2 = Status {
            version: v,
            config: st.config,
            max_pkt_size: st.max_pkt_size,
            frequency_centi_mhz: st.frequency_centi_mhz,
            rx_listener: st.rx_listener,
            rx_bad: st.rx_bad,
            rx_good: st.rx_good,
            tx_good: st.tx_good,
        };
        proof {
            assert(s2@ =~= spec_apply_status_line(st@, line@)->Ok_0);
        }
        return Ok(s2);
    }
    if let Some(v) = match_split(line, "max pkt size") {
        return match parse_usize(v.as_str()) {
            None => Err(Error::Decode),
            Some(x) => {
                let s2 = Status {
                    version: st.version.clone(),
                    config: st.config,
                    max_pkt_size: x,
                    frequency_centi_mhz: st.frequency_centi_mhz,
                    rx_listener: st.rx_listener,
                    rx_bad: st.rx_bad,
                    rx_good: st.rx_good,
                    tx_good: st.tx_good,
                };
                proof {
                    assert(s2@ =~= spec_apply_status_line(st@, line@)->Ok_0);
                }
                Ok(s2)
            },
        };
    }
    if let Some(v) = match_split(line, "frequency") {
        return match parse_centi_mhz(v.as_str()) {
            None => Err(Error::Decode),
            Some(x) => {
                let s2 = Status {
                    version: st.version.clone(),
                    config: st.config,
                    max_pkt_size: st.max_pkt_size,
                    frequency_centi_mhz: x,
                    rx_listener: st.rx_listener,
                    rx_bad: st.rx_bad,
                    rx_good: st.rx_good,
                    tx_good: st.tx_good,
                };
                proof {
                    assert(s2@ =~= spec_apply_status_line(st@, line@)->Ok_0);
                }
                Ok(s2)
            },
        };
    }
    if let Some(v) = match_split(line, "rx listener") {
        return match parse_usize(v.as_str()) {
            None => Err(Error::Decode),
            Some(x) => {
                let s2 = Status {
                    version: st.version.clone(),
                    config: st.config,
                    max_pkt_size: st.max_pkt_size,
                    frequency_centi_mhz: st.frequency_centi_mhz,
                    rx_listener: x == 1,
                    rx_bad: st.rx_bad,
                    rx_good: st.rx_good,
                    tx_good: st.tx_good,
                };
                proof {
                    assert(s2@ =~= spec_apply_status_line(st@, line@)->Ok_0);
                }
                Ok(s2)
            },
        };
    }
    if let Some(v) = match_split(line, "rx bad") {
        return match parse_usize(v.as_str()) {
            None => Err(Error::Decode),
            Some(x) => {
                let s2 = Status {
                    version: st.version.clone(),
                    config: st.config,
                    max_pkt_size: st.max_pkt_size,
                    frequency_centi_mhz: st.frequency_centi_mhz,
                    rx_listener: st.rx_listener,
                    rx_bad: x,
                    rx_good: st.rx_good,
                    tx_good: st.tx_good,
                };
                proof {
                    assert(s2@ =~= spec_apply_status_line(st@, line@)->Ok_0);
                }
                Ok(s2)
            },
        };
    }
    if let Some(v) = match_split(line, "rx good") {
        return match parse_usize(v.as_str()) {
            None => Err(Error::Decode),
            Some(x) => {
                let s2 = Status {
                    version: st.version.clone(),
                    config: st.config,
                    max_pkt_size: st.max_pkt_size,
                    frequency_centi_mhz: st.frequency_centi_mhz,
                    rx_listener: st.rx_listener,
                    rx_bad: st.rx_bad,
                    rx_good: x,
                    tx_good: st.tx_good,
                };
                proof {
                    assert(s2@ =~= spec_apply_status_line(st@, line@)->Ok_0);
                }
                Ok(s2)
            },
        };
    }
    if let Some(v) = match_split(line, "tx good") {
        return match parse_usize(v.as_str()) {
            None => Err(Error::Decode),
            Some(x) => {
                let s2 = Status {
                    version: st.version.clone(),
                    config: st.config,
                    max_pkt_size: st.max_pkt_size,
                    frequency_centi_mhz: st.frequency_centi_mhz,
                    rx_listener: st.rx_listener,
                    rx_bad: st.rx_bad,
                    rx_good: st.rx_good,
                    tx_good: x,
                };
                proof {
                    assert(s2@ =~= spec_apply_status_line(st@, line@)->Ok_0);
                }
                Ok(s2)
            },
        };
    }
    if let Some(v) = match_split(line, "modem config") {
        proof {
            assert(v@.skip(0) =~= v@);
        }
        let vn: usize = v.as_str().unicode_len();
        let cut_end: usize = match find_from(v.as_str(), 0, '|') {
            Some(k) => k,
            None => vn,
        };
        let cut = v.as_str().substring_char(0, cut_end);
        proof {
            let sv = spec_match_split(line@, "modem config"@)->Some_0;
            match spec_find(sv, '|') {
                Some(k) => {
                    assert(cut@ =~= sv.take(k));
                },
                None => {
                    assert(cut@ =~= sv);
                },
            }
        }
        let code_str = trim(cut);
        return match parse_usize(code_str) {
            None => Err(Error::Decode),
            Some(code) => match ModemConfig::try_from(code) {
                Err(e) => Err(e),
                Ok(m) => {
                    let s2 = Status {
                        version: st.version.clone(),
                        config: m,
                        max_pkt_size: st.max_pkt_size,
                        frequency_centi_mhz: st.frequency_centi_mhz,
                        rx_listener: st.rx_listener,
                        rx_bad: st.rx_bad,
                        rx_good: st.rx_good,
                        tx_good: st.tx_good,
                    };
                    proof {
                        assert(s2@ =~= spec_apply_status_line(st@, line@)->Ok_0);
                    }
                    Ok(s2)
                },
            },
        };
    }
    let s2 = Status {
        version: st.version.clone(),
        config: st.config,
        max_pkt_size: st.max_pkt_size,
        frequency_centi_mhz: st.frequency_centi_mhz,
        rx_listener: st.rx_listener,
        rx_bad: st.rx_bad,
        rx_good: st.rx_good,
        tx_good: st.tx_good,
    };
    proof {
        assert(s2@ =~= st@);
    }
    Ok(s2)
}

/// The snapshot the status lines denote, folded from `st`: lines are
/// applied in order until the first line starting `+OK`, which ends the
/// parse with the snapshot built so far; a sequence without a terminator
/// is a protocol mismatch.
pub open spec fn spec_parse_status_from(st: StatusV, lines: Seq<Seq<char>>) -> Result<
    StatusV,
    Error,
>
    decreases lines.len(),
{
    if lines.len() == 0 {
        Err(Error::UnexpectedResponse)
    } else if spec_starts_with(lines[0], "+OK"@) {
        Ok(st)
    } else {
        match spec_apply_status_line(st, lines[0]) {
            Ok(st2) => spec_parse_status_from(st2, lines.drop_first()),
            Err(e) => Err(e),
        }
    }
}

/// The snapshot a status response denotes, folded from the fresh default
/// snapshot.
pub open spec fn spec_parse_status(lines: Seq<Seq<char>>) -> Result<StatusV, Error> {
    spec_parse_status_from(spec_default_status(), lines)
}

/// Parses the collected status response lines, as [`spec_parse_status`]
/// reads them.
pub fn parse_status(lines: &Vec<String>) -> (r: Result<Status, Error>)
    ensures
        match spec_parse_status(lines.deep_view()) {
            Ok(v) => r matches Ok(st) && st@ == v,
            Err(e) => r == Err::<Status, Error>(e),
        },
{
    let mut st = Status::new();
    let mut i: usize = 0;
    proof {
        assert(lines.deep_view().skip(0) =~= lines.deep_view());
    }
    while i < lines.len()
        invariant
            i <= lines@.len(),
            lines.deep_view().len() == lines@.len(),
            spec_parse_status(lines.deep_view()) == spec_parse_status_from(
                st@,
                lines.deep_view().skip(i as int),
            ),
        decreases lines@.len() - i,
    {
        let line = &lines[i];
        proof {
            assert(lines.deep_view().skip(i as int)[0] == lines.deep_view()[i as int]);
            assert(lines.deep_view()[i as int] == lines@[i as int]@);
            assert(lines.deep_view().skip(i as int).drop_first() =~= lines.deep_view().skip(i + 1));
        }
        if starts_with(line.as_str(), "+OK") {
            return Ok(st);
        }
        st = match apply_status_line(&st, line.as_str()) {
            Ok(s2) => s2,
            Err(e) => {
                return Err(e);
            },
        };
        i = i + 1;
    }
    Err(Error::UnexpectedResponse)
}

/// Law: status parsing ignores unrecognized label lines — inserting a
/// line that carries none of the eight labels and is no terminator
/// anywhere into a status response leaves the parse result unchanged.
pub proof fn lemma_status_ignores_unrecognized(
    st: StatusV,
    lines: Seq<Seq<char>>,
    k: int,
    junk: Seq<char>,
)
    requires
        !spec_line_recognized(junk),
        !spec_starts_with(junk, "+OK"@),
        0 <= k <= lines.len(),
    ensures
        spec_parse_status_from(st, lines.insert(k, junk)) == spec_parse_status_from(st, lines),
    decreases k,
{
    if k == 0 {
        assert(lines.insert(0, junk)[0] == junk);
        assert(lines.insert(0, junk).drop_first() =~= lines);
        assert(spec_apply_status_line(st, junk) == Ok::<StatusV, Error>(st));
    } else {
        assert(lines.insert(k, junk)[0] == lines[0]);
        assert(lines.insert(k, junk).drop_first() =~= lines.drop_first().insert(k - 1, junk));
        if !spec_starts_with(lines[0], "+OK"@) {
            match spec_apply_status_line(st, lines[0]) {
                Ok(st2) => {
                    lemma_status_ignores_unrecognized(st2, lines.drop_first(), k - 1, junk);
                },
                Err(_) => {},
            }
        }
    }
}

/// Law: status parsing stops exactly at the first line starting `+OK` —
/// the lines after it have no effect on the result.
pub proof fn lemma_status_stops_at_ok(st: StatusV, lines: Seq<Seq<char>>, i: int)
    requires
        0 <= i < lines.len(),
        spec_starts_with(lines[i], "+OK"@),
        forall|j: int| 0 <= j < i ==> !spec_starts_with(#[trigger] lines[j], "+OK"@),
    ensures
        spec_parse_status_from(st, lines) == spec_parse_status_from(st, lines.take(i + 1)),
    decreases i,
{
    if i == 0 {
        assert(lines.take(1)[0] == lines[0]);
    } else {
        assert(lines.take(i + 1)[0] == lines[0]);
        assert(lines.take(i + 1).drop_first() =~= lines.drop_first().take(i));
        match spec_apply_status_line(st, lines[0]) {
            Ok(st2) => {
                assert(lines.drop_first()[i - 1] == lines[i]);
                assert forall|j: int| 0 <= j < i - 1 implies !spec_starts_with(
                    #[trigger] lines.drop_first()[j],
                    "+OK"@,
                ) by {
                    assert(lines.drop_first()[j] == lines[j + 1]);
                }
                lemma_status_stops_at_ok(st2, lines.drop_first(), i - 1);
            },
            Err(_) => {},
        }
    }
}

/// One status line is applied, ignored, or fails to decode: its only
/// failures are a decode failure and an unknown profile.
proof fn lemma_apply_error_kinds(st: StatusV, line: Seq<char>)
    ensures
        spec_apply_status_line(st, line) matches Err(e) ==> (e == Error::Decode || e
            == Error::UnknownProfile),
{
}

/// Every failure of the status fold is a protocol mismatch, a decode
/// failure, or an unknown profile.
pub proof fn lemma_status_error_kinds(st: StatusV, lines: Seq<Seq<char>>)
    ensures
        spec_parse_status_from(st, lines) matches Err(e) ==> (e == Error::UnexpectedResponse || e
            == Error::Decode || e == Error::UnknownProfile),
    decreases lines.len(),
{
    if lines.len() > 0 && !spec_starts_with(lines[0], "+OK"@) {
        lemma_apply_error_kinds(st, lines[0]);
        match spec_apply_status_line(st, lines[0]) {
            Ok(st2) => {
                lemma_status_error_kinds(st2, lines.drop_first());
            },
            Err(_) => {},
        }
    }
}

/// A status response that holds a terminator line never fails as a
/// protocol mismatch.
pub proof fn lemma_status_terminated(st: StatusV, lines: Seq<Seq<char>>, i: int)
    requires
        0 <= i < lines.len(),
        spec_starts_with(lines[i], "+OK"@),
    ensures
        spec_parse_status_from(st, lines) != Err::<StatusV, Error>(Error::UnexpectedResponse),
    decreases i,
{
    if !spec_starts_with(lines[0], "+OK"@) {
        lemma_apply_error_kinds(st, lines[0]);
        match spec_apply_status_line(st, lines[0]) {
            Ok(st2) => {
                assert(lines.drop_first()[i - 1] == lines[i]);
                lemma_status_terminated(st2, lines.drop_first(), i - 1);
            },
            Err(_) => {},
        }
    }
}

/// The byte count a send acknowledgment line reports: the line must
/// start with `+SENT ` and split on whitespace into exactly three fields,
/// else the line is a protocol mismatch; the second field must be a
/// number, else a decode failure; the number must equal the payload
/// length handed to the modem, else a length mismatch.
pub open spec fn spec_parse_send(line: Seq<char>, expected: usize) -> Result<usize, Error> {
    if spec_starts_with(line, "+SENT "@) && spec_ws_tokens(line).len() == 3 {
        match spec_parse_usize(spec_ws_tokens(line)[1]) {
            None => Err(Error::Decode),
            Some(n) => if n == expected {
                Ok(n)
            } else {
                Err(Error::LengthMismatch)
            },
        }
    } else {
        Err(Error::UnexpectedResponse)
    }
}

/// Parses the acknowledgment line of a send, as [`spec_parse_send`]
/// reads it. On success the returned count equals `expected`.
pub fn parse_send_response(line: &str, expected: usize) -> (r: Result<usize, Error>)
    ensures
        r == spec_parse_send(line@, expected),
        r matches Ok(n) ==> n == expected,
{
    let toks = ws_tokens(line);
    if starts_with(line, "+SENT ") && toks.len() == 3 {
        let t1 = &toks[1];
        proof {
            assert(toks.deep_view()[1] == toks@[1]@);
        }
        match parse_usize(t1.as_str()) {
            None => Err(Error::Decode),
            Some(n) => {
                if n == expected {
                    Ok(n)
                } else {
                    Err(Error::LengthMismatch)
                }
            },
        }
    } else {
        Err(Error::UnexpectedResponse)
    }
}

/// The acknowledgment decision: accepts a response line exactly when it
/// starts with the wanted prefix, and classifies any other line as a
/// protocol mismatch.
pub fn require_prefix(line: String, prefix: &str) -> (r: Result<String, Error>)
    ensures
        spec_starts_with(line@, prefix@) ==> r == Ok::<String, Error>(line),
        !spec_starts_with(line@, prefix@) ==> r == Err::<String, Error>(
            Error::UnexpectedResponse,
        ),
{
    if starts_with(line.as_str(), prefix) {
        Ok(line)
    } else {
        Err(Error::UnexpectedResponse)
    }
}

/// The command line that requests the status report.
pub open spec fn spec_info_command() -> Seq<char> {
    "AT+INFO\n"@
}

/// Frames the status request command.
pub fn info_command() -> (r: &'static str)
    ensures
        r@ == spec_info_command(),
{
    "AT+INFO\n"
}

/// The command line that selects a radio configuration preset.
pub open spec fn spec_mode_command(mode: ModemConfig) -> Seq<char> {
    "AT+MODE="@ + dec_digits(mode.spec_wire_code() as int) + "\n"@
}

/// Frames the mode command for a preset.
pub fn mode_command(mode: ModemConfig) -> (r: String)
    ensures
        r@ == spec_mode_command(mode),
{
    let mut s = String::from_str("AT+MODE=");
    s.append(digit_str(mode.wire_code() as u8));
    s.append("\n");
    proof {
        assert(dec_digits(mode.spec_wire_code() as int) =~= seq![
            digit_char(mode.spec_wire_code() as int),
        ]);
        assert(s@ =~= spec_mode_command(mode));
    }
    s
}

/// The command line that sets the frequency, in MHz with two digits
/// after the decimal point, framed from a count of centi-MHz.
pub open spec fn spec_freq_command(centi_mhz: u32) -> Seq<char> {
    "AT+FREQ="@ + dec_digits(centi_mhz as int / 100) + "."@ + seq![
        digit_char((centi_mhz as int % 100) / 10),
        digit_char(centi_mhz as int % 10),
    ] + "\n"@
}

/// Frames the frequency command from a count of centi-MHz.
pub fn freq_command(centi_mhz: u32) -> (r: String)
    ensures
        r@ == spec_freq_command(centi_mhz),
{
    let mut s = String::from_str("AT+FREQ=");
    let whole = u32_dec(centi_mhz / 100);
    s.append(whole.as_str());
    s.append(".");
    s.append(digit_str(((centi_mhz % 100) / 10) as u8));
    s.append(digit_str((centi_mhz % 10) as u8));
    s.append("\n");
    proof {
        assert(s@ =~= spec_freq_command(centi_mhz));
    }
    s
}

/// The command line that transmits a payload: the bytes as lowercase hex.
pub open spec fn spec_tx_command(data: Seq<u8>) -> Seq<char> {
    "AT+TX="@ + spec_hexify(data) + "\n"@
}

/// Frames the transmit command for a payload.
pub fn tx_command(data: &[u8]) -> (r: String)
    ensures
        r@ == spec_tx_command(data@),
{
    let mut s = String::from_str("AT+TX=");
    let h = hexify(data);
    s.append(h.as_str());
    s.append("\n");
    proof {
        assert(s@ =~= spec_tx_command(data@));
    }
    s
}

} // verus!
