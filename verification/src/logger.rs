//! What the log file receives for each event, in each of its formats.  The
//! file itself is opened and written by the program around the library.
use vstd::prelude::*;
use vstd::string::StringSliceAdditionalSpecFns;
use vstd::utf8::encode_utf8;
use crate::text::{
    hex_spaced,
    lossy_string,
    lowered,
    push_hex_spaced,
    push_str,
    str_equals,
    string_from_chars,
    to_lowercase,
    utf8_lossy,
    chars_of,
};

verus! {

broadcast use vstd::string::group_string_axioms;

/// How traffic is written to the log file.
#[derive(Debug, Clone, Copy, PartialEq, Eq, Structural)]
pub enum LogFormat {
    /// Timestamped lines with the data as text.
    Text,
    /// Timestamped lines with the data as hex bytes.
    Hex,
    /// The data bytes only, as they were.
    Raw,
}

/// The log format a word names: "hex" and "raw" in any case; anything else
/// means text.
#[verifier::opaque]
pub open spec fn log_format_of(word: Seq<char>) -> LogFormat {
    if lowered(word) == "hex"@ {
        LogFormat::Hex
    } else if lowered(word) == "raw"@ {
        LogFormat::Raw
    } else {
        LogFormat::Text
    }
}

/// Which log format `word` names, ignoring case.
pub fn log_format_from_word(word: &str) -> (f: LogFormat)
    ensures
        f == log_format_of(word@),
{
    reveal(log_format_of);
    let lower = to_lowercase(word);
    if str_equals(lower.as_str(), "hex") {
        LogFormat::Hex
    } else if str_equals(lower.as_str(), "raw") {
        LogFormat::Raw
    } else {
        LogFormat::Text
    }
}

/// The line written for traffic in a timestamped format: `[ts] TAG: body`
/// and a newline.
pub open spec fn traffic_line(ts: Seq<char>, tag: Seq<char>, body: Seq<char>) -> Seq<char> {
    seq!['['] + ts + seq![']', ' '] + tag + seq![':', ' '] + body + seq!['\n']
}

/// The bytes written for `data` sent or received (`tag` being `RX` or `TX`),
/// stamped `ts`: the data as text or as hex in a timestamped line, or the
/// data itself in raw format.
pub open spec fn traffic_record(format: LogFormat, ts: Seq<char>, tag: Seq<char>, data: Seq<u8>) -> Seq<u8> {
    match format {
        LogFormat::Text => encode_utf8(traffic_line(ts, tag, utf8_lossy(data))),
        LogFormat::Hex => encode_utf8(traffic_line(ts, tag, hex_spaced(data))),
        LogFormat::Raw => data,
    }
}

/// The bytes of a string.
fn bytes_of(s: &str) -> (v: Vec<u8>)
    ensures
        v@ == s.spec_bytes(),
{
    let b = s.as_bytes();
    let mut v: Vec<u8> = Vec::new();
    let mut i: usize = 0;
    while i < b.len()
        invariant
            i <= b@.len(),
            v@ == b@.take(i as int),
        decreases b.len() - i,
    {
        v.push(b[i]);
        i += 1;
        proof {
            assert(v@ =~= b@.take(i as int));
        }
    }
    assert(b@.take(b@.len() as int) =~= b@);
    v
}

/// The bytes to append to the log file for traffic (see `traffic_record`).
pub fn traffic_record_bytes(format: LogFormat, ts: &str, tag: &str, data: &[u8]) -> (v: Vec<u8>)
    ensures
        v@ == traffic_record(format, ts@, tag@, data@),
{
    match format {
        LogFormat::Raw => {
            let mut v: Vec<u8> = Vec::new();
            let mut i: usize = 0;
            while i < data.len()
                invariant
                    i <= data@.len(),
                    v@ == data@.take(i as int),
                decreases data.len() - i,
            {
                v.push(data[i]);
                i += 1;
                proof {
                    assert(v@ =~= data@.take(i as int));
                }
            }
            assert(data@.take(data@.len() as int) =~= data@);
            v
        },
        _ => {
            let mut line: Vec<char> = Vec::new();
            line.push('[');
            push_str(&mut line, ts);
            line.push(']');
            line.push(' ');
            push_str(&mut line, tag);
            line.push(':');
            line.push(' ');
            let ghost body;
            match format {
                LogFormat::Hex => {
                    push_hex_spaced(&mut line, data);
                    proof {
                        body = hex_spaced(data@);
                    }
                },
                _ => {
                    let text = lossy_string(data);
                    push_str(&mut line, text.as_str());
                    proof {
                        body = utf8_lossy(data@);
                    }
                },
            }
            line.push('\n');
            assert(line@ =~= traffic_line(ts@, tag@, body));
            let s = string_from_chars(&line);
            bytes_of(s.as_str())
        },
    }
}

/// The line marking that the log was cleared at `ts`, in the timestamped
/// formats; nothing in raw format.
pub open spec fn cleared_record(format: LogFormat, ts: Seq<char>) -> Option<Seq<char>> {
    if format == LogFormat::Raw {
        None
    } else {
        Some("--- [CLEARED at "@ + ts + "] ---\n"@)
    }
}

/// The line marking that the log was cleared (see `cleared_record`).
pub fn cleared_record_text(format: LogFormat, ts: &str) -> (r: Option<String>)
    ensures
        r matches Some(s) ==> cleared_record(format, ts@) == Some(s@),
        r is None <==> cleared_record(format, ts@) is None,
{
    if format == LogFormat::Raw {
        return None;
    }
    let mut line: Vec<char> = chars_of("--- [CLEARED at ");
    push_str(&mut line, ts);
    push_str(&mut line, "] ---\n");
    Some(string_from_chars(&line))
}

/// The line recording a console message `msg` at `ts`, in the timestamped
/// formats; nothing in raw format.
pub open spec fn system_record(format: LogFormat, ts: Seq<char>, msg: Seq<char>) -> Option<Seq<char>> {
    if format == LogFormat::Raw {
        None
    } else {
        Some(traffic_line(ts, "SYS"@, msg))
    }
}

/// The line recording a console message (see `system_record`).
pub fn system_record_text(format: LogFormat, ts: &str, msg: &str) -> (r: Option<String>)
    ensures
        r matches Some(s) ==> system_record(format, ts@, msg@) == Some(s@),
        r is None <==> system_record(format, ts@, msg@) is None,
{
    if format == LogFormat::Raw {
        return None;
    }
    let mut line: Vec<char> = Vec::new();
    line.push('[');
    push_str(&mut line, ts);
    line.push(']');
    line.push(' ');
    push_str(&mut line, "SYS");
    line.push(':');
    line.push(' ');
    push_str(&mut line, msg);
    line.push('\n');
    assert(line@ =~= traffic_line(ts@, "SYS"@, msg@));
    Some(string_from_chars(&line))
}

/// The log format words name the formats they spell, in any case: "hex"
/// and "raw", and any other word is the text format.
pub proof fn law_log_format_words(w: Seq<char>)
    ensures
        (log_format_of(w) == LogFormat::Hex) <==> lowered(w) == "hex"@,
        (log_format_of(w) == LogFormat::Raw) <==> lowered(w) == "raw"@,
        (log_format_of(w) == LogFormat::Text) <==> (lowered(w) != "hex"@ && lowered(w) != "raw"@),
{
    reveal(log_format_of);
    reveal_strlit("hex");
    reveal_strlit("raw");
    assert("hex"@[0] != "raw"@[0]);
}

} // verus!
