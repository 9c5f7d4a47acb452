//! Serial-port settings, the modem control lines, and the messages that
//! pass between the console and the threads that read and write the port.
pub mod reader;
pub mod writer;

use vstd::prelude::*;
use crate::text::{lowered, push_decimal, decimal, str_equals, string_from_chars, to_lowercase};

verus! {

/// Bits per character.
#[derive(Debug, Clone, Copy, PartialEq, Eq, Structural)]
pub enum DataBits {
    Five,
    Six,
    Seven,
    Eight,
}

/// Parity checking.
#[derive(Debug, Clone, Copy, PartialEq, Eq, Structural)]
pub enum Parity {
    NoParity,
    Odd,
    Even,
}

/// Stop bits per character.
#[derive(Debug, Clone, Copy, PartialEq, Eq, Structural)]
pub enum StopBits {
    One,
    Two,
}

/// Flow control.
#[derive(Debug, Clone, Copy, PartialEq, Eq, Structural)]
pub enum FlowControl {
    NoFlowControl,
    Software,
    Hardware,
}

/// How a port is opened.  Parity and flow control are kept as the words the
/// user gave ("none", "odd", "even"; "none", "hardware", "software"), in any
/// case.
#[derive(Debug, Clone)]
pub struct SerialConfig {
    pub baud_rate: u32,
    pub data_bits: u8,
    pub parity: String,
    pub stop_bits: u8,
    pub flow_control: String,
    pub dtr: bool,
    pub rts: bool,
    pub timeout_ms: u64,
}

/// The parity a parity word selects: "odd" and "even" in any case; anything
/// else means none.
#[verifier::opaque]
pub open spec fn parity_of(word: Seq<char>) -> Parity {
    if lowered(word) == "odd"@ {
        Parity::Odd
    } else if lowered(word) == "even"@ {
        Parity::Even
    } else {
        Parity::NoParity
    }
}

/// The flow control a flow word selects: "hardware" and "software" in any
/// case; anything else means none.
#[verifier::opaque]
pub open spec fn flow_control_of(word: Seq<char>) -> FlowControl {
    if lowered(word) == "hardware"@ {
        FlowControl::Hardware
    } else if lowered(word) == "software"@ {
        FlowControl::Software
    } else {
        FlowControl::NoFlowControl
    }
}

/// The letter for a parity in a settings summary.
pub open spec fn parity_letter(p: Parity) -> char {
    match p {
        Parity::Odd => 'O',
        Parity::Even => 'E',
        Parity::NoParity => 'N',
    }
}

/// Which parity word `word` is, ignoring case.
pub fn parity_from_word(word: &str) -> (p: Parity)
    ensures
        p == parity_of(word@),
{
    reveal(parity_of);
    let lower = to_lowercase(word);
    if str_equals(lower.as_str(), "odd") {
        Parity::Odd
    } else if str_equals(lower.as_str(), "even") {
        Parity::Even
    } else {
        Parity::NoParity
    }
}

/// Which flow-control word `word` is, ignoring case.
pub fn flow_control_from_word(word: &str) -> (f: FlowControl)
    ensures
        f == flow_control_of(word@),
{
    reveal(flow_control_of);
    let lower = to_lowercase(word);
    if str_equals(lower.as_str(), "hardware") {
        FlowControl::Hardware
    } else if str_equals(lower.as_str(), "software") {
        FlowControl::Software
    } else {
        FlowControl::NoFlowControl
    }
}

impl Default for SerialConfig {
    fn default() -> (c: Self)
        ensures
            c.baud_rate == 115200,
            c.data_bits == 8,
            c.parity@ == "none"@,
            c.stop_bits == 1,
            c.flow_control@ == "none"@,
            !c.dtr,
            !c.rts,
            c.timeout_ms == 100,
    {
        SerialConfig {
            baud_rate: 115200,
            data_bits: 8,
            parity: "none".to_owned(),
            stop_bits: 1,
            flow_control: "none".to_owned(),
            dtr: false,
            rts: false,
            timeout_ms: 100,
        }
    }
}

impl SerialConfig {
    /// The text `summary` of a configuration: baud rate, a space, then data
    /// bits, parity letter and stop bits run together, e.g. `115200 8N1`.
    pub open spec fn summary(&self) -> Seq<char> {
        decimal(self.baud_rate as nat) + seq![' '] + decimal(self.data_bits as nat) + seq![
            parity_letter(parity_of(self.parity@)),
        ] + decimal(self.stop_bits as nat)
    }

    /// 5, 6 and 7 data bits as given; any other count means 8.
    pub fn to_serialport_data_bits(&self) -> (d: DataBits)
        ensures
            d == (if self.data_bits == 5 {
                DataBits::Five
            } else if self.data_bits == 6 {
                DataBits::Six
            } else if self.data_bits == 7 {
                DataBits::Seven
            } else {
                DataBits::Eight
            }),
    {
        match self.data_bits {
            5 => DataBits::Five,
            6 => DataBits::Six,
            7 => DataBits::Seven,
            _ => DataBits::Eight,
        }
    }

    pub fn to_serialport_parity(&self) -> (p: Parity)
        ensures
            p == parity_of(self.parity@),
    {
        parity_from_word(self.parity.as_str())
    }

    /// 2 stop bits as given; any other count means 1.
    pub fn to_serialport_stop_bits(&self) -> (s: StopBits)
        ensures
            s == (if self.stop_bits == 2 {
                StopBits::Two
            } else {
                StopBits::One
            }),
    {
        if self.stop_bits == 2 {
            StopBits::Two
        } else {
            StopBits::One
        }
    }

    pub fn to_serialport_flow_control(&self) -> (f: FlowControl)
        ensures
            f == flow_control_of(self.flow_control@),
    {
        flow_control_from_word(self.flow_control.as_str())
    }

    /// The settings summary shown in the status bar (see `summary`).
    pub fn description(&self) -> (s: String)
        ensures
            s@ == self.summary(),
    {
        let letter = match parity_from_word(self.parity.as_str()) {
            Parity::Odd => 'O',
            Parity::Even => 'E',
            Parity::NoParity => 'N',
        };
        let mut v: Vec<char> = Vec::new();
        push_decimal(&mut v, self.baud_rate as u64);
        v.push(' ');
        push_decimal(&mut v, self.data_bits as u64);
        v.push(letter);
        push_decimal(&mut v, self.stop_bits as u64);
        assert(v@ =~= self.summary());
        string_from_chars(&v)
    }
}

/// The RS-232 control lines: the two the console drives and the four it
/// watches.
#[derive(Debug, Clone, Copy)]
pub struct ControlSignals {
    pub dtr: bool,
    pub rts: bool,
    pub cts: bool,
    pub dsr: bool,
    pub dcd: bool,
    pub ri: bool,
}

impl Default for ControlSignals {
    fn default() -> (s: Self)
        ensures
            !s.dtr && !s.rts && !s.cts && !s.dsr && !s.dcd && !s.ri,
    {
        ControlSignals { dtr: false, rts: false, cts: false, dsr: false, dcd: false, ri: false }
    }
}

/// What the reading side reports to the console.
#[derive(Debug)]
pub enum SerialEvent {
    Data(Vec<u8>),
    Error(String),
    Disconnected,
}

/// What the console asks of the writing side.
#[derive(Debug)]
pub enum TxCommand {
    Send(Vec<u8>),
    SetDtr(bool),
    SetRts(bool),
    Close,
}

/// The flow-control words name the flow control they spell, in any case:
/// "hardware" is RTS/CTS, "software" is XON/XOFF, and any other word is none.
pub proof fn law_flow_control_words(w: Seq<char>)
    ensures
        (flow_control_of(w) == FlowControl::Hardware) <==> lowered(w) == "hardware"@,
        (flow_control_of(w) == FlowControl::Software) <==> lowered(w) == "software"@,
        (flow_control_of(w) == FlowControl::NoFlowControl) <==> (lowered(w) != "hardware"@
            && lowered(w) != "software"@),
{
    reveal(flow_control_of);
    reveal_strlit("hardware");
    reveal_strlit("software");
    assert("hardware"@[0] != "software"@[0]);
}

/// The parity words name the parity they spell, in any case: "odd" and
/// "even", and any other word is no parity.
pub proof fn law_parity_words(w: Seq<char>)
    ensures
        (parity_of(w) == Parity::Odd) <==> lowered(w) == "odd"@,
        (parity_of(w) == Parity::Even) <==> lowered(w) == "even"@,
        (parity_of(w) == Parity::NoParity) <==> (lowered(w) != "odd"@ && lowered(w) != "even"@),
{
    reveal(parity_of);
    reveal_strlit("odd");
    reveal_strlit("even");
    assert("odd"@.len() != "even"@.len());
}

} // verus!
