//! What the reading side does with each attempt to read the port.
use vstd::prelude::*;
use super::SerialEvent;

verus! {

/// The outcome of one read from the port.
pub enum ReadOutcome {
    /// The bytes read; possibly none.
    Bytes(Vec<u8>),
    /// The read timed out with nothing to report.
    TimedOut,
    /// The read failed, with the error's text.
    Failed(String),
}

/// What the reader does next.
pub enum ReaderStep {
    /// Read again.
    Continue,
    /// Report this event, then read again (unless the console has gone).
    Report(SerialEvent),
    /// Report these events and stop reading.
    Finish(Vec<SerialEvent>),
}

/// The reader's decision after one read: nothing read and time-outs are
/// passed over; bytes are reported as data; any other failure is reported
/// as an error followed by a disconnection, and reading stops.
pub fn reader_step(outcome: ReadOutcome) -> (step: ReaderStep)
    ensures
        match outcome {
            ReadOutcome::Bytes(b) => if b@.len() == 0 {
                step is Continue
            } else {
                step matches ReaderStep::Report(SerialEvent::Data(d)) && d@ == b@
            },
            ReadOutcome::TimedOut => step is Continue,
            ReadOutcome::Failed(msg) => {
                &&& step matches ReaderStep::Finish(events)
                &&& events@.len() == 2
                &&& events@[0] matches SerialEvent::Error(m)
                &&& m@ == msg@
                &&& events@[1] is Disconnected
            },
        },
{
    match outcome {
        ReadOutcome::Bytes(b) => {
            if b.len() == 0 {
                ReaderStep::Continue
            } else {
                ReaderStep::Report(SerialEvent::Data(b))
            }
        },
        ReadOutcome::TimedOut => ReaderStep::Continue,
        ReadOutcome::Failed(msg) => {
            let mut events: Vec<SerialEvent> = Vec::new();
            events.push(SerialEvent::Error(msg));
            events.push(SerialEvent::Disconnected);
            ReaderStep::Finish(events)
        },
    }
}

} // verus!
