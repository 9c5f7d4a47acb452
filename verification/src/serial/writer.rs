//! What the writing side does with each command it receives.
use vstd::prelude::*;
use super::TxCommand;

verus! {

/// What the writer does with the port next.
pub enum WriterStep {
    /// Write these bytes and flush.
    Write(Vec<u8>),
    /// Set the DTR line.
    SetDtr(bool),
    /// Set the RTS line.
    SetRts(bool),
    /// Stop writing.
    Stop,
}

/// The writer's decision for the next command, `None` meaning the console
/// has dropped the channel: bytes are written, lines set, and a close
/// request or a dropped channel stops it.
pub fn writer_step(cmd: Option<TxCommand>) -> (step: WriterStep)
    ensures
        match cmd {
            Some(TxCommand::Send(d)) => step matches WriterStep::Write(w) && w@ == d@,
            Some(TxCommand::SetDtr(v)) => step == WriterStep::SetDtr(v),
            Some(TxCommand::SetRts(v)) => step == WriterStep::SetRts(v),
            Some(TxCommand::Close) => step is Stop,
            None => step is Stop,
        },
{
    match cmd {
        Some(TxCommand::Send(d)) => WriterStep::Write(d),
        Some(TxCommand::SetDtr(v)) => WriterStep::SetDtr(v),
        Some(TxCommand::SetRts(v)) => WriterStep::SetRts(v),
        Some(TxCommand::Close) | None => WriterStep::Stop,
    }
}

} // verus!
