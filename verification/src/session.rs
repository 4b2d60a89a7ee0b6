//! The decision core of running one remote command over a session
//! channel: which events change the recorded exit status, which produce
//! output, and when the run is over. The hosting runtime performs the
//! connecting, sending and waiting and feeds every received event
//! through `step`.

use vstd::prelude::*;

verus! {

/// One event observed on the session channel while a command runs.
#[derive(Debug, PartialEq, Eq)]
pub enum ChannelEvent {
    /// The remote side produced output bytes.
    Data(Vec<u8>),
    /// The command returned an exit status. More data may still follow,
    /// so this does not end the run by itself.
    ExitStatus(u32),
    /// Any other channel event; ignored.
    Other,
}

/// What the hosting runtime must do with one event.
#[derive(Debug, PartialEq, Eq)]
pub enum ChannelAction {
    /// Write these bytes to the output.
    WriteOutput(Vec<u8>),
    /// Nothing to do for this event.
    Nothing,
}

/// The progress of one remote command: the exit status seen so far, and
/// whether the channel is exhausted.
#[derive(Debug, Clone, Copy, PartialEq, Eq)]
pub struct RemoteExec {
    /// The exit status the command reported, once it did.
    pub exit_code: Option<u32>,
    /// Whether the channel reported no further events.
    pub finished: bool,
}

impl RemoteExec {
    /// The state before any event was received.
    pub fn new() -> (r: RemoteExec)
        ensures
            r.exit_code is None,
            !r.finished,
    {
        RemoteExec { exit_code: None, finished: false }
    }

    /// Consumes one event from the channel, `None` when the channel is
    /// exhausted: output is handed back for writing, an exit status is
    /// recorded (the last one seen wins), everything else is ignored.
    pub fn step(&mut self, event: Option<ChannelEvent>) -> (a: ChannelAction)
        requires
            !old(self).finished,
        ensures
            match event {
                None => *final(self) == (RemoteExec {
                    exit_code: old(self).exit_code,
                    finished: true,
                }) && a == ChannelAction::Nothing,
                Some(ChannelEvent::Data(d)) => *final(self) == *old(self) && a
                    == ChannelAction::WriteOutput(d),
                Some(ChannelEvent::ExitStatus(code)) => *final(self) == (RemoteExec {
                    exit_code: Some(code),
                    finished: false,
                }) && a == ChannelAction::Nothing,
                Some(ChannelEvent::Other) => *final(self) == *old(self) && a
                    == ChannelAction::Nothing,
            },
    {
        match event {
            None => {
                self.finished = true;
                ChannelAction::Nothing
            },
            Some(ChannelEvent::Data(d)) => ChannelAction::WriteOutput(d),
            Some(ChannelEvent::ExitStatus(code)) => {
                self.exit_code = Some(code);
                ChannelAction::Nothing
            },
            Some(ChannelEvent::Other) => ChannelAction::Nothing,
        }
    }

    /// The run's result once the channel is exhausted: the exit status,
    /// or nothing when the command never reported one — the hosting
    /// runtime treats that as the program not exiting cleanly.
    pub fn result(&self) -> (r: Option<u32>)
        requires
            self.finished,
        ensures
            r == self.exit_code,
    {
        self.exit_code
    }
}

} // verus!
