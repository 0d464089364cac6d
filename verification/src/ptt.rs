//! Push-to-talk: the recording flag and what is announced when it changes.

use vstd::prelude::*;

verus! {

/// The event under which a change of the recording state is announced.
pub const PTT_EVENT: &'static str = "ptt:stateChanged";

/// The event under which new settings are announced.
pub const SETTINGS_EVENT: &'static str = "settings:updated";

/// What a push-to-talk input asks for.
#[derive(Debug, Clone, Copy, PartialEq, Eq)]
pub enum PttCommand {
    /// Start recording.
    Start,
    /// Stop recording and process what was recorded.
    Stop,
    /// The hotkey: start when idle, stop when recording.
    Toggle,
}

/// The phase that is announced after a command.
#[derive(Debug, Clone, Copy, PartialEq, Eq)]
pub enum PttPhase {
    Recording,
    Processing,
}

impl PttPhase {
    /// The payload of the announcement.
    pub open spec fn label_text(self) -> Seq<char> {
        match self {
            PttPhase::Recording => "recording"@,
            PttPhase::Processing => "processing"@,
        }
    }

    pub fn label(self) -> (text: &'static str)
        ensures
            text@ == self.label_text(),
    {
        match self {
            PttPhase::Recording => "recording",
            PttPhase::Processing => "processing",
        }
    }
}

/// Whether recording is on after `command`, given whether it was on before.
pub open spec fn recording_after(recording: bool, command: PttCommand) -> bool {
    match command {
        PttCommand::Start => true,
        PttCommand::Stop => false,
        PttCommand::Toggle => !recording,
    }
}

/// Applies `command` to the recording flag and says what to announce: the
/// recording phase when recording is on afterwards, the processing phase
/// when it is off.
pub fn ptt_step(recording: bool, command: PttCommand) -> (next: (bool, PttPhase))
    ensures
        next.0 == recording_after(recording, command),
        next.1 == if next.0 {
            PttPhase::Recording
        } else {
            PttPhase::Processing
        },
{
    let on = match command {
        PttCommand::Start => true,
        PttCommand::Stop => false,
        PttCommand::Toggle => !recording,
    };
    if on {
        (true, PttPhase::Recording)
    } else {
        (false, PttPhase::Processing)
    }
}

/// Two presses of the hotkey bring the recording flag back to where it was.
pub proof fn lemma_toggle_twice(recording: bool)
    ensures
        recording_after(recording_after(recording, PttCommand::Toggle), PttCommand::Toggle)
            == recording,
{
}

} // verus!
