//! The state of the tray shell and its reactions.
//!
//! The shell owns one switch, whether monitoring is enabled. It polls on a
//! timer tick while enabled, flips the switch from its menu, and suspends
//! itself when the configuration turns out to be malformed, since polling
//! again would only repeat the error. A pixel buffer that is not made of
//! whole pixels is a fault of the clipboard provider, not a condition to
//! live with: on it the shell stops the program.

use crate::application::clipboard_service::ProcessResult;
use crate::application::poll::{malformed_message, result_view, PollView, MALFORMED_BUFFER};
use crate::domain::text::{begins_with, contains, occurs_in, starts_with};
use vstd::prelude::*;

verus! {

/// Clipboard polling interval when enabled, in milliseconds.
pub const POLL_INTERVAL_MS: u64 = 500;

/// The words by which an error text tells that the configuration could not
/// be parsed.
pub const CONFIG_PARSE_MARKER: &'static str = "config parse error";

/// Whether an error text reports a configuration that could not be parsed.
pub fn is_config_parse_error(message: &str) -> (yes: bool)
    ensures
        yes == occurs_in(CONFIG_PARSE_MARKER@, message@),
{
    contains(message, CONFIG_PARSE_MARKER)
}

/// Whether an error text reports a pixel buffer that is not made of whole
/// pixels.
pub fn is_malformed_buffer_error(message: &str) -> (yes: bool)
    ensures
        yes == begins_with(MALFORMED_BUFFER@, message@),
{
    starts_with(message, MALFORMED_BUFFER)
}

/// What happened that the shell has to react to.
#[derive(Debug, Clone, Copy, PartialEq, Eq, Structural)]
pub enum TrayEvent {
    /// The poll timer fired.
    Tick,
    /// The user chose the enable/disable item of the menu.
    ToggleChosen,
    /// The user chose to quit.
    QuitChosen,
}

/// What the shell does next.
#[derive(Debug, Clone, Copy, PartialEq, Eq, Structural)]
pub enum TrayCommand {
    /// Nothing but to wait for the next event.
    Wait,
    /// Poll the clipboard once.
    Poll,
    /// Monitoring was switched on: the menu item now offers to disable it.
    ShowDisable,
    /// Monitoring was switched off: the menu item now offers to enable it.
    ShowEnable,
    /// Leave the event loop.
    Exit,
}

/// How the outcome of a poll is shown.
#[derive(Debug, Clone, Copy, PartialEq, Eq, Structural)]
pub enum Notice {
    /// Nothing is shown.
    Quiet,
    /// An image was processed.
    Success,
    /// The poll failed; the error is logged and polling goes on.
    Failure,
    /// The configuration is malformed: the user is alerted, and monitoring
    /// is suspended.
    ConfigAlert,
    /// The clipboard provider handed over a buffer that is not made of whole
    /// pixels: the program stops with the error.
    Fatal,
}

/// The notice that the outcome of a poll calls for.
pub open spec fn notice_for(outcome: Result<ProcessResult, Seq<char>>) -> Notice {
    match outcome {
        Ok(ProcessResult::Processed) => Notice::Success,
        Ok(ProcessResult::NoImage) => Notice::Quiet,
        Ok(ProcessResult::Skipped) => Notice::Quiet,
        Err(message) => if begins_with(MALFORMED_BUFFER@, message) {
            Notice::Fatal
        } else if occurs_in(CONFIG_PARSE_MARKER@, message) {
            Notice::ConfigAlert
        } else {
            Notice::Failure
        },
    }
}

/// Of the errors that a poll ends with, the one for a broken pixel buffer is
/// fatal, and no other is: the failure of a collaborator, whatever text it
/// comes with, is never taken for a broken buffer.
pub proof fn lemma_only_the_broken_buffer_is_fatal(poll: PollView, detail: Seq<char>, len: nat)
    requires
        !(poll is Done),
    ensures
        notice_for(Err(malformed_message(len))) == Notice::Fatal,
        notice_for(Err(poll.failure_message(detail))) != Notice::Fatal,
{
    reveal_strlit("pixel buffer length must be a multiple of 4, got ");
    reveal_strlit("failed to read change count: ");
    reveal_strlit("failed to read clipboard: ");
    reveal_strlit("failed to load config: ");
    reveal_strlit("failed to write clipboard: ");
    reveal_strlit("failed to read change count after write: ");
    let marker = MALFORMED_BUFFER@;
    let broken = malformed_message(len);
    assert(broken.subrange(0, marker.len() as int) =~= marker);
    let failure = poll.failure_message(detail);
    assert(failure[0] == 'f');
    assert(marker[0] == 'p');
    if begins_with(marker, failure) {
        assert(failure.subrange(0, marker.len() as int)[0] == marker[0]);
    }
}

/// The text of the menu item that switches monitoring, given whether
/// monitoring is enabled: the item names what a click would do.
pub open spec fn toggle_label(enabled: bool) -> Seq<char> {
    if enabled {
        "Disable"@
    } else {
        "Enable"@
    }
}

/// The state of the shell: whether monitoring is enabled.
#[derive(Debug)]
pub struct TrayState {
    enabled: bool,
}

impl TrayState {
    /// Whether monitoring is enabled, for use in contracts.
    pub closed spec fn spec_is_enabled(&self) -> bool {
        self.enabled
    }

    /// The shell as it starts: monitoring is enabled.
    pub fn new() -> (state: Self)
        ensures
            state.is_enabled(),
    {
        Self { enabled: true }
    }

    /// Whether monitoring is enabled.
    #[verifier::when_used_as_spec(spec_is_enabled)]
    pub fn is_enabled(&self) -> (enabled: bool)
        ensures
            enabled == self.is_enabled(),
    {
        self.enabled
    }

    /// The text the menu item that switches monitoring carries now.
    pub fn label(&self) -> (text: &'static str)
        ensures
            text@ == toggle_label(self.is_enabled()),
    {
        if self.enabled {
            "Disable"
        } else {
            "Enable"
        }
    }

    /// Reacts to an event. A tick polls while monitoring is enabled and
    /// does nothing while it is not; the toggle flips the switch and tells
    /// which text the menu item gets; quitting leaves the switch alone.
    pub fn on_event(&mut self, event: TrayEvent) -> (command: TrayCommand)
        ensures
            final(self).is_enabled() == (if event == TrayEvent::ToggleChosen {
                !old(self).is_enabled()
            } else {
                old(self).is_enabled()
            }),
            command == (match event {
                TrayEvent::Tick => if old(self).is_enabled() {
                    TrayCommand::Poll
                } else {
                    TrayCommand::Wait
                },
                TrayEvent::ToggleChosen => if old(self).is_enabled() {
                    TrayCommand::ShowEnable
                } else {
                    TrayCommand::ShowDisable
                },
                TrayEvent::QuitChosen => TrayCommand::Exit,
            }),
    {
        match event {
            TrayEvent::Tick => if self.enabled {
                TrayCommand::Poll
            } else {
                TrayCommand::Wait
            },
            TrayEvent::ToggleChosen => {
                let was_enabled = self.enabled;
                self.enabled = !was_enabled;
                if was_enabled {
                    TrayCommand::ShowEnable
                } else {
                    TrayCommand::ShowDisable
                }
            },
            TrayEvent::QuitChosen => TrayCommand::Exit,
        }
    }

    /// Takes the outcome of a poll and tells how to show it. An error that
    /// reports a broken pixel buffer is fatal. Of the others, one that
    /// reports a malformed configuration switches monitoring off until the
    /// user switches it on again; nothing else touches the switch.
    pub fn on_poll_outcome(&mut self, outcome: &Result<ProcessResult, String>) -> (notice: Notice)
        ensures
            notice == notice_for(result_view(*outcome)),
            final(self).is_enabled() == (old(self).is_enabled() && notice != Notice::ConfigAlert),
    {
        match outcome {
            Ok(ProcessResult::Processed) => Notice::Success,
            Ok(ProcessResult::NoImage) => Notice::Quiet,
            Ok(ProcessResult::Skipped) => Notice::Quiet,
            Err(message) => if is_malformed_buffer_error(message.as_str()) {
                Notice::Fatal
            } else if is_config_parse_error(message.as_str()) {
                self.enabled = false;
                Notice::ConfigAlert
            } else {
                Notice::Failure
            },
        }
    }
}

} // verus!
