use vstd::prelude::*;

use crate::model::{AppEvent, ControlEventType};

verus! {

/// The code of a terminal key press, as far as the control listener and the
/// menu read it.
#[derive(Clone, Copy, Debug, PartialEq, Eq, Structural)]
pub enum TermKeyCode {
    Char(char),
    Up,
    Down,
    Enter,
    Other,
}

/// A terminal key press: its code, and whether Control was the one modifier held.
#[derive(Clone, Copy, Debug, PartialEq, Eq, Structural)]
pub struct TermKey {
    pub code: TermKeyCode,
    pub control_only: bool,
}

/// A raw terminal input event.
#[derive(Clone, Copy, Debug, PartialEq, Eq, Structural)]
pub enum TermEvent {
    Key(TermKey),
    Resize,
    Other,
}

/// What the control listener does with a terminal event.
#[derive(Clone, Copy, Debug, PartialEq, Eq, Structural)]
pub enum ControlAction {
    /// Send the event and keep listening.
    Send(AppEvent),
    /// Send the event and stop listening.
    SendAndStop(AppEvent),
    Ignore,
}

/// Whether a key press is Ctrl+C or Ctrl+Q.
pub open spec fn is_quit_chord(k: TermKey) -> bool {
    k.control_only && (k.code == TermKeyCode::Char('c') || k.code == TermKeyCode::Char('q'))
}

/// Whether a key press is Ctrl+R.
pub open spec fn is_reset_chord(k: TermKey) -> bool {
    k.control_only && k.code == TermKeyCode::Char('r')
}

/// The control listener's rule: Ctrl+C or Ctrl+Q terminates (and ends the
/// listener), Ctrl+R resets, a resize is passed on, and all else is ignored.
pub open spec fn spec_control_action(e: TermEvent) -> ControlAction {
    match e {
        TermEvent::Key(k) => if is_quit_chord(k) {
            ControlAction::SendAndStop(AppEvent::ControlEvent(ControlEventType::Terminate))
        } else if is_reset_chord(k) {
            ControlAction::Send(AppEvent::ControlEvent(ControlEventType::Reset))
        } else {
            ControlAction::Ignore
        },
        TermEvent::Resize => ControlAction::Send(AppEvent::ScreenResize),
        TermEvent::Other => ControlAction::Ignore,
    }
}

/// Translates one terminal event into what the control listener sends.
pub fn control_action(e: TermEvent) -> (r: ControlAction)
    ensures
        r == spec_control_action(e),
{
    match e {
        TermEvent::Key(k) => match k.code {
            TermKeyCode::Char('c') | TermKeyCode::Char('q') => {
                if k.control_only {
                    ControlAction::SendAndStop(AppEvent::ControlEvent(ControlEventType::Terminate))
                } else {
                    ControlAction::Ignore
                }
            },
            TermKeyCode::Char('r') => {
                if k.control_only {
                    ControlAction::Send(AppEvent::ControlEvent(ControlEventType::Reset))
                } else {
                    ControlAction::Ignore
                }
            },
            _ => ControlAction::Ignore,
        },
        TermEvent::Resize => ControlAction::Send(AppEvent::ScreenResize),
        TermEvent::Other => ControlAction::Ignore,
    }
}

} // verus!
