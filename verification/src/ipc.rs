//! The private window messages by which a command-line invocation talks
//! to the running instance.
//!
//! The running instance owns a message-only window of a fixed class.
//! Another invocation finds that window by its class name and posts one
//! of three message identifiers to it. The messages carry no payload and
//! get no reply.

use crate::text::{to_wide, wide};
use vstd::prelude::*;

verus! {

/// The first identifier of the range that the system reserves for an
/// application's private messages.
pub const WM_APP: u32 = 0x8000;

/// The last identifier of that range.
pub const WM_APP_LAST: u32 = 0xBFFF;

/// "Show the taskbar."
pub const WM_THIDE_SHOW: u32 = 0x8001;

/// "Hide the taskbar."
pub const WM_THIDE_HIDE: u32 = 0x8002;

/// "Restore the taskbar and quit."
pub const WM_THIDE_QUIT: u32 = 0x8003;

/// What one invocation can tell the running instance.
#[derive(Clone, Copy, Debug, PartialEq, Eq, Structural)]
pub enum IPCMessage {
    Show,
    Hide,
    Quit,
}

impl IPCMessage {
    /// The message identifier that stands for this event.
    pub open spec fn spec_id(self) -> u32 {
        match self {
            IPCMessage::Show => WM_THIDE_SHOW,
            IPCMessage::Hide => WM_THIDE_HIDE,
            IPCMessage::Quit => WM_THIDE_QUIT,
        }
    }

    /// The event that a message identifier stands for, if any.
    pub open spec fn spec_from_id(msg: u32) -> Option<IPCMessage> {
        if msg == WM_THIDE_SHOW {
            Some(IPCMessage::Show)
        } else if msg == WM_THIDE_HIDE {
            Some(IPCMessage::Hide)
        } else if msg == WM_THIDE_QUIT {
            Some(IPCMessage::Quit)
        } else {
            None
        }
    }

    /// The message identifier to post for this event.
    #[verifier::when_used_as_spec(spec_id)]
    pub fn id(self) -> (msg: u32)
        ensures
            msg == self.spec_id(),
    {
        match self {
            IPCMessage::Show => WM_THIDE_SHOW,
            IPCMessage::Hide => WM_THIDE_HIDE,
            IPCMessage::Quit => WM_THIDE_QUIT,
        }
    }

    /// The event that a received message identifier stands for; `None`
    /// for every identifier that is not one of the three.
    #[verifier::when_used_as_spec(spec_from_id)]
    pub fn from_id(msg: u32) -> (event: Option<IPCMessage>)
        ensures
            event == IPCMessage::spec_from_id(msg),
    {
        if msg == WM_THIDE_SHOW {
            Some(IPCMessage::Show)
        } else if msg == WM_THIDE_HIDE {
            Some(IPCMessage::Hide)
        } else if msg == WM_THIDE_QUIT {
            Some(IPCMessage::Quit)
        } else {
            None
        }
    }
}

/// Every event survives the trip through its identifier, the three
/// identifiers lie in the private range, and an identifier stands for
/// an event only if it is that event's own.
pub proof fn lemma_message_ids(event: IPCMessage, msg: u32)
    ensures
        IPCMessage::spec_from_id(event.spec_id()) == Some(event),
        WM_APP < event.spec_id() <= WM_APP_LAST,
        IPCMessage::spec_from_id(msg) == Some(event) <==> msg == event.spec_id(),
{
}

/// The class name of the listener window.
pub open spec fn ipc_window_class() -> Seq<char> {
    "THideIPCWindow"@
}

/// The class name of the listener window.
pub fn get_ipc_window_class() -> (class: &'static str)
    ensures
        class@ == ipc_window_class(),
{
    "THideIPCWindow"
}

/// The identifiers of the show, hide and quit messages, in this order.
pub fn get_message_ids() -> (ids: (u32, u32, u32))
    ensures
        ids == (WM_THIDE_SHOW, WM_THIDE_HIDE, WM_THIDE_QUIT),
        ids.0 == IPCMessage::Show.spec_id(),
        ids.1 == IPCMessage::Hide.spec_id(),
        ids.2 == IPCMessage::Quit.spec_id(),
{
    (WM_THIDE_SHOW, WM_THIDE_HIDE, WM_THIDE_QUIT)
}

/// The class name of the listener window as a zero-terminated UTF-16
/// string, the form in which it is registered and looked up.
pub fn get_ipc_window_class_utf16() -> (class: Vec<u16>)
    ensures
        class@ == wide(ipc_window_class()),
{
    to_wide(get_ipc_window_class())
}

/// What the listener's window procedure does with a message.
#[derive(Clone, Copy, Debug, PartialEq, Eq, Structural)]
pub struct ProcDecision {
    /// The event to forward to the main loop.
    pub event: Option<IPCMessage>,
    /// Ask the message pump of the listener thread to end.
    pub post_quit: bool,
    /// Hand the message to the default window procedure and return what
    /// it returns. Otherwise the procedure returns zero.
    pub pass_to_default: bool,
}

/// The decision for message `msg`.
pub open spec fn proc_decision(msg: u32) -> ProcDecision {
    ProcDecision {
        event: IPCMessage::spec_from_id(msg),
        post_quit: msg == WM_THIDE_QUIT,
        pass_to_default: IPCMessage::spec_from_id(msg) is None,
    }
}

/// Decides what the listener's window procedure does with message `msg`.
///
/// The three private messages are forwarded as events and answered with
/// zero; the quit message also ends the listener's message pump. Every
/// other message goes to the default window procedure.
pub fn ipc_window_proc(msg: u32) -> (decision: ProcDecision)
    ensures
        decision == proc_decision(msg),
{
    let event = IPCMessage::from_id(msg);
    match event {
        Some(IPCMessage::Quit) => ProcDecision { event, post_quit: true, pass_to_default: false },
        Some(_) => ProcDecision { event, post_quit: false, pass_to_default: false },
        None => ProcDecision { event, post_quit: false, pass_to_default: true },
    }
}

} // verus!
