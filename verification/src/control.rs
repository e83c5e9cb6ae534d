//! The main loop's decisions.
//!
//! The program is in one of three phases: it keeps the taskbar hidden, it
//! lets the taskbar show, or it is quitting. Tray-menu clicks and
//! messages from other invocations arrive as the same three events. For
//! each event the controller says what is to be done to the system, and
//! the caller does it.

use crate::appbar::{
    is_taskbar_visible, set_taskbar_state, show_command, with_autohide, TaskbarStateManager,
    WindowCommand,
};
use crate::instance::InstanceCheck;
use crate::ipc::IPCMessage;
use crate::taskbar::WindowHandle;
use vstd::prelude::*;

verus! {

/// The pause between two looks of the monitor at the taskbar, in
/// milliseconds.
pub const TASKBAR_MONITOR_INTERVAL_MS: u64 = 500;

/// The phase of the main loop.
#[derive(Clone, Copy, Debug, PartialEq, Eq, Structural)]
pub enum Phase {
    /// The taskbar is kept hidden. This is the phase after startup.
    Hidden,
    /// The taskbar is left visible.
    Shown,
    /// Quit was asked for; the event loop is ending. No event changes
    /// this phase.
    Quitting,
}

/// What the caller has to do to the system after an event.
#[derive(Clone, Copy, Debug, PartialEq, Eq, Structural)]
pub struct Effects {
    /// Write this value to the AppBar state.
    pub appbar_write: Option<u32>,
    /// Show (`true`) or hide (`false`) every taskbar window.
    pub show_taskbars: Option<bool>,
    /// Leave the event loop.
    pub exit: bool,
}

impl Effects {
    /// Nothing to do.
    pub open spec fn nothing() -> Effects {
        Effects { appbar_write: None, show_taskbars: None, exit: false }
    }
}

/// The controller as contracts see it.
pub struct ControlState {
    pub phase: Phase,
    /// The AppBar state that was found at startup.
    pub original: u32,
}

impl ControlState {
    /// The visibility intent: whether the monitor is to hide the taskbar
    /// again whenever it shows up.
    pub open spec fn should_hide(self) -> bool {
        self.phase == Phase::Hidden
    }

    /// The state after `event`.
    pub open spec fn step(self, event: IPCMessage) -> ControlState {
        if self.phase == Phase::Quitting {
            self
        } else {
            ControlState {
                phase: match event {
                    IPCMessage::Show => Phase::Shown,
                    IPCMessage::Hide => Phase::Hidden,
                    IPCMessage::Quit => Phase::Quitting,
                },
                original: self.original,
            }
        }
    }

    /// What `event` asks of the system in this state.
    ///
    /// Show and Quit hand back the AppBar state found at startup and show
    /// the taskbars; Hide enforces auto-hide and hides them; Quit also ends
    /// the loop. Once quitting, nothing is asked any more.
    pub open spec fn effects(self, event: IPCMessage) -> Effects {
        if self.phase == Phase::Quitting {
            Effects::nothing()
        } else {
            match event {
                IPCMessage::Show => Effects {
                    appbar_write: Some(self.original),
                    show_taskbars: Some(true),
                    exit: false,
                },
                IPCMessage::Hide => Effects {
                    appbar_write: Some(with_autohide(self.original)),
                    show_taskbars: Some(false),
                    exit: false,
                },
                IPCMessage::Quit => Effects {
                    appbar_write: Some(self.original),
                    show_taskbars: Some(true),
                    exit: true,
                },
            }
        }
    }

    /// The state after all of `events`, handled in order.
    pub open spec fn run(self, events: Seq<IPCMessage>) -> ControlState
        decreases events.len(),
    {
        if events.len() == 0 {
            self
        } else {
            self.run(events.drop_last()).step(events.last())
        }
    }

    /// What each of `events` asked of the system, in order.
    pub open spec fn trace(self, events: Seq<IPCMessage>) -> Seq<Effects>
        decreases events.len(),
    {
        if events.len() == 0 {
            Seq::empty()
        } else {
            self.trace(events.drop_last()).push(
                self.run(events.drop_last()).effects(events.last()),
            )
        }
    }
}

/// The AppBar state of a system that was in `state` and on which the
/// writes of `effects` were performed in order.
pub open spec fn appbar_after(state: u32, effects: Seq<Effects>) -> u32
    decreases effects.len(),
{
    if effects.len() == 0 {
        state
    } else {
        match effects.last().appbar_write {
            Some(value) => value,
            None => appbar_after(state, effects.drop_last()),
        }
    }
}

/// The state machine of the main loop.
pub struct Controller {
    phase: Phase,
    manager: TaskbarStateManager,
}

impl View for Controller {
    type V = ControlState;

    closed spec fn view(&self) -> ControlState {
        ControlState { phase: self.phase, original: self.manager.original() }
    }
}

impl Controller {
    /// Begins the session, if this is the only instance.
    ///
    /// `check` is the outcome of the single-instance check and
    /// `appbar_state` the AppBar state as it was read just now. Unless
    /// the singleton was acquired there is no controller and there are no
    /// effects: an instance that lost the race asks nothing of the
    /// taskbar. Otherwise the session starts in the hidden phase, with
    /// auto-hide enforced and the taskbars hidden.
    pub fn start(check: InstanceCheck, appbar_state: u32) -> (begun: Option<(Controller, Effects)>)
        ensures
            begun is Some <==> check.spec_may_start(),
            begun matches Some((controller, effects)) ==> {
                &&& controller@ == (ControlState { phase: Phase::Hidden, original: appbar_state })
                &&& effects == (Effects {
                    appbar_write: Some(with_autohide(appbar_state)),
                    show_taskbars: Some(false),
                    exit: false,
                })
            },
    {
        if !check.may_start() {
            return None;
        }
        let (manager, _first_write) = TaskbarStateManager::new(appbar_state);
        let effects = Effects {
            appbar_write: Some(manager.enforce()),
            show_taskbars: Some(false),
            exit: false,
        };
        Some((Controller { phase: Phase::Hidden, manager }, effects))
    }

    /// The current phase.
    pub fn phase(&self) -> (phase: Phase)
        ensures
            phase == self@.phase,
    {
        self.phase
    }

    /// The visibility intent: whether the monitor is to keep the taskbar
    /// hidden.
    pub fn should_hide(&self) -> (hide: bool)
        ensures
            hide == self@.should_hide(),
    {
        self.phase == Phase::Hidden
    }

    /// The AppBar state to write when the session ends for any reason:
    /// the one found at startup.
    pub fn restore(&self) -> (state: u32)
        ensures
            state == self@.original,
    {
        self.manager.restore()
    }

    /// Handles one event, from the tray menu or from another invocation,
    /// and says what the caller has to do.
    pub fn handle_event(&mut self, event: IPCMessage) -> (effects: Effects)
        ensures
            final(self)@ == old(self)@.step(event),
            effects == old(self)@.effects(event),
    {
        if self.phase == Phase::Quitting {
            return Effects { appbar_write: None, show_taskbars: None, exit: false };
        }
        match event {
            IPCMessage::Show => {
                self.phase = Phase::Shown;
                Effects {
                    appbar_write: Some(self.manager.restore()),
                    show_taskbars: Some(true),
                    exit: false,
                }
            },
            IPCMessage::Hide => {
                self.phase = Phase::Hidden;
                Effects {
                    appbar_write: Some(self.manager.enforce()),
                    show_taskbars: Some(false),
                    exit: false,
                }
            },
            IPCMessage::Quit => {
                self.phase = Phase::Quitting;
                Effects {
                    appbar_write: Some(self.manager.restore()),
                    show_taskbars: Some(true),
                    exit: true,
                }
            },
        }
    }
}

/// The commands of one look of the monitor.
pub open spec fn monitor_commands(
    should_hide: bool,
    taskbars: Seq<WindowHandle>,
    visible: Seq<bool>,
) -> Seq<WindowCommand> {
    if should_hide && exists|i: int| 0 <= i < visible.len() && visible[i] {
        Seq::new(
            taskbars.len(),
            |i: int| WindowCommand { window: taskbars[i], command: show_command(false) },
        )
    } else {
        Seq::empty()
    }
}

/// One look of the monitor: if the taskbar is to be kept hidden and any
/// taskbar window is visible, every taskbar gets the hide command again;
/// otherwise nothing is done. `visible` holds the visibility of each
/// taskbar as it was just read.
pub fn monitor_tick(should_hide: bool, taskbars: &[WindowHandle], visible: &[bool]) -> (commands:
    Vec<WindowCommand>)
    ensures
        commands@ == monitor_commands(should_hide, taskbars@, visible@),
{
    if should_hide && is_taskbar_visible(visible) {
        let commands = set_taskbar_state(taskbars, false);
        assert(commands@ =~= monitor_commands(should_hide, taskbars@, visible@));
        commands
    } else {
        Vec::new()
    }
}

/// While no Quit arrives, the loop is never quitting.
pub proof fn lemma_running_without_quit(state: ControlState, events: Seq<IPCMessage>)
    requires
        state.phase != Phase::Quitting,
        forall|i: int| 0 <= i < events.len() ==> events[i] != IPCMessage::Quit,
    ensures
        state.run(events).phase != Phase::Quitting,
        state.run(events).original == state.original,
        state.trace(events).len() == events.len(),
        forall|i: int| 0 <= i < events.len() ==> !(#[trigger] state.trace(events)[i]).exit,
    decreases events.len(),
{
    if events.len() > 0 {
        lemma_running_without_quit(state, events.drop_last());
    }
}

/// After any sequence of Show and Hide events, the visibility intent is
/// that of the last one: hide exactly if the last event was Hide.
pub proof fn lemma_intent_follows_last_event(state: ControlState, events: Seq<IPCMessage>)
    requires
        state.phase != Phase::Quitting,
        events.len() > 0,
        forall|i: int| 0 <= i < events.len() ==> events[i] != IPCMessage::Quit,
    ensures
        state.run(events).should_hide() == (events.last() == IPCMessage::Hide),
{
    lemma_running_without_quit(state, events.drop_last());
}

/// On the path to a Quit, whatever Show and Hide events came before: the
/// Quit is the one event that ends the loop, it hands back the AppBar
/// state found at startup, and that is the state the system is left in.
pub proof fn lemma_quit_restores_original(
    state: ControlState,
    events: Seq<IPCMessage>,
    appbar: u32,
)
    requires
        state.phase != Phase::Quitting,
        forall|i: int| 0 <= i < events.len() ==> events[i] != IPCMessage::Quit,
    ensures
        ({
            let all = events.push(IPCMessage::Quit);
            &&& state.run(all).phase == Phase::Quitting
            &&& !state.run(all).should_hide()
            &&& state.trace(all).len() == all.len()
            &&& state.trace(all).last() == (Effects {
                appbar_write: Some(state.original),
                show_taskbars: Some(true),
                exit: true,
            })
            &&& forall|i: int| 0 <= i < events.len() ==> !(#[trigger] state.trace(all)[i]).exit
            &&& appbar_after(appbar, state.trace(all)) == state.original
        }),
{
    let all = events.push(IPCMessage::Quit);
    assert(all.drop_last() == events);
    lemma_running_without_quit(state, events);
    assert(state.trace(all) == state.trace(events).push(
        state.run(events).effects(IPCMessage::Quit),
    ));
}

/// Quitting is final: no later event changes the state or asks anything
/// of the system, so the AppBar state stays as the quit left it.
pub proof fn lemma_quitting_is_terminal(state: ControlState, events: Seq<IPCMessage>, appbar: u32)
    requires
        state.phase == Phase::Quitting,
    ensures
        state.run(events) == state,
        state.trace(events).len() == events.len(),
        forall|i: int| 0 <= i < events.len() ==> #[trigger] state.trace(events)[i] == Effects::nothing(),
        appbar_after(appbar, state.trace(events)) == appbar,
    decreases events.len(),
{
    if events.len() > 0 {
        lemma_quitting_is_terminal(state, events.drop_last(), appbar);
        assert(state.trace(events).drop_last() == state.trace(events.drop_last()));
    }
}

} // verus!
