//! The shell's auto-hide setting and the show/hide commands for taskbar
//! windows.
//!
//! The auto-hide setting is one bit of a system-wide bitmask. The program
//! forces that bit on while it keeps the taskbar hidden and must hand the
//! original bitmask back when it is done. This module decides which value
//! is written; the caller performs the write.

use crate::taskbar::WindowHandle;
use vstd::prelude::*;

verus! {

/// The auto-hide bit of the AppBar state bitmask.
pub const ABS_AUTOHIDE: u32 = 0x1;

/// The `ShowWindow` command that hides a window.
pub const SW_HIDE: i32 = 0;

/// The `ShowWindow` command that shows a window.
pub const SW_SHOW: i32 = 5;

/// A bitmask with the auto-hide bit forced on and every other bit kept.
pub open spec fn with_autohide(state: u32) -> u32 {
    state | ABS_AUTOHIDE
}

/// Forcing the bit sets it, changes no other bit, and is idempotent; it
/// changes the mask exactly when the bit was clear.
pub proof fn lemma_with_autohide(state: u32)
    ensures
        with_autohide(state) & ABS_AUTOHIDE == ABS_AUTOHIDE,
        with_autohide(state) & !ABS_AUTOHIDE == state & !ABS_AUTOHIDE,
        with_autohide(with_autohide(state)) == with_autohide(state),
        with_autohide(state) == state <==> state & ABS_AUTOHIDE == ABS_AUTOHIDE,
{
    assert((state | 1u32) & 1u32 == 1u32) by (bit_vector);
    assert((state | 1u32) & !1u32 == state & !1u32) by (bit_vector);
    assert(((state | 1u32) | 1u32) == (state | 1u32)) by (bit_vector);
    assert(((state | 1u32) == state) <==> (state & 1u32 == 1u32)) by (bit_vector);
}

/// The two AppBar states of one run: the one found at startup, which is
/// handed back at exit, and the one that is enforced in between.
pub struct TaskbarStateManager {
    original_state: u32,
    enforced_state: u32,
}

impl TaskbarStateManager {
    #[verifier::type_invariant]
    spec fn wf(self) -> bool {
        self.enforced_state == with_autohide(self.original_state)
    }

    /// The state captured at construction.
    pub closed spec fn original(self) -> u32 {
        self.original_state
    }

    /// The captured state with auto-hide forced on.
    pub closed spec fn enforced(self) -> u32 {
        self.enforced_state
    }

    /// Captures `current_state`, the AppBar state as it was read at
    /// startup. The second result is the write that has to follow at
    /// once: the enforced state if auto-hide was not already on,
    /// otherwise nothing.
    pub fn new(current_state: u32) -> (made: (TaskbarStateManager, Option<u32>))
        ensures
            made.0.original() == current_state,
            made.0.enforced() == with_autohide(current_state),
            made.1 == if with_autohide(current_state) != current_state {
                Some(with_autohide(current_state))
            } else {
                None
            },
    {
        let original_state = current_state;
        let enforced_state = original_state | ABS_AUTOHIDE;
        let first_write = if enforced_state != original_state {
            Some(enforced_state)
        } else {
            None
        };
        (TaskbarStateManager { original_state, enforced_state }, first_write)
    }

    /// The value to write in order to enforce auto-hide.
    pub fn enforce(&self) -> (state: u32)
        ensures
            state == self.enforced(),
            state == with_autohide(self.original()),
    {
        proof {
            use_type_invariant(self);
        }
        self.enforced_state
    }

    /// The value to write in order to restore what was there at startup.
    pub fn restore(&self) -> (state: u32)
        ensures
            state == self.original(),
    {
        self.original_state
    }
}

/// A write that the manager asks for.
#[derive(Clone, Copy, Debug, PartialEq, Eq, Structural)]
pub enum StateWrite {
    Enforce,
    Restore,
}

/// The value that `write` puts into the AppBar state.
pub open spec fn written(manager: TaskbarStateManager, write: StateWrite) -> u32 {
    match write {
        StateWrite::Enforce => manager.enforced(),
        StateWrite::Restore => manager.original(),
    }
}

/// The AppBar state after `writes` were performed in order on a system
/// whose state was `state`: every write replaces the whole value.
pub open spec fn state_after(
    manager: TaskbarStateManager,
    state: u32,
    writes: Seq<StateWrite>,
) -> u32 {
    if writes.len() == 0 {
        state
    } else {
        written(manager, writes.last())
    }
}

/// After a restore the AppBar state is the one captured at construction,
/// whatever the system's state was before and however many enforce and
/// restore writes came first; a repeated restore changes nothing.
pub proof fn lemma_restore_gives_original(
    manager: TaskbarStateManager,
    state: u32,
    writes: Seq<StateWrite>,
)
    ensures
        state_after(manager, state, writes.push(StateWrite::Restore)) == manager.original(),
        state_after(
            manager,
            state,
            writes.push(StateWrite::Restore).push(StateWrite::Restore),
        ) == manager.original(),
{
}

/// After an enforce the auto-hide bit is on and the other bits are those
/// captured at construction; a repeated enforce changes nothing.
pub proof fn lemma_enforce_sets_autohide(
    manager: TaskbarStateManager,
    state: u32,
    writes: Seq<StateWrite>,
)
    requires
        manager.enforced() == with_autohide(manager.original()),
    ensures
        state_after(manager, state, writes.push(StateWrite::Enforce)) == with_autohide(
            manager.original(),
        ),
        state_after(manager, state, writes.push(StateWrite::Enforce)) & ABS_AUTOHIDE
            == ABS_AUTOHIDE,
        state_after(manager, state, writes.push(StateWrite::Enforce).push(StateWrite::Enforce))
            == state_after(manager, state, writes.push(StateWrite::Enforce)),
{
    lemma_with_autohide(manager.original());
}

/// The `ShowWindow` command for a visibility.
pub open spec fn show_command(show: bool) -> i32 {
    if show {
        SW_SHOW
    } else {
        SW_HIDE
    }
}

/// One command for one window.
#[derive(Clone, Copy, Debug, PartialEq, Eq, Structural)]
pub struct WindowCommand {
    pub window: WindowHandle,
    pub command: i32,
}

/// The commands that show or hide all of `taskbars`: the same command
/// for every handle, in the order given. Whether a window still exists
/// is not asked; a command to a window that is gone does nothing.
pub fn set_taskbar_state(taskbars: &[WindowHandle], show: bool) -> (commands: Vec<
    WindowCommand,
>)
    ensures
        commands@.len() == taskbars@.len(),
        forall|i: int|
            0 <= i < taskbars@.len() ==> commands@[i] == (WindowCommand {
                window: taskbars@[i],
                command: show_command(show),
            }),
{
    let command: i32 = if show {
        SW_SHOW
    } else {
        SW_HIDE
    };
    let mut commands: Vec<WindowCommand> = Vec::new();
    let mut i: usize = 0;
    while i < taskbars.len()
        invariant
            i <= taskbars.len(),
            command == show_command(show),
            commands@.len() == i,
            forall|k: int|
                0 <= k < i ==> commands@[k] == (WindowCommand {
                    window: taskbars@[k],
                    command: show_command(show),
                }),
        decreases taskbars.len() - i,
    {
        commands.push(WindowCommand { window: taskbars[i], command });
        i += 1;
    }
    commands
}

/// Whether any taskbar is visible, given the visibility of each.
pub fn is_taskbar_visible(visible: &[bool]) -> (any: bool)
    ensures
        any == exists|i: int| 0 <= i < visible@.len() && visible@[i],
{
    let mut i: usize = 0;
    while i < visible.len()
        invariant
            i <= visible.len(),
            forall|k: int| 0 <= k < i ==> !visible@[k],
        decreases visible.len() - i,
    {
        if visible[i] {
            return true;
        }
        i += 1;
    }
    false
}

} // verus!
