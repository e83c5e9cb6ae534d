//! Single-instance coordination.
//!
//! Only one copy of the program may manage the taskbar. A copy that
//! starts tries to create a system-wide named mutex; if the mutex exists
//! already, another copy is running, and the new one has to warn the user
//! and leave without touching the taskbar.

use crate::text::{to_wide, wide};
use vstd::prelude::*;

verus! {

/// The outcome of the attempt to become the one running instance.
#[derive(Clone, Copy, Debug, PartialEq, Eq, Structural)]
pub enum InstanceCheck {
    /// The mutex was created and is new: this is the only instance. The
    /// handle has to be kept for the whole life of the process.
    Acquired,
    /// The mutex existed before: another instance is running. A warning
    /// dialog is owed to the user.
    AlreadyRunning,
    /// The mutex could not be created at all.
    Failed,
}

impl InstanceCheck {
    /// Startup may go on.
    pub open spec fn spec_may_start(self) -> bool {
        self == InstanceCheck::Acquired
    }

    /// The user is to be told that the application runs already.
    pub open spec fn spec_warns(self) -> bool {
        self == InstanceCheck::AlreadyRunning
    }

    /// Startup may go on.
    #[verifier::when_used_as_spec(spec_may_start)]
    pub fn may_start(self) -> (go: bool)
        ensures
            go == self.spec_may_start(),
    {
        self == InstanceCheck::Acquired
    }

    /// The user is to be told that the application runs already.
    #[verifier::when_used_as_spec(spec_warns)]
    pub fn warns(self) -> (warn: bool)
        ensures
            warn == self.spec_warns(),
    {
        self == InstanceCheck::AlreadyRunning
    }
}

/// The outcome that follows from what creating the mutex reported.
pub open spec fn instance_check(created: bool, already_exists: bool) -> InstanceCheck {
    if !created {
        InstanceCheck::Failed
    } else if already_exists {
        InstanceCheck::AlreadyRunning
    } else {
        InstanceCheck::Acquired
    }
}

/// Judges the attempt to create the singleton mutex. `created` says
/// whether the system returned a handle, `already_exists` whether it
/// reported on that occasion that the mutex had existed before.
pub fn check_single_instance(created: bool, already_exists: bool) -> (check: InstanceCheck)
    ensures
        check == instance_check(created, already_exists),
        check.spec_may_start() <==> created && !already_exists,
{
    if !created {
        InstanceCheck::Failed
    } else if already_exists {
        InstanceCheck::AlreadyRunning
    } else {
        InstanceCheck::Acquired
    }
}

/// The name of the singleton mutex.
pub open spec fn mutex_name() -> Seq<char> {
    "Global\\TaskbarHideApp_SingleInstance"@
}

/// The title of the warning dialog.
pub open spec fn warning_title() -> Seq<char> {
    "Taskbar Hide"@
}

/// The text of the warning dialog.
pub open spec fn warning_message() -> Seq<char> {
    "Application is already running!"@
}

/// The mutex name, the dialog title and the dialog text, each as a
/// zero-terminated UTF-16 string.
pub fn get_singleton_strings() -> (strings: (Vec<u16>, Vec<u16>, Vec<u16>))
    ensures
        strings.0@ == wide(mutex_name()),
        strings.1@ == wide(warning_title()),
        strings.2@ == wide(warning_message()),
{
    (
        to_wide("Global\\TaskbarHideApp_SingleInstance"),
        to_wide("Taskbar Hide"),
        to_wide("Application is already running!"),
    )
}

} // verus!
