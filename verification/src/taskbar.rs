//! Finding the shell's taskbar windows.
//!
//! The desktop shell owns one primary taskbar window and one secondary
//! taskbar window per additional monitor. Windows of other programs may
//! carry the same class names, so a candidate counts only when the
//! process that owns it is the shell executable.

use crate::text::{eq_ignore_ascii_case, same_ignoring_ascii_case, to_wide, wide};
use vstd::prelude::*;

verus! {

/// An operating-system window handle, held as a plain number. The library
/// never dereferences it; it only passes it back to the caller.
#[derive(Clone, Copy, Debug, PartialEq, Eq, Structural)]
pub struct WindowHandle {
    pub raw: isize,
}

impl WindowHandle {
    /// The null handle: "no window", and the start of an enumeration.
    pub open spec fn spec_null() -> WindowHandle {
        WindowHandle { raw: 0 }
    }

    /// The null handle.
    #[verifier::when_used_as_spec(spec_null)]
    pub fn null() -> (h: WindowHandle)
        ensures
            h == WindowHandle::spec_null(),
    {
        WindowHandle { raw: 0 }
    }

    /// Whether this is the null handle.
    pub fn is_null(&self) -> (b: bool)
        ensures
            b == (*self == WindowHandle::null()),
    {
        self.raw == 0
    }
}

/// The two window classes under which the shell registers taskbars.
#[derive(Clone, Copy, Debug, PartialEq, Eq, Structural)]
pub enum TaskbarClass {
    /// The taskbar of the primary monitor; at most one exists.
    Primary,
    /// The taskbar of each further monitor.
    Secondary,
}

impl TaskbarClass {
    /// The window-class name.
    pub open spec fn name(self) -> Seq<char> {
        match self {
            TaskbarClass::Primary => "Shell_TrayWnd"@,
            TaskbarClass::Secondary => "Shell_SecondaryTrayWnd"@,
        }
    }
}

/// The executable name of the desktop shell.
pub open spec fn shell_process_name() -> Seq<char> {
    "explorer.exe"@
}

/// The strings that an enumeration needs over and over, encoded once.
pub struct Utf16StringCache {
    shell_tray_wnd: Vec<u16>,
    shell_secondary_tray_wnd: Vec<u16>,
    explorer_exe: String,
}

impl Utf16StringCache {
    #[verifier::type_invariant]
    spec fn wf(self) -> bool {
        &&& self.shell_tray_wnd@ == wide(TaskbarClass::Primary.name())
        &&& self.shell_secondary_tray_wnd@ == wide(TaskbarClass::Secondary.name())
        &&& self.explorer_exe@ == shell_process_name()
    }

    /// The cached UTF-16 name of a taskbar window class.
    pub closed spec fn class_units(self, class: TaskbarClass) -> Seq<u16> {
        match class {
            TaskbarClass::Primary => self.shell_tray_wnd@,
            TaskbarClass::Secondary => self.shell_secondary_tray_wnd@,
        }
    }

    /// The cached executable name of the shell.
    pub closed spec fn shell_name(self) -> Seq<char> {
        self.explorer_exe@
    }

    /// Encodes the two class names and keeps the shell's executable name.
    pub fn new() -> (cache: Utf16StringCache)
        ensures
            cache.class_units(TaskbarClass::Primary) == wide(TaskbarClass::Primary.name()),
            cache.class_units(TaskbarClass::Secondary) == wide(TaskbarClass::Secondary.name()),
            cache.shell_name() == shell_process_name(),
    {
        Utf16StringCache {
            shell_tray_wnd: to_wide("Shell_TrayWnd"),
            shell_secondary_tray_wnd: to_wide("Shell_SecondaryTrayWnd"),
            explorer_exe: "explorer.exe".to_owned(),
        }
    }

    /// The zero-terminated UTF-16 name of a taskbar window class.
    pub fn class_name(&self, class: TaskbarClass) -> (name: &Vec<u16>)
        ensures
            name@ == self.class_units(class),
            name@ == wide(class.name()),
    {
        proof {
            use_type_invariant(self);
        }
        match class {
            TaskbarClass::Primary => &self.shell_tray_wnd,
            TaskbarClass::Secondary => &self.shell_secondary_tray_wnd,
        }
    }

    /// Whether `process_name` names the shell executable. The case of
    /// ASCII letters is ignored.
    pub fn is_shell_process(&self, process_name: &str) -> (b: bool)
        ensures
            b == same_ignoring_ascii_case(process_name@, shell_process_name()),
    {
        proof {
            use_type_invariant(self);
        }
        eq_ignore_ascii_case(process_name, self.explorer_exe.as_str())
    }
}

/// A candidate window as the enumeration reports it: its handle, and the
/// base name of the executable of the process that owns it, where that
/// could be read.
#[derive(Clone, Debug, PartialEq, Eq)]
pub struct ShellWindow {
    pub handle: WindowHandle,
    pub process_name: Option<String>,
}

impl ShellWindow {
    /// The window belongs to the shell: its owner's executable name is
    /// known and is the shell's. A window whose owner could not be
    /// queried does not count.
    pub open spec fn is_shell(self) -> bool {
        self.process_name matches Some(name) && same_ignoring_ascii_case(
            name@,
            shell_process_name(),
        )
    }

    /// Whether the window belongs to the shell.
    pub fn owned_by_shell(&self, names: &Utf16StringCache) -> (b: bool)
        ensures
            b == self.is_shell(),
    {
        match &self.process_name {
            Some(name) => names.is_shell_process(name.as_str()),
            None => false,
        }
    }
}

/// The predicate that selects shell-owned windows.
pub open spec fn shell_owned() -> spec_fn(ShellWindow) -> bool {
    |w: ShellWindow| w.is_shell()
}

/// The projection of a window to its handle.
pub open spec fn handle_of() -> spec_fn(ShellWindow) -> WindowHandle {
    |w: ShellWindow| w.handle
}

/// The handles of the shell-owned windows among `windows`, in order.
pub open spec fn shell_windows(windows: Seq<ShellWindow>) -> Seq<WindowHandle> {
    windows.filter(shell_owned()).map_values(handle_of())
}

/// The handle of the first shell-owned window among `windows`, as a
/// sequence of one element, or the empty sequence if there is none.
pub open spec fn first_shell_window(windows: Seq<ShellWindow>) -> Seq<WindowHandle> {
    let all = shell_windows(windows);
    if all.len() == 0 {
        all
    } else {
        seq![all[0]]
    }
}

/// The taskbars among the windows of the two classes: the first
/// shell-owned primary window, then every shell-owned secondary window.
pub open spec fn taskbars_of(
    primary: Seq<ShellWindow>,
    secondary: Seq<ShellWindow>,
) -> Seq<WindowHandle> {
    first_shell_window(primary) + shell_windows(secondary)
}

/// Appending a window appends its handle to the shell-owned handles
/// exactly when the window is shell-owned.
pub proof fn lemma_shell_windows_push(windows: Seq<ShellWindow>, w: ShellWindow)
    ensures
        shell_windows(windows.push(w)) == if w.is_shell() {
            shell_windows(windows).push(w.handle)
        } else {
            shell_windows(windows)
        },
{
    reveal(Seq::filter);
    assert(windows.push(w).drop_last() == windows);
    assert(shell_windows(windows.push(w)) =~= if w.is_shell() {
        shell_windows(windows).push(w.handle)
    } else {
        shell_windows(windows)
    });
}

/// No window, no taskbar.
pub proof fn lemma_shell_windows_empty()
    ensures
        shell_windows(Seq::<ShellWindow>::empty()) == Seq::<WindowHandle>::empty(),
{
    reveal(Seq::filter);
    assert(shell_windows(Seq::<ShellWindow>::empty()) =~= Seq::<WindowHandle>::empty());
}

/// The shell-owned handles of a prefix are a prefix of the shell-owned
/// handles of the whole.
pub proof fn lemma_shell_windows_prefix(windows: Seq<ShellWindow>, n: int)
    requires
        0 <= n <= windows.len(),
    ensures
        shell_windows(windows) == shell_windows(windows.take(n)) + shell_windows(
            windows.skip(n),
        ),
{
    Seq::filter_distributes_over_add(windows.take(n), windows.skip(n), shell_owned());
    assert(windows.take(n) + windows.skip(n) == windows);
    assert(shell_windows(windows) =~= shell_windows(windows.take(n)) + shell_windows(
        windows.skip(n),
    ));
}

/// Where an enumeration stands.
#[derive(Clone, Copy, Debug, PartialEq, Eq, Structural)]
pub enum ScanStage {
    /// Walking the primary-class windows; none was shell-owned so far.
    Primary,
    /// Walking the secondary-class windows.
    Secondary,
    /// Both classes are done.
    Done,
}

/// The next lookup an enumeration asks for: the window of class `class`
/// that follows `after` (the first one, if `after` is null).
#[derive(Clone, Copy, Debug, PartialEq, Eq, Structural)]
pub struct ScanQuery {
    pub class: TaskbarClass,
    pub after: WindowHandle,
}

/// The state of an enumeration, as contracts see it.
pub struct ScanState {
    pub stage: ScanStage,
    pub cursor: WindowHandle,
    pub found: Seq<WindowHandle>,
}

impl ScanState {
    /// The state before the first lookup.
    pub open spec fn start() -> ScanState {
        ScanState { stage: ScanStage::Primary, cursor: WindowHandle::null(), found: Seq::empty() }
    }

    /// The lookup to perform next, if any.
    pub open spec fn pending(self) -> Option<ScanQuery> {
        match self.stage {
            ScanStage::Primary => Some(
                ScanQuery { class: TaskbarClass::Primary, after: self.cursor },
            ),
            ScanStage::Secondary => Some(
                ScanQuery { class: TaskbarClass::Secondary, after: self.cursor },
            ),
            ScanStage::Done => None,
        }
    }

    /// The state after the pending lookup was answered with `window`
    /// (`None`: the class has no further window).
    ///
    /// The primary class is left at its first shell-owned window or at its
    /// end; the secondary class is walked to its end and every
    /// shell-owned window of it is kept. Each class starts from the null
    /// handle.
    pub open spec fn step(self, window: Option<ShellWindow>) -> ScanState {
        match (self.stage, window) {
            (ScanStage::Done, _) => self,
            (ScanStage::Primary, None) => ScanState {
                stage: ScanStage::Secondary,
                cursor: WindowHandle::null(),
                found: self.found,
            },
            (ScanStage::Primary, Some(w)) => if w.is_shell() {
                ScanState {
                    stage: ScanStage::Secondary,
                    cursor: WindowHandle::null(),
                    found: self.found.push(w.handle),
                }
            } else {
                ScanState { stage: ScanStage::Primary, cursor: w.handle, found: self.found }
            },
            (ScanStage::Secondary, None) => ScanState {
                stage: ScanStage::Done,
                cursor: WindowHandle::null(),
                found: self.found,
            },
            (ScanStage::Secondary, Some(w)) => ScanState {
                stage: ScanStage::Secondary,
                cursor: w.handle,
                found: if w.is_shell() {
                    self.found.push(w.handle)
                } else {
                    self.found
                },
            },
        }
    }
}

/// An enumeration of the taskbar windows in progress. The caller performs
/// each pending lookup and reports what it found; the scan decides what
/// to keep and what to ask next.
pub struct TaskbarScan {
    stage: ScanStage,
    cursor: WindowHandle,
    found: Vec<WindowHandle>,
}

impl View for TaskbarScan {
    type V = ScanState;

    closed spec fn view(&self) -> ScanState {
        ScanState { stage: self.stage, cursor: self.cursor, found: self.found@ }
    }
}

impl TaskbarScan {
    /// Starts an enumeration.
    pub fn new() -> (scan: TaskbarScan)
        ensures
            scan@ == ScanState::start(),
    {
        TaskbarScan { stage: ScanStage::Primary, cursor: WindowHandle::null(), found: Vec::new() }
    }

    /// Where the enumeration stands.
    pub fn stage(&self) -> (stage: ScanStage)
        ensures
            stage == self@.stage,
    {
        self.stage
    }

    /// The lookup to perform next, or `None` when the enumeration is
    /// complete.
    pub fn pending(&self) -> (query: Option<ScanQuery>)
        ensures
            query == self@.pending(),
    {
        match self.stage {
            ScanStage::Primary => Some(
                ScanQuery { class: TaskbarClass::Primary, after: self.cursor },
            ),
            ScanStage::Secondary => Some(
                ScanQuery { class: TaskbarClass::Secondary, after: self.cursor },
            ),
            ScanStage::Done => None,
        }
    }

    /// Takes the answer to the pending lookup: the window that was found,
    /// or `None` if the lookup failed or the class has no further window.
    pub fn record(&mut self, names: &Utf16StringCache, window: Option<&ShellWindow>)
        ensures
            final(self)@ == old(self)@.step(
                match window {
                    Some(w) => Some(*w),
                    None => None,
                },
            ),
    {
        match self.stage {
            ScanStage::Done => {},
            ScanStage::Primary => match window {
                None => {
                    self.stage = ScanStage::Secondary;
                    self.cursor = WindowHandle::null();
                },
                Some(w) => {
                    if w.owned_by_shell(names) {
                        self.found.push(w.handle);
                        self.stage = ScanStage::Secondary;
                        self.cursor = WindowHandle::null();
                    } else {
                        self.cursor = w.handle;
                    }
                },
            },
            ScanStage::Secondary => match window {
                None => {
                    self.stage = ScanStage::Done;
                    self.cursor = WindowHandle::null();
                },
                Some(w) => {
                    if w.owned_by_shell(names) {
                        self.found.push(w.handle);
                    }
                    self.cursor = w.handle;
                },
            },
        }
    }

    /// The taskbars found so far; all of them once nothing is pending.
    pub fn into_taskbars(self) -> (taskbars: Vec<WindowHandle>)
        ensures
            taskbars@ == self@.found,
    {
        self.found
    }
}

/// Finds the taskbars among the windows of the two classes, each list
/// given in enumeration order.
///
/// The result holds the first shell-owned window of the primary class,
/// if there is one, followed by all shell-owned windows of the secondary
/// class. It is empty when the shell has no taskbar window, which is no
/// error: the shell may be restarting.
pub fn find_all_explorer_taskbars_uncached(
    primary: &[ShellWindow],
    secondary: &[ShellWindow],
) -> (taskbars: Vec<WindowHandle>)
    ensures
        taskbars@ == taskbars_of(primary@, secondary@),
{
    let names = Utf16StringCache::new();
    let mut scan = TaskbarScan::new();
    let mut i: usize = 0;
    proof {
        lemma_shell_windows_empty();
        assert(primary@.take(0) =~= Seq::<ShellWindow>::empty());
    }
    while i < primary.len() && scan.stage() == ScanStage::Primary
        invariant
            i <= primary.len(),
            scan@.stage != ScanStage::Done,
            scan@.stage == ScanStage::Primary ==> scan@.found.len() == 0 && shell_windows(
                primary@.take(i as int),
            ).len() == 0,
            scan@.stage == ScanStage::Secondary ==> scan@.found == first_shell_window(primary@)
                && scan@.cursor == WindowHandle::null(),
        decreases primary.len() - i,
    {
        proof {
            lemma_shell_windows_push(primary@.take(i as int), primary@[i as int]);
            assert(primary@.take(i as int).push(primary@[i as int]) =~= primary@.take(i + 1));
            lemma_shell_windows_prefix(primary@, i + 1);
        }
        scan.record(&names, Some(&primary[i]));
        i += 1;
    }
    if scan.stage() == ScanStage::Primary {
        proof {
            assert(primary@.take(i as int) =~= primary@);
        }
        scan.record(&names, None);
    }
    let ghost first = scan@.found;
    let mut j: usize = 0;
    proof {
        lemma_shell_windows_empty();
        assert(secondary@.take(0) =~= Seq::<ShellWindow>::empty());
    }
    while j < secondary.len()
        invariant
            j <= secondary.len(),
            scan@.stage == ScanStage::Secondary,
            first == first_shell_window(primary@),
            scan@.found == first + shell_windows(secondary@.take(j as int)),
        decreases secondary.len() - j,
    {
        proof {
            lemma_shell_windows_push(secondary@.take(j as int), secondary@[j as int]);
            assert(secondary@.take(j as int).push(secondary@[j as int]) =~= secondary@.take(
                j + 1,
            ));
        }
        scan.record(&names, Some(&secondary[j]));
        j += 1;
    }
    proof {
        assert(secondary@.take(j as int) =~= secondary@);
    }
    scan.record(&names, None);
    scan.into_taskbars()
}

} // verus!
