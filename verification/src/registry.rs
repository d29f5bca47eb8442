//! The forwarding registry: which windows are in forwarding mode, and
//! whether the process-wide pointer hook is installed.
//!
//! The registry makes no operating-system call. A toggle is planned first
//! ([`plan_forward`]), the caller performs the planned actions in order and
//! stops at the first that fails, and the registry then commits the change
//! or reports the failure ([`forward_mouse_messages`]). The three pieces of
//! state change together or not at all.

use vstd::prelude::*;

verus! {

/// A window as the windowing layer names it: its label and, where the layer
/// could resolve it, its native handle.
#[derive(Clone, Debug)]
pub struct WindowRef {
    pub label: String,
    pub handle: Option<isize>,
}

/// What a [`WindowRef`] stands for in contracts.
pub struct WindowModel {
    pub label: Seq<char>,
    pub handle: Option<isize>,
}

impl View for WindowRef {
    type V = WindowModel;

    open spec fn view(&self) -> WindowModel {
        WindowModel { label: self.label@, handle: self.handle }
    }
}

/// A registered window. Its label is its identity in the registry.
#[derive(Clone, Debug)]
pub struct Registrant {
    pub label: String,
    pub handle: isize,
}

/// What a [`Registrant`] stands for in contracts.
pub struct Entry {
    pub label: Seq<char>,
    pub handle: isize,
}

impl View for Registrant {
    type V = Entry;

    open spec fn view(&self) -> Entry {
        Entry { label: self.label@, handle: self.handle }
    }
}

/// The entries that a sequence of registrants stands for, in order.
pub open spec fn entries(windows: Seq<Registrant>) -> Seq<Entry> {
    windows.map_values(|w: Registrant| w@)
}

/// One operating-system call that a toggle asks its caller to make.
#[derive(Clone, Copy, Debug, PartialEq, Eq, Structural)]
pub enum Action {
    /// Attach the message interceptor to the window.
    AttachSubclass { handle: isize },
    /// Install the process-wide pointer hook.
    InstallHook,
    /// Detach the message interceptor from the window.
    DetachSubclass { handle: isize },
    /// Remove the process-wide pointer hook.
    RemoveHook { hook: isize },
}

/// Why a toggle changed nothing.
#[derive(Clone, Copy, Debug, PartialEq, Eq, Structural)]
pub enum ForwardError {
    /// The windowing layer could not resolve the window's handle.
    WindowNotFound,
    /// The operating system declined to install the pointer hook.
    HookInstallFailed,
    /// The operating system declined to remove the pointer hook.
    HookRemoveFailed,
    /// The message interceptor could not be attached to the window.
    SubclassAttachFailed,
    /// The message interceptor could not be detached from the window.
    SubclassDetachFailed,
}

/// What the caller reports after performing a plan: how many of the planned
/// actions succeeded, counted from the first, and the handle of the hook if
/// one was installed.
#[derive(Clone, Copy, Debug, PartialEq, Eq, Structural)]
pub struct OsReport {
    pub completed: usize,
    pub hook: Option<isize>,
}

/// The registry's state as contracts see it.
pub struct RegistryState {
    /// The registered windows, oldest first.
    pub windows: Seq<Entry>,
    /// The installed pointer hook, if any.
    pub hook: Option<isize>,
    /// Whether forwarding is on.
    pub active: bool,
}

impl RegistryState {
    /// The hook is installed, and forwarding is on, exactly while a window
    /// is registered.
    pub open spec fn consistent(self) -> bool {
        &&& self.hook.is_some() <==> self.windows.len() > 0
        &&& self.active <==> self.windows.len() > 0
    }

    /// The state in which nothing is registered.
    pub open spec fn idle() -> RegistryState {
        RegistryState { windows: Seq::empty(), hook: None, active: false }
    }
}

/// The registered windows, the hook and the forwarding flag, held together.
pub struct ForwardingRegistry {
    windows: Vec<Registrant>,
    hook: Option<isize>,
    active: bool,
}

impl View for ForwardingRegistry {
    type V = RegistryState;

    closed spec fn view(&self) -> RegistryState {
        RegistryState { windows: entries(self.windows@), hook: self.hook, active: self.active }
    }
}

/// The index of the first entry at or after `from` whose label is `label`,
/// or the length of `windows` if there is none.
pub open spec fn first_from(windows: Seq<Entry>, label: Seq<char>, from: int) -> int
    decreases windows.len() - from,
{
    if from < 0 || from >= windows.len() {
        windows.len() as int
    } else if windows[from].label == label {
        from
    } else {
        first_from(windows, label, from + 1)
    }
}

/// The index of the first entry whose label is `label`.
pub open spec fn first_match(windows: Seq<Entry>, label: Seq<char>) -> Option<int> {
    let i = first_from(windows, label, 0);
    if i < windows.len() {
        Some(i)
    } else {
        None
    }
}

/// Whether some entry carries `label`.
pub open spec fn registered(windows: Seq<Entry>, label: Seq<char>) -> bool {
    exists|i: int| 0 <= i < windows.len() && (#[trigger] windows[i]).label == label
}

/// The actions that toggling the window `handle`, `label` asks for.
pub open spec fn planned(r: RegistryState, handle: isize, label: Seq<char>, forward: bool) -> Seq<
    Action,
> {
    if forward {
        if r.hook.is_none() {
            seq![Action::AttachSubclass { handle }, Action::InstallHook]
        } else {
            seq![Action::AttachSubclass { handle }]
        }
    } else if first_match(r.windows, label).is_none() {
        Seq::empty()
    } else if r.windows.len() == 1 && r.hook.is_some() {
        seq![Action::DetachSubclass { handle }, Action::RemoveHook { hook: r.hook.unwrap() }]
    } else {
        seq![Action::DetachSubclass { handle }]
    }
}

/// The error that stands for the failure of `action`.
pub open spec fn failure_of(action: Action) -> ForwardError {
    match action {
        Action::AttachSubclass { .. } => ForwardError::SubclassAttachFailed,
        Action::InstallHook => ForwardError::HookInstallFailed,
        Action::DetachSubclass { .. } => ForwardError::SubclassDetachFailed,
        Action::RemoveHook { .. } => ForwardError::HookRemoveFailed,
    }
}

/// How a toggle ends, given what the caller reports of the plan.
pub open spec fn verdict(r: RegistryState, window: WindowModel, forward: bool, report: OsReport)
    -> Result<(), ForwardError> {
    match window.handle {
        None => Err(ForwardError::WindowNotFound),
        Some(handle) => {
            let plan = planned(r, handle, window.label, forward);
            if report.completed < plan.len() {
                Err(failure_of(plan[report.completed as int]))
            } else if forward && r.hook.is_none() && report.hook.is_none() {
                Err(ForwardError::HookInstallFailed)
            } else {
                Ok(())
            }
        },
    }
}

/// The state after a toggle that succeeded. Enabling appends the window,
/// also when its label is registered already; disabling removes the first
/// entry with the window's label, and nothing if there is none.
pub open spec fn committed(
    r: RegistryState,
    handle: isize,
    label: Seq<char>,
    forward: bool,
    installed: Option<isize>,
) -> RegistryState {
    if forward {
        RegistryState {
            windows: r.windows.push(Entry { label, handle }),
            hook: if r.hook.is_some() {
                r.hook
            } else {
                installed
            },
            active: true,
        }
    } else {
        match first_match(r.windows, label) {
            None => r,
            Some(i) => if r.windows.len() == 1 {
                RegistryState::idle()
            } else {
                RegistryState { windows: r.windows.remove(i), hook: r.hook, active: r.active }
            },
        }
    }
}

/// The state after forwarding was turned off for the first `n` windows of
/// `r`, one after the other, oldest first.
pub open spec fn released(r: RegistryState, n: nat) -> RegistryState
    decreases n,
{
    if n == 0 || n > r.windows.len() {
        r
    } else {
        let w = r.windows[n - 1];
        committed(released(r, (n - 1) as nat), w.handle, w.label, false, None)
    }
}

/// The action that takes `action` back. The installation of a hook is
/// taken back only where the hook's handle is known, and the removal of a
/// hook not at all: the old handle is gone for good.
pub open spec fn inverse(action: Action, installed: Option<isize>) -> Option<Action> {
    match action {
        Action::AttachSubclass { handle } => Some(Action::DetachSubclass { handle }),
        Action::DetachSubclass { handle } => Some(Action::AttachSubclass { handle }),
        Action::InstallHook => match installed {
            Some(hook) => Some(Action::RemoveHook { hook }),
            None => None,
        },
        Action::RemoveHook { .. } => None,
    }
}

/// The actions that take back `done`, the last of them first.
pub open spec fn undone(done: Seq<Action>, installed: Option<isize>) -> Seq<Action>
    decreases done.len(),
{
    if done.len() == 0 {
        Seq::empty()
    } else {
        let earlier = undone(done.drop_last(), installed);
        match inverse(done.last(), installed) {
            Some(action) => seq![action] + earlier,
            None => earlier,
        }
    }
}

/// The part of `plan` that `report` says was performed.
pub open spec fn performed(plan: Seq<Action>, report: OsReport) -> Seq<Action> {
    if report.completed < plan.len() {
        plan.take(report.completed as int)
    } else {
        plan
    }
}

/// The actions that release everything: one detachment for each entry, in
/// order, and then the removal of the hook, once, if it is installed.
pub open spec fn teardown(r: RegistryState) -> Seq<Action> {
    r.windows.map_values(|e: Entry| Action::DetachSubclass { handle: e.handle }) + match r.hook {
        Some(hook) => seq![Action::RemoveHook { hook }],
        None => Seq::empty(),
    }
}

impl ForwardingRegistry {
    /// A registry with no window and no hook.
    pub fn new() -> (registry: ForwardingRegistry)
        ensures
            registry@ == RegistryState::idle(),
            registry@.consistent(),
    {
        let registry = ForwardingRegistry { windows: Vec::new(), hook: None, active: false };
        assert(registry@.windows =~= Seq::empty());
        registry
    }

    /// The number of registered windows.
    pub fn len(&self) -> (n: usize)
        ensures
            n == self@.windows.len(),
    {
        self.windows.len()
    }

    /// The handle of the installed hook, if there is one.
    pub fn hook(&self) -> (hook: Option<isize>)
        ensures
            hook == self@.hook,
    {
        self.hook
    }

    /// Whether forwarding is on.
    pub fn is_active(&self) -> (active: bool)
        ensures
            active == self@.active,
    {
        self.active
    }

    /// A copy of the registered windows, oldest first.
    pub fn snapshot(&self) -> (copy: Vec<Registrant>)
        ensures
            entries(copy@) == self@.windows,
    {
        let mut copy: Vec<Registrant> = Vec::new();
        let mut i: usize = 0;
        while i < self.windows.len()
            invariant
                i <= self.windows.len(),
                entries(copy@) == entries(self.windows@).take(i as int),
            decreases self.windows.len() - i,
        {
            let w = &self.windows[i];
            let ghost earlier = copy@;
            copy.push(Registrant { label: w.label.clone(), handle: w.handle });
            i += 1;
            assert(entries(copy@) =~= entries(earlier).push(w@));
            assert(entries(self.windows@).take(i as int) =~= entries(self.windows@).take(i - 1).push(
                w@,
            ));
        }
        assert(entries(self.windows@).take(i as int) =~= entries(self.windows@));
        copy
    }

    /// The index of the first registered window whose label is `label`.
    fn position(&self, label: &String) -> (found: Option<usize>)
        ensures
            match found {
                Some(i) => first_match(self@.windows, label@) == Some(i as int),
                None => first_match(self@.windows, label@).is_none(),
            },
    {
        let mut i: usize = 0;
        while i < self.windows.len()
            invariant
                i <= self.windows.len(),
                first_from(self@.windows, label@, 0) == first_from(self@.windows, label@, i as int),
            decreases self.windows.len() - i,
        {
            if self.windows[i].label == *label {
                return Some(i);
            }
            i += 1;
        }
        None
    }
}

/// The first match is the least index whose entry carries the label, and
/// there is one exactly when the label is registered.
pub proof fn lemma_first_match(windows: Seq<Entry>, label: Seq<char>)
    ensures
        first_match(windows, label).is_some() <==> registered(windows, label),
        match first_match(windows, label) {
            Some(i) => {
                &&& 0 <= i < windows.len()
                &&& windows[i].label == label
                &&& forall|j: int| 0 <= j < i ==> (#[trigger] windows[j]).label != label
            },
            None => true,
        },
{
    lemma_first_from(windows, label, 0);
}

proof fn lemma_first_from(windows: Seq<Entry>, label: Seq<char>, from: int)
    requires
        0 <= from <= windows.len(),
    ensures
        from <= first_from(windows, label, from) <= windows.len(),
        first_from(windows, label, from) < windows.len() ==> windows[first_from(
            windows,
            label,
            from,
        )].label == label,
        forall|j: int|
            from <= j < first_from(windows, label, from) ==> (#[trigger] windows[j]).label != label,
    decreases windows.len() - from,
{
    if from < windows.len() && windows[from].label != label {
        lemma_first_from(windows, label, from + 1);
    }
}

/// A toggle that succeeds leaves the hook installed, and forwarding on,
/// exactly while a window is registered.
pub proof fn lemma_committed_consistent(
    r: RegistryState,
    handle: isize,
    label: Seq<char>,
    forward: bool,
    installed: Option<isize>,
)
    requires
        r.consistent(),
        forward && r.hook.is_none() ==> installed.is_some(),
    ensures
        committed(r, handle, label, forward, installed).consistent(),
{
    lemma_first_match(r.windows, label);
}

/// Turning forwarding off for each registered window in turn, oldest
/// first, removes that very window each time, keeps the hook until the last
/// one goes, and leaves nothing behind.
pub proof fn lemma_release_each(r: RegistryState, n: nat)
    requires
        r.consistent(),
        n <= r.windows.len(),
    ensures
        released(r, n).consistent(),
        released(r, n).windows == r.windows.skip(n as int),
        n < r.windows.len() ==> released(r, n).hook == r.hook,
        n == r.windows.len() ==> released(r, n) == RegistryState::idle(),
    decreases n,
{
    if n > 0 {
        lemma_release_each(r, (n - 1) as nat);
        let s = released(r, (n - 1) as nat);
        let w = r.windows[n - 1];
        assert(s.windows[0] == w);
        assert(first_match(s.windows, w.label) == Some(0int));
        assert(s.windows.remove(0) =~= r.windows.skip(n as int));
        if s.windows.len() == 1 {
            assert(r.windows.skip(n as int) =~= Seq::empty());
        }
    } else {
        assert(r.windows.skip(0) =~= r.windows);
        if r.windows.len() == 0 {
            assert(r.windows =~= Seq::empty());
        }
    }
}

/// The actions that toggling `window` asks for, in the order in which they
/// are to be performed. Nothing is changed.
pub fn plan_forward(registry: &ForwardingRegistry, window: &WindowRef, forward: bool) -> (result:
    Result<Vec<Action>, ForwardError>)
    ensures
        match result {
            Ok(plan) => window@.handle.is_some() && plan@ == planned(
                registry@,
                window@.handle.unwrap(),
                window@.label,
                forward,
            ),
            Err(e) => window@.handle.is_none() && e == ForwardError::WindowNotFound,
        },
{
    let handle = match window.handle {
        None => {
            return Err(ForwardError::WindowNotFound);
        },
        Some(h) => h,
    };
    let mut plan: Vec<Action> = Vec::new();
    if forward {
        plan.push(Action::AttachSubclass { handle });
        if registry.hook.is_none() {
            plan.push(Action::InstallHook);
        }
    } else if registry.position(&window.label).is_some() {
        plan.push(Action::DetachSubclass { handle });
        if registry.windows.len() == 1 {
            match registry.hook {
                Some(hook) => {
                    plan.push(Action::RemoveHook { hook });
                },
                None => {},
            }
        }
    }
    assert(plan@ =~= planned(registry@, handle, window@.label, forward));
    Ok(plan)
}

/// Turns forwarding on or off for `window`, given what the caller reports
/// of the plan that [`plan_forward`] made for the same arguments.
///
/// The registry changes only if the window was resolved and every planned
/// action succeeded; otherwise it stays as it was and the error names the
/// first thing that failed.
pub fn forward_mouse_messages(
    registry: &mut ForwardingRegistry,
    window: &WindowRef,
    forward: bool,
    report: &OsReport,
) -> (result: Result<(), ForwardError>)
    requires
        old(registry)@.consistent(),
    ensures
        final(registry)@.consistent(),
        result == verdict(old(registry)@, window@, forward, *report),
        match result {
            Ok(_) => final(registry)@ == committed(
                old(registry)@,
                window@.handle.unwrap(),
                window@.label,
                forward,
                report.hook,
            ),
            Err(_) => final(registry)@ == old(registry)@,
        },
{
    let handle = match window.handle {
        None => {
            return Err(ForwardError::WindowNotFound);
        },
        Some(h) => h,
    };
    let ghost before = registry@;
    if forward {
        if report.completed < 1 {
            return Err(ForwardError::SubclassAttachFailed);
        }
        if registry.hook.is_none() {
            if report.completed < 2 {
                return Err(ForwardError::HookInstallFailed);
            }
            match report.hook {
                None => {
                    return Err(ForwardError::HookInstallFailed);
                },
                Some(hook) => {
                    registry.hook = Some(hook);
                },
            }
        }
        registry.windows.push(Registrant { label: window.label.clone(), handle });
        registry.active = true;
        assert(registry@.windows =~= before.windows.push(
            Entry { label: window@.label, handle },
        ));
        Ok(())
    } else {
        match registry.position(&window.label) {
            None => Ok(()),
            Some(i) => {
                if report.completed < 1 {
                    return Err(ForwardError::SubclassDetachFailed);
                }
                if registry.windows.len() == 1 && report.completed < 2 {
                    return Err(ForwardError::HookRemoveFailed);
                }
                registry.windows.remove(i);
                assert(registry@.windows =~= before.windows.remove(i as int));
                if registry.windows.len() == 0 {
                    registry.hook = None;
                    registry.active = false;
                    assert(registry@.windows =~= Seq::empty());
                }
                Ok(())
            },
        }
    }
}

/// The actions that take back the part of `plan` that was performed, for
/// the caller to make after a toggle that failed.
pub fn rollback(plan: &Vec<Action>, report: &OsReport) -> (actions: Vec<Action>)
    ensures
        actions@ == undone(performed(plan@, *report), report.hook),
{
    let n = if report.completed < plan.len() {
        report.completed
    } else {
        plan.len()
    };
    let ghost done = performed(plan@, *report);
    let mut actions: Vec<Action> = Vec::new();
    let mut k: usize = 0;
    while k < n
        invariant
            k <= n,
            n == done.len(),
            n <= plan.len(),
            done == plan@.take(n as int),
            actions@ == undone(done.take(k as int), report.hook),
        decreases n - k,
    {
        assert(done.take(k + 1).drop_last() =~= done.take(k as int));
        let back = match plan[k] {
            Action::AttachSubclass { handle } => Some(Action::DetachSubclass { handle }),
            Action::DetachSubclass { handle } => Some(Action::AttachSubclass { handle }),
            Action::InstallHook => match report.hook {
                Some(hook) => Some(Action::RemoveHook { hook }),
                None => None,
            },
            Action::RemoveHook { .. } => None,
        };
        match back {
            Some(action) => {
                actions.insert(0, action);
                assert(actions@ =~= seq![action] + undone(done.take(k as int), report.hook));
            },
            None => {},
        }
        k += 1;
    }
    assert(done.take(k as int) =~= done);
    actions
}

/// Releases everything: turns forwarding off for each registered window in
/// turn, oldest first, and returns the actions that this asks for. The
/// registry is empty afterwards, however many windows were registered.
pub fn clear_forward(registry: &mut ForwardingRegistry) -> (actions: Vec<Action>)
    requires
        old(registry)@.consistent(),
    ensures
        final(registry)@ == RegistryState::idle(),
        final(registry)@.consistent(),
        actions@ == teardown(old(registry)@),
{
    let ghost before = registry@;
    let snapshot = registry.snapshot();
    let mut actions: Vec<Action> = Vec::new();
    let mut i: usize = 0;
    while i < snapshot.len()
        invariant
            i <= snapshot.len(),
            before.consistent(),
            registry@.consistent(),
            entries(snapshot@) == before.windows,
            registry@.windows == before.windows.skip(i as int),
            i < snapshot.len() ==> registry@.hook == before.hook,
            actions@ == teardown(
                RegistryState {
                    windows: before.windows.take(i as int),
                    hook: if i == snapshot.len() {
                        before.hook
                    } else {
                        None
                    },
                    active: before.active,
                },
            ),
        decreases snapshot.len() - i,
    {
        let w = &snapshot[i];
        let window = WindowRef { label: w.label.clone(), handle: Some(w.handle) };
        let ghost here = registry@;
        assert(here.windows[0] == before.windows[i as int]);
        assert(first_match(here.windows, window@.label) == Some(0int));
        let ghost sofar = actions@;
        match plan_forward(registry, &window, false) {
            Ok(plan) => {
                let report = OsReport { completed: plan.len(), hook: None };
                let _ = forward_mouse_messages(registry, &window, false, &report);
                let mut k: usize = 0;
                while k < plan.len()
                    invariant
                        k <= plan.len(),
                        actions@ == sofar + plan@.take(k as int),
                    decreases plan.len() - k,
                {
                    actions.push(plan[k]);
                    k += 1;
                    assert(actions@ =~= sofar + plan@.take(k as int));
                }
                assert(plan@.take(k as int) =~= plan@);
                assert(registry@.windows =~= before.windows.skip(i + 1));
            },
            Err(_) => {},
        }
        i += 1;
        assert(actions@ =~= teardown(
            RegistryState {
                windows: before.windows.take(i as int),
                hook: if i == snapshot.len() {
                    before.hook
                } else {
                    None
                },
                active: before.active,
            },
        ));
    }
    assert(before.windows.take(i as int) =~= before.windows);
    assert(registry@.windows =~= Seq::empty());
    actions
}

} // verus!
