use pointer_forward::registry::clear_forward;
use pointer_forward::registry::forward_mouse_messages;
use pointer_forward::registry::plan_forward;
use pointer_forward::registry::rollback;
use pointer_forward::registry::Action;
use pointer_forward::registry::ForwardError;
use pointer_forward::registry::ForwardingRegistry;
use pointer_forward::registry::OsReport;
use pointer_forward::registry::WindowRef;

const HOOK: isize = 0x7001;

fn window(label: &str, handle: isize) -> WindowRef {
    WindowRef { label: label.to_string(), handle: Some(handle) }
}

/// Plans a toggle, reports every planned action as done, and commits.
fn toggle(registry: &mut ForwardingRegistry, w: &WindowRef, forward: bool) -> Vec<Action> {
    let plan = plan_forward(registry, w, forward).unwrap();
    let hook = if plan.contains(&Action::InstallHook) { Some(HOOK) } else { None };
    let report = OsReport { completed: plan.len(), hook };
    assert_eq!(forward_mouse_messages(registry, w, forward, &report), Ok(()));
    plan
}

fn labels(registry: &ForwardingRegistry) -> Vec<(String, isize)> {
    registry.snapshot().into_iter().map(|w| (w.label, w.handle)).collect()
}

fn hook_matches_set(registry: &ForwardingRegistry) -> bool {
    registry.hook().is_some() == (registry.len() > 0)
        && registry.is_active() == (registry.len() > 0)
}

#[test]
fn new_registry_is_idle() {
    let registry = ForwardingRegistry::new();
    assert_eq!(registry.len(), 0);
    assert_eq!(registry.hook(), None);
    assert!(!registry.is_active());
    assert!(registry.snapshot().is_empty());
}

#[test]
fn first_enable_attaches_then_installs_hook() {
    let mut registry = ForwardingRegistry::new();
    let plan = toggle(&mut registry, &window("Player", 11), true);
    assert_eq!(plan, vec![Action::AttachSubclass { handle: 11 }, Action::InstallHook]);
    assert_eq!(registry.len(), 1);
    assert_eq!(registry.hook(), Some(HOOK));
    assert!(registry.is_active());
    assert_eq!(labels(&registry), vec![("Player".to_string(), 11)]);
}

#[test]
fn second_enable_only_attaches() {
    let mut registry = ForwardingRegistry::new();
    toggle(&mut registry, &window("Player", 11), true);
    let w = window("Playlist", 12);
    let plan = plan_forward(&registry, &w, true).unwrap();
    assert_eq!(plan, vec![Action::AttachSubclass { handle: 12 }]);
    let report = OsReport { completed: 1, hook: Some(0x9999) };
    assert_eq!(forward_mouse_messages(&mut registry, &w, true, &report), Ok(()));
    assert_eq!(registry.hook(), Some(HOOK));
    assert_eq!(labels(&registry), vec![("Player".to_string(), 11), ("Playlist".to_string(), 12)]);
}

#[test]
fn hook_present_iff_set_non_empty_after_every_call() {
    let mut registry = ForwardingRegistry::new();
    let a = window("A", 1);
    let b = window("B", 2);
    assert!(hook_matches_set(&registry));
    toggle(&mut registry, &a, true);
    assert!(hook_matches_set(&registry));
    toggle(&mut registry, &b, true);
    assert!(hook_matches_set(&registry));
    toggle(&mut registry, &a, false);
    assert!(hook_matches_set(&registry));
    assert_eq!(registry.len(), 1);
    toggle(&mut registry, &a, false);
    assert!(hook_matches_set(&registry));
    assert_eq!(registry.len(), 1);
    toggle(&mut registry, &b, false);
    assert!(hook_matches_set(&registry));
    assert_eq!(registry.len(), 0);
    toggle(&mut registry, &b, true);
    assert!(hook_matches_set(&registry));
    clear_forward(&mut registry);
    assert!(hook_matches_set(&registry));
}

#[test]
fn last_disable_detaches_then_removes_hook() {
    let mut registry = ForwardingRegistry::new();
    let a = window("A", 1);
    let b = window("B", 2);
    toggle(&mut registry, &a, true);
    toggle(&mut registry, &b, true);
    assert_eq!(toggle(&mut registry, &a, false), vec![Action::DetachSubclass { handle: 1 }]);
    assert_eq!(registry.hook(), Some(HOOK));
    assert_eq!(
        toggle(&mut registry, &b, false),
        vec![Action::DetachSubclass { handle: 2 }, Action::RemoveHook { hook: HOOK }]
    );
    assert_eq!(registry.hook(), None);
    assert!(!registry.is_active());
    assert_eq!(registry.len(), 0);
}

#[test]
fn disable_of_unregistered_label_is_a_no_op() {
    let mut registry = ForwardingRegistry::new();
    let ghost = window("Convert", 5);
    assert_eq!(toggle(&mut registry, &ghost, false), vec![]);
    assert_eq!(registry.len(), 0);
    toggle(&mut registry, &window("Player", 11), true);
    let report = OsReport { completed: 0, hook: None };
    assert_eq!(plan_forward(&registry, &ghost, false), Ok(vec![]));
    assert_eq!(forward_mouse_messages(&mut registry, &ghost, false, &report), Ok(()));
    assert_eq!(labels(&registry), vec![("Player".to_string(), 11)]);
    assert_eq!(registry.hook(), Some(HOOK));
}

#[test]
fn enabling_twice_appends_a_second_entry() {
    let mut registry = ForwardingRegistry::new();
    let w = window("Player", 11);
    toggle(&mut registry, &w, true);
    toggle(&mut registry, &w, true);
    assert_eq!(labels(&registry), vec![("Player".to_string(), 11), ("Player".to_string(), 11)]);
    toggle(&mut registry, &w, false);
    assert_eq!(registry.len(), 1);
    assert_eq!(registry.hook(), Some(HOOK));
}

#[test]
fn disable_removes_the_first_entry_with_the_label() {
    let mut registry = ForwardingRegistry::new();
    toggle(&mut registry, &window("A", 1), true);
    toggle(&mut registry, &window("B", 2), true);
    toggle(&mut registry, &window("A", 3), true);
    toggle(&mut registry, &window("C", 4), true);
    let plan = toggle(&mut registry, &window("A", 9), false);
    assert_eq!(plan, vec![Action::DetachSubclass { handle: 9 }]);
    assert_eq!(
        labels(&registry),
        vec![("B".to_string(), 2), ("A".to_string(), 3), ("C".to_string(), 4)]
    );
}

#[test]
fn labels_are_compared_whole() {
    let mut registry = ForwardingRegistry::new();
    toggle(&mut registry, &window("Player", 1), true);
    assert_eq!(toggle(&mut registry, &window("Play", 1), false), vec![]);
    assert_eq!(toggle(&mut registry, &window("player", 1), false), vec![]);
    assert_eq!(toggle(&mut registry, &window("", 1), false), vec![]);
    assert_eq!(registry.len(), 1);
}

#[test]
fn clear_all_empties_whatever_was_registered() {
    for n in 0..6isize {
        let mut registry = ForwardingRegistry::new();
        for k in 0..n {
            toggle(&mut registry, &window(&format!("w{}", k), 100 + k), true);
        }
        let actions = clear_forward(&mut registry);
        assert_eq!(registry.len(), 0);
        assert_eq!(registry.hook(), None);
        assert!(!registry.is_active());
        let expected = if n == 0 { 0 } else { n + 1 };
        assert_eq!(actions.len() as isize, expected);
    }
}

#[test]
fn teardown_detaches_three_windows_and_removes_hook_once() {
    let mut registry = ForwardingRegistry::new();
    toggle(&mut registry, &window("Player", 11), true);
    toggle(&mut registry, &window("Playlist", 12), true);
    toggle(&mut registry, &window("Convert", 13), true);
    let actions = clear_forward(&mut registry);
    assert_eq!(
        actions,
        vec![
            Action::DetachSubclass { handle: 11 },
            Action::DetachSubclass { handle: 12 },
            Action::DetachSubclass { handle: 13 },
            Action::RemoveHook { hook: HOOK },
        ]
    );
    let removals = actions.iter().filter(|a| matches!(a, Action::RemoveHook { .. })).count();
    assert_eq!(removals, 1);
    assert_eq!(registry.len(), 0);
    assert_eq!(registry.hook(), None);
}

#[test]
fn clear_all_with_duplicate_labels() {
    let mut registry = ForwardingRegistry::new();
    toggle(&mut registry, &window("A", 1), true);
    toggle(&mut registry, &window("B", 2), true);
    toggle(&mut registry, &window("A", 3), true);
    let actions = clear_forward(&mut registry);
    assert_eq!(
        actions,
        vec![
            Action::DetachSubclass { handle: 1 },
            Action::DetachSubclass { handle: 2 },
            Action::DetachSubclass { handle: 3 },
            Action::RemoveHook { hook: HOOK },
        ]
    );
    assert_eq!(registry.len(), 0);
}

#[test]
fn clear_all_on_idle_registry_asks_for_nothing() {
    let mut registry = ForwardingRegistry::new();
    assert_eq!(clear_forward(&mut registry), vec![]);
    assert_eq!(registry.len(), 0);
}

#[test]
fn unresolved_window_is_window_not_found() {
    let mut registry = ForwardingRegistry::new();
    let lost = WindowRef { label: "Player".to_string(), handle: None };
    let report = OsReport { completed: 2, hook: Some(HOOK) };
    assert_eq!(plan_forward(&registry, &lost, true), Err(ForwardError::WindowNotFound));
    assert_eq!(plan_forward(&registry, &lost, false), Err(ForwardError::WindowNotFound));
    assert_eq!(
        forward_mouse_messages(&mut registry, &lost, true, &report),
        Err(ForwardError::WindowNotFound)
    );
    assert_eq!(registry.len(), 0);
    assert_eq!(registry.hook(), None);
    toggle(&mut registry, &window("Player", 11), true);
    assert_eq!(
        forward_mouse_messages(&mut registry, &lost, false, &report),
        Err(ForwardError::WindowNotFound)
    );
    assert_eq!(registry.len(), 1);
}

#[test]
fn failed_attach_changes_nothing() {
    let mut registry = ForwardingRegistry::new();
    let w = window("Player", 11);
    let report = OsReport { completed: 0, hook: None };
    assert_eq!(
        forward_mouse_messages(&mut registry, &w, true, &report),
        Err(ForwardError::SubclassAttachFailed)
    );
    assert_eq!(registry.len(), 0);
    assert_eq!(registry.hook(), None);
    assert!(!registry.is_active());
}

#[test]
fn failed_hook_install_changes_nothing() {
    let mut registry = ForwardingRegistry::new();
    let w = window("Player", 11);
    let stopped = OsReport { completed: 1, hook: None };
    assert_eq!(
        forward_mouse_messages(&mut registry, &w, true, &stopped),
        Err(ForwardError::HookInstallFailed)
    );
    let no_handle = OsReport { completed: 2, hook: None };
    assert_eq!(
        forward_mouse_messages(&mut registry, &w, true, &no_handle),
        Err(ForwardError::HookInstallFailed)
    );
    assert_eq!(registry.len(), 0);
    assert_eq!(registry.hook(), None);
    assert!(!registry.is_active());
    let retry = OsReport { completed: 2, hook: Some(HOOK) };
    assert_eq!(forward_mouse_messages(&mut registry, &w, true, &retry), Ok(()));
    assert_eq!(registry.hook(), Some(HOOK));
}

#[test]
fn failed_detach_changes_nothing() {
    let mut registry = ForwardingRegistry::new();
    let a = window("A", 1);
    toggle(&mut registry, &a, true);
    toggle(&mut registry, &window("B", 2), true);
    let report = OsReport { completed: 0, hook: None };
    assert_eq!(
        forward_mouse_messages(&mut registry, &a, false, &report),
        Err(ForwardError::SubclassDetachFailed)
    );
    assert_eq!(labels(&registry), vec![("A".to_string(), 1), ("B".to_string(), 2)]);
    assert_eq!(registry.hook(), Some(HOOK));
}

#[test]
fn failed_hook_removal_changes_nothing() {
    let mut registry = ForwardingRegistry::new();
    let a = window("A", 1);
    toggle(&mut registry, &a, true);
    let report = OsReport { completed: 1, hook: None };
    assert_eq!(
        forward_mouse_messages(&mut registry, &a, false, &report),
        Err(ForwardError::HookRemoveFailed)
    );
    assert_eq!(labels(&registry), vec![("A".to_string(), 1)]);
    assert_eq!(registry.hook(), Some(HOOK));
    assert!(registry.is_active());
}

#[test]
fn snapshot_is_a_copy() {
    let mut registry = ForwardingRegistry::new();
    toggle(&mut registry, &window("A", 1), true);
    let mut copy = registry.snapshot();
    copy.clear();
    assert_eq!(registry.len(), 1);
    assert_eq!(labels(&registry), vec![("A".to_string(), 1)]);
}

#[test]
fn rollback_takes_back_what_was_done_last_first() {
    let plan = vec![Action::AttachSubclass { handle: 1 }, Action::InstallHook];
    assert_eq!(rollback(&plan, &OsReport { completed: 0, hook: None }), vec![]);
    assert_eq!(
        rollback(&plan, &OsReport { completed: 1, hook: None }),
        vec![Action::DetachSubclass { handle: 1 }]
    );
    assert_eq!(
        rollback(&plan, &OsReport { completed: 2, hook: None }),
        vec![Action::DetachSubclass { handle: 1 }]
    );
    assert_eq!(
        rollback(&plan, &OsReport { completed: 2, hook: Some(9) }),
        vec![Action::RemoveHook { hook: 9 }, Action::DetachSubclass { handle: 1 }]
    );
    assert_eq!(
        rollback(&plan, &OsReport { completed: usize::MAX, hook: Some(9) }),
        vec![Action::RemoveHook { hook: 9 }, Action::DetachSubclass { handle: 1 }]
    );
}

#[test]
fn rollback_of_a_disable_reattaches() {
    let plan = vec![Action::DetachSubclass { handle: 4 }, Action::RemoveHook { hook: 5 }];
    assert_eq!(rollback(&plan, &OsReport { completed: 0, hook: None }), vec![]);
    assert_eq!(
        rollback(&plan, &OsReport { completed: 1, hook: None }),
        vec![Action::AttachSubclass { handle: 4 }]
    );
    assert_eq!(
        rollback(&plan, &OsReport { completed: 2, hook: None }),
        vec![Action::AttachSubclass { handle: 4 }]
    );
    assert_eq!(rollback(&vec![], &OsReport { completed: 3, hook: Some(1) }), vec![]);
}

#[test]
fn failed_toggle_and_its_rollback() {
    let mut registry = ForwardingRegistry::new();
    let w = window("Player", 11);
    let plan = plan_forward(&registry, &w, true).unwrap();
    let report = OsReport { completed: 1, hook: None };
    assert_eq!(
        forward_mouse_messages(&mut registry, &w, true, &report),
        Err(ForwardError::HookInstallFailed)
    );
    assert_eq!(rollback(&plan, &report), vec![Action::DetachSubclass { handle: 11 }]);
    assert!(hook_matches_set(&registry));
}
