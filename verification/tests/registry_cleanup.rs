use alive_lock_file::CreateOutcome;
use alive_lock_file::Registry;
use alive_lock_file::try_lock_until_dropped;

#[test]
fn new_registry_is_empty() {
    let reg = Registry::new();
    assert!(reg.is_empty());
    assert!(!reg.contains(&String::from("/run/user/1000/a.lock")));
}

#[test]
fn register_is_idempotent() {
    let mut reg = Registry::new();
    reg.register(String::from("/run/user/1000/a.lock"));
    reg.register(String::from("/run/user/1000/a.lock"));
    let snapshot = reg.snapshot_and_clear();
    assert_eq!(snapshot.len(), 1);
    assert_eq!(snapshot[0], "/run/user/1000/a.lock");
}

#[test]
fn unregister_absent_path_changes_nothing() {
    let mut reg = Registry::new();
    reg.register(String::from("/run/user/1000/a.lock"));
    reg.unregister(&String::from("/run/user/1000/b.lock"));
    assert!(reg.contains(&String::from("/run/user/1000/a.lock")));
    assert!(!reg.is_empty());
}

#[test]
fn unregister_forgets_the_path() {
    let mut reg = Registry::new();
    reg.register(String::from("/run/user/1000/a.lock"));
    reg.register(String::from("/run/user/1000/b.lock"));
    reg.unregister(&String::from("/run/user/1000/a.lock"));
    assert!(!reg.contains(&String::from("/run/user/1000/a.lock")));
    assert!(reg.contains(&String::from("/run/user/1000/b.lock")));
}

#[test]
fn crash_sweep_drains_a_held_lock() {
    // A handle is acquired and never released: the simulated terminating
    // signal's sweep must still hand out its path for deletion and leave
    // the registry empty, so no phantom lock survives the crash.
    let mut reg = Registry::new();
    let r = try_lock_until_dropped(
        String::from("/run/user/1000/held.lock"),
        CreateOutcome::Created,
        &mut reg,
    )
    .unwrap();
    assert!(r.has_lock());
    let swept = reg.snapshot_and_clear();
    assert_eq!(swept.len(), 1);
    assert_eq!(swept[0], "/run/user/1000/held.lock");
    assert!(reg.is_empty());
}

#[test]
fn crash_sweep_covers_every_held_lock() {
    // Two handles for two different names: one cleanup sweep hands out
    // both paths and empties the registry.
    let mut reg = Registry::new();
    let first = try_lock_until_dropped(
        String::from("/run/user/1000/one.lock"),
        CreateOutcome::Created,
        &mut reg,
    )
    .unwrap();
    let second = try_lock_until_dropped(
        String::from("/run/user/1000/two.lock"),
        CreateOutcome::Created,
        &mut reg,
    )
    .unwrap();
    assert!(first.has_lock());
    assert!(second.has_lock());
    let swept = reg.snapshot_and_clear();
    assert_eq!(swept.len(), 2);
    assert!(swept.contains(&String::from("/run/user/1000/one.lock")));
    assert!(swept.contains(&String::from("/run/user/1000/two.lock")));
    assert!(reg.is_empty());
}

#[test]
fn sweep_of_an_empty_registry_is_empty() {
    let mut reg = Registry::new();
    let swept = reg.snapshot_and_clear();
    assert!(swept.is_empty());
    assert!(reg.is_empty());
}
