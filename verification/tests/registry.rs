use process_registry::registry::ManagedProcess;
use process_registry::registry::ProcessRegistry;

fn record(child: u32, stdin: u32) -> ManagedProcess<u32, u32> {
    ManagedProcess::new(child).with_stdin(stdin)
}

#[test]
fn new_registry_contains_nothing() {
    let registry: ProcessRegistry<u32, u32> = ProcessRegistry::new();
    assert!(!registry.contains("a"));
    assert!(!registry.contains(""));
    assert!(registry.is_empty());
    assert_eq!(registry.len(), 0);
}

#[test]
fn default_registry_is_empty() {
    let registry: ProcessRegistry<u32, u32> = ProcessRegistry::default();
    assert!(registry.is_empty());
    assert_eq!(registry.len(), 0);
}

#[test]
fn insert_then_remove_hands_the_record_out() {
    let mut registry: ProcessRegistry<u32, u32> = ProcessRegistry::new();
    registry.insert("a".to_string(), record(7, 8));
    assert!(registry.contains("a"));
    assert!(!registry.is_empty());
    assert_eq!(registry.len(), 1);
    let removed = registry.remove("a").unwrap();
    assert_eq!(removed.child, Some(7));
    assert_eq!(removed.stdin, Some(8));
    assert!(!registry.contains("a"));
    assert!(registry.is_empty());
}

#[test]
fn removing_twice_finds_nothing_the_second_time() {
    let mut registry: ProcessRegistry<u32, u32> = ProcessRegistry::new();
    registry.insert("a".to_string(), record(1, 2));
    assert!(registry.remove("a").is_some());
    assert!(registry.remove("a").is_none());
    assert!(registry.remove("a").is_none());
    assert_eq!(registry.len(), 0);
}

#[test]
fn removing_an_unknown_id_changes_nothing() {
    let mut registry: ProcessRegistry<u32, u32> = ProcessRegistry::new();
    registry.insert("a".to_string(), record(1, 2));
    assert!(registry.remove("b").is_none());
    assert_eq!(registry.len(), 1);
    assert_eq!(registry.remove("a"), Some(record(1, 2)));
}

#[test]
fn insert_replaces_a_record_under_the_same_id() {
    let mut registry: ProcessRegistry<u32, u32> = ProcessRegistry::new();
    registry.insert("a".to_string(), record(1, 2));
    registry.insert("b".to_string(), record(3, 4));
    registry.insert("a".to_string(), record(5, 6));
    assert_eq!(registry.len(), 2);
    assert_eq!(registry.remove("a"), Some(record(5, 6)));
    assert_eq!(registry.remove("b"), Some(record(3, 4)));
    assert!(registry.is_empty());
}

#[test]
fn removing_the_first_of_three_keeps_the_others() {
    let mut registry: ProcessRegistry<u32, u32> = ProcessRegistry::new();
    registry.insert("a".to_string(), record(1, 10));
    registry.insert("b".to_string(), record(2, 20));
    registry.insert("c".to_string(), record(3, 30));
    assert_eq!(registry.remove("a"), Some(record(1, 10)));
    assert_eq!(registry.len(), 2);
    assert!(!registry.contains("a"));
    assert!(registry.contains("b"));
    assert!(registry.contains("c"));
    assert_eq!(registry.remove("c"), Some(record(3, 30)));
    assert_eq!(registry.remove("b"), Some(record(2, 20)));
    assert!(registry.is_empty());
}

#[test]
fn removing_the_middle_of_three_keeps_the_others() {
    let mut registry: ProcessRegistry<u32, u32> = ProcessRegistry::new();
    registry.insert("a".to_string(), record(1, 10));
    registry.insert("b".to_string(), record(2, 20));
    registry.insert("c".to_string(), record(3, 30));
    assert_eq!(registry.remove("b"), Some(record(2, 20)));
    assert_eq!(registry.remove("a"), Some(record(1, 10)));
    assert_eq!(registry.remove("c"), Some(record(3, 30)));
    assert!(registry.is_empty());
}

#[test]
fn removing_the_last_of_three_keeps_the_others() {
    let mut registry: ProcessRegistry<u32, u32> = ProcessRegistry::new();
    registry.insert("a".to_string(), record(1, 10));
    registry.insert("b".to_string(), record(2, 20));
    registry.insert("c".to_string(), record(3, 30));
    assert_eq!(registry.remove("c"), Some(record(3, 30)));
    assert_eq!(registry.remove("a"), Some(record(1, 10)));
    assert_eq!(registry.remove("b"), Some(record(2, 20)));
    assert!(registry.is_empty());
}

#[test]
fn a_hundred_records_survive_the_removal_of_every_other_one() {
    let mut registry: ProcessRegistry<u32, u32> = ProcessRegistry::new();
    for n in 0..100u32 {
        registry.insert(format!("id-{}", n), record(n, n + 1000));
    }
    assert_eq!(registry.len(), 100);
    for n in (0..100u32).filter(|n| n % 2 == 0) {
        assert_eq!(registry.remove(&format!("id-{}", n)), Some(record(n, n + 1000)));
    }
    assert_eq!(registry.len(), 50);
    for n in 0..100u32 {
        assert_eq!(registry.contains(&format!("id-{}", n)), n % 2 == 1);
    }
    for n in (0..100u32).rev().filter(|n| n % 2 == 1) {
        assert_eq!(registry.remove(&format!("id-{}", n)), Some(record(n, n + 1000)));
    }
    assert!(registry.is_empty());
}

#[test]
fn a_removed_id_can_be_filed_again() {
    let mut registry: ProcessRegistry<u32, u32> = ProcessRegistry::new();
    registry.insert("a".to_string(), record(1, 2));
    registry.insert("b".to_string(), record(3, 4));
    assert!(registry.remove("a").is_some());
    registry.insert("a".to_string(), record(5, 6));
    assert_eq!(registry.len(), 2);
    assert_eq!(registry.remove("a"), Some(record(5, 6)));
    assert_eq!(registry.remove("b"), Some(record(3, 4)));
}

#[test]
fn with_entry_edits_the_record_in_place() {
    let mut registry: ProcessRegistry<u32, u32> = ProcessRegistry::new();
    registry.insert("a".to_string(), record(1, 2));
    registry.insert("b".to_string(), record(3, 4));
    let taken = registry.with_entry("a", |process| process.stdin.take());
    assert_eq!(taken, Some(Some(2)));
    let again = registry.with_entry("a", |process| process.stdin.take());
    assert_eq!(again, Some(None));
    let child = registry.with_entry("b", ManagedProcess::take_child);
    assert_eq!(child, Some(Some(3)));
    assert_eq!(registry.remove("a"), Some(ManagedProcess { child: Some(1), stdin: None }));
    assert_eq!(registry.remove("b"), Some(ManagedProcess { child: None, stdin: Some(4) }));
}

#[test]
fn with_entry_on_an_unknown_id_does_not_run() {
    let mut registry: ProcessRegistry<u32, u32> = ProcessRegistry::new();
    registry.insert("a".to_string(), record(1, 2));
    let mut ran = false;
    let outcome = registry.with_entry("zzz", |process| {
        ran = true;
        process.take_child()
    });
    assert_eq!(outcome, None);
    assert!(!ran);
    assert_eq!(registry.remove("a"), Some(record(1, 2)));
}

#[test]
fn ids_are_compared_exactly() {
    let mut registry: ProcessRegistry<u32, u32> = ProcessRegistry::new();
    registry.insert("abc".to_string(), record(1, 2));
    assert!(!registry.contains("ABC"));
    assert!(!registry.contains("abc "));
    assert!(!registry.contains("ab"));
    assert!(registry.contains("abc"));
}
