use process_registry::registry::ManagedProcess;
use process_registry::registry::ProcessRegistry;
use process_registry::stop::stop_external_process;
use process_registry::stop::stop_result;
use process_registry::stop::StopError;

#[test]
fn stop_removes_the_record_and_claims_the_handle() {
    let mut registry: ProcessRegistry<u32, u32> = ProcessRegistry::new();
    registry.insert("p".to_string(), ManagedProcess::new(1).with_stdin(2));
    assert_eq!(stop_external_process(Ok(&mut registry), "p"), Ok(1));
    assert!(!registry.contains("p"));
    assert!(registry.is_empty());
}

#[test]
fn stop_of_an_unknown_process_is_refused() {
    let mut registry: ProcessRegistry<u32, u32> = ProcessRegistry::new();
    registry.insert("p".to_string(), ManagedProcess::new(1).with_stdin(2));
    assert_eq!(
        stop_external_process(Ok(&mut registry), "q"),
        Err(StopError::ProcessNotFoundOrAlreadyHandled)
    );
    assert!(registry.contains("p"));
    assert_eq!(registry.len(), 1);
}

#[test]
fn stop_twice_is_refused_the_second_time() {
    let mut registry: ProcessRegistry<u32, u32> = ProcessRegistry::new();
    registry.insert("p".to_string(), ManagedProcess::new(1).with_stdin(2));
    assert_eq!(stop_external_process(Ok(&mut registry), "p"), Ok(1));
    assert_eq!(
        stop_external_process(Ok(&mut registry), "p"),
        Err(StopError::ProcessNotFoundOrAlreadyHandled)
    );
}

#[test]
fn stop_without_a_handle_still_removes_the_record() {
    let mut registry: ProcessRegistry<u32, u32> = ProcessRegistry::new();
    registry.insert("p".to_string(), ManagedProcess { child: None, stdin: Some(2) });
    assert_eq!(
        stop_external_process(Ok(&mut registry), "p"),
        Err(StopError::ProcessNotFoundOrAlreadyHandled)
    );
    assert!(!registry.contains("p"));
}

#[test]
fn stop_with_a_corrupted_lock_reports_the_lock() {
    let claim = stop_external_process::<u32, u32>(
        Err("poisoned lock: another task failed inside".to_string()),
        "p",
    );
    assert_eq!(
        claim,
        Err(StopError::LockCorrupted("poisoned lock: another task failed inside".to_string()))
    );
}

#[test]
fn stop_result_follows_the_kill() {
    assert_eq!(stop_result(Ok(())), Ok(()));
    assert_eq!(
        stop_result(Err("No such process (os error 3)".to_string())),
        Err(StopError::KillFailed("No such process (os error 3)".to_string()))
    );
}

#[test]
fn stop_error_messages() {
    assert_eq!(
        StopError::ProcessNotFoundOrAlreadyHandled.message("abc"),
        "Process with ID abc not found or already being monitored/stopped."
    );
    assert_eq!(
        StopError::LockCorrupted("poisoned lock: another task failed inside".to_string())
            .message("abc"),
        "Mutex poisoned: poisoned lock: another task failed inside"
    );
    assert_eq!(
        StopError::KillFailed("No such process (os error 3)".to_string()).message("abc"),
        "Failed to kill process: No such process (os error 3)"
    );
}
