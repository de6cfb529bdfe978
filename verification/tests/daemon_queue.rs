use ghidra_cli::cli::Commands;
use ghidra_cli::daemon::queue::{CommandQueue, Submission};
use std::path::{Path, PathBuf};

#[test]
fn test_queue_creation() {
    let queue = CommandQueue::new(PathBuf::from("/test/project"));
    assert_eq!(queue.project_path(), Path::new("/test/project"));
    assert_eq!(queue.queue_depth(), 0);
    assert_eq!(queue.completed_count(), 0);
}

#[test]
fn commands_run_in_submission_order() {
    let mut queue = CommandQueue::new(PathBuf::from("/p"));
    assert!(matches!(queue.submit(Commands::Version, 0), Submission::Queued));
    assert!(matches!(queue.submit(Commands::Doctor, 0), Submission::Queued));
    assert_eq!(queue.queue_depth(), 2);
    assert!(matches!(queue.next_command(), Some(Commands::Version)));
    assert!(matches!(queue.next_command(), Some(Commands::Doctor)));
    assert!(queue.next_command().is_none());
    assert_eq!(queue.queue_depth(), 0);
}

#[test]
fn successful_results_are_served_from_the_cache() {
    let mut queue = CommandQueue::new(PathBuf::from("/p"));
    assert!(matches!(queue.submit(Commands::Version, 1_000), Submission::Queued));
    let cmd = queue.next_command().unwrap();
    queue.finish(&cmd, &Ok("ghidra-cli 1.0".to_string()), 2_000);
    assert_eq!(queue.completed_count(), 1);
    match queue.submit(Commands::Version, 2_500) {
        Submission::Cached(v) => assert_eq!(v, "ghidra-cli 1.0"),
        Submission::Queued => panic!("expected a cached answer"),
    }
    assert_eq!(queue.queue_depth(), 0);
    // Five minutes later the entry has expired and the command queues again.
    assert!(matches!(queue.submit(Commands::Version, 2_000 + 300_001), Submission::Queued));
}

#[test]
fn failed_results_are_not_cached() {
    let mut queue = CommandQueue::new(PathBuf::from("/p"));
    queue.submit(Commands::Doctor, 0);
    let cmd = queue.next_command().unwrap();
    queue.finish(&cmd, &Err("bridge down".to_string()), 10);
    assert_eq!(queue.completed_count(), 1);
    assert!(matches!(queue.submit(Commands::Doctor, 20), Submission::Queued));
}
