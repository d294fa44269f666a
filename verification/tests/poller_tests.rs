use dirpoll::fs_model::{FsEntry, PathState};
use dirpoll::handler::{CountingHandler, ExpectingHandler, FailingHandler};
use dirpoll::poller::{DirectoryPoller, DirectoryPollerBuilder, PollError};

fn regular_file(name: &str, content: &str) -> FsEntry {
    FsEntry::RegularFile {
        name: name.to_string(),
        content: content.to_string(),
        readable: true,
        removable: true,
    }
}

fn dir_with_file() -> PathState {
    PathState::Directory(vec![regular_file("sample.txt", "hello")])
}

fn entry_count(state: &PathState) -> usize {
    match state {
        PathState::Directory(entries) => entries.len(),
        _ => panic!("expected a directory"),
    }
}

#[test]
fn verify_directory_fails() {
    let poller = DirectoryPoller::builder().build();
    let result = poller.verify_directory(&PathState::Missing);
    assert!(result.is_err());
}

#[test]
fn verify_directory_ok() {
    let poller = DirectoryPoller::builder().build();
    let result = poller.verify_directory(&PathState::Directory(Vec::new()));
    assert!(result.is_ok());
}

#[test]
fn call_on_file_content() {
    let mut state = PathState::Directory(vec![regular_file("sample.txt", "test content")]);

    let mut poller = DirectoryPoller::builder()
        .keep_running(false)
        .delete_files(false)
        .on_file_content(ExpectingHandler { expected: "test content".to_string(), calls: 0 })
        .build();
    let result = poller.poll_directory(&mut state);
    assert!(result.is_ok());
    assert_eq!(entry_count(&state), 1);
    assert_eq!(poller.on_file_content.calls, 1);
}

#[test]
fn call_on_file_content_multi() {
    let mut state = PathState::Directory(vec![regular_file("sample.txt", "test content")]);

    let poll_cycles = 3;
    let mut poller = DirectoryPoller::builder()
        .max_poll_cycles(poll_cycles)
        .delete_files(false)
        .on_file_content(CountingHandler { calls: 0 })
        .build();

    let result = poller.poll_directory(&mut state);
    assert!(result.is_ok());
    assert_eq!(entry_count(&state), 1);
    assert_eq!(poller.on_file_content.calls, poll_cycles as u64);
}

#[test]
fn call_on_file_content_error() {
    let mut state = PathState::Directory(vec![regular_file("test_unit.txt", "test content")]);

    let mut poller = DirectoryPoller::builder()
        .keep_running(false)
        .delete_files(false)
        .on_file_content(FailingHandler {
            message: "Simulated error in callback".to_string(),
            calls: 0,
        })
        .build();
    let result = poller.poll_directory(&mut state);
    match result {
        Err(PollError::Handler(e)) => assert_eq!(e.message, "Simulated error in callback"),
        other => panic!("expected a handler failure, got {:?}", other),
    }
    assert_eq!(entry_count(&state), 1);
}

#[test]
fn poll_directory_returns_error_for_missing_dir() {
    let mut state = PathState::Missing;

    let mut poller = DirectoryPoller::builder()
        .poll_interval_millis(0)
        .max_poll_cycles(1)
        .build();

    let result = poller.poll_directory(&mut state);
    assert!(result.is_err());
}

#[test]
fn poll_directory_deletes_files_enabled() {
    let mut state = dir_with_file();

    let mut poller = DirectoryPoller::builder()
        .delete_files(true)
        .poll_interval_millis(0)
        .max_poll_cycles(1)
        .build();

    let result = poller.poll_directory(&mut state);
    assert!(result.is_ok());
    assert_eq!(entry_count(&state), 0);
}

#[test]
fn poll_directory_keeps_files_disabled() {
    let mut state = dir_with_file();

    let mut poller = DirectoryPoller::builder()
        .delete_files(false)
        .poll_interval_millis(0)
        .max_poll_cycles(1)
        .build();

    let result = poller.poll_directory(&mut state);
    assert!(result.is_ok());
    assert_eq!(entry_count(&state), 1);
}

#[test]
fn poll_directory_runs_once() {
    let mut state = dir_with_file();

    let mut poller = DirectoryPoller::builder()
        .delete_files(false)
        .poll_interval_millis(0)
        .keep_running(false)
        .on_file_content(CountingHandler { calls: 0 })
        .build();

    let result = poller.poll_directory(&mut state);
    assert!(result.is_ok());
    assert_eq!(entry_count(&state), 1);
    assert_eq!(poller.on_file_content.calls, 1);
}

#[test]
fn poll_directory_runs_multiple_cycles() {
    let poll_cycles = 3;
    let mut state = dir_with_file();

    let mut poller = DirectoryPoller::builder()
        .delete_files(false)
        .poll_interval_millis(0)
        .max_poll_cycles(poll_cycles)
        .on_file_content(CountingHandler { calls: 0 })
        .build();

    let result = poller.poll_directory(&mut state);
    assert!(result.is_ok());
    assert_eq!(entry_count(&state), 1);
    assert_eq!(poller.on_file_content.calls, poll_cycles as u64);
}

#[test]
fn poll_directory_with_error_in_callback() {
    let mut state = dir_with_file();

    let mut poller = DirectoryPoller::builder()
        .delete_files(true)
        .poll_interval_millis(0)
        .max_poll_cycles(1)
        .on_file_content(FailingHandler {
            message: "Simulated error in callback".to_string(),
            calls: 0,
        })
        .build();

    let result = poller.poll_directory(&mut state);
    assert!(result.is_err());
    assert_eq!(entry_count(&state), 1);
}

#[test]
fn builder_defaults_match_documentation() {
    let b = DirectoryPollerBuilder::new();
    assert!(!b.keep_running);
    assert!(!b.delete_files);
    assert_eq!(b.poll_interval_millis, 1000);
    assert_eq!(b.max_poll_cycles, -1);
}

#[test]
fn continuation_uses_flag_without_cap() {
    let stopping = DirectoryPoller::builder().keep_running(false).build();
    assert!(!stopping.should_continue_polling(1));

    let running = DirectoryPoller::builder().keep_running(true).build();
    assert!(running.should_continue_polling(1));
    assert!(running.should_continue_polling(1000));
}

#[test]
fn cycle_cap_takes_precedence_over_keep_running() {
    let poller = DirectoryPoller::builder().keep_running(true).max_poll_cycles(2).build();
    assert!(poller.should_continue_polling(1));
    assert!(!poller.should_continue_polling(2));
    assert!(!poller.should_continue_polling(3));

    let mut state = dir_with_file();
    let mut counting = DirectoryPoller::builder()
        .keep_running(true)
        .max_poll_cycles(2)
        .poll_interval_millis(0)
        .on_file_content(CountingHandler { calls: 0 })
        .build();
    let result = counting.poll_directory(&mut state);
    assert!(result.is_ok());
    assert_eq!(counting.on_file_content.calls, 2);
}

#[test]
fn poll_directory_rejects_non_directory() {
    let mut state = PathState::NonDirectory;
    let mut poller = DirectoryPoller::builder().max_poll_cycles(1).build();
    let result = poller.poll_directory(&mut state);
    assert_eq!(result, Err(PollError::NotADirectory));
    assert_eq!(state, PathState::NonDirectory);
}

#[test]
fn unreadable_file_aborts_the_operation() {
    let mut state = PathState::Directory(vec![FsEntry::RegularFile {
        name: "sample.txt".to_string(),
        content: "hello".to_string(),
        readable: false,
        removable: true,
    }]);

    let mut poller = DirectoryPoller::builder()
        .delete_files(true)
        .poll_interval_millis(0)
        .max_poll_cycles(3)
        .on_file_content(CountingHandler { calls: 0 })
        .build();

    let result = poller.poll_directory(&mut state);
    assert_eq!(result, Err(PollError::ReadFailed { name: "sample.txt".to_string() }));
    assert_eq!(poller.on_file_content.calls, 0);
    assert_eq!(entry_count(&state), 1);
}

#[test]
fn failed_deletion_is_not_fatal() {
    let mut state = PathState::Directory(vec![FsEntry::RegularFile {
        name: "sample.txt".to_string(),
        content: "hello".to_string(),
        readable: true,
        removable: false,
    }]);

    let mut poller = DirectoryPoller::builder()
        .delete_files(true)
        .poll_interval_millis(0)
        .max_poll_cycles(2)
        .on_file_content(CountingHandler { calls: 0 })
        .build();

    let result = poller.poll_directory(&mut state);
    assert!(result.is_ok());
    // the file stayed and was processed again on the next cycle
    assert_eq!(entry_count(&state), 1);
    assert_eq!(poller.on_file_content.calls, 2);
}

#[test]
fn non_regular_entries_are_never_handled() {
    let mut state = PathState::Directory(vec![
        FsEntry::Subdirectory { name: "sub".to_string() },
        regular_file("sample.txt", "hello"),
        FsEntry::Symlink { name: "link".to_string() },
        FsEntry::Special { name: "pipe".to_string() },
    ]);

    let mut poller = DirectoryPoller::builder()
        .delete_files(true)
        .poll_interval_millis(0)
        .max_poll_cycles(1)
        .on_file_content(CountingHandler { calls: 0 })
        .build();

    let result = poller.poll_directory(&mut state);
    assert!(result.is_ok());
    assert_eq!(poller.on_file_content.calls, 1);
    match &state {
        PathState::Directory(entries) => {
            assert_eq!(entries.len(), 3);
            assert!(entries.iter().all(|e| !matches!(e, FsEntry::RegularFile { .. })));
        },
        _ => panic!("expected a directory"),
    }
}

#[test]
fn handler_sees_same_content_each_cycle() {
    let mut state = dir_with_file();

    let mut poller = DirectoryPoller::builder()
        .delete_files(false)
        .poll_interval_millis(0)
        .max_poll_cycles(3)
        .on_file_content(ExpectingHandler { expected: "hello".to_string(), calls: 0 })
        .build();

    // success of every invocation shows each one saw exactly "hello"
    let result = poller.poll_directory(&mut state);
    assert!(result.is_ok());
    assert_eq!(poller.on_file_content.calls, 3);
    assert_eq!(entry_count(&state), 1);
}

#[test]
fn handler_failure_skips_later_files_and_cycles() {
    let mut state = PathState::Directory(vec![
        regular_file("first.txt", "alpha"),
        regular_file("second.txt", "beta"),
    ]);

    let mut poller = DirectoryPoller::builder()
        .delete_files(true)
        .poll_interval_millis(0)
        .max_poll_cycles(5)
        .on_file_content(FailingHandler { message: "no".to_string(), calls: 0 })
        .build();

    let result = poller.poll_directory(&mut state);
    assert!(result.is_err());
    // the handler ran once: the second file was never processed
    assert_eq!(poller.on_file_content.calls, 1);
    // nothing was deleted
    assert_eq!(entry_count(&state), 2);
}

#[test]
fn mismatched_content_is_a_handler_failure() {
    let mut state = PathState::Directory(vec![regular_file("sample.txt", "goodbye")]);

    let mut poller = DirectoryPoller::builder()
        .max_poll_cycles(1)
        .on_file_content(ExpectingHandler { expected: "hello".to_string(), calls: 0 })
        .build();

    let result = poller.poll_directory(&mut state);
    match result {
        Err(PollError::Handler(e)) => assert_eq!(e.message, "hello"),
        other => panic!("expected a handler failure, got {:?}", other),
    }
    assert_eq!(poller.on_file_content.calls, 1);
}

#[test]
fn empty_directory_polls_successfully() {
    let mut state = PathState::Directory(Vec::new());
    let mut poller = DirectoryPoller::builder()
        .delete_files(true)
        .poll_interval_millis(0)
        .max_poll_cycles(4)
        .on_file_content(CountingHandler { calls: 0 })
        .build();
    let result = poller.poll_directory(&mut state);
    assert!(result.is_ok());
    assert_eq!(poller.on_file_content.calls, 0);
    assert_eq!(entry_count(&state), 0);
}
