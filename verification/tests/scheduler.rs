use delete::scheduler::{Action, FsError, Phase, RapidDelete};
use delete::walk::Entry;

fn entry(path: &str, is_file: bool) -> Entry {
    Entry { path: path.to_string(), is_file }
}

fn fs_error(message: &str) -> FsError {
    FsError { message: message.to_string() }
}

fn chunk_of(names: &[&str]) -> Vec<String> {
    names.iter().map(|n| n.to_string()).collect()
}

#[test]
fn default_chunk_sizes_are_used_when_none_requested() {
    let m = RapidDelete::new(None, None);
    assert_eq!(m.file_chunk_size, 350);
    assert_eq!(m.folder_chunk_size, 25);
    assert_eq!(m.phase, Phase::AwaitingWalk);
}

#[test]
fn requested_chunk_sizes_override_the_defaults() {
    let m = RapidDelete::new(Some(7), Some(11));
    assert_eq!(m.folder_chunk_size, 7);
    assert_eq!(m.file_chunk_size, 11);
}

#[test]
fn walk_error_is_fatal_and_nothing_is_scheduled() {
    let mut m = RapidDelete::new(None, None);
    let action = m.on_walk_result(Err(fs_error("permission denied")));
    match action {
        Action::Finish(Err(e)) => assert_eq!(e.message, "permission denied"),
        other => panic!("expected a fatal finish, got {:?}", other),
    }
    assert_eq!(m.phase, Phase::Done);
}

#[test]
fn empty_walk_still_removes_the_root_and_succeeds() {
    let mut m = RapidDelete::new(None, None);
    let action = m.on_walk_result(Ok(Vec::new()));
    assert_eq!(action, Action::RemoveRoot);
    let action = m.on_root_removed(Ok(()));
    assert_eq!(action, Action::Finish(Ok(())));
    assert_eq!(m.phase, Phase::Done);
}

#[test]
fn rapid_delete_runs_files_then_folders_then_root() {
    // Root R holds files a.txt and b.txt and a subdirectory D holding c.txt;
    // with both chunk sizes at 1 the file wave runs three tasks, one per
    // discovered file, then the folder wave removes D, then R itself goes.
    let mut m = RapidDelete::new(Some(1), Some(1));
    let entries = vec![
        entry("R/a.txt", true),
        entry("R/b.txt", true),
        entry("R/D", false),
        entry("R/D/c.txt", true),
    ];
    let action = m.on_walk_result(Ok(entries));
    assert_eq!(
        action,
        Action::SpawnFileTasks(vec![
            chunk_of(&["R/a.txt"]),
            chunk_of(&["R/b.txt"]),
            chunk_of(&["R/D/c.txt"]),
        ])
    );
    assert_eq!(m.phase, Phase::FileWave { pending: 3 });

    // No folder-wave task may start before every file task has finished.
    assert_eq!(m.on_file_task_done(Ok(())), Action::Wait);
    assert_eq!(m.on_file_task_done(Ok(())), Action::Wait);
    let action = m.on_file_task_done(Ok(()));
    assert_eq!(action, Action::SpawnFolderTasks(vec![chunk_of(&["R/D"])]));
    assert_eq!(m.phase, Phase::FolderWave { pending: 1 });

    let action = m.on_folder_task_done(Ok(()));
    assert_eq!(action, Action::RemoveRoot);

    let action = m.on_root_removed(Ok(()));
    assert_eq!(action, Action::Finish(Ok(())));
    assert_eq!(m.phase, Phase::Done);
}

#[test]
fn file_wave_tasks_count_is_rounded_up() {
    // Five files at two per chunk give three tasks, the last with one file.
    let mut m = RapidDelete::new(None, Some(2));
    let entries = vec![
        entry("f1", true),
        entry("f2", true),
        entry("f3", true),
        entry("f4", true),
        entry("f5", true),
    ];
    let action = m.on_walk_result(Ok(entries));
    assert_eq!(
        action,
        Action::SpawnFileTasks(vec![
            chunk_of(&["f1", "f2"]),
            chunk_of(&["f3", "f4"]),
            chunk_of(&["f5"]),
        ])
    );
    assert_eq!(m.phase, Phase::FileWave { pending: 3 });
}

#[test]
fn file_deletion_error_aborts_the_call() {
    let mut m = RapidDelete::new(Some(1), Some(1));
    let entries = vec![entry("a", true), entry("b", true)];
    m.on_walk_result(Ok(entries));
    assert_eq!(m.on_file_task_done(Ok(())), Action::Wait);
    let action = m.on_file_task_done(Err(fs_error("file is busy")));
    match action {
        Action::Finish(Err(e)) => assert_eq!(e.message, "file is busy"),
        other => panic!("expected a fatal finish, got {:?}", other),
    }
    assert_eq!(m.phase, Phase::Done);
}

#[test]
fn folder_deletion_error_is_ignored() {
    let mut m = RapidDelete::new(Some(1), Some(1));
    let entries = vec![entry("d1", false), entry("d2", false)];
    let action = m.on_walk_result(Ok(entries));
    assert_eq!(
        action,
        Action::SpawnFolderTasks(vec![chunk_of(&["d1"]), chunk_of(&["d2"])])
    );
    // The file wave is skipped entirely when the walk found no files.
    assert_eq!(m.on_folder_task_done(Err(fs_error("already gone"))), Action::Wait);
    assert_eq!(m.on_folder_task_done(Ok(())), Action::RemoveRoot);
    assert_eq!(m.on_root_removed(Ok(())), Action::Finish(Ok(())));
}

#[test]
fn root_removal_error_is_ignored() {
    let mut m = RapidDelete::new(None, None);
    assert_eq!(m.on_walk_result(Ok(Vec::new())), Action::RemoveRoot);
    let action = m.on_root_removed(Err(fs_error("root already gone")));
    assert_eq!(action, Action::Finish(Ok(())));
    assert_eq!(m.phase, Phase::Done);
}

#[test]
fn two_interleaved_calls_do_not_interfere() {
    let mut left = RapidDelete::new(Some(1), Some(1));
    let mut right = RapidDelete::new(Some(1), Some(1));
    let left_action = left.on_walk_result(Ok(vec![entry("l/x", true)]));
    let right_action = right.on_walk_result(Ok(vec![entry("r/y", false)]));
    assert_eq!(left_action, Action::SpawnFileTasks(vec![chunk_of(&["l/x"])]));
    assert_eq!(right_action, Action::SpawnFolderTasks(vec![chunk_of(&["r/y"])]));

    assert_eq!(right.on_folder_task_done(Ok(())), Action::RemoveRoot);
    assert_eq!(left.on_file_task_done(Ok(())), Action::RemoveRoot);
    assert_eq!(right.on_root_removed(Ok(())), Action::Finish(Ok(())));
    assert_eq!(left.on_root_removed(Ok(())), Action::Finish(Ok(())));
    assert_eq!(left.phase, Phase::Done);
    assert_eq!(right.phase, Phase::Done);
}
