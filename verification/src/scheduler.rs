//! The rapid-delete scheduler.
//!
//! Deleting a tree runs in two strictly sequential waves: first every walked
//! file, then every walked directory, each wave split into fixed-size chunks
//! that run as concurrent tasks; finally the root itself is removed. The
//! [`RapidDelete`] state machine makes every decision of that protocol — how
//! the walk outcome is turned into chunks, when a wave may start, and which
//! errors are fatal and which are ignored — while the caller performs the
//! walk, the deletions and the waiting, feeding each outcome back in.
//!
//! Error policy, as the contracts state it: a walk error is fatal to the
//! whole call; a file-wave task error is fatal; a folder-wave task error and
//! an error removing the root are deliberately ignored.

use vstd::prelude::*;
use vstd::pervasive::unreached;
use crate::chunk::{chunked, chunks_view, lemma_chunk_count, lemma_chunked_flatten, split_into_chunks};
use crate::walk::{file_paths, folder_paths, lemma_partition_complete, partition_entries, paths_of, Entry};

verus! {

/// An opaque filesystem error, carried through the scheduler untranslated.
#[derive(Debug, PartialEq, Eq)]
pub struct FsError {
    pub message: String,
}

/// Number of files one file-wave task deletes when no size is requested.
pub const DEFAULT_FILE_CHUNK_SIZE: usize = 350;

/// Number of directories one folder-wave task removes when no size is
/// requested.
pub const DEFAULT_FOLDER_CHUNK_SIZE: usize = 25;

/// Where a rapid delete stands between two events.
#[derive(Debug, Clone, Copy, PartialEq, Eq)]
pub enum Phase {
    /// Waiting for the walk of the root to finish.
    AwaitingWalk,
    /// File-wave tasks are running; `pending` of them have not finished.
    FileWave { pending: usize },
    /// Folder-wave tasks are running; `pending` of them have not finished.
    FolderWave { pending: usize },
    /// Both waves are done; waiting for the root itself to be removed.
    AwaitingRootRemoval,
    /// The call is over, successfully or not.
    Done,
}

/// What the caller must do next.
#[derive(Debug, PartialEq)]
pub enum Action {
    /// Launch one concurrent task per chunk; each task deletes its chunk's
    /// files in order and reports the first error, which is fatal.
    SpawnFileTasks(Vec<Vec<String>>),
    /// Launch one concurrent task per chunk; each task recursively removes
    /// its chunk's directories in order, ignoring errors.
    SpawnFolderTasks(Vec<Vec<String>>),
    /// Recursively remove the root path; the outcome is ignored.
    RemoveRoot,
    /// Keep waiting for the running tasks and report each as it finishes.
    Wait,
    /// The call is over with this result.
    Finish(Result<(), FsError>),
}

/// The scheduler of one rapid-delete call.
pub struct RapidDelete {
    /// Files per file-wave chunk; at least 1.
    pub file_chunk_size: usize,
    /// Directories per folder-wave chunk; at least 1.
    pub folder_chunk_size: usize,
    /// Where the call stands.
    pub phase: Phase,
    /// The folder-wave chunks, held from the walk until the file wave has
    /// finished and the folder wave may start.
    pub folder_chunks: Option<Vec<Vec<String>>>,
}

/// The chunk size that a request resolves to: the requested value, or the
/// given default when none was requested.
pub open spec fn spec_chunk_size(requested: Option<u64>, default: usize) -> int {
    match requested {
        Some(c) => c as int,
        None => default as int,
    }
}

/// The folder-wave chunks a scheduler still holds, if any.
pub open spec fn stored_folder_chunks(held: Option<Vec<Vec<String>>>) -> Seq<Seq<String>> {
    match held {
        Some(cs) => chunks_view(cs@),
        None => Seq::empty(),
    }
}

impl RapidDelete {
    /// Internal consistency: chunk sizes are positive, a running wave has
    /// tasks outstanding, and the folder-wave chunks are held exactly while
    /// the file wave runs — before it they do not exist yet, after it they
    /// have been handed out or abandoned.
    pub open spec fn wf(self) -> bool {
        &&& self.file_chunk_size >= 1
        &&& self.folder_chunk_size >= 1
        &&& (self.phase matches Phase::FileWave { pending } ==> pending >= 1
            && self.folder_chunks is Some)
        &&& (self.phase matches Phase::FolderWave { pending } ==> pending >= 1)
        &&& (self.phase !is FileWave ==> self.folder_chunks is None)
    }

    /// The file-wave chunks this scheduler plans for a given walk.
    pub open spec fn planned_file_chunks(self, entries: Seq<Entry>) -> Seq<Seq<String>> {
        chunked(file_paths(entries), self.file_chunk_size as int)
    }

    /// The folder-wave chunks this scheduler plans for a given walk.
    pub open spec fn planned_folder_chunks(self, entries: Seq<Entry>) -> Seq<Seq<String>> {
        chunked(folder_paths(entries), self.folder_chunk_size as int)
    }

    /// What a successful walk leads to: the file wave starts if it has any
    /// chunk; otherwise the folder wave starts if it has any; otherwise only
    /// the root is left to remove.
    pub open spec fn walk_ok_transition(
        pre: RapidDelete,
        post: RapidDelete,
        entries: Seq<Entry>,
        action: Action,
    ) -> bool {
        let fcs = pre.planned_file_chunks(entries);
        let dcs = pre.planned_folder_chunks(entries);
        &&& (fcs.len() > 0 ==> {
            &&& action matches Action::SpawnFileTasks(cs) && chunks_view(cs@) == fcs
            &&& post.phase matches Phase::FileWave { pending } && pending == fcs.len()
            &&& post.folder_chunks matches Some(held) && chunks_view(held@) == dcs
        })
        &&& (fcs.len() == 0 && dcs.len() > 0 ==> {
            &&& action matches Action::SpawnFolderTasks(cs) && chunks_view(cs@) == dcs
            &&& post.phase matches Phase::FolderWave { pending } && pending == dcs.len()
        })
        &&& (fcs.len() == 0 && dcs.len() == 0 ==> {
            &&& action is RemoveRoot
            &&& post.phase is AwaitingRootRemoval
        })
    }

    /// What the end of the file wave leads to: the folder wave starts if it
    /// has any chunk, else only the root is left to remove. No folder-wave
    /// task is ever spawned before this point: the waves are sequential.
    pub open spec fn wave_handoff(pre: RapidDelete, post: RapidDelete, action: Action) -> bool {
        let dcs = stored_folder_chunks(pre.folder_chunks);
        &&& (dcs.len() > 0 ==> {
            &&& action matches Action::SpawnFolderTasks(cs) && chunks_view(cs@) == dcs
            &&& post.phase matches Phase::FolderWave { pending } && pending == dcs.len()
        })
        &&& (dcs.len() == 0 ==> {
            &&& action is RemoveRoot
            &&& post.phase is AwaitingRootRemoval
        })
        &&& post.folder_chunks is None
    }

    /// Set up the scheduler for one rapid-delete call, with the requested
    /// chunk sizes or the defaults. A requested size of zero is invalid
    /// input and ruled out here; validating it is the caller's duty.
    pub fn new(folders_chunk_size: Option<u64>, files_chunk_size: Option<u64>) -> (m: Self)
        requires
            folders_chunk_size matches Some(c) ==> 1 <= c <= usize::MAX,
            files_chunk_size matches Some(c) ==> 1 <= c <= usize::MAX,
        ensures
            m.file_chunk_size as int == spec_chunk_size(files_chunk_size, DEFAULT_FILE_CHUNK_SIZE),
            m.folder_chunk_size as int == spec_chunk_size(
                folders_chunk_size,
                DEFAULT_FOLDER_CHUNK_SIZE,
            ),
            m.phase is AwaitingWalk,
            m.folder_chunks is None,
            m.wf(),
    {
        let file_chunk_size: usize = match files_chunk_size {
            Some(c) => c as usize,
            None => DEFAULT_FILE_CHUNK_SIZE,
        };
        let folder_chunk_size: usize = match folders_chunk_size {
            Some(c) => c as usize,
            None => DEFAULT_FOLDER_CHUNK_SIZE,
        };
        RapidDelete { file_chunk_size, folder_chunk_size, phase: Phase::AwaitingWalk, folder_chunks: None }
    }

    /// Take the walk's outcome. A walk error is fatal: the call finishes at
    /// once with that error and nothing is deleted. A successful walk is
    /// classified and chunked, and the first non-empty stage starts.
    pub fn on_walk_result(&mut self, outcome: Result<Vec<Entry>, FsError>) -> (action: Action)
        requires
            old(self).wf(),
            old(self).phase is AwaitingWalk,
        ensures
            final(self).wf(),
            final(self).file_chunk_size == old(self).file_chunk_size,
            final(self).folder_chunk_size == old(self).folder_chunk_size,
            outcome matches Err(e) ==> {
                &&& final(self).phase is Done
                &&& action == Action::Finish(Err::<(), FsError>(e))
            },
            outcome matches Ok(entries) ==> Self::walk_ok_transition(
                *old(self),
                *final(self),
                entries@,
                action,
            ),
    {
        match outcome {
            Err(e) => {
                self.phase = Phase::Done;
                Action::Finish(Err(e))
            },
            Ok(entries) => {
                let (files, folders) = partition_entries(entries);
                let file_chunks = split_into_chunks(files, self.file_chunk_size);
                let folder_chunks = split_into_chunks(folders, self.folder_chunk_size);
                if file_chunks.len() > 0 {
                    let pending = file_chunks.len();
                    self.folder_chunks = Some(folder_chunks);
                    self.phase = Phase::FileWave { pending };
                    Action::SpawnFileTasks(file_chunks)
                } else if folder_chunks.len() > 0 {
                    let pending = folder_chunks.len();
                    self.phase = Phase::FolderWave { pending };
                    Action::SpawnFolderTasks(folder_chunks)
                } else {
                    self.phase = Phase::AwaitingRootRemoval;
                    Action::RemoveRoot
                }
            },
        }
    }

    /// Take one file-wave task's outcome. A file deletion error is fatal:
    /// the call finishes at once with that error and the caller abandons its
    /// wait. Only when every task has succeeded does the next stage start.
    pub fn on_file_task_done(&mut self, outcome: Result<(), FsError>) -> (action: Action)
        requires
            old(self).wf(),
            old(self).phase is FileWave,
        ensures
            final(self).wf(),
            final(self).file_chunk_size == old(self).file_chunk_size,
            final(self).folder_chunk_size == old(self).folder_chunk_size,
            outcome matches Err(e) ==> {
                &&& final(self).phase is Done
                &&& action == Action::Finish(Err::<(), FsError>(e))
            },
            outcome is Ok ==> ({
                let pending = old(self).phase->FileWave_pending;
                &&& (pending > 1 ==> {
                    &&& final(self).phase matches Phase::FileWave { pending: left }
                        && left == pending - 1
                    &&& final(self).folder_chunks == old(self).folder_chunks
                    &&& action is Wait
                })
                &&& (pending == 1 ==> Self::wave_handoff(*old(self), *final(self), action))
            }),
    {
        match outcome {
            Err(e) => {
                self.folder_chunks = None;
                self.phase = Phase::Done;
                Action::Finish(Err(e))
            },
            Ok(()) => {
                let pending: usize = match self.phase {
                    Phase::FileWave { pending } => pending,
                    _ => unreached(),
                };
                if pending > 1 {
                    self.phase = Phase::FileWave { pending: pending - 1 };
                    Action::Wait
                } else {
                    match self.folder_chunks.take() {
                        Some(folder_chunks) => {
                            if folder_chunks.len() > 0 {
                                let next_pending = folder_chunks.len();
                                self.phase = Phase::FolderWave { pending: next_pending };
                                Action::SpawnFolderTasks(folder_chunks)
                            } else {
                                self.phase = Phase::AwaitingRootRemoval;
                                Action::RemoveRoot
                            }
                        },
                        None => unreached(),
                    }
                }
            },
        }
    }

    /// Take one folder-wave task's outcome. Its error, if any, is
    /// deliberately ignored — the directory may already be gone — so the
    /// call proceeds the same way whatever the outcome was.
    pub fn on_folder_task_done(&mut self, _outcome: Result<(), FsError>) -> (action: Action)
        requires
            old(self).wf(),
            old(self).phase is FolderWave,
        ensures
            final(self).wf(),
            final(self).file_chunk_size == old(self).file_chunk_size,
            final(self).folder_chunk_size == old(self).folder_chunk_size,
            ({
                let pending = old(self).phase->FolderWave_pending;
                &&& (pending > 1 ==> {
                    &&& final(self).phase matches Phase::FolderWave { pending: left }
                        && left == pending - 1
                    &&& action is Wait
                })
                &&& (pending == 1 ==> {
                    &&& final(self).phase is AwaitingRootRemoval
                    &&& action is RemoveRoot
                })
            }),
    {
        let pending: usize = match self.phase {
            Phase::FolderWave { pending } => pending,
            _ => unreached(),
        };
        if pending > 1 {
            self.phase = Phase::FolderWave { pending: pending - 1 };
            Action::Wait
        } else {
            self.phase = Phase::AwaitingRootRemoval;
            Action::RemoveRoot
        }
    }

    /// Take the outcome of removing the root. It is deliberately ignored —
    /// the root may already be gone — and the call always finishes
    /// successfully at this point.
    pub fn on_root_removed(&mut self, _outcome: Result<(), FsError>) -> (action: Action)
        requires
            old(self).wf(),
            old(self).phase is AwaitingRootRemoval,
        ensures
            final(self).wf(),
            final(self).phase is Done,
            action == Action::Finish(Ok::<(), FsError>(())),
    {
        self.phase = Phase::Done;
        Action::Finish(Ok(()))
    }
}

/// The plan covers exactly what the walk discovered: the file-wave chunks
/// join back to the walked file paths in order, the folder-wave chunks join
/// back to the walked directory paths in order, and the two waves together
/// hold exactly the walked paths — none lost, none duplicated.
pub proof fn lemma_plan_covers_walk(m: RapidDelete, entries: Seq<Entry>)
    requires
        m.wf(),
    ensures
        m.planned_file_chunks(entries).flatten() == file_paths(entries),
        m.planned_folder_chunks(entries).flatten() == folder_paths(entries),
        m.planned_file_chunks(entries).flatten().to_multiset().add(
            m.planned_folder_chunks(entries).flatten().to_multiset(),
        ) == paths_of(entries).to_multiset(),
{
    lemma_chunked_flatten(file_paths(entries), m.file_chunk_size as int);
    lemma_chunked_flatten(folder_paths(entries), m.folder_chunk_size as int);
    lemma_partition_complete(entries);
}

/// Each wave schedules one task per chunk, so the number of file-wave tasks
/// is the number of walked files divided by the file chunk size, rounded
/// up; likewise for the folder wave.
pub proof fn lemma_task_counts(m: RapidDelete, entries: Seq<Entry>)
    requires
        m.wf(),
    ensures
        m.planned_file_chunks(entries).len() == (file_paths(entries).len() + m.file_chunk_size
            - 1) / (m.file_chunk_size as int),
        m.planned_folder_chunks(entries).len() == (folder_paths(entries).len()
            + m.folder_chunk_size - 1) / (m.folder_chunk_size as int),
{
    lemma_chunk_count(file_paths(entries), m.file_chunk_size as int);
    lemma_chunk_count(folder_paths(entries), m.folder_chunk_size as int);
}

} // verus!
