use vstd::prelude::*;
use crate::decoder::DecodeError;
use crate::output_path::{append_from, output_path, output_path_spec, is_store_key, lemma_output_paths_distinct};

verus! {

/// Why a call to the store failed.
#[derive(Clone, Copy, Debug, PartialEq, Eq, Structural)]
pub enum StoreError {
    /// The store could not be reached.
    Unavailable,
    /// A listed key is not valid UTF-8.
    KeyNotUtf8,
}

/// Why the task of one key failed.
#[derive(Clone, Copy, Debug, PartialEq, Eq, Structural)]
pub enum TaskError {
    /// Fetching the value failed.
    Store(StoreError),
    /// Decoding the value failed.
    Decode(DecodeError),
    /// Creating the directories or writing the file failed.
    Filesystem,
    /// The task stopped without reporting an outcome.
    Aborted,
}

/// Where the task of one key stands.
#[derive(Clone, Copy, Debug, PartialEq, Eq, Structural)]
pub enum TaskPhase {
    Fetching,
    Decoding,
    Writing,
    Done,
    Failed,
}

/// What the outside world reports back to a task.
#[derive(Debug)]
pub enum TaskEvent {
    /// The value of the key, `None` when the key no longer exists.
    Fetched(Result<Option<Vec<u8>>, StoreError>),
    /// What the decoding service made of the value.
    Decoded(Result<Vec<u8>, DecodeError>),
    /// Whether the file was written.
    Written(bool),
}

/// What a task asks the outside world to do next.
#[derive(Debug)]
pub enum TaskAction {
    /// Fetch the value of this key.
    Get(Vec<u8>),
    /// Decode these bytes.
    Decode(Vec<u8>),
    /// Create the parent directories of this path and write these contents to it.
    Write(Vec<u8>, Vec<u8>),
    /// The task is over, with this outcome.
    Finish(Result<(), TaskError>),
}

/// The work on one listed key: fetch its value, decode it, write it to its file.
#[derive(Clone, Debug)]
pub struct SnapshotTask {
    pub key: Vec<u8>,
    pub path: Vec<u8>,
    pub phase: TaskPhase,
}

impl SnapshotTask {
    /// Whether `ev` is the answer the task waits for in its current phase.
    pub open spec fn accepts_spec(&self, ev: TaskEvent) -> bool {
        match ev {
            TaskEvent::Fetched(_) => self.phase is Fetching,
            TaskEvent::Decoded(_) => self.phase is Decoding,
            TaskEvent::Written(_) => self.phase is Writing,
        }
    }

    /// The task for `key`, whose file lies below `root`.
    pub fn new(root: &Vec<u8>, key: &Vec<u8>) -> (r: SnapshotTask)
        ensures
            r.key@ == key@,
            r.path@ == output_path_spec(root@, key@),
            r.phase is Fetching,
    {
        let mut k: Vec<u8> = Vec::new();
        append_from(&mut k, key, 0);
        assert(k@ =~= key@);
        SnapshotTask { key: k, path: output_path(root, key), phase: TaskPhase::Fetching }
    }

    /// The first action of a fresh task: fetch the value of its key.
    pub fn first_action(&self) -> (r: TaskAction)
        ensures
            r matches TaskAction::Get(k) && k@ == self.key@,
    {
        let mut k: Vec<u8> = Vec::new();
        append_from(&mut k, &self.key, 0);
        assert(k@ =~= self.key@);
        TaskAction::Get(k)
    }

    /// Whether `ev` is the answer the task waits for in its current phase.
    pub fn accepts(&self, ev: &TaskEvent) -> (r: bool)
        ensures
            r == self.accepts_spec(*ev),
    {
        match ev {
            TaskEvent::Fetched(_) => matches!(self.phase, TaskPhase::Fetching),
            TaskEvent::Decoded(_) => matches!(self.phase, TaskPhase::Decoding),
            TaskEvent::Written(_) => matches!(self.phase, TaskPhase::Writing),
        }
    }

    /// Takes the answer to the last action and returns the next one. A key that
    /// vanished before its fetch ends the task successfully with nothing written;
    /// a file is written only for a value that was fetched and decoded, at the
    /// task's own path; any failure ends the task with that failure.
    pub fn step(&mut self, ev: TaskEvent) -> (r: TaskAction)
        requires
            old(self).accepts_spec(ev),
        ensures
            final(self).key == old(self).key,
            final(self).path == old(self).path,
            match ev {
                TaskEvent::Fetched(Err(e)) => final(self).phase is Failed && r == TaskAction::Finish(
                    Err(TaskError::Store(e)),
                ),
                TaskEvent::Fetched(Ok(None)) => final(self).phase is Done && r == TaskAction::Finish(
                    Ok(()),
                ),
                TaskEvent::Fetched(Ok(Some(v))) => final(self).phase is Decoding && (
                r matches TaskAction::Decode(p) && p@ == v@),
                TaskEvent::Decoded(Err(e)) => final(self).phase is Failed && r == TaskAction::Finish(
                    Err(TaskError::Decode(e)),
                ),
                TaskEvent::Decoded(Ok(d)) => final(self).phase is Writing && (
                r matches TaskAction::Write(p, c) && p@ == old(self).path@ && c@ == d@),
                TaskEvent::Written(true) => final(self).phase is Done && r == TaskAction::Finish(
                    Ok(()),
                ),
                TaskEvent::Written(false) => final(self).phase is Failed && r
                    == TaskAction::Finish(Err(TaskError::Filesystem)),
            },
    {
        match ev {
            TaskEvent::Fetched(Err(e)) => {
                self.phase = TaskPhase::Failed;
                TaskAction::Finish(Err(TaskError::Store(e)))
            },
            TaskEvent::Fetched(Ok(None)) => {
                self.phase = TaskPhase::Done;
                TaskAction::Finish(Ok(()))
            },
            TaskEvent::Fetched(Ok(Some(v))) => {
                self.phase = TaskPhase::Decoding;
                TaskAction::Decode(v)
            },
            TaskEvent::Decoded(Err(e)) => {
                self.phase = TaskPhase::Failed;
                TaskAction::Finish(Err(TaskError::Decode(e)))
            },
            TaskEvent::Decoded(Ok(d)) => {
                self.phase = TaskPhase::Writing;
                let mut p: Vec<u8> = Vec::new();
                append_from(&mut p, &self.path, 0);
                assert(p@ =~= self.path@);
                TaskAction::Write(p, d)
            },
            TaskEvent::Written(ok) => {
                if ok {
                    self.phase = TaskPhase::Done;
                    TaskAction::Finish(Ok(()))
                } else {
                    self.phase = TaskPhase::Failed;
                    TaskAction::Finish(Err(TaskError::Filesystem))
                }
            },
        }
    }
}

/// The outcome of a run of tasks: the first failure in task order, or success
/// when every task succeeded.
pub open spec fn first_failure_spec(results: Seq<Result<(), TaskError>>) -> Result<(), TaskError>
    decreases results.len(),
{
    if results.len() == 0 {
        Ok(())
    } else if results[0] is Err {
        results[0]
    } else {
        first_failure_spec(results.drop_first())
    }
}

/// The joined outcome fails exactly when some task failed, and then with the
/// failure of the earliest such task.
pub proof fn lemma_first_failure(results: Seq<Result<(), TaskError>>)
    ensures
        first_failure_spec(results) is Ok <==> forall|i: int|
            0 <= i < results.len() ==> (#[trigger] results[i]) is Ok,
        first_failure_spec(results) is Err ==> exists|i: int|
            0 <= i < results.len() && results[i] == first_failure_spec(results) && forall|j: int|
                0 <= j < i ==> (#[trigger] results[j]) is Ok,
    decreases results.len(),
{
    if results.len() > 0 {
        let rest = results.drop_first();
        lemma_first_failure(rest);
        if results[0] is Ok {
            assert forall|i: int| 0 <= i < rest.len() implies #[trigger] rest[i] == results[i + 1] by {}
            if first_failure_spec(results) is Ok {
                assert forall|i: int| 0 <= i < results.len() implies (#[trigger] results[i]) is Ok by {
                    if i > 0 {
                        assert(rest[i - 1] is Ok);
                    }
                }
            } else {
                let k = choose|k: int|
                    0 <= k < rest.len() && rest[k] == first_failure_spec(rest) && forall|j: int|
                        0 <= j < k ==> (#[trigger] rest[j]) is Ok;
                assert(results[k + 1] == first_failure_spec(results));
                assert forall|j: int| 0 <= j < k + 1 implies (#[trigger] results[j]) is Ok by {
                    if j > 0 {
                        assert(rest[j - 1] is Ok);
                    }
                }
            }
        }
    }
}

/// Joins the outcomes of all tasks, in the order they were started: the first
/// failure among them, or success when there is none.
pub fn first_failure(results: &Vec<Result<(), TaskError>>) -> (r: Result<(), TaskError>)
    ensures
        r == first_failure_spec(results@),
        r is Ok <==> forall|i: int| 0 <= i < results@.len() ==> (#[trigger] results@[i]) is Ok,
{
    proof {
        lemma_first_failure(results@);
        assert(results@.subrange(0, results@.len() as int) =~= results@);
    }
    let mut i: usize = 0;
    while i < results.len()
        invariant
            i <= results@.len(),
            first_failure_spec(results@) == first_failure_spec(results@.subrange(i as int, results@.len() as int)),
        decreases results@.len() - i,
    {
        let ghost rest = results@.subrange(i as int, results@.len() as int);
        assert(rest.drop_first() =~= results@.subrange(i + 1, results@.len() as int));
        match results[i] {
            Err(e) => {
                return Err(e);
            },
            Ok(()) => {},
        }
        i = i + 1;
    }
    Ok(())
}

/// The tasks of a run: one per listed key, in listing order, each with the
/// file of its key below `root`.
pub fn plan_tasks(root: &Vec<u8>, keys: &Vec<Vec<u8>>) -> (r: Vec<SnapshotTask>)
    ensures
        r@.len() == keys@.len(),
        forall|i: int|
            0 <= i < keys@.len() ==> {
                &&& (#[trigger] r@[i]).key@ == keys@[i]@
                &&& r@[i].path@ == output_path_spec(root@, keys@[i]@)
                &&& r@[i].phase is Fetching
            },
{
    let mut r: Vec<SnapshotTask> = Vec::new();
    let mut i: usize = 0;
    while i < keys.len()
        invariant
            i <= keys@.len(),
            r@.len() == i,
            forall|j: int|
                0 <= j < i ==> {
                    &&& (#[trigger] r@[j]).key@ == keys@[j]@
                    &&& r@[j].path@ == output_path_spec(root@, keys@[j]@)
                    &&& r@[j].phase is Fetching
                },
        decreases keys@.len() - i,
    {
        r.push(SnapshotTask::new(root, &keys[i]));
        i = i + 1;
    }
    r
}

/// One file per key: the tasks planned for a listing of distinct store keys
/// write to pairwise distinct paths, each the key without its leading separator
/// below the root.
pub proof fn lemma_one_file_per_key(root: Seq<u8>, keys: Seq<Seq<u8>>, i: int, j: int)
    requires
        keys.no_duplicates(),
        forall|k: int| 0 <= k < keys.len() ==> is_store_key(#[trigger] keys[k]),
        0 <= i < keys.len(),
        0 <= j < keys.len(),
        i != j,
    ensures
        output_path_spec(root, keys[i]) != output_path_spec(root, keys[j]),
{
    lemma_output_paths_distinct(root, keys[i], keys[j]);
}

/// One failed task fails the whole join, whichever task it is.
pub proof fn lemma_failed_task_fails_join(results: Seq<Result<(), TaskError>>, i: int)
    requires
        0 <= i < results.len(),
        results[i] is Err,
    ensures
        first_failure_spec(results) is Err,
{
    lemma_first_failure(results);
}

} // verus!
