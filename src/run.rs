use vstd::prelude::*;
use crate::limits::LimitError;
use crate::output_path::{output_path_spec, SEPARATOR};
use crate::task::{plan_tasks, SnapshotTask, StoreError, TaskError};

verus! {

/// The prefix under which every key of the store is dumped.
pub const ROOT_PREFIX: u8 = SEPARATOR;

/// Why a whole run failed, by the stage that failed.
#[derive(Clone, Copy, Debug, PartialEq, Eq, Structural)]
pub enum RunError {
    /// The open-file limit could not be raised.
    Limit(LimitError),
    /// The decoding service could not be started.
    DecoderLaunch,
    /// The store could not be reached.
    StoreConnect,
    /// The keys could not be listed.
    Listing(StoreError),
    /// The task of some key failed.
    Task(TaskError),
}

/// Where a run stands.
#[derive(Clone, Copy, Debug, PartialEq, Eq, Structural)]
pub enum RunStage {
    RaisingLimit,
    Launching,
    Connecting,
    Listing,
    Joining,
    Stopping,
    Finished,
}

/// What the outside world reports back to a run.
#[derive(Debug)]
pub enum RunEvent {
    /// The outcome of raising the open-file limit.
    LimitRaised(Result<(), LimitError>),
    /// Whether the decoding service started.
    Launched(bool),
    /// Whether the store was reached.
    Connected(bool),
    /// The keys under the root prefix, in the store's order.
    Listed(Result<Vec<Vec<u8>>, StoreError>),
    /// The joined outcome of all tasks.
    Joined(Result<(), TaskError>),
    /// The decoding service was stopped (or had already exited).
    Stopped,
}

/// What a run asks the outside world to do next.
#[derive(Debug)]
pub enum RunAction {
    /// Raise the open-file limit.
    RaiseLimit,
    /// Start the decoding service.
    LaunchDecoder,
    /// Connect to the store.
    Connect,
    /// List the keys under this prefix, keys only, without a limit.
    ListKeys(Vec<u8>),
    /// Run these tasks concurrently and join their outcomes in this order.
    Spawn(Vec<SnapshotTask>),
    /// Stop the decoding service.
    StopDecoder,
    /// End the process with this outcome.
    Exit(Result<(), RunError>),
}

/// One dump of the store into `output_root`.
#[derive(Debug)]
pub struct SnapshotRun {
    pub output_root: Vec<u8>,
    pub stage: RunStage,
    /// Whether the decoding service was started and not yet stopped.
    pub decoder_running: bool,
    /// The outcome to report once the decoding service is stopped.
    pub outcome: Result<(), RunError>,
}

/// The stages in which the decoding service is up.
pub open spec fn decoder_up_in(stage: RunStage) -> bool {
    match stage {
        RunStage::Connecting | RunStage::Listing | RunStage::Joining | RunStage::Stopping => true,
        _ => false,
    }
}

impl SnapshotRun {
    /// The decoding service runs exactly in the stages between its start and its stop.
    pub open spec fn wf(&self) -> bool {
        self.decoder_running == decoder_up_in(self.stage)
    }

    /// Whether `ev` is the answer the run waits for in its current stage.
    pub open spec fn accepts_spec(&self, ev: RunEvent) -> bool {
        match ev {
            RunEvent::LimitRaised(_) => self.stage is RaisingLimit,
            RunEvent::Launched(_) => self.stage is Launching,
            RunEvent::Connected(_) => self.stage is Connecting,
            RunEvent::Listed(_) => self.stage is Listing,
            RunEvent::Joined(_) => self.stage is Joining,
            RunEvent::Stopped => self.stage is Stopping,
        }
    }

    /// A run that dumps into `output_root`; its first action raises the limit.
    pub fn new(output_root: Vec<u8>) -> (r: SnapshotRun)
        ensures
            r.wf(),
            r.output_root == output_root,
            r.stage is RaisingLimit,
            !r.decoder_running,
    {
        SnapshotRun {
            output_root,
            stage: RunStage::RaisingLimit,
            decoder_running: false,
            outcome: Ok(()),
        }
    }

    /// The first action of a fresh run.
    pub fn first_action(&self) -> (r: RunAction)
        ensures
            r == RunAction::RaiseLimit,
    {
        RunAction::RaiseLimit
    }

    /// Whether `ev` is the answer the run waits for in its current stage.
    pub fn accepts(&self, ev: &RunEvent) -> (r: bool)
        ensures
            r == self.accepts_spec(*ev),
    {
        match ev {
            RunEvent::LimitRaised(_) => matches!(self.stage, RunStage::RaisingLimit),
            RunEvent::Launched(_) => matches!(self.stage, RunStage::Launching),
            RunEvent::Connected(_) => matches!(self.stage, RunStage::Connecting),
            RunEvent::Listed(_) => matches!(self.stage, RunStage::Listing),
            RunEvent::Joined(_) => matches!(self.stage, RunStage::Joining),
            RunEvent::Stopped => matches!(self.stage, RunStage::Stopping),
        }
    }

    /// Takes the answer to the last action and returns the next one. The stages
    /// follow each other in a fixed order and the first failure ends the run with
    /// that stage's error; once the decoding service is up, every way out passes
    /// through its stop.
    pub fn step(&mut self, ev: RunEvent) -> (r: RunAction)
        requires
            old(self).wf(),
            old(self).accepts_spec(ev),
        ensures
            final(self).wf(),
            final(self).output_root == old(self).output_root,
            r is Exit ==> final(self).stage is Finished && !final(self).decoder_running,
            r is Exit && old(self).decoder_running ==> old(self).stage is Stopping,
            match ev {
                RunEvent::LimitRaised(Err(e)) => final(self).stage is Finished && r
                    == RunAction::Exit(Err(RunError::Limit(e))),
                RunEvent::LimitRaised(Ok(())) => final(self).stage is Launching && r
                    == RunAction::LaunchDecoder,
                RunEvent::Launched(false) => final(self).stage is Finished && r == RunAction::Exit(
                    Err(RunError::DecoderLaunch),
                ),
                RunEvent::Launched(true) => final(self).stage is Connecting && r
                    == RunAction::Connect,
                RunEvent::Connected(false) => final(self).stage is Stopping && r
                    == RunAction::StopDecoder && final(self).outcome == Err::<(), RunError>(
                    RunError::StoreConnect,
                ),
                RunEvent::Connected(true) => final(self).stage is Listing && (
                r matches RunAction::ListKeys(p) && p@ == seq![ROOT_PREFIX]),
                RunEvent::Listed(Err(e)) => final(self).stage is Stopping && r
                    == RunAction::StopDecoder && final(self).outcome == Err::<(), RunError>(
                    RunError::Listing(e),
                ),
                RunEvent::Listed(Ok(keys)) => final(self).stage is Joining && (
                r matches RunAction::Spawn(tasks) && tasks@.len() == keys@.len() && forall|i: int|
                    0 <= i < keys@.len() ==> {
                        &&& (#[trigger] tasks@[i]).key@ == keys@[i]@
                        &&& tasks@[i].path@ == output_path_spec(old(self).output_root@, keys@[i]@)
                        &&& tasks@[i].phase is Fetching
                    }),
                RunEvent::Joined(Ok(())) => final(self).stage is Stopping && r
                    == RunAction::StopDecoder && final(self).outcome == Ok::<(), RunError>(()),
                RunEvent::Joined(Err(e)) => final(self).stage is Stopping && r
                    == RunAction::StopDecoder && final(self).outcome == Err::<(), RunError>(
                    RunError::Task(e),
                ),
                RunEvent::Stopped => final(self).stage is Finished && r == RunAction::Exit(
                    old(self).outcome,
                ),
            },
    {
        match ev {
            RunEvent::LimitRaised(Err(e)) => {
                self.stage = RunStage::Finished;
                RunAction::Exit(Err(RunError::Limit(e)))
            },
            RunEvent::LimitRaised(Ok(())) => {
                self.stage = RunStage::Launching;
                RunAction::LaunchDecoder
            },
            RunEvent::Launched(started) => {
                if started {
                    self.stage = RunStage::Connecting;
                    self.decoder_running = true;
                    RunAction::Connect
                } else {
                    self.stage = RunStage::Finished;
                    RunAction::Exit(Err(RunError::DecoderLaunch))
                }
            },
            RunEvent::Connected(reached) => {
                if reached {
                    self.stage = RunStage::Listing;
                    let mut prefix: Vec<u8> = Vec::new();
                    prefix.push(ROOT_PREFIX);
                    RunAction::ListKeys(prefix)
                } else {
                    self.stage = RunStage::Stopping;
                    self.outcome = Err(RunError::StoreConnect);
                    RunAction::StopDecoder
                }
            },
            RunEvent::Listed(Err(e)) => {
                self.stage = RunStage::Stopping;
                self.outcome = Err(RunError::Listing(e));
                RunAction::StopDecoder
            },
            RunEvent::Listed(Ok(keys)) => {
                self.stage = RunStage::Joining;
                RunAction::Spawn(plan_tasks(&self.output_root, &keys))
            },
            RunEvent::Joined(joined) => {
                self.stage = RunStage::Stopping;
                self.outcome = match joined {
                    Ok(()) => Ok(()),
                    Err(e) => Err(RunError::Task(e)),
                };
                RunAction::StopDecoder
            },
            RunEvent::Stopped => {
                self.stage = RunStage::Finished;
                self.decoder_running = false;
                RunAction::Exit(self.outcome)
            },
        }
    }
}

/// A finished run takes no further answer: after an exit, and in particular
/// after a failed start of the decoding service, nothing more is attempted,
/// not even a connection to the store.
pub proof fn lemma_finished_is_final(run: SnapshotRun, ev: RunEvent)
    requires
        run.stage is Finished,
    ensures
        !run.accepts_spec(ev),
{
}

} // verus!
