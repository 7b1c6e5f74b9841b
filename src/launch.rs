use vstd::prelude::*;

verus! {

/// Name under which the companion executable is bundled with the application.
pub const SIDECAR_NAME: &'static str = "bharatedge-backend";

/// Message of the fatal error raised when the companion executable cannot be spawned.
pub const SPAWN_FAILURE_MESSAGE: &'static str = "failed to spawn bharatedge-backend sidecar";

/// Where the one-shot launch of the companion executable stands during setup.
///
/// The launch is a single attempt: the executable is looked up, then spawned,
/// and either step failing ends startup. Nothing is retried and the spawned
/// process is not supervised afterwards.
#[derive(Clone, Copy, Debug, PartialEq, Eq, Structural)]
pub enum LaunchStage {
    /// The bundled executable is being looked up by name.
    Resolving,
    /// The executable was found and is about to be spawned.
    Spawning,
    /// The child process was created; setup goes on without waiting for it.
    Started,
    /// A step failed; the application must stop starting up.
    Aborted,
}

/// Whether the launch has reached an end, successful or not.
pub open spec fn is_final(stage: LaunchStage) -> bool {
    stage is Started || stage is Aborted
}

/// The stage that follows `stage` once its outside step has succeeded or failed.
pub open spec fn next_stage(stage: LaunchStage, succeeded: bool) -> LaunchStage {
    if !succeeded {
        LaunchStage::Aborted
    } else {
        match stage {
            LaunchStage::Resolving => LaunchStage::Spawning,
            LaunchStage::Spawning => LaunchStage::Started,
            LaunchStage::Started => LaunchStage::Started,
            LaunchStage::Aborted => LaunchStage::Aborted,
        }
    }
}

/// The stage reached from the start when the lookup gives `resolved` and,
/// if it was made, the spawn gives `spawned`.
pub open spec fn launch_result(resolved: bool, spawned: bool) -> LaunchStage {
    let after_lookup = next_stage(LaunchStage::Resolving, resolved);
    if after_lookup is Spawning {
        next_stage(after_lookup, spawned)
    } else {
        after_lookup
    }
}

impl LaunchStage {
    /// The stage in which every launch begins.
    pub fn initial() -> (r: LaunchStage)
        ensures
            r == LaunchStage::Resolving,
    {
        LaunchStage::Resolving
    }

    /// Whether the launch has ended; the caller stops stepping once it has.
    pub fn is_finished(&self) -> (r: bool)
        ensures
            r == is_final(*self),
    {
        match self {
            LaunchStage::Started | LaunchStage::Aborted => true,
            _ => false,
        }
    }

    /// Records the outcome of the current step (the lookup while resolving,
    /// the spawn while spawning) and returns the stage that follows.
    ///
    /// Any failure aborts at once; success of the spawn ends the launch, so
    /// startup continues right after the spawn call.
    pub fn advance(self, succeeded: bool) -> (r: LaunchStage)
        requires
            !is_final(self),
        ensures
            r == next_stage(self, succeeded),
            !succeeded ==> r == LaunchStage::Aborted,
            self == LaunchStage::Resolving && succeeded ==> r == LaunchStage::Spawning,
            self == LaunchStage::Spawning && succeeded ==> r == LaunchStage::Started,
    {
        if !succeeded {
            LaunchStage::Aborted
        } else {
            match self {
                LaunchStage::Resolving => LaunchStage::Spawning,
                _ => LaunchStage::Started,
            }
        }
    }
}

/// Startup goes on exactly when the lookup and then the spawn both succeed;
/// in every other case the launch ends aborted, never in a third state.
pub proof fn launch_succeeds_iff_both_steps_succeed(resolved: bool, spawned: bool)
    ensures
        is_final(launch_result(resolved, spawned)),
        launch_result(resolved, spawned) == LaunchStage::Started <==> (resolved && spawned),
        launch_result(resolved, spawned) == LaunchStage::Aborted <==> !(resolved && spawned),
{
}

/// A lookup that fails (the executable is missing or cannot be resolved)
/// aborts the launch whatever would have come next.
pub proof fn missing_sidecar_aborts(spawned: bool)
    ensures
        launch_result(false, spawned) == LaunchStage::Aborted,
{
}

} // verus!
