use vstd::prelude::*;

verus! {

/// How long the host waits for the browser engine to report the id of a new
/// tab before startup is given up.
pub const TAB_REPLY_TIMEOUT_MS: u64 = 10000;

/// Why the bridge could not be started.
#[derive(Clone, Copy, Debug, PartialEq, Eq, Structural)]
pub enum StartupError {
    /// The host's GL context could not be made current.
    ContextActivationFailed,
    /// The resource path, the engine's options or the engine itself could not
    /// be set up.
    EngineSetupFailed,
    /// Creating or selecting the first tab failed, or its id never came.
    HandshakeFailed,
}

/// Where startup stands. Each step but the last two names what the host does
/// next; each depends on the one before having succeeded.
#[derive(Clone, Copy, Debug, PartialEq, Eq, Structural)]
pub enum StartupStep {
    MakeContextCurrent,
    SetResourcesPath,
    ApplyDefaultOptions,
    CreateEngine,
    RequestTab,
    AwaitTabId,
    SelectTab,
    Ready,
    Failed(StartupError),
}

/// What came of the step the host just performed.
#[derive(Clone, Copy, Debug, PartialEq, Eq, Structural)]
pub enum StepOutcome {
    Succeeded,
    Failed,
    /// The step waited for longer than it may.
    TimedOut,
}

/// Whether startup has ended, for better or worse.
pub open spec fn is_terminal(step: StartupStep) -> bool {
    step is Ready || step is Failed
}

/// How far along startup a step is.
pub open spec fn rank(step: StartupStep) -> nat {
    match step {
        StartupStep::MakeContextCurrent => 0,
        StartupStep::SetResourcesPath => 1,
        StartupStep::ApplyDefaultOptions => 2,
        StartupStep::CreateEngine => 3,
        StartupStep::RequestTab => 4,
        StartupStep::AwaitTabId => 5,
        StartupStep::SelectTab => 6,
        StartupStep::Ready => 7,
        StartupStep::Failed(_) => 7,
    }
}

/// The error a step ends startup with when it does not succeed.
pub open spec fn error_of(step: StartupStep) -> StartupError {
    match step {
        StartupStep::MakeContextCurrent => StartupError::ContextActivationFailed,
        StartupStep::SetResourcesPath => StartupError::EngineSetupFailed,
        StartupStep::ApplyDefaultOptions => StartupError::EngineSetupFailed,
        StartupStep::CreateEngine => StartupError::EngineSetupFailed,
        _ => StartupError::HandshakeFailed,
    }
}

/// The step after `step` when the host reports `outcome`: the next step on
/// success, the step's error otherwise. An ended startup stays ended.
pub open spec fn step_after(step: StartupStep, outcome: StepOutcome) -> StartupStep {
    if is_terminal(step) {
        step
    } else if outcome is Succeeded {
        match step {
            StartupStep::MakeContextCurrent => StartupStep::SetResourcesPath,
            StartupStep::SetResourcesPath => StartupStep::ApplyDefaultOptions,
            StartupStep::ApplyDefaultOptions => StartupStep::CreateEngine,
            StartupStep::CreateEngine => StartupStep::RequestTab,
            StartupStep::RequestTab => StartupStep::AwaitTabId,
            StartupStep::AwaitTabId => StartupStep::SelectTab,
            _ => StartupStep::Ready,
        }
    } else {
        StartupStep::Failed(error_of(step))
    }
}

/// The step that follows when the host reports `outcome` for `step`.
pub fn advance(step: StartupStep, outcome: StepOutcome) -> (r: StartupStep)
    ensures
        r == step_after(step, outcome),
{
    match step {
        StartupStep::Ready | StartupStep::Failed(_) => step,
        _ => match outcome {
            StepOutcome::Succeeded => match step {
                StartupStep::MakeContextCurrent => StartupStep::SetResourcesPath,
                StartupStep::SetResourcesPath => StartupStep::ApplyDefaultOptions,
                StartupStep::ApplyDefaultOptions => StartupStep::CreateEngine,
                StartupStep::CreateEngine => StartupStep::RequestTab,
                StartupStep::RequestTab => StartupStep::AwaitTabId,
                StartupStep::AwaitTabId => StartupStep::SelectTab,
                _ => StartupStep::Ready,
            },
            _ => StartupStep::Failed(
                match step {
                    StartupStep::MakeContextCurrent => StartupError::ContextActivationFailed,
                    StartupStep::SetResourcesPath | StartupStep::ApplyDefaultOptions
                    | StartupStep::CreateEngine => StartupError::EngineSetupFailed,
                    _ => StartupError::HandshakeFailed,
                },
            ),
        },
    }
}

/// The result of startup once it has ended: `Ok` when ready, the error
/// otherwise; `None` while it goes on.
pub fn startup_result(step: StartupStep) -> (r: Option<Result<(), StartupError>>)
    ensures
        r is None <==> !is_terminal(step),
        step is Ready ==> r == Some(Ok::<(), StartupError>(())),
        step is Failed ==> r == Some(Err::<(), StartupError>(step->Failed_0)),
{
    match step {
        StartupStep::Ready => Some(Ok(())),
        StartupStep::Failed(e) => Some(Err(e)),
        _ => None,
    }
}

/// A tab reply that never comes ends startup with a handshake failure, and
/// startup never waits on a step twice: each report on a step that has not
/// ended moves it strictly on, so at most seven reports end it.
pub proof fn lemma_startup_ends(step: StartupStep, outcome: StepOutcome)
    ensures
        step_after(StartupStep::AwaitTabId, StepOutcome::TimedOut) == StartupStep::Failed(
            StartupError::HandshakeFailed,
        ),
        !is_terminal(step) ==> rank(step_after(step, outcome)) > rank(step),
        rank(step) <= 7,
        rank(step) == 7 <==> is_terminal(step),
{
}

} // verus!
