use crate::command::{plan_ok, CommandPlan};
use crate::outcome::{classifies, classify_outcome, ProcessOutcome};
use crate::package::{InstallResult, Package, PlatformSpec, ToolchainImage};
use vstd::prelude::*;

verus! {

/// Where one install request stands. Each non-terminal state names the one
/// piece of outside work the caller must do next; the matching event (see
/// `accepts`) carries that work's result back into `global_install`.
#[derive(Debug)]
pub enum InstallState {
    /// Ask the platform resolver for the currently active platform.
    ResolvingPlatform,
    /// Check the resolved platform out into a concrete toolchain image.
    CheckingOut { platform: PlatformSpec },
    /// Run the planned command as a child process and capture its output.
    Running { plan: CommandPlan },
    /// The request is decided; nothing more is to be done.
    Done { result: InstallResult },
}

/// The result of the outside work one state asked for.
#[derive(Debug)]
pub enum InstallEvent {
    /// What the platform resolver answered: the active platform, or none
    /// configured.
    Resolved { platform: Option<PlatformSpec> },
    /// What checking the platform out produced: a usable image, or the
    /// collaborator's error message.
    CheckedOut { image: Result<ToolchainImage, String> },
    /// What running the command produced: the process's outcome, or no
    /// outcome because the process could not be started.
    Ran { outcome: Option<ProcessOutcome> },
}

/// What the caller must do to the progress indicator after a step.
#[derive(Debug, Clone, Copy, PartialEq, Eq, Structural)]
pub enum UiAction {
    /// Show the progress indicator: a process run is starting.
    StartProgress,
    /// Dismiss the progress indicator: the process run is over.
    StopProgress,
}

/// One step's result: the next state, and the progress-indicator action,
/// if any, to perform on the way there.
#[derive(Debug)]
pub struct StepOutcome {
    pub next: InstallState,
    pub ui: Option<UiAction>,
}

/// The event answers what the state asked for.
pub open spec fn accepts(state: InstallState, event: InstallEvent) -> bool {
    match (state, event) {
        (InstallState::ResolvingPlatform, InstallEvent::Resolved { .. }) => true,
        (InstallState::CheckingOut { .. }, InstallEvent::CheckedOut { .. }) => true,
        (InstallState::Running { .. }, InstallEvent::Ran { .. }) => true,
        _ => false,
    }
}

/// The transition relation of one install request for `pkg` under `home`:
/// - no active platform ends the request at once with `NoActivePlatform`;
///   a resolved platform goes on to be checked out;
/// - a checkout error ends the request with the collaborator's message
///   passed through unchanged; a checked-out image goes on to run the one
///   command `plan_ok` allows, and only that step shows the progress
///   indicator;
/// - the process's end dismisses the progress indicator, on every path: a
///   process that never started ends as `InstallLaunchFailed`, and an
///   outcome is classified as `classifies` states.
pub open spec fn step_rel(
    pkg: Package,
    home: Seq<char>,
    pre: InstallState,
    event: InstallEvent,
    post: InstallState,
    ui: Option<UiAction>,
) -> bool {
    match (pre, event) {
        (InstallState::ResolvingPlatform, InstallEvent::Resolved { platform }) => match platform {
            None => post == (InstallState::Done { result: InstallResult::NoActivePlatform })
                && ui is None,
            Some(p) => post == (InstallState::CheckingOut { platform: p }) && ui is None,
        },
        (InstallState::CheckingOut { .. }, InstallEvent::CheckedOut { image }) => match image {
            Err(message) => post == (InstallState::Done {
                result: InstallResult::CheckoutError { message },
            }) && ui is None,
            Ok(image) => {
                &&& post matches InstallState::Running { plan } && plan_ok(pkg, home, image, plan)
                &&& ui == Some(UiAction::StartProgress)
            },
        },
        (InstallState::Running { .. }, InstallEvent::Ran { outcome }) => {
            &&& ui == Some(UiAction::StopProgress)
            &&& match outcome {
                None => post matches InstallState::Done { result }
                    && (result matches InstallResult::InstallLaunchFailed { package }
                    && package@ == pkg.spec@),
                Some(o) => post matches InstallState::Done { result }
                    && classifies(pkg.spec@, o, result),
            }
        },
        _ => false,
    }
}

impl Package {
    /// Performs one step of the install request: consumes the answer to
    /// what `state` asked for and decides what comes next, as `step_rel`
    /// states. The caller does the outside work between steps — resolving,
    /// checking out, running the process, showing and dismissing the
    /// progress indicator — and starts from `InstallState::ResolvingPlatform`.
    pub fn global_install(&self, home: &str, state: InstallState, event: InstallEvent) -> (step:
        StepOutcome)
        requires
            accepts(state, event),
        ensures
            step_rel(*self, home@, state, event, step.next, step.ui),
    {
        match (state, event) {
            (
                InstallState::ResolvingPlatform,
                InstallEvent::Resolved { platform: None },
            ) => StepOutcome {
                next: InstallState::Done { result: InstallResult::NoActivePlatform },
                ui: None,
            },
            (
                InstallState::ResolvingPlatform,
                InstallEvent::Resolved { platform: Some(p) },
            ) => StepOutcome { next: InstallState::CheckingOut { platform: p }, ui: None },
            (
                InstallState::CheckingOut { .. },
                InstallEvent::CheckedOut { image: Err(message) },
            ) => StepOutcome {
                next: InstallState::Done { result: InstallResult::CheckoutError { message } },
                ui: None,
            },
            (
                InstallState::CheckingOut { .. },
                InstallEvent::CheckedOut { image: Ok(image) },
            ) => StepOutcome {
                next: InstallState::Running { plan: self.install_command(&image, home) },
                ui: Some(UiAction::StartProgress),
            },
            (InstallState::Running { .. }, InstallEvent::Ran { outcome: None }) => StepOutcome {
                next: InstallState::Done {
                    result: InstallResult::InstallLaunchFailed { package: self.spec.clone() },
                },
                ui: Some(UiAction::StopProgress),
            },
            (InstallState::Running { .. }, InstallEvent::Ran { outcome: Some(o) }) => StepOutcome {
                next: InstallState::Done { result: classify_outcome(&self.spec, &o) },
                ui: Some(UiAction::StopProgress),
            },
            _ => vstd::pervasive::unreached(),
        }
    }
}

/// One recorded step of an install request: the state it started from, the
/// event it consumed, and what `global_install` returned.
pub struct StepRecord {
    pub pre: InstallState,
    pub event: InstallEvent,
    pub post: InstallState,
    pub ui: Option<UiAction>,
}

/// The records are a run of the machine for `pkg` under `home`: every step
/// obeys `step_rel`, and each step starts where the previous one ended.
pub open spec fn valid_trace(pkg: Package, home: Seq<char>, t: Seq<StepRecord>) -> bool {
    &&& forall|i: int|
        0 <= i < t.len() ==> #[trigger] step_rel(
            pkg,
            home,
            t[i].pre,
            t[i].event,
            t[i].post,
            t[i].ui,
        )
    &&& forall|i: int| 1 <= i < t.len() ==> (#[trigger] t[i]).pre == t[i - 1].post
}

/// How many steps of the run asked for the given progress-indicator action.
pub open spec fn count_ui(t: Seq<StepRecord>, a: UiAction) -> int
    decreases t.len(),
{
    if t.len() == 0 {
        0
    } else {
        count_ui(t.drop_last(), a) + if t.last().ui == Some(a) {
            1int
        } else {
            0int
        }
    }
}

/// The results that end a request in which the command was run — or at
/// least launched — as opposed to the two that end it before any process
/// is attempted.
pub open spec fn ran_outcome(result: InstallResult) -> bool {
    match result {
        InstallResult::NoActivePlatform => false,
        InstallResult::CheckoutError { .. } => false,
        _ => true,
    }
}

/// How often the progress indicator has been shown by the time the run
/// stands in `s`: once as soon as a process run starts, never before.
pub open spec fn starts_expected(s: InstallState) -> int {
    match s {
        InstallState::Running { .. } => 1,
        InstallState::Done { result } => if ran_outcome(result) {
            1int
        } else {
            0int
        },
        _ => 0,
    }
}

/// How often the progress indicator has been dismissed by the time the run
/// stands in `s`: once when a run that showed it is over, never before.
pub open spec fn stops_expected(s: InstallState) -> int {
    match s {
        InstallState::Done { result } => if ran_outcome(result) {
            1int
        } else {
            0int
        },
        _ => 0,
    }
}

/// Along any run from the start state, the progress indicator has been
/// shown and dismissed exactly as often as the state reached calls for.
pub proof fn lemma_trace_ui_counts(pkg: Package, home: Seq<char>, t: Seq<StepRecord>)
    requires
        valid_trace(pkg, home, t),
        t.len() > 0,
        t[0].pre == InstallState::ResolvingPlatform,
    ensures
        count_ui(t, UiAction::StartProgress) == starts_expected(t.last().post),
        count_ui(t, UiAction::StopProgress) == stops_expected(t.last().post),
    decreases t.len(),
{
    let s = t.last();
    assert(step_rel(pkg, home, s.pre, s.event, s.post, s.ui));
    let t0 = t.drop_last();
    assert(count_ui(t, UiAction::StartProgress) == count_ui(t0, UiAction::StartProgress) + if s.ui
        == Some(UiAction::StartProgress) {
        1int
    } else {
        0int
    });
    assert(count_ui(t, UiAction::StopProgress) == count_ui(t0, UiAction::StopProgress) + if s.ui
        == Some(UiAction::StopProgress) {
        1int
    } else {
        0int
    });
    if t.len() == 1 {
        assert(count_ui(t0, UiAction::StartProgress) == 0);
        assert(count_ui(t0, UiAction::StopProgress) == 0);
        assert(s.pre == InstallState::ResolvingPlatform);
    } else {
        assert forall|i: int| 0 <= i < t0.len() implies t0[i] == t[i] by {}
        assert(valid_trace(pkg, home, t0));
        assert(t0[0].pre == InstallState::ResolvingPlatform);
        lemma_trace_ui_counts(pkg, home, t0);
        assert(s.pre == t0.last().post);
    }
}

/// The progress indicator is dismissed exactly once in every run that ends
/// with a process run behind it — a success, a package not found, a failed
/// install, a failed launch — and exactly as often as it was shown in every
/// run: no outcome leaks a shown indicator, and none dismisses one twice.
pub proof fn lemma_progress_dismissed_once(
    pkg: Package,
    home: Seq<char>,
    t: Seq<StepRecord>,
    result: InstallResult,
)
    requires
        valid_trace(pkg, home, t),
        t.len() > 0,
        t[0].pre == InstallState::ResolvingPlatform,
        t.last().post == (InstallState::Done { result }),
    ensures
        count_ui(t, UiAction::StartProgress) == count_ui(t, UiAction::StopProgress),
        count_ui(t, UiAction::StopProgress) == if ran_outcome(result) {
            1int
        } else {
            0int
        },
{
    lemma_trace_ui_counts(pkg, home, t);
}

/// A run that ends with `NoActivePlatform` is the one-step run: the
/// resolver answered that no platform is configured, no process was run or
/// even planned, and the progress indicator was never shown.
pub proof fn lemma_no_platform_no_process(pkg: Package, home: Seq<char>, t: Seq<StepRecord>)
    requires
        valid_trace(pkg, home, t),
        t.len() > 0,
        t[0].pre == InstallState::ResolvingPlatform,
        t.last().post == (InstallState::Done { result: InstallResult::NoActivePlatform }),
    ensures
        t.len() == 1,
        t[0].event == (InstallEvent::Resolved { platform: Option::<PlatformSpec>::None }),
        forall|i: int| 0 <= i < t.len() ==> !((#[trigger] t[i]).event matches InstallEvent::Ran { .. }),
        count_ui(t, UiAction::StartProgress) == 0,
        count_ui(t, UiAction::StopProgress) == 0,
{
    let s = t.last();
    assert(step_rel(pkg, home, s.pre, s.event, s.post, s.ui));
    assert(s.pre == InstallState::ResolvingPlatform) by {
        if !(s.pre is ResolvingPlatform) {
            assert(!(s.post == (InstallState::Done {
                result: InstallResult::NoActivePlatform,
            })));
        }
    }
    if t.len() > 1 {
        let q = t[t.len() - 2];
        assert(step_rel(pkg, home, q.pre, q.event, q.post, q.ui));
        assert(s.pre == q.post);
        assert(!(q.post is ResolvingPlatform));
    }
    lemma_trace_ui_counts(pkg, home, t);
}

} // verus!
