//! The decisions of text-service activation. Activation runs a fixed series
//! of outside steps (query interfaces, advise sinks, read focus, install the
//! resources, create the candidate window); after each the caller reports
//! how it went and whether its activation token is still current, and this
//! module says what to do next: the next step, or how to finish, with which
//! sinks to unadvise and what to answer.

use vstd::prelude::*;

verus! {

/// The outside steps of activation, in order.
#[derive(Clone, Copy, Debug, PartialEq, Eq, Structural)]
pub enum ActivationStage {
    /// Take the thread manager (the token is checked after it).
    ThreadManager,
    /// Query the keystroke manager.
    KeystrokeManager,
    /// Query the event source.
    Source,
    /// Advise the key event sink.
    KeySink,
    /// Advise the thread-manager event sink.
    ThreadSink,
    /// Read the focused document.
    FocusedDocument,
    /// Compute the focused document's identity.
    DocumentIdentity,
    /// Read the focused document's top context.
    FocusedContext,
    /// Install the resources in the apartment state.
    Completion,
    /// Create the candidate window and start the I/O thread.
    CandidateWindow,
}

/// How a step went.
#[derive(Clone, Copy, Debug, PartialEq, Eq, Structural)]
pub enum StepOutcome {
    Succeeded,
    /// The step failed with this error code (for `Completion`: the state
    /// refused the resources).
    Failed(i32),
}

/// What activation answers.
#[derive(Clone, Copy, Debug, PartialEq, Eq, Structural)]
pub enum ActivationAnswer {
    Accepted,
    /// Activation is already under way or complete.
    AlreadyExists,
    /// Called on the wrong thread, or the state refused the resources.
    NoInterface,
    /// The activation was superseded, or the candidate window failed.
    Unexpected,
    /// An outside step failed with this code.
    Failed(i32),
}

/// What to do after a step.
#[derive(Clone, Copy, Debug, PartialEq, Eq, Structural)]
pub enum ActivationAction {
    /// Perform this step next.
    Perform(ActivationStage),
    /// Stop: unadvise the thread sink first, then the key sink, as flagged;
    /// abort the activation token if `abort`; answer `answer`.
    Finish { unadvise_thread_sink: bool, unadvise_key_sink: bool, abort: bool, answer: ActivationAnswer },
}

/// How a call of `begin_activation` went.
#[derive(Clone, Copy, Debug, PartialEq, Eq, Structural)]
pub enum BeginOutcome {
    Started,
    AlreadyActive,
    WrongThread,
}

/// The first action of activation.
pub open spec fn spec_activation_start(begin: BeginOutcome) -> ActivationAction {
    match begin {
        BeginOutcome::Started => ActivationAction::Perform(ActivationStage::ThreadManager),
        BeginOutcome::AlreadyActive => ActivationAction::Finish {
            unadvise_thread_sink: false,
            unadvise_key_sink: false,
            abort: false,
            answer: ActivationAnswer::AlreadyExists,
        },
        BeginOutcome::WrongThread => ActivationAction::Finish {
            unadvise_thread_sink: false,
            unadvise_key_sink: false,
            abort: false,
            answer: ActivationAnswer::NoInterface,
        },
    }
}

/// Whether the key event sink is advised once `stage` has succeeded.
pub open spec fn key_sink_advised_after(stage: ActivationStage) -> bool {
    match stage {
        ActivationStage::ThreadManager | ActivationStage::KeystrokeManager | ActivationStage::Source => false,
        _ => true,
    }
}

/// Whether the thread-manager sink is advised once `stage` has succeeded.
pub open spec fn thread_sink_advised_after(stage: ActivationStage) -> bool {
    match stage {
        ActivationStage::ThreadManager | ActivationStage::KeystrokeManager | ActivationStage::Source
        | ActivationStage::KeySink => false,
        _ => true,
    }
}

pub open spec fn stage_after(stage: ActivationStage) -> Option<ActivationStage> {
    match stage {
        ActivationStage::ThreadManager => Some(ActivationStage::KeystrokeManager),
        ActivationStage::KeystrokeManager => Some(ActivationStage::Source),
        ActivationStage::Source => Some(ActivationStage::KeySink),
        ActivationStage::KeySink => Some(ActivationStage::ThreadSink),
        ActivationStage::ThreadSink => Some(ActivationStage::FocusedDocument),
        ActivationStage::FocusedDocument => Some(ActivationStage::DocumentIdentity),
        ActivationStage::DocumentIdentity => Some(ActivationStage::FocusedContext),
        ActivationStage::FocusedContext => Some(ActivationStage::Completion),
        ActivationStage::Completion => Some(ActivationStage::CandidateWindow),
        ActivationStage::CandidateWindow => None,
    }
}

pub open spec fn finish(thread_sink: bool, key_sink: bool, abort: bool, answer: ActivationAnswer) -> ActivationAction {
    ActivationAction::Finish { unadvise_thread_sink: thread_sink, unadvise_key_sink: key_sink, abort, answer }
}

/// The action after `stage` went as `outcome`, the token being `current`
/// or not afterwards.
pub open spec fn spec_after_step(stage: ActivationStage, outcome: StepOutcome, current: bool) -> ActivationAction {
    match outcome {
        StepOutcome::Failed(code) => match stage {
            ActivationStage::ThreadManager => finish(false, false, false, ActivationAnswer::Unexpected),
            ActivationStage::KeystrokeManager | ActivationStage::Source | ActivationStage::KeySink => finish(
                false,
                false,
                true,
                ActivationAnswer::Failed(code),
            ),
            ActivationStage::ThreadSink => finish(false, true, true, ActivationAnswer::Failed(code)),
            ActivationStage::Completion => finish(true, true, false, ActivationAnswer::NoInterface),
            ActivationStage::CandidateWindow => finish(false, true, true, ActivationAnswer::Unexpected),
            _ => finish(
                thread_sink_advised_after(stage),
                key_sink_advised_after(stage),
                false,
                ActivationAnswer::Unexpected,
            ),
        },
        StepOutcome::Succeeded => match stage {
            ActivationStage::Completion => ActivationAction::Perform(ActivationStage::CandidateWindow),
            ActivationStage::CandidateWindow => finish(false, false, false, ActivationAnswer::Accepted),
            _ => if current {
                ActivationAction::Perform(stage_after(stage).unwrap())
            } else {
                finish(
                    thread_sink_advised_after(stage),
                    key_sink_advised_after(stage),
                    false,
                    ActivationAnswer::Unexpected,
                )
            },
        },
    }
}

/// The first action of activation, after `begin_activation`.
pub fn activation_start(begin: BeginOutcome) -> (a: ActivationAction)
    ensures
        a == spec_activation_start(begin),
{
    match begin {
        BeginOutcome::Started => ActivationAction::Perform(ActivationStage::ThreadManager),
        BeginOutcome::AlreadyActive => ActivationAction::Finish {
            unadvise_thread_sink: false,
            unadvise_key_sink: false,
            abort: false,
            answer: ActivationAnswer::AlreadyExists,
        },
        BeginOutcome::WrongThread => ActivationAction::Finish {
            unadvise_thread_sink: false,
            unadvise_key_sink: false,
            abort: false,
            answer: ActivationAnswer::NoInterface,
        },
    }
}

fn next_stage(stage: ActivationStage) -> (n: Option<ActivationStage>)
    ensures
        n == stage_after(stage),
{
    match stage {
        ActivationStage::ThreadManager => Some(ActivationStage::KeystrokeManager),
        ActivationStage::KeystrokeManager => Some(ActivationStage::Source),
        ActivationStage::Source => Some(ActivationStage::KeySink),
        ActivationStage::KeySink => Some(ActivationStage::ThreadSink),
        ActivationStage::ThreadSink => Some(ActivationStage::FocusedDocument),
        ActivationStage::FocusedDocument => Some(ActivationStage::DocumentIdentity),
        ActivationStage::DocumentIdentity => Some(ActivationStage::FocusedContext),
        ActivationStage::FocusedContext => Some(ActivationStage::Completion),
        ActivationStage::Completion => Some(ActivationStage::CandidateWindow),
        ActivationStage::CandidateWindow => None,
    }
}

fn sinks_after(stage: ActivationStage) -> (s: (bool, bool))
    ensures
        s.0 == thread_sink_advised_after(stage),
        s.1 == key_sink_advised_after(stage),
{
    match stage {
        ActivationStage::ThreadManager | ActivationStage::KeystrokeManager | ActivationStage::Source => (
            false,
            false,
        ),
        ActivationStage::KeySink => (false, true),
        _ => (true, true),
    }
}

/// The action after `stage` went as `outcome`, the token being `current`
/// or not afterwards.
pub fn after_step(stage: ActivationStage, outcome: StepOutcome, current: bool) -> (a: ActivationAction)
    ensures
        a == spec_after_step(stage, outcome, current),
{
    match outcome {
        StepOutcome::Failed(code) => match stage {
            ActivationStage::ThreadManager => ActivationAction::Finish {
                unadvise_thread_sink: false,
                unadvise_key_sink: false,
                abort: false,
                answer: ActivationAnswer::Unexpected,
            },
            ActivationStage::KeystrokeManager | ActivationStage::Source | ActivationStage::KeySink => ActivationAction::Finish {
                unadvise_thread_sink: false,
                unadvise_key_sink: false,
                abort: true,
                answer: ActivationAnswer::Failed(code),
            },
            ActivationStage::ThreadSink => ActivationAction::Finish {
                unadvise_thread_sink: false,
                unadvise_key_sink: true,
                abort: true,
                answer: ActivationAnswer::Failed(code),
            },
            ActivationStage::Completion => ActivationAction::Finish {
                unadvise_thread_sink: true,
                unadvise_key_sink: true,
                abort: false,
                answer: ActivationAnswer::NoInterface,
            },
            ActivationStage::CandidateWindow => ActivationAction::Finish {
                unadvise_thread_sink: false,
                unadvise_key_sink: true,
                abort: true,
                answer: ActivationAnswer::Unexpected,
            },
            _ => {
                let (thread_sink, key_sink) = sinks_after(stage);
                ActivationAction::Finish {
                    unadvise_thread_sink: thread_sink,
                    unadvise_key_sink: key_sink,
                    abort: false,
                    answer: ActivationAnswer::Unexpected,
                }
            },
        },
        StepOutcome::Succeeded => match stage {
            ActivationStage::Completion => ActivationAction::Perform(ActivationStage::CandidateWindow),
            ActivationStage::CandidateWindow => ActivationAction::Finish {
                unadvise_thread_sink: false,
                unadvise_key_sink: false,
                abort: false,
                answer: ActivationAnswer::Accepted,
            },
            _ => {
                if current {
                    ActivationAction::Perform(next_stage(stage).unwrap())
                } else {
                    let (thread_sink, key_sink) = sinks_after(stage);
                    ActivationAction::Finish {
                        unadvise_thread_sink: thread_sink,
                        unadvise_key_sink: key_sink,
                        abort: false,
                        answer: ActivationAnswer::Unexpected,
                    }
                }
            },
        },
    }
}

/// Before the resources are installed, a superseded activation unadvises
/// exactly the sinks it has advised and answers `Unexpected`; an installed
/// activation is never told to unadvise on success.
pub proof fn lemma_superseded_activation_unadvises_what_it_advised(stage: ActivationStage)
    requires
        stage != ActivationStage::Completion,
        stage != ActivationStage::CandidateWindow,
    ensures
        spec_after_step(stage, StepOutcome::Succeeded, false) == finish(
            thread_sink_advised_after(stage),
            key_sink_advised_after(stage),
            false,
            ActivationAnswer::Unexpected,
        ),
        spec_after_step(ActivationStage::CandidateWindow, StepOutcome::Succeeded, false) == finish(
            false,
            false,
            false,
            ActivationAnswer::Accepted,
        ),
{
}

/// Every failing step before the resources are installed unadvises no sink
/// that was not advised, and a failed installation unadvises both.
pub proof fn lemma_failure_never_unadvises_unadvised_sinks(stage: ActivationStage, code: i32, current: bool)
    requires
        stage != ActivationStage::CandidateWindow,
    ensures
        spec_after_step(stage, StepOutcome::Failed(code), current) matches ActivationAction::Finish {
            unadvise_thread_sink,
            unadvise_key_sink,
            ..
        } ==> (unadvise_thread_sink ==> (stage == ActivationStage::Completion || thread_sink_advised_after(stage)))
            && (unadvise_key_sink ==> (stage == ActivationStage::ThreadSink || key_sink_advised_after(stage))),
        spec_after_step(stage, StepOutcome::Failed(code), current) is Finish,
{
}

} // verus!
