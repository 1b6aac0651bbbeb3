//! The controller side of a recalibration of an Alice/Bob pair.
//!
//! Both simulators are paused and report their generation progress; the
//! lagging one is told to generate and drop the batches it misses, so that
//! both seeded random streams line up again; then both resume. The requests
//! to the pair go through a `PairLink` over an exchange function that the
//! caller provides (it sends one request to each simulator and collects both
//! answers); the link records every exchange made.
use vstd::prelude::*;
use crate::control::{CommandRequest, CommandResponse};
use crate::link::PairLink;
use crate::simulation::GenerationProgress;
use crate::text::{decimal, decimal_string};

verus! {

/// Timeout of a plain request, in milliseconds.
pub const COMMAND_TIMEOUT_MS: u128 = 5000;
/// Slack granted to the pause request and added to the recalibration
/// duration for the resume request, in milliseconds.
pub const RECALIBRATION_TIMEOUT_SLACK_MS: u128 = 30000;

/// The failures of a request to the pair, one message per failure.
#[derive(Debug, Clone, PartialEq, Eq)]
pub struct PairCommandError {
    pub failures: Vec<String>,
}

/// The messages of a pair error.
pub open spec fn failures_view(e: PairCommandError) -> Seq<Seq<char>> {
    e.failures@.map_values(|f: String| f@)
}

/// The messages joined with `"; "`.
pub open spec fn joined(failures: Seq<Seq<char>>) -> Seq<char>
    decreases failures.len(),
{
    if failures.len() == 0 {
        Seq::empty()
    } else if failures.len() == 1 {
        failures[0]
    } else {
        joined(failures.drop_last()) + "; "@ + failures.last()
    }
}

impl PairCommandError {
    /// The failures, joined with `"; "` (the error's display text).
    pub fn message(&self) -> (text: String)
        ensures
            text@ == joined(failures_view(*self)),
    {
        let mut text = String::new();
        let mut i: usize = 0;
        let ghost all = failures_view(*self);
        while i < self.failures.len()
            invariant
                i <= self.failures@.len(),
                all == failures_view(*self),
                all.len() == self.failures@.len(),
                text@ == joined(all.subrange(0, i as int)),
            decreases self.failures@.len() - i,
        {
            if i > 0 {
                text.append("; ");
            }
            text.append(self.failures[i].as_str());
            proof {
                let pre = all.subrange(0, i as int);
                let post = all.subrange(0, i + 1);
                assert(post.drop_last() =~= pre);
                assert(post.last() == all[i as int]);
                if i == 0 {
                    assert(joined(pre) == Seq::<char>::empty());
                    assert(text@ =~= all[0]);
                }
            }
            i = i + 1;
        }
        assert(all.subrange(0, all.len() as int) =~= all);
        text
    }
}

/// A pair error with a single message.
pub fn protocol_error(message: String) -> (e: PairCommandError)
    ensures
        failures_view(e) == seq![message@],
{
    let mut failures: Vec<String> = Vec::new();
    failures.push(message);
    let e = PairCommandError { failures };
    assert(failures_view(e) =~= seq![message@]);
    e
}

/// The message of a pause answer without progress.
pub open spec fn no_progress_message(simulator: Seq<char>) -> Seq<char> {
    simulator + ": pause response has no progress"@
}

/// The progress that a simulator reported with its pause answer.
pub fn response_progress(simulator: &str, response: CommandResponse) -> (r: Result<GenerationProgress, PairCommandError>)
    ensures
        response.progress matches Some(p) ==> r == Ok::<GenerationProgress, PairCommandError>(p),
        response.progress is None ==> (r matches Err(e) && failures_view(e) == seq![no_progress_message(simulator@)]),
{
    match response.progress {
        Some(progress) => Ok(progress),
        None => {
            let mut message = simulator.to_owned();
            message.append(": pause response has no progress");
            Err(protocol_error(message))
        },
    }
}

/// The message of two progresses whose batch sizes differ.
pub open spec fn incompatible_message(alice: GenerationProgress, bob: GenerationProgress) -> Seq<char> {
    "incompatible batch pulse counts: Alice="@ + decimal(alice.batch_pulse_count as nat) + ", Bob="@
        + decimal(bob.batch_pulse_count as nat)
}

/// The message of two progresses that differ by part of a batch.
pub open spec fn partial_batch_message(difference: nat) -> Seq<char> {
    "generation progress differs by "@ + decimal(difference) + " events, which is not a whole number of batches"@
}

/// The distance between two event counts.
pub open spec fn event_difference(alice: GenerationProgress, bob: GenerationProgress) -> nat {
    if alice.event_count < bob.event_count {
        (bob.event_count - alice.event_count) as nat
    } else {
        (alice.event_count - bob.event_count) as nat
    }
}

/// The batches that Alice and Bob must discard, or the error message: the
/// batch sizes must agree and be non-zero, the event counts must differ by
/// whole batches, and only the lagging simulator discards.
pub open spec fn synchronization_plan(alice: GenerationProgress, bob: GenerationProgress) -> Result<(u64, u64), Seq<char>> {
    if alice.batch_pulse_count == 0 || alice.batch_pulse_count != bob.batch_pulse_count {
        Err(incompatible_message(alice, bob))
    } else if event_difference(alice, bob) % (alice.batch_pulse_count as nat) != 0 {
        Err(partial_batch_message(event_difference(alice, bob)))
    } else {
        let missing = (event_difference(alice, bob) / (alice.batch_pulse_count as nat)) as u64;
        if alice.event_count < bob.event_count {
            Ok((missing, 0))
        } else {
            Ok((0, missing))
        }
    }
}

/// Decides how many batches each simulator discards so that both reach the
/// same generation progress.
pub fn plan_synchronization(alice: GenerationProgress, bob: GenerationProgress) -> (r: Result<(u64, u64), PairCommandError>)
    ensures
        synchronization_plan(alice, bob) matches Ok(plan) ==> r == Ok::<(u64, u64), PairCommandError>(plan),
        synchronization_plan(alice, bob) matches Err(m) ==> (r matches Err(e) && failures_view(e) == seq![m]),
{
    if alice.batch_pulse_count == 0 || alice.batch_pulse_count != bob.batch_pulse_count {
        let mut message = "incompatible batch pulse counts: Alice=".to_owned();
        message.append(decimal_string(alice.batch_pulse_count).as_str());
        message.append(", Bob=");
        message.append(decimal_string(bob.batch_pulse_count).as_str());
        return Err(protocol_error(message));
    }
    let difference = if alice.event_count < bob.event_count {
        bob.event_count - alice.event_count
    } else {
        alice.event_count - bob.event_count
    };
    if difference % alice.batch_pulse_count != 0 {
        let mut message = "generation progress differs by ".to_owned();
        message.append(decimal_string(difference).as_str());
        message.append(" events, which is not a whole number of batches");
        return Err(protocol_error(message));
    }
    let missing = difference / alice.batch_pulse_count;
    if alice.event_count < bob.event_count {
        Ok((missing, 0))
    } else {
        Ok((0, missing))
    }
}

/// The answers of both simulators, or the failures of either, each message
/// prefixed with the simulator's name.
pub open spec fn pair_outcome(
    alice: Result<CommandResponse, Seq<char>>,
    bob: Result<CommandResponse, Seq<char>>,
) -> Result<(CommandResponse, CommandResponse), Seq<Seq<char>>> {
    match (alice, bob) {
        (Ok(a), Ok(b)) => Ok((a, b)),
        _ => Err(
            (match alice {
                Err(m) => seq!["Alice: "@ + m],
                Ok(_) => Seq::empty(),
            }) + (match bob {
                Err(m) => seq!["Bob: "@ + m],
                Ok(_) => Seq::empty(),
            }),
        ),
    }
}

/// The outcome of one request with its error's text.
pub open spec fn outcome_view(r: Result<CommandResponse, String>) -> Result<CommandResponse, Seq<char>> {
    match r {
        Ok(a) => Ok(a),
        Err(m) => Err(m@),
    }
}

/// Collects the outcomes of a request to each simulator into the pair's
/// outcome: both answers, or every failure.
pub fn collect_pair_results(
    alice: Result<CommandResponse, String>,
    bob: Result<CommandResponse, String>,
) -> (r: Result<(CommandResponse, CommandResponse), PairCommandError>)
    ensures
        match pair_outcome(outcome_view(alice), outcome_view(bob)) {
            Ok(answers) => r == Ok::<(CommandResponse, CommandResponse), PairCommandError>(answers),
            Err(failures) => r matches Err(e) && failures_view(e) == failures,
        },
        alice is Ok && bob is Ok ==> r == Ok::<(CommandResponse, CommandResponse), PairCommandError>(
            (alice->Ok_0, bob->Ok_0),
        ),
{
    let ghost expected = pair_outcome(outcome_view(alice), outcome_view(bob));
    let mut failures: Vec<String> = Vec::new();
    let alice_answer = match alice {
        Ok(answer) => Some(answer),
        Err(message) => {
            let mut text = "Alice: ".to_owned();
            text.append(message.as_str());
            failures.push(text);
            None
        },
    };
    let bob_answer = match bob {
        Ok(answer) => Some(answer),
        Err(message) => {
            let mut text = "Bob: ".to_owned();
            text.append(message.as_str());
            failures.push(text);
            None
        },
    };
    match (alice_answer, bob_answer) {
        (Some(a), Some(b)) => Ok((a, b)),
        _ => {
            let e = PairCommandError { failures };
            assert(failures_view(e) =~= expected->Err_0);
            Err(e)
        },
    }
}

/// The pause request.
pub open spec fn pause_request(duration_ms: u64) -> CommandRequest {
    CommandRequest::Pause { duration_ms }
}

/// The plan of a pair's pause answers, or the failures that stop the
/// recalibration: a missing progress (Alice's first), or the plan's error.
pub open spec fn plan_of_answers(answers: (CommandResponse, CommandResponse)) -> Result<(u64, u64), Seq<Seq<char>>> {
    match (answers.0.progress, answers.1.progress) {
        (None, _) => Err(seq![no_progress_message("Alice"@)]),
        (Some(_), None) => Err(seq![no_progress_message("Bob"@)]),
        (Some(a), Some(b)) => match synchronization_plan(a, b) {
            Ok(plan) => Ok(plan),
            Err(m) => Err(seq![m]),
        },
    }
}

/// Whether `r` is the failure of a pair exchange, or of the failures listed.
pub open spec fn fails_with(r: Result<(), PairCommandError>, failures: Seq<Seq<char>>) -> bool {
    r matches Err(e) && failures_view(e) == failures
}

/// The exchange that pauses both simulators.
pub open spec fn pause_exchange(duration_ms: u64) -> (CommandRequest, CommandRequest, u128) {
    (pause_request(duration_ms), pause_request(duration_ms), RECALIBRATION_TIMEOUT_SLACK_MS)
}

/// The exchange that has each simulator discard its share of a plan.
pub open spec fn synchronize_exchange(plan: (u64, u64)) -> (CommandRequest, CommandRequest, u128) {
    (
        CommandRequest::Synchronize { batches_to_discard: plan.0 },
        CommandRequest::Synchronize { batches_to_discard: plan.1 },
        COMMAND_TIMEOUT_MS,
    )
}

/// The exchange that resumes both simulators, waiting for the pause to end.
pub open spec fn resume_exchange(duration_ms: u64) -> (CommandRequest, CommandRequest, u128) {
    (CommandRequest::Resume, CommandRequest::Resume, (duration_ms + RECALIBRATION_TIMEOUT_SLACK_MS) as u128)
}

/// Sends the same request to both simulators, once, with the plain timeout.
pub fn send_command_to_pair<F>(link: &mut PairLink<F>, command: &CommandRequest) -> (r: Result<(), PairCommandError>) where
    F: Fn(CommandRequest, CommandRequest, u128) -> Result<(CommandResponse, CommandResponse), PairCommandError>,

    requires
        old(link).exchange_fn().requires((*command, *command, COMMAND_TIMEOUT_MS)),
    ensures
        final(link).exchange_fn() == old(link).exchange_fn(),
        final(link).sent() == old(link).sent().push((*command, *command, COMMAND_TIMEOUT_MS)),
        exists|outcome: Result<(CommandResponse, CommandResponse), PairCommandError>|
            #![trigger old(link).exchange_fn().ensures((*command, *command, COMMAND_TIMEOUT_MS), outcome)]
            old(link).exchange_fn().ensures((*command, *command, COMMAND_TIMEOUT_MS), outcome) && match outcome {
                Ok(_) => r is Ok,
                Err(e) => r == Err::<(), PairCommandError>(e),
            },
{
    let outcome = link.exchange(*command, *command, COMMAND_TIMEOUT_MS);
    match outcome {
        Ok(_) => Ok(()),
        Err(e) => Err(e),
    }
}

/// Recalibrates the pair in one coordinated exchange: pauses both
/// simulators for `duration_ms`, has the lagging one discard the batches it
/// misses, and resumes both. Each simulator receives exactly its pause, its
/// synchronization and its resume, in that order; the first failure (a
/// failed exchange, a pause answer without progress, or a plan that cannot
/// be made) is the result, and no request follows it.
pub fn recalibrate_pair<F>(link: &mut PairLink<F>, duration_ms: u64) -> (r: Result<(), PairCommandError>) where
    F: Fn(CommandRequest, CommandRequest, u128) -> Result<(CommandResponse, CommandResponse), PairCommandError>,

    requires
        forall|a: CommandRequest, b: CommandRequest, t: u128| old(link).exchange_fn().requires((a, b, t)),
    ensures
        final(link).exchange_fn() == old(link).exchange_fn(),
        exists|paused: Result<(CommandResponse, CommandResponse), PairCommandError>|
            #[trigger] old(link).exchange_fn().ensures(pause_exchange(duration_ms), paused) && match paused {
                Err(e) => {
                    &&& r == Err::<(), PairCommandError>(e)
                    &&& final(link).sent() == old(link).sent().push(pause_exchange(duration_ms))
                },
                Ok(answers) => match plan_of_answers(answers) {
                    Err(failures) => {
                        &&& fails_with(r, failures)
                        &&& final(link).sent() == old(link).sent().push(pause_exchange(duration_ms))
                    },
                    Ok(plan) => exists|synced: Result<(CommandResponse, CommandResponse), PairCommandError>|
                        #[trigger] old(link).exchange_fn().ensures(synchronize_exchange(plan), synced) && match synced {
                            Err(e) => {
                                &&& r == Err::<(), PairCommandError>(e)
                                &&& final(link).sent() == old(link).sent().push(pause_exchange(duration_ms)).push(
                                    synchronize_exchange(plan),
                                )
                            },
                            Ok(_) => exists|resumed: Result<(CommandResponse, CommandResponse), PairCommandError>|
                                #[trigger] old(link).exchange_fn().ensures(resume_exchange(duration_ms), resumed) && {
                                    &&& final(link).sent() == old(link).sent().push(pause_exchange(duration_ms)).push(
                                        synchronize_exchange(plan),
                                    ).push(resume_exchange(duration_ms))
                                    &&& match resumed {
                                        Err(e) => r == Err::<(), PairCommandError>(e),
                                        Ok(_) => r is Ok,
                                    }
                                },
                        },
                },
            },
{
    proof {
        reveal_strlit("Alice");
        reveal_strlit("Bob");
    }
    let ghost s0 = link.sent();
    let pause = CommandRequest::Pause { duration_ms };
    let paused = link.exchange(pause, pause, RECALIBRATION_TIMEOUT_SLACK_MS);
    assert(old(link).exchange_fn().ensures(pause_exchange(duration_ms), paused));
    assert(link.sent() == s0.push(pause_exchange(duration_ms)));
    let ghost paused_v = paused;
    let answers = match paused {
        Ok(answers) => answers,
        Err(e) => {
            return Err(e);
        },
    };
    let ghost plan_spec = plan_of_answers(answers);
    let ghost answers_v = answers;
    assert(paused_v == Ok::<(CommandResponse, CommandResponse), PairCommandError>(answers_v));
    let (alice_paused, bob_paused) = answers;
    let alice_progress = match response_progress("Alice", alice_paused) {
        Ok(p) => p,
        Err(e) => {
            return Err(e);
        },
    };
    let bob_progress = match response_progress("Bob", bob_paused) {
        Ok(p) => p,
        Err(e) => {
            return Err(e);
        },
    };
    let plan = match plan_synchronization(alice_progress, bob_progress) {
        Ok(plan) => plan,
        Err(e) => {
            return Err(e);
        },
    };
    assert(plan_spec == Ok::<(u64, u64), Seq<Seq<char>>>(plan));
    let synchronize_alice = CommandRequest::Synchronize { batches_to_discard: plan.0 };
    let synchronize_bob = CommandRequest::Synchronize { batches_to_discard: plan.1 };
    let synced = link.exchange(synchronize_alice, synchronize_bob, COMMAND_TIMEOUT_MS);
    assert(old(link).exchange_fn().ensures(synchronize_exchange(plan), synced));
    assert(link.sent() == s0.push(pause_exchange(duration_ms)).push(synchronize_exchange(plan)));
    if let Err(e) = synced {
        assert(match paused_v {
            Err(_) => false,
            Ok(a) => match plan_of_answers(a) {
                Err(_) => false,
                Ok(p) => p == plan,
            },
        });
        return Err(e);
    }
    let completion_timeout: u128 = duration_ms as u128 + RECALIBRATION_TIMEOUT_SLACK_MS;
    let resumed = link.exchange(CommandRequest::Resume, CommandRequest::Resume, completion_timeout);
    assert(old(link).exchange_fn().ensures(resume_exchange(duration_ms), resumed));
    assert(link.sent() == s0.push(pause_exchange(duration_ms)).push(synchronize_exchange(plan)).push(
        resume_exchange(duration_ms),
    ));
    let r: Result<(), PairCommandError> = match resumed {
        Ok(_) => Ok(()),
        Err(e) => Err(e),
    };
    assert(match paused_v {
        Err(_) => false,
        Ok(a) => match plan_of_answers(a) {
            Err(_) => false,
            Ok(p) => p == plan,
        },
    });
    r
}

/// A pair exchange keeps each answer with its simulator: when both requests
/// succeed the outcome is (Alice's answer, Bob's answer), so the plan reads
/// Alice's progress from Alice; when either fails the outcome lists Alice's
/// failure before Bob's, each under its simulator's name.
pub proof fn law_pair_answers_keep_their_simulator(
    a: CommandResponse,
    b: CommandResponse,
    alice_failure: Seq<char>,
    bob_failure: Seq<char>,
)
    ensures
        pair_outcome(Ok(a), Ok(b)) == Ok::<(CommandResponse, CommandResponse), Seq<Seq<char>>>((a, b)),
        pair_outcome(Ok(a), Ok(b))->Ok_0.0 == a,
        pair_outcome(Ok(a), Ok(b))->Ok_0.1 == b,
        pair_outcome(Err(alice_failure), Ok(b)) == Err::<(CommandResponse, CommandResponse), Seq<Seq<char>>>(
            seq!["Alice: "@ + alice_failure],
        ),
        pair_outcome(Ok(a), Err(bob_failure)) == Err::<(CommandResponse, CommandResponse), Seq<Seq<char>>>(
            seq!["Bob: "@ + bob_failure],
        ),
        pair_outcome(Err(alice_failure), Err(bob_failure)) == Err::<(CommandResponse, CommandResponse), Seq<Seq<char>>>(
            seq!["Alice: "@ + alice_failure, "Bob: "@ + bob_failure],
        ),
        a.progress is Some && b.progress is Some ==> plan_of_answers((a, b)) == match synchronization_plan(
            a.progress->Some_0,
            b.progress->Some_0,
        ) {
            Ok(plan) => Ok::<(u64, u64), Seq<Seq<char>>>(plan),
            Err(m) => Err(seq![m]),
        },
{
    assert(seq!["Alice: "@ + alice_failure] + Seq::<Seq<char>>::empty() =~= seq!["Alice: "@ + alice_failure]);
    assert(Seq::<Seq<char>>::empty() + seq!["Bob: "@ + bob_failure] =~= seq!["Bob: "@ + bob_failure]);
    assert(seq!["Alice: "@ + alice_failure] + seq!["Bob: "@ + bob_failure] =~= seq![
        "Alice: "@ + alice_failure,
        "Bob: "@ + bob_failure,
    ]);
}

/// A synchronization plan equalizes the two progresses: after each
/// simulator discards its share of batches both have generated the same
/// number of events, and only the lagging one discards anything.
pub proof fn law_plan_equalizes_progress(alice: GenerationProgress, bob: GenerationProgress)
    requires
        synchronization_plan(alice, bob) is Ok,
    ensures
        ({
            let plan = synchronization_plan(alice, bob)->Ok_0;
            &&& alice.event_count + plan.0 * alice.batch_pulse_count == bob.event_count + plan.1
                * bob.batch_pulse_count
            &&& plan.0 == 0 || plan.1 == 0
            &&& alice.event_count < bob.event_count ==> plan.1 == 0
            &&& bob.event_count < alice.event_count ==> plan.0 == 0
        }),
{
    let d = event_difference(alice, bob);
    let bpc = alice.batch_pulse_count as nat;
    let missing = d / bpc;
    assert(missing * bpc == d) by (nonlinear_arith)
        requires
            d % bpc == 0,
            bpc > 0,
            missing == d / bpc,
    ;
    assert(missing <= d) by (nonlinear_arith)
        requires
            bpc > 0,
            missing == d / bpc,
    ;
}

} // verus!
