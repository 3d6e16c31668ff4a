//! Runs of the synchronizer's state machine: the commands that a sequence of
//! replies draws from a phase, and what holds of every such run.
use vstd::prelude::*;

use crate::synchronizer::{
    deletion_result, phase_awaits, settled_state, phase_wf, reply_wf, step, Command, Outcome, Phase,
    RemoteModel, Reply, SynchronizerError, INITIAL_DELAY_MILLIS, POLL_TIMEOUT_MILLIS,
    RETRY_INTERVAL_MILLIS,
};

verus! {

/// The commands that `replies` draw, one by one, from `phase`. The run stops
/// at the first reply that the phase does not wait for; after a `Done` the
/// machine is idle and waits for none.
pub open spec fn commands_after(phase: Phase, replies: Seq<Reply>) -> Seq<Command>
    decreases replies.len(),
{
    if replies.len() == 0 || !phase_awaits(phase, replies[0]) {
        seq![]
    } else {
        seq![step(phase, replies[0]).1] + commands_after(step(phase, replies[0]).0, replies.drop_first())
    }
}

/// Each step keeps the phase consistent.
pub proof fn step_keeps_phase_wf(phase: Phase, reply: Reply)
    requires
        phase_wf(phase),
        phase_awaits(phase, reply),
        reply_wf(reply),
    ensures
        phase_wf(step(phase, reply).0),
{
}

/// No reply ever draws a second upload: an upload is commanded only when an
/// event starts the intent.
pub proof fn uploads_only_at_start(phase: Phase, replies: Seq<Reply>)
    ensures
        forall|i: int|
            0 <= i < commands_after(phase, replies).len() ==> !(commands_after(
                phase,
                replies,
            )[i] is Upload),
    decreases replies.len(),
{
    if replies.len() > 0 && phase_awaits(phase, replies[0]) {
        uploads_only_at_start(step(phase, replies[0]).0, replies.drop_first());
    }
}

/// Nothing follows in a phase that waits for no reply.
proof fn lemma_no_commands_when_not_waiting(phase: Phase, replies: Seq<Reply>)
    requires
        forall|r: Reply| !phase_awaits(phase, r),
    ensures
        commands_after(phase, replies).len() == 0,
{
}

/// The phase waits for an upload's model to settle.
pub open spec fn polling(phase: Phase) -> bool {
    phase is Settling || phase is Checking
}

/// How much polling may still follow from `phase`: two steps per millisecond
/// left before the timeout, and one more while a pause is pending.
pub open spec fn poll_measure(phase: Phase) -> nat {
    match phase {
        Phase::Settling { waited, .. } => if waited >= POLL_TIMEOUT_MILLIS {
            1
        } else {
            (2 * (POLL_TIMEOUT_MILLIS - waited) + 1) as nat
        },
        Phase::Checking { waited, .. } => if waited >= POLL_TIMEOUT_MILLIS {
            0
        } else {
            (2 * (POLL_TIMEOUT_MILLIS - waited)) as nat
        },
        _ => 0,
    }
}

/// Polling never goes on without bound: from a polling phase, whatever the
/// replies and whatever the clock reports, at most `poll_measure(phase) + 1`
/// commands follow. It ends when the model settles, when a query fails or
/// once the timeout has passed, and every such end is a success: a timeout is
/// reported, not raised as an error.
pub proof fn polling_ends(phase: Phase, replies: Seq<Reply>)
    requires
        phase_wf(phase),
        polling(phase),
    ensures
        commands_after(phase, replies).len() <= poll_measure(phase) + 1,
        forall|i: int|
            0 <= i < commands_after(phase, replies).len() ==> (#[trigger] commands_after(
                phase,
                replies,
            )[i] matches Command::Done(res) ==> res is Ok),
    decreases replies.len(),
{
    if replies.len() > 0 && phase_awaits(phase, replies[0]) {
        let (next, c) = step(phase, replies[0]);
        let rest = replies.drop_first();
        let cmds = commands_after(phase, replies);
        if polling(next) {
            step_keeps_phase_wf(phase, replies[0]);
            polling_ends(next, rest);
            assert(poll_measure(next) < poll_measure(phase));
        } else {
            assert(next is Idle);
            lemma_no_commands_when_not_waiting(next, rest);
        }
        assert(cmds == seq![c] + commands_after(next, rest));
        assert forall|i: int| 0 <= i < cmds.len() implies (#[trigger] cmds[i] matches Command::Done(res)
            ==> res is Ok) by {
            if i > 0 {
                assert(cmds[i] == commands_after(next, rest)[i - 1]);
            }
        }
    }
}

/// How many queries of a model's state `cmds` hold.
pub open spec fn query_count(cmds: Seq<Command>) -> nat
    decreases cmds.len(),
{
    if cmds.len() == 0 {
        0
    } else {
        (if cmds[0] is GetModel {
            1nat
        } else {
            0nat
        }) + query_count(cmds.drop_first())
    }
}

/// How many queries can still follow once `waited` milliseconds have passed:
/// one for each retry interval, begun or whole, left before the timeout.
pub open spec fn queries_left(waited: int) -> nat {
    if waited >= POLL_TIMEOUT_MILLIS {
        0
    } else {
        ((POLL_TIMEOUT_MILLIS - waited + RETRY_INTERVAL_MILLIS - 1) / RETRY_INTERVAL_MILLIS as int) as nat
    }
}

/// How many queries can still follow from a polling phase.
pub open spec fn query_budget(phase: Phase) -> nat {
    match phase {
        Phase::Settling { waited, .. } => queries_left(waited as int),
        Phase::Checking { waited, .. } => queries_left(waited + RETRY_INTERVAL_MILLIS),
        _ => 0,
    }
}

/// The model that a polling phase follows.
pub open spec fn polled_model(phase: Phase) -> u128 {
    match phase {
        Phase::Settling { uuid, .. } => uuid,
        Phase::Checking { uuid, .. } => uuid,
        _ => 0,
    }
}

proof fn lemma_query_count_cons(c: Command, rest: Seq<Command>)
    ensures
        query_count(seq![c] + rest) == (if c is GetModel {
            1nat
        } else {
            0nat
        }) + query_count(rest),
{
    assert((seq![c] + rest).drop_first() =~= rest);
}

proof fn lemma_queries_left_step(w: int, c: int)
    requires
        w <= c < POLL_TIMEOUT_MILLIS,
    ensures
        1 + queries_left(c + RETRY_INTERVAL_MILLIS) <= queries_left(w),
{
    let x = POLL_TIMEOUT_MILLIS - c;
    let y = POLL_TIMEOUT_MILLIS - w;
    assert((y + 1999) / 2000 >= (x + 1999) / 2000) by (nonlinear_arith)
        requires
            y >= x,
    ;
    if x > 2000 {
        assert((x - 2000 + 1999) / 2000 + 1 == (x + 1999) / 2000) by (nonlinear_arith)
            requires
                x > 2000,
        ;
    } else {
        assert((x + 1999) / 2000 >= 1) by (nonlinear_arith)
            requires
                x > 0,
        ;
    }
}

/// Polling queries the model a bounded number of times: from a polling
/// phase, whatever the replies and the clock, at most `query_budget(phase)`
/// queries follow, each of them of the model that the phase follows.
pub proof fn polling_queries_bounded(phase: Phase, replies: Seq<Reply>)
    requires
        phase_wf(phase),
        polling(phase),
    ensures
        query_count(commands_after(phase, replies)) <= query_budget(phase),
        forall|i: int|
            0 <= i < commands_after(phase, replies).len() ==> (#[trigger] commands_after(
                phase,
                replies,
            )[i] matches Command::GetModel { uuid } ==> uuid == polled_model(phase)),
    decreases replies.len(),
{
    let cmds = commands_after(phase, replies);
    if replies.len() > 0 && phase_awaits(phase, replies[0]) {
        let (next, c) = step(phase, replies[0]);
        let rest = replies.drop_first();
        assert(cmds == seq![c] + commands_after(next, rest));
        lemma_query_count_cons(c, commands_after(next, rest));
        if polling(next) {
            step_keeps_phase_wf(phase, replies[0]);
            polling_queries_bounded(next, rest);
            if let Phase::Settling { waited, .. } = phase {
                if let Phase::Checking { waited: now, .. } = next {
                    lemma_queries_left_step(waited as int, now as int);
                }
            }
        } else {
            lemma_no_commands_when_not_waiting(next, rest);
        }
        assert forall|i: int| 0 <= i < cmds.len() implies (#[trigger] cmds[i] matches Command::GetModel { uuid }
            ==> uuid == polled_model(phase)) by {
            if i > 0 {
                assert(cmds[i] == commands_after(next, rest)[i - 1]);
            }
        }
    } else {
        assert(cmds.len() == 0);
    }
}

/// After an upload that returned model `m`, whatever the replies and the
/// clock, the model is queried at most `1 + (timeout - initial delay) /
/// retry interval` times, and every query is of `m`.
pub proof fn upload_queries_bounded(m: RemoteModel, replies: Seq<Reply>)
    ensures
        ({
            let cmds = commands_after(
                Phase::Uploading,
                seq![Reply::Uploaded(Ok(Some(m)))] + replies,
            );
            &&& query_count(cmds) <= 1 + (POLL_TIMEOUT_MILLIS - INITIAL_DELAY_MILLIS) as int
                / RETRY_INTERVAL_MILLIS as int
            &&& forall|i: int|
                0 <= i < cmds.len() ==> (#[trigger] cmds[i] matches Command::GetModel { uuid }
                    ==> uuid == m.uuid)
        }),
{
    let all = seq![Reply::Uploaded(Ok(Some(m)))] + replies;
    let cmds = commands_after(Phase::Uploading, all);
    assert(all[0] == Reply::Uploaded(Ok(Some(m))));
    assert(all.drop_first() =~= replies);
    let (next, c) = step(Phase::Uploading, all[0]);
    assert(cmds == seq![c] + commands_after(next, replies));
    lemma_query_count_cons(c, commands_after(next, replies));
    polling_queries_bounded(next, replies);
    assert forall|i: int| 0 <= i < cmds.len() implies (#[trigger] cmds[i] matches Command::GetModel { uuid }
        ==> uuid == m.uuid) by {
        if i > 0 {
            assert(cmds[i] == commands_after(next, replies)[i - 1]);
        }
    }
}

/// The replies of a poll in which the clock reads `clock[i]` after the i-th
/// pause and the queries of model `uuid` answer `answers`, one after each
/// pause but the last.
pub open spec fn poll_replies(uuid: u128, answers: Seq<String>, clock: Seq<u64>) -> Seq<Reply>
    decreases clock.len(),
{
    if clock.len() == 0 {
        seq![]
    } else if answers.len() == 0 {
        seq![Reply::Paused { elapsed_millis: clock[0] }]
    } else {
        seq![
            Reply::Paused { elapsed_millis: clock[0] },
            Reply::Model(Ok(RemoteModel { uuid, state: answers[0] })),
        ] + poll_replies(uuid, answers.drop_first(), clock.drop_first())
    }
}

/// The clock readings after each pause are honest and early: the first comes
/// no sooner than `start`, each later one at least a retry interval after the
/// one before, and all of them before the timeout.
pub open spec fn clock_before_timeout(start: u64, clock: Seq<u64>) -> bool {
    &&& clock.len() > 0
    &&& clock[0] >= start
    &&& forall|i: int| 0 < i < clock.len() ==> #[trigger] clock[i] >= clock[i - 1] + RETRY_INTERVAL_MILLIS
    &&& forall|i: int| 0 <= i < clock.len() ==> #[trigger] clock[i] < POLL_TIMEOUT_MILLIS
}

/// The states are unsettled up to the last one, which is settled.
pub open spec fn settles_last(states: Seq<String>) -> bool {
    &&& states.len() > 0
    &&& forall|i: int| 0 <= i < states.len() - 1 ==> !settled_state(#[trigger] states[i]@)
    &&& settled_state(states.last()@)
}

proof fn lemma_settling_run(
    uuid: u128,
    states: Seq<String>,
    waited: u64,
    clock: Seq<u64>,
)
    requires
        settles_last(states),
        clock.len() == states.len(),
        clock_before_timeout(waited, clock),
    ensures
        ({
            let cmds = commands_after(
                Phase::Settling { uuid, state: states[0], waited },
                poll_replies(uuid, states.drop_first(), clock),
            );
            &&& cmds.len() == 2 * states.len() - 1
            &&& query_count(cmds) == states.len() - 1
            &&& cmds.last() == Command::Done(
                Ok(Outcome::Settled { uuid, state: states.last() }),
            )
        }),
    decreases states.len(),
{
    let phase = Phase::Settling { uuid, state: states[0], waited };
    let answers = states.drop_first();
    let replies = poll_replies(uuid, answers, clock);
    let cmds = commands_after(phase, replies);
    if states.len() == 1 {
        assert(replies == seq![Reply::Paused { elapsed_millis: clock[0] }]);
        let (next, c) = step(phase, replies[0]);
        assert(next is Idle);
        lemma_no_commands_when_not_waiting(next, replies.drop_first());
        assert(cmds =~= seq![c]);
        lemma_query_count_cons(c, seq![]);
        assert(query_count(Seq::<Command>::empty()) == 0);
        assert(seq![c] + Seq::<Command>::empty() =~= seq![c]);
    } else {
        assert(!settled_state(states[0]@));
        let rest = poll_replies(uuid, answers.drop_first(), clock.drop_first());
        assert(replies == seq![
            Reply::Paused { elapsed_millis: clock[0] },
            Reply::Model(Ok(RemoteModel { uuid, state: answers[0] })),
        ] + rest);
        let (p1, c1) = step(phase, replies[0]);
        assert(p1 == Phase::Checking { uuid, waited: clock[0] });
        let r1 = replies.drop_first();
        assert(r1[0] == Reply::Model(Ok(RemoteModel { uuid, state: answers[0] })));
        let (p2, c2) = step(p1, r1[0]);
        let w2 = (clock[0] + RETRY_INTERVAL_MILLIS) as u64;
        assert(p2 == Phase::Settling { uuid, state: answers[0], waited: w2 });
        assert(r1.drop_first() =~= rest);
        assert(cmds == seq![c1] + commands_after(p1, r1));
        assert(commands_after(p1, r1) == seq![c2] + commands_after(p2, rest));
        let tail = clock.drop_first();
        assert(clock_before_timeout(w2, tail)) by {
            assert(tail[0] == clock[1]);
            assert forall|i: int| 0 < i < tail.len() implies #[trigger] tail[i] >= tail[i - 1]
                + RETRY_INTERVAL_MILLIS by {
                assert(tail[i] == clock[i + 1]);
                assert(tail[i - 1] == clock[i]);
            }
        }
        assert(settles_last(answers)) by {
            assert forall|i: int| 0 <= i < answers.len() - 1 implies !settled_state(
                #[trigger] answers[i]@,
            ) by {
                assert(answers[i] == states[i + 1]);
            }
        }
        lemma_settling_run(uuid, answers, w2, tail);
        let sub = commands_after(p2, rest);
        lemma_query_count_cons(c2, sub);
        lemma_query_count_cons(c1, seq![c2] + sub);
        assert(seq![c1] + (seq![c2] + sub) =~= cmds);
        assert(cmds.last() == sub.last());
        assert(answers.last() == states.last());
    }
}

/// A model that settles before the timeout is queried exactly until it
/// does: after an upload that returned `m` in state `states[0]`, when the
/// queries answer `states[1..]`, unsettled up to the last, and the clock reads
/// `clock` after each pause, all before the timeout, the model is queried
/// `states.len() - 1` times and the intent ends with the settled state.
pub proof fn polling_stops_when_settled(m: RemoteModel, states: Seq<String>, clock: Seq<u64>)
    requires
        states.len() > 0,
        states[0] == m.state,
        settles_last(states),
        clock.len() == states.len(),
        clock_before_timeout(INITIAL_DELAY_MILLIS, clock),
    ensures
        ({
            let cmds = commands_after(
                Phase::Uploading,
                seq![Reply::Uploaded(Ok(Some(m)))] + poll_replies(m.uuid, states.drop_first(), clock),
            );
            &&& query_count(cmds) == states.len() - 1
            &&& cmds.last() == Command::Done(
                Ok(Outcome::Settled { uuid: m.uuid, state: states.last() }),
            )
        }),
{
    let polls = poll_replies(m.uuid, states.drop_first(), clock);
    let all = seq![Reply::Uploaded(Ok(Some(m)))] + polls;
    let cmds = commands_after(Phase::Uploading, all);
    assert(all[0] == Reply::Uploaded(Ok(Some(m))));
    assert(all.drop_first() =~= polls);
    let (next, c) = step(Phase::Uploading, all[0]);
    assert(next == Phase::Settling { uuid: m.uuid, state: states[0], waited: INITIAL_DELAY_MILLIS });
    assert(cmds == seq![c] + commands_after(next, polls));
    lemma_settling_run(m.uuid, states, INITIAL_DELAY_MILLIS, clock);
    lemma_query_count_cons(c, commands_after(next, polls));
}

/// The replies that report the deletions, one per result.
pub open spec fn deletion_replies(results: Seq<Result<(), anyhow::Error>>) -> Seq<Reply> {
    results.map_values(|r: Result<(), anyhow::Error>| Reply::Deleted(r))
}

proof fn lemma_fan_out(
    found: Vec<RemoteModel>,
    next: usize,
    deleted: usize,
    failure: Option<anyhow::Error>,
    results: Seq<Result<(), anyhow::Error>>,
)
    requires
        next < found@.len() <= usize::MAX,
        deleted <= next,
        results.len() == found@.len() - next,
    ensures
        ({
            let cmds = commands_after(
                Phase::Deleting { found, next, deleted, failure },
                deletion_replies(results),
            );
            &&& cmds.len() == results.len()
            &&& forall|i: int|
                0 <= i < results.len() - 1 ==> cmds[i] == (Command::DeleteModel {
                    uuid: found@[next + 1 + i].uuid,
                })
            &&& failure is None && (forall|i: int| 0 <= i < results.len() ==> results[i] is Ok)
                ==> cmds.last() == Command::Done(
                Ok(Outcome::Removed { count: (deleted + results.len()) as usize }),
            )
            &&& (failure is Some || exists|i: int| 0 <= i < results.len() && results[i] is Err)
                ==> (cmds.last() matches Command::Done(Err(SynchronizerError::PcliError(_))))
        }),
    decreases results.len(),
{
    let phase = Phase::Deleting { found, next, deleted, failure };
    let replies = deletion_replies(results);
    let cmds = commands_after(phase, replies);
    assert(replies[0] == Reply::Deleted(results[0]));
    let (p2, c) = step(phase, replies[0]);
    let rest = results.drop_first();
    assert(replies.drop_first() =~= deletion_replies(rest));
    assert(cmds == seq![c] + commands_after(p2, deletion_replies(rest)));
    let deleted2 = if results[0] is Ok {
        (deleted + 1) as usize
    } else {
        deleted
    };
    let failure2 = match failure {
        Some(f) => Some(f),
        None => match results[0] {
            Err(e) => Some(e),
            Ok(_) => None,
        },
    };
    if next + 1 < found@.len() {
        assert(p2 == Phase::Deleting { found, next: (next + 1) as usize, deleted: deleted2, failure: failure2 });
        lemma_fan_out(found, (next + 1) as usize, deleted2, failure2, rest);
        let sub = commands_after(p2, deletion_replies(rest));
        assert forall|i: int| 0 <= i < results.len() - 1 implies cmds[i] == (Command::DeleteModel {
            uuid: found@[next + 1 + i].uuid,
        }) by {
            if i > 0 {
                assert(cmds[i] == sub[i - 1]);
            }
        }
        assert(cmds.last() == sub.last());
        if failure is None && (forall|i: int| 0 <= i < results.len() ==> results[i] is Ok) {
            assert(results[0] is Ok);
            assert(forall|i: int| 0 <= i < rest.len() ==> rest[i] == results[i + 1]);
        }
        if failure is Some || exists|i: int| 0 <= i < results.len() && results[i] is Err {
            if failure is None && results[0] is Ok {
                let i = choose|i: int| 0 <= i < results.len() && results[i] is Err;
                assert(rest[i - 1] is Err);
            }
        }
    } else {
        assert(p2 is Idle);
        assert(c == Command::Done(deletion_result(deleted2, failure2)));
        lemma_no_commands_when_not_waiting(p2, deletion_replies(rest));
        assert(cmds =~= seq![c]);
    }
}

/// A deletion reaches every model that the search found: after the search
/// reply and one reply per deletion, the commands are exactly one deletion
/// for each model found, in the order found, followed by the end of the
/// intent. That end is a success counting every model when all deletions
/// succeeded, and a failure when any of them failed; a failed deletion does
/// not keep the others from being attempted.
pub proof fn deletion_fans_out(found: Vec<RemoteModel>, results: Seq<Result<(), anyhow::Error>>)
    requires
        found@.len() <= usize::MAX,
        results.len() == found@.len(),
    ensures
        ({
            let cmds = commands_after(
                Phase::Searching,
                seq![Reply::Found(Ok(found))] + deletion_replies(results),
            );
            &&& cmds.len() == found@.len() + 1
            &&& forall|i: int|
                0 <= i < found@.len() ==> cmds[i] == (Command::DeleteModel {
                    uuid: found@[i].uuid,
                })
            &&& (forall|i: int| 0 <= i < results.len() ==> results[i] is Ok) ==> cmds.last()
                == Command::Done(Ok(Outcome::Removed { count: found@.len() as usize }))
            &&& (exists|i: int| 0 <= i < results.len() && results[i] is Err) ==> (cmds.last() matches Command::Done(
                Err(SynchronizerError::PcliError(_)),
            ))
        }),
{
    let replies = seq![Reply::Found(Ok(found))] + deletion_replies(results);
    let cmds = commands_after(Phase::Searching, replies);
    assert(replies[0] == Reply::Found(Ok(found)));
    assert(replies.drop_first() =~= deletion_replies(results));
    let (p2, c) = step(Phase::Searching, replies[0]);
    assert(cmds == seq![c] + commands_after(p2, deletion_replies(results)));
    if found@.len() == 0 {
        lemma_no_commands_when_not_waiting(p2, deletion_replies(results));
        assert(cmds =~= seq![c]);
    } else {
        lemma_fan_out(found, 0, 0, None, results);
        let sub = commands_after(p2, deletion_replies(results));
        assert forall|i: int| 0 <= i < found@.len() implies cmds[i] == (Command::DeleteModel {
            uuid: found@[i].uuid,
        }) by {
            if i > 0 {
                assert(cmds[i] == sub[i - 1]);
            }
        }
        assert(cmds.last() == sub.last());
    }
}

/// Deleting a file that the backend does not know is no error: a search that
/// finds nothing ends the intent successfully, with nothing deleted.
pub proof fn deleting_nothing_succeeds(found: Vec<RemoteModel>)
    requires
        found@.len() == 0,
    ensures
        step(Phase::Searching, Reply::Found(Ok(found))) == (
            Phase::Idle,
            Command::Done(Ok(Outcome::Removed { count: 0 })),
        ),
{
}

} // verus!
