use crate::engine::{Op, PlayerError, PlayerModel, Progress, SessionModel, MAX_MS};
use crate::status::{fold_status, next_status, Status};
use vstd::prelude::*;

verus! {

/// Every event takes a well-formed state to a well-formed state.
pub proof fn lemma_apply_keeps_wf(m: PlayerModel, op: Op)
    requires
        m.wf(),
    ensures
        m.apply(op).wf(),
{
}

/// However events are interleaved, once serialised into one sequence they
/// never leave the player in a state that breaks its invariants: at most one
/// session, and its played time and decoder offset within the track's length.
pub proof fn lemma_run_keeps_wf(m: PlayerModel, ops: Seq<Op>)
    requires
        m.wf(),
    ensures
        m.run(ops).wf(),
    decreases ops.len(),
{
    if ops.len() > 0 {
        lemma_apply_keeps_wf(m, ops[0]);
        lemma_run_keeps_wf(m.apply(ops[0]), ops.subrange(1, ops.len() as int));
    }
}

/// One event moves the status along one row of the transition table.
pub proof fn lemma_apply_follows_table(m: PlayerModel, op: Op)
    ensures
        m.apply(op).status() == next_status(m.status(), op.transition()),
{
}

/// From any state, the status after a sequence of events is the transition
/// table folded over the kinds of those events.
pub proof fn lemma_run_follows_table(m: PlayerModel, ops: Seq<Op>)
    ensures
        m.run(ops).status() == fold_status(m.status(), ops.map_values(|op: Op| op.transition())),
    decreases ops.len(),
{
    let ts = ops.map_values(|op: Op| op.transition());
    if ops.len() > 0 {
        let rest = ops.subrange(1, ops.len() as int);
        lemma_apply_follows_table(m, ops[0]);
        lemma_run_follows_table(m.apply(ops[0]), rest);
        assert(ts.subrange(1, ts.len() as int) =~= rest.map_values(|op: Op| op.transition()));
    }
}

/// Starting with nothing loaded, the status after any sequence of events is
/// the transition table folded over their kinds from `Stopped`.
pub proof fn lemma_status_follows_table(ops: Seq<Op>)
    ensures
        PlayerModel::initial().run(ops).status() == fold_status(
            Status::Stopped,
            ops.map_values(|op: Op| op.transition()),
        ),
{
    lemma_run_follows_table(PlayerModel::initial(), ops);
}

/// Playing `a` and then `b` leaves exactly one session, freshly started for
/// `b`: nothing of the session for `a` remains.
pub proof fn lemma_play_replaces_session(
    m: PlayerModel,
    a: Seq<char>,
    a_total: Option<u64>,
    t1: u64,
    b: Seq<char>,
    b_total: Option<u64>,
    t2: u64,
)
    ensures
        m.apply(Op::Play { path: a, opened: Ok(a_total), now: t1 }).apply(
            Op::Play { path: b, opened: Ok(b_total), now: t2 },
        ).session == Some(
            SessionModel { path: b, paused: false, played: 0, anchor: t2, total: b_total, cursor: 0 },
        ),
{
}

/// Pausing at `t1` and resuming at `t2` costs no played time: the frozen
/// value holds all through the pause, and after the resume the played time
/// runs on as if the pause had not been, `d` milliseconds later as well.
pub proof fn lemma_pause_resume_no_drift(m: PlayerModel, t1: u64, t2: u64, t: u64, d: u64)
    requires
        m.wf(),
        m.status() == Status::Playing,
        m.session.unwrap().anchor <= t1 <= t2,
        t2 + d <= MAX_MS,
    ensures
        m.apply(Op::Pause { now: t1 }).session.unwrap().elapsed_at(t) == m.session.unwrap().elapsed_at(t1),
        m.apply(Op::Pause { now: t1 }).apply(Op::Resume { now: t2 }).session.unwrap().elapsed_at(
            (t2 + d) as u64,
        ) == m.session.unwrap().elapsed_at((t1 + d) as u64),
{
}

/// A seek past the end of a track of known length lands on its end, and the
/// progress then reports the whole track as played, at every later reading.
pub proof fn lemma_seek_past_end_clamps(m: PlayerModel, secs: u64, now: u64, later: u64)
    requires
        m.wf(),
        m.session is Some,
        m.session.unwrap().total is Some,
        secs * 1000 > m.session.unwrap().total.unwrap(),
    ensures
        m.apply(Op::SeekTo { secs, now }).session.unwrap().played == m.session.unwrap().total.unwrap(),
        m.apply(Op::SeekTo { secs, now }).progress_at(later) == Ok::<Progress, PlayerError>(
            Progress {
                elapsed_ms: m.session.unwrap().total.unwrap(),
                total_ms: m.session.unwrap().total,
            },
        ),
{
}

/// With no track ever loaded, reading the progress fails with
/// `NoActiveSession`, whenever and however often it is read.
pub proof fn lemma_progress_without_session(now1: u64, now2: u64)
    ensures
        PlayerModel::initial().progress_at(now1) == Err::<Progress, PlayerError>(
            PlayerError::NoActiveSession,
        ),
        PlayerModel::initial().progress_at(now1) == PlayerModel::initial().progress_at(now2),
{
}

} // verus!
