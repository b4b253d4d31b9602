use vstd::prelude::*;

verus! {

/// Where the transport stands.
#[derive(Clone, Copy, Debug, PartialEq, Eq, Structural)]
pub enum Status {
    Stopped,
    Playing,
    Paused,
}

/// The kinds of event that move the transport, stripped of their arguments.
#[derive(Clone, Copy, Debug, PartialEq, Eq, Structural)]
pub enum Transition {
    /// A `play` whose source opened.
    PlayLoaded,
    /// A `play` whose source could not be opened.
    PlayFailed,
    Pause,
    Resume,
    Stop,
    Seek,
    /// The decode stream ran out or failed.
    StreamEnded,
}

/// The transition table of the transport.
pub open spec fn next_status(st: Status, t: Transition) -> Status {
    match t {
        Transition::PlayLoaded => Status::Playing,
        Transition::PlayFailed => Status::Stopped,
        Transition::Pause => if st == Status::Playing {
            Status::Paused
        } else {
            st
        },
        Transition::Resume => if st == Status::Paused {
            Status::Playing
        } else {
            st
        },
        Transition::Stop => Status::Stopped,
        Transition::Seek => st,
        Transition::StreamEnded => Status::Stopped,
    }
}

/// The table folded over a sequence of transitions, from `st`.
pub open spec fn fold_status(st: Status, ts: Seq<Transition>) -> Status
    decreases ts.len(),
{
    if ts.len() == 0 {
        st
    } else {
        fold_status(next_status(st, ts[0]), ts.subrange(1, ts.len() as int))
    }
}

} // verus!
