use crate::status::{Status, Transition};
use vstd::prelude::*;

verus! {

/// Failures of the transport operations.
#[derive(Clone, Copy, Debug, PartialEq, Eq, Structural)]
pub enum PlayerError {
    /// The source for `play` could not be opened or started.
    LoadFailed,
    /// The operation needs a loaded track and none is loaded.
    NoActiveSession,
    /// The decode stream failed while playing.
    DecodeError,
}

/// Why a source could not be opened for decoding.
#[derive(Clone, Copy, Debug, PartialEq, Eq, Structural)]
pub enum SourceError {
    Unreadable,
    UnsupportedFormat,
    DecodeError,
    DeviceUnavailable,
}

/// Largest value of a millisecond count or clock reading.
pub const MAX_MS: u64 = 0xffff_ffff_ffff_ffff;

/// What the session of one loaded track is, abstractly.
pub ghost struct SessionModel {
    pub path: Seq<char>,
    pub paused: bool,
    /// Milliseconds played up to `anchor`.
    pub played: u64,
    /// Clock reading (milliseconds) at which output last started or resumed.
    pub anchor: u64,
    /// Length of the source in milliseconds, where the container gives it.
    pub total: Option<u64>,
    /// Offset (milliseconds) to which the decode stream was last positioned.
    pub cursor: u64,
}

/// What the player is, abstractly: at most one session.
pub ghost struct PlayerModel {
    pub session: Option<SessionModel>,
}

/// One externally or internally triggered event, with its arguments.
pub ghost enum Op {
    Play { path: Seq<char>, opened: Result<Option<u64>, SourceError>, now: u64 },
    Pause { now: u64 },
    Resume { now: u64 },
    Stop,
    SeekTo { secs: u64, now: u64 },
    StreamEnded { failed: bool },
}

/// What a read of the progress reports.
#[derive(Clone, Copy, Debug, PartialEq, Eq, Structural)]
pub struct Progress {
    pub elapsed_ms: u64,
    pub total_ms: Option<u64>,
}

impl Progress {
    /// Played time in whole seconds, truncated.
    pub fn elapsed_secs(&self) -> (r: u64)
        ensures
            r == self.elapsed_ms / 1000,
    {
        self.elapsed_ms / 1000
    }

    /// Length in whole seconds, truncated; zero where the length is unknown.
    pub fn total_secs(&self) -> (r: u64)
        ensures
            r == (match self.total_ms {
                Some(t) => t / 1000,
                None => 0,
            }),
    {
        match self.total_ms {
            Some(t) => t / 1000,
            None => 0,
        }
    }
}

impl SessionModel {
    /// The bound on `elapsed`: the length when known, else the largest count.
    pub open spec fn cap(self) -> u64 {
        match self.total {
            Some(t) => t,
            None => MAX_MS,
        }
    }

    pub open spec fn wf(self) -> bool {
        &&& self.played <= self.cap()
        &&& self.cursor <= self.cap()
    }

    /// Played time at clock reading `now`: frozen while paused, advancing with
    /// the clock while playing, never past the length.
    pub open spec fn elapsed_at(self, now: u64) -> u64 {
        if self.paused || now <= self.anchor {
            self.played
        } else if self.played + (now - self.anchor) > self.cap() {
            self.cap()
        } else {
            (self.played + (now - self.anchor)) as u64
        }
    }

    /// Where a seek to `secs` seconds lands: the target clamped to the length.
    pub open spec fn seek_target(self, secs: u64) -> u64 {
        if secs * 1000 > self.cap() {
            self.cap()
        } else {
            (secs * 1000) as u64
        }
    }
}

impl PlayerModel {
    pub open spec fn initial() -> PlayerModel {
        PlayerModel { session: None }
    }

    pub open spec fn wf(self) -> bool {
        match self.session {
            Some(s) => s.wf(),
            None => true,
        }
    }

    /// Stopped exactly when no session is loaded.
    pub open spec fn status(self) -> Status {
        match self.session {
            None => Status::Stopped,
            Some(s) => if s.paused {
                Status::Paused
            } else {
                Status::Playing
            },
        }
    }

    /// What `get_progress` reports at clock reading `now`.
    pub open spec fn progress_at(self, now: u64) -> Result<Progress, PlayerError> {
        match self.session {
            None => Err(PlayerError::NoActiveSession),
            Some(s) => Ok(Progress { elapsed_ms: s.elapsed_at(now), total_ms: s.total }),
        }
    }

    /// The state after one event.
    pub open spec fn apply(self, op: Op) -> PlayerModel {
        match op {
            Op::Play { path, opened, now } => match opened {
                Ok(total) => PlayerModel {
                    session: Some(
                        SessionModel { path, paused: false, played: 0, anchor: now, total, cursor: 0 },
                    ),
                },
                Err(_) => PlayerModel { session: None },
            },
            Op::Pause { now } => match self.session {
                Some(s) => if s.paused {
                    self
                } else {
                    PlayerModel {
                        session: Some(
                            SessionModel { paused: true, played: s.elapsed_at(now), anchor: now, ..s },
                        ),
                    }
                },
                None => self,
            },
            Op::Resume { now } => match self.session {
                Some(s) => if s.paused {
                    PlayerModel { session: Some(SessionModel { paused: false, anchor: now, ..s }) }
                } else {
                    self
                },
                None => self,
            },
            Op::Stop => PlayerModel { session: None },
            Op::SeekTo { secs, now } => match self.session {
                Some(s) => PlayerModel {
                    session: Some(
                        SessionModel {
                            played: s.seek_target(secs),
                            cursor: s.seek_target(secs),
                            anchor: now,
                            ..s
                        },
                    ),
                },
                None => self,
            },
            Op::StreamEnded { .. } => PlayerModel { session: None },
        }
    }

    /// The state after a sequence of events, applied in order.
    pub open spec fn run(self, ops: Seq<Op>) -> PlayerModel
        decreases ops.len(),
    {
        if ops.len() == 0 {
            self
        } else {
            self.apply(ops[0]).run(ops.subrange(1, ops.len() as int))
        }
    }
}

impl Op {
    /// The row of the transition table that this event takes.
    pub open spec fn transition(self) -> Transition {
        match self {
            Op::Play { opened, .. } => if opened is Ok {
                Transition::PlayLoaded
            } else {
                Transition::PlayFailed
            },
            Op::Pause { .. } => Transition::Pause,
            Op::Resume { .. } => Transition::Resume,
            Op::Stop => Transition::Stop,
            Op::SeekTo { .. } => Transition::Seek,
            Op::StreamEnded { .. } => Transition::StreamEnded,
        }
    }
}

/// The loaded track and its position bookkeeping.
struct Session {
    path: String,
    paused: bool,
    played_ms: u64,
    anchor_ms: u64,
    total_ms: Option<u64>,
    cursor_ms: u64,
}

impl View for Session {
    type V = SessionModel;

    closed spec fn view(&self) -> SessionModel {
        SessionModel {
            path: self.path@,
            paused: self.paused,
            played: self.played_ms,
            anchor: self.anchor_ms,
            total: self.total_ms,
            cursor: self.cursor_ms,
        }
    }
}

impl Session {
    fn cap(&self) -> (r: u64)
        ensures
            r == self@.cap(),
    {
        match self.total_ms {
            Some(t) => t,
            None => MAX_MS,
        }
    }

    fn elapsed_at(&self, now: u64) -> (r: u64)
        requires
            self@.wf(),
        ensures
            r == self@.elapsed_at(now),
    {
        let cap = self.cap();
        if self.paused || now <= self.anchor_ms {
            self.played_ms
        } else {
            let d: u64 = now - self.anchor_ms;
            if d > cap - self.played_ms {
                cap
            } else {
                self.played_ms + d
            }
        }
    }

    fn seek_target(&self, secs: u64) -> (r: u64)
        ensures
            r == self@.seek_target(secs),
    {
        let cap = self.cap();
        if secs <= cap / 1000 {
            proof {
                assert(secs * 1000 <= cap) by (nonlinear_arith)
                    requires
                        secs <= cap / 1000,
                ;
            }
            secs * 1000
        } else {
            proof {
                assert(secs * 1000 > cap) by (nonlinear_arith)
                    requires
                        secs > cap / 1000,
                ;
            }
            cap
        }
    }
}

/// The playback engine: owns at most one session and keeps its position
/// bookkeeping. Time comes in as readings of a monotonic clock in milliseconds;
/// the decoder and the output device live with the caller, which performs what
/// each operation's result asks of them.
pub struct Player {
    session: Option<Session>,
}

impl View for Player {
    type V = PlayerModel;

    closed spec fn view(&self) -> PlayerModel {
        PlayerModel {
            session: match self.session {
                Some(s) => Some(s@),
                None => None,
            },
        }
    }
}

impl Player {
    /// A player with nothing loaded.
    pub fn new() -> (r: Player)
        ensures
            r@ == PlayerModel::initial(),
            r@.wf(),
    {
        Player { session: None }
    }

    /// Replaces whatever was loaded by a session for `path`, whose source the
    /// caller has opened (`opened` holds its length in milliseconds, where
    /// known) or failed to open. The caller releases the previous session's
    /// decoder and output before opening the new source, and starts output
    /// when `Ok` comes back. On failure nothing stays loaded.
    pub fn play(&mut self, path: String, opened: Result<Option<u64>, SourceError>, now: u64) -> (r:
        Result<(), PlayerError>)
        requires
            old(self)@.wf(),
        ensures
            final(self)@ == old(self)@.apply(Op::Play { path: path@, opened, now }),
            final(self)@.wf(),
            r == (if opened is Ok {
                Ok::<(), PlayerError>(())
            } else {
                Err(PlayerError::LoadFailed)
            }),
    {
        match opened {
            Ok(total_ms) => {
                self.session = Some(
                    Session { path, paused: false, played_ms: 0, anchor_ms: now, total_ms, cursor_ms: 0 },
                );
                Ok(())
            },
            Err(_) => {
                self.session = None;
                Err(PlayerError::LoadFailed)
            },
        }
    }

    /// Freezes the played time and marks the session paused; returns whether
    /// it took effect, that is whether output must be suspended. A no-op
    /// unless playing.
    pub fn pause(&mut self, now: u64) -> (r: bool)
        requires
            old(self)@.wf(),
        ensures
            final(self)@ == old(self)@.apply(Op::Pause { now }),
            final(self)@.wf(),
            r == (old(self)@.status() == Status::Playing),
    {
        match &mut self.session {
            Some(s) => {
                if s.paused {
                    false
                } else {
                    let e = s.elapsed_at(now);
                    s.played_ms = e;
                    s.anchor_ms = now;
                    s.paused = true;
                    true
                }
            },
            None => false,
        }
    }

    /// Continues a paused session from its frozen position; returns whether it
    /// took effect, that is whether output must be resumed. A no-op unless
    /// paused.
    pub fn resume(&mut self, now: u64) -> (r: bool)
        requires
            old(self)@.wf(),
        ensures
            final(self)@ == old(self)@.apply(Op::Resume { now }),
            final(self)@.wf(),
            r == (old(self)@.status() == Status::Paused),
    {
        match &mut self.session {
            Some(s) => {
                if s.paused {
                    s.anchor_ms = now;
                    s.paused = false;
                    true
                } else {
                    false
                }
            },
            None => false,
        }
    }

    /// Clears the session; the caller releases decoder and output.
    pub fn stop(&mut self)
        requires
            old(self)@.wf(),
        ensures
            final(self)@ == old(self)@.apply(Op::Stop),
            final(self)@.wf(),
    {
        self.session = None;
    }

    /// Moves the position to `secs` seconds, clamped to the track's length
    /// where known, and returns the offset in milliseconds to which the
    /// caller repositions the decoder.
    pub fn seek_to(&mut self, secs: u64, now: u64) -> (r: Result<u64, PlayerError>)
        requires
            old(self)@.wf(),
        ensures
            final(self)@ == old(self)@.apply(Op::SeekTo { secs, now }),
            final(self)@.wf(),
            r == (match old(self)@.session {
                Some(s) => Ok(s.seek_target(secs)),
                None => Err(PlayerError::NoActiveSession),
            }),
    {
        match &mut self.session {
            Some(s) => {
                let t = s.seek_target(secs);
                s.played_ms = t;
                s.cursor_ms = t;
                s.anchor_ms = now;
                Ok(t)
            },
            None => Err(PlayerError::NoActiveSession),
        }
    }

    /// Ends the session when the decode stream ran out (`failed` false) or
    /// broke (`failed` true), so that it never stays marked playing after its
    /// stream is gone. A failure of a loaded session is reported as
    /// `DecodeError`.
    pub fn stream_ended(&mut self, failed: bool) -> (r: Result<(), PlayerError>)
        requires
            old(self)@.wf(),
        ensures
            final(self)@ == old(self)@.apply(Op::StreamEnded { failed }),
            final(self)@.wf(),
            r == (if failed && old(self)@.session is Some {
                Err(PlayerError::DecodeError)
            } else {
                Ok::<(), PlayerError>(())
            }),
    {
        let loaded = self.session.is_some();
        self.session = None;
        if failed && loaded {
            Err(PlayerError::DecodeError)
        } else {
            Ok(())
        }
    }

    /// Where the transport stands.
    pub fn status(&self) -> (r: Status)
        ensures
            r == self@.status(),
    {
        match &self.session {
            None => Status::Stopped,
            Some(s) => if s.paused {
                Status::Paused
            } else {
                Status::Playing
            },
        }
    }

    /// True exactly when a session is loaded and paused.
    pub fn is_paused(&self) -> (r: bool)
        ensures
            r == (self@.status() == Status::Paused),
    {
        match &self.session {
            Some(s) => s.paused,
            None => false,
        }
    }

    /// Played time and length at clock reading `now`; with nothing loaded,
    /// always `NoActiveSession`.
    pub fn get_progress(&self, now: u64) -> (r: Result<Progress, PlayerError>)
        requires
            self@.wf(),
        ensures
            r == self@.progress_at(now),
    {
        match &self.session {
            Some(s) => Ok(Progress { elapsed_ms: s.elapsed_at(now), total_ms: s.total_ms }),
            None => Err(PlayerError::NoActiveSession),
        }
    }

    /// The path of the loaded track, if any.
    pub fn loaded_path(&self) -> (r: Option<&String>)
        ensures
            match self@.session {
                Some(s) => r is Some && r.unwrap()@ == s.path,
                None => r is None,
            },
    {
        match &self.session {
            Some(s) => Some(&s.path),
            None => None,
        }
    }
}

} // verus!
