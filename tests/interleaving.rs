use music_player::{Player, PlayerError, SourceError, Status};

struct Lcg(u64);

impl Lcg {
    fn next(&mut self) -> u64 {
        self.0 = self.0.wrapping_mul(6364136223846793005).wrapping_add(1442695040888963407);
        self.0 >> 33
    }
}

fn expected_after(st: Status, op: u64, loaded: bool) -> Status {
    match op {
        0 => {
            if loaded {
                Status::Playing
            } else {
                Status::Stopped
            }
        }
        1 => {
            if st == Status::Playing {
                Status::Paused
            } else {
                st
            }
        }
        2 => {
            if st == Status::Paused {
                Status::Playing
            } else {
                st
            }
        }
        3 => Status::Stopped,
        _ => st,
    }
}

#[test]
fn two_callers_interleaved_keep_invariants() {
    let mut p = Player::new();
    let mut callers = [Lcg(7), Lcg(1234567)];
    let mut now: u64 = 0;
    let mut total: Option<u64> = None;
    for step in 0..200u64 {
        let rng = &mut callers[(step % 2) as usize];
        now += rng.next() % 500;
        let op = rng.next() % 6;
        let before = p.status();
        let mut loaded = false;
        match op {
            0 => {
                loaded = rng.next() % 4 != 0;
                let opened = if loaded {
                    Ok(Some(1_000 + rng.next() % 60_000))
                } else {
                    Err(SourceError::Unreadable)
                };
                let r = p.play(format!("track{}.wav", step), opened, now);
                assert_eq!(r.is_ok(), loaded);
                if let Ok(t) = opened {
                    total = t;
                }
            }
            1 => {
                p.pause(now);
            }
            2 => {
                p.resume(now);
            }
            3 => p.stop(),
            4 => {
                let r = p.seek_to(rng.next() % 90, now);
                assert_eq!(r.is_err(), before == Status::Stopped);
            }
            _ => {
                let _ = p.get_progress(now);
            }
        }
        assert_eq!(p.status(), expected_after(before, op, loaded));
        match p.get_progress(now) {
            Ok(pr) => {
                assert_ne!(p.status(), Status::Stopped);
                assert!(p.loaded_path().is_some());
                assert_eq!(pr.total_ms, total);
                assert!(pr.elapsed_ms <= total.unwrap());
            }
            Err(e) => {
                assert_eq!(e, PlayerError::NoActiveSession);
                assert_eq!(p.status(), Status::Stopped);
                assert!(p.loaded_path().is_none());
            }
        }
    }
}
