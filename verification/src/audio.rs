//! The differential mute decision. Given the audio sessions active on the
//! default output device, the target process and the desired mute flag,
//! pick exactly the sessions that belong to the target and whose current
//! mute flag differs from the desired one: only those get a mute call and
//! a notification, so repeated polls of an unchanged state stay silent.

use vstd::prelude::*;

verus! {

/// One audio session as reported by the audio system: the owning process
/// and its current mute flag.
#[derive(Clone, Copy)]
pub struct AudioSession {
    pub pid: u32,
    pub muted: bool,
}

/// The session belongs to the target process and its mute flag differs
/// from the desired one, so a write is due.
pub open spec fn needs_flip(s: AudioSession, pid: u32, desired: bool) -> bool {
    s.pid == pid && s.muted != desired
}

/// The indices of the sessions due a write, in session order.
pub open spec fn flip_indices(sessions: Seq<AudioSession>, pid: u32, desired: bool) -> Seq<int>
    decreases sessions.len(),
{
    if sessions.len() == 0 {
        Seq::empty()
    } else {
        flip_indices(sessions.drop_last(), pid, desired) + if needs_flip(
            sessions.last(),
            pid,
            desired,
        ) {
            seq![sessions.len() - 1]
        } else {
            Seq::empty()
        }
    }
}

/// Exactly the sessions of `pid` whose mute flag differs from `desired`,
/// as indices into `sessions`, in order.
pub fn sessions_to_flip(sessions: &Vec<AudioSession>, pid: u32, desired: bool) -> (r: Vec<usize>)
    ensures
        r@.map_values(|x: usize| x as int) == flip_indices(sessions@, pid, desired),
{
    let mut r: Vec<usize> = Vec::new();
    let mut i: usize = 0;
    while i < sessions.len()
        invariant
            i <= sessions.len(),
            r@.map_values(|x: usize| x as int) == flip_indices(
                sessions@.take(i as int),
                pid,
                desired,
            ),
        decreases sessions.len() - i,
    {
        let ghost prev = r@;
        let s = sessions[i];
        if s.pid == pid && s.muted != desired {
            r.push(i);
        }
        proof {
            let taken = sessions@.take(i + 1 as int);
            assert(taken.drop_last() =~= sessions@.take(i as int));
            assert(taken.last() == sessions@[i as int]);
            if needs_flip(sessions@[i as int], pid, desired) {
                assert(r@.map_values(|x: usize| x as int) =~= prev.map_values(|x: usize| x as int)
                    + seq![i as int]);
            }
            assert(r@.map_values(|x: usize| x as int) == flip_indices(taken, pid, desired));
        }
        i += 1;
    }
    proof {
        assert(sessions@.take(sessions@.len() as int) =~= sessions@);
    }
    r
}

} // verus!
