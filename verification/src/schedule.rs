//! Which namespace stage 2 works on at each of its ticks.

use vstd::prelude::*;

verus! {

/// The namespaces of the last complete pass of stage 1 and the place of
/// the one that stage 2 takes next.
#[derive(Debug)]
pub struct SyncSchedule {
    pub namespaces: Vec<String>,
    pub next: usize,
}

/// The place that a tick works on, for the place `next` that the schedule
/// holds and `len` namespaces.
pub open spec fn tick_place(next: int, len: int) -> int {
    next % len
}

/// The place that the schedule holds after a tick.
pub open spec fn place_after_tick(next: int, len: int) -> int {
    (tick_place(next, len) + 1) % len
}

/// The place that the `k`-th tick from now works on, while the namespaces
/// stay the same.
pub open spec fn place_of_tick(next: int, len: int, k: nat) -> int
    decreases k,
{
    if k == 0 {
        tick_place(next, len)
    } else {
        place_of_tick(place_after_tick(next, len), len, (k - 1) as nat)
    }
}

impl SyncSchedule {
    /// A schedule without namespaces.
    pub fn new() -> (schedule: Self)
        ensures
            schedule.namespaces@.len() == 0,
            schedule.next == 0,
    {
        SyncSchedule { namespaces: Vec::new(), next: 0 }
    }

    /// Takes in how a pass of stage 1 ended: the namespaces of a complete
    /// pass replace those the schedule held; a pass that was given up
    /// changes nothing. The place is kept; a tick brings it into range.
    pub fn stage1_finished(&mut self, outcome: Option<Vec<String>>)
        ensures
            final(self).next == old(self).next,
            final(self).namespaces == match outcome {
                Some(names) => names,
                None => old(self).namespaces,
            },
    {
        match outcome {
            Some(names) => {
                self.namespaces = names;
            },
            None => {},
        }
    }

    /// A tick of stage 2: the namespace to work on, and the schedule moves
    /// to the one after it, from the last back to the first. Without
    /// namespaces there is nothing to do and nothing changes.
    pub fn stage2_tick(&mut self) -> (namespace: Option<String>)
        ensures
            final(self).namespaces == old(self).namespaces,
            match namespace {
                None => old(self).namespaces.len() == 0 && final(self).next == old(self).next,
                Some(name) => {
                    &&& old(self).namespaces.len() > 0
                    &&& name == old(self).namespaces[tick_place(
                        old(self).next as int,
                        old(self).namespaces.len() as int,
                    )]
                    &&& final(self).next == place_after_tick(
                        old(self).next as int,
                        old(self).namespaces.len() as int,
                    )
                },
            },
    {
        let len: usize = self.namespaces.len();
        if len == 0 {
            return None;
        }
        let place: usize = self.next % len;
        let name = self.namespaces[place].clone();
        self.next = if place + 1 == len {
            0
        } else {
            place + 1
        };
        proof {
            if place + 1 == len {
                assert((place + 1) as int % len as int == 0) by {
                    vstd::arithmetic::div_mod::lemma_mod_self_0(len as int);
                }
            } else {
                assert((place + 1) as int % len as int == place + 1) by {
                    vstd::arithmetic::div_mod::lemma_small_mod((place + 1) as nat, len as nat);
                }
            }
        }
        Some(name)
    }
}

/// Round robin: while the namespaces stay the same, the `k`-th tick from
/// now works on the place `(next + k) mod len`, so `len` ticks in a row
/// take each namespace once.
pub proof fn lemma_round_robin(next: int, len: int, k: nat)
    requires
        0 <= next,
        0 < len,
    ensures
        place_of_tick(next, len, k) == (next + k) % len,
        0 <= place_of_tick(next, len, k) < len,
    decreases k,
{
    if k > 0 {
        let after = place_after_tick(next, len);
        lemma_round_robin(after, len, (k - 1) as nat);
        assert(after == (1 + next) % len) by {
            vstd::arithmetic::div_mod::lemma_add_mod_noop_right(1, next, len);
        }
        assert((after + (k - 1)) % len == (next + k) % len) by {
            vstd::arithmetic::div_mod::lemma_add_mod_noop_right(k - 1, next + 1, len);
            assert((k - 1) + (next + 1) == next + k);
            assert(after + (k - 1) == (k - 1) + (1 + next) % len);
        }
    }
}

} // verus!
