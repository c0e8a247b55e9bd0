use vstd::prelude::*;
use crate::action::Action;

verus! {

/// Pause after each greeting, in milliseconds.
pub const GREETING_PAUSE_MS: u32 = 300;
/// The greeting program halts with a panic after the greeting sent when its
/// count exceeds this value.
pub const GREETING_LIMIT: u32 = 10;

/// The greeting program: it greets, pauses, and panics once its count exceeds
/// the limit.
#[derive(Clone, Copy, Debug, PartialEq, Eq, Structural)]
pub struct GreetingCounter {
    pub count: u32,
}

/// One round: greet and pause; then halt if the count exceeds the limit,
/// else count one more.
pub open spec fn tick_effect(count: u32) -> (u32, Seq<Action>) {
    let greet = seq![Action::SendGreeting, Action::DelayMs(GREETING_PAUSE_MS)];
    if count > GREETING_LIMIT {
        (count, greet.push(Action::Halt))
    } else {
        ((count + 1) as u32, greet)
    }
}

/// Whether a round at this count ends in the panic.
pub open spec fn halts_at(count: u32) -> bool {
    tick_effect(count).1.contains(Action::Halt)
}

/// The count after `k` rounds that did not halt, from `count`.
pub open spec fn count_after(count: u32, k: nat) -> u32
    decreases k,
{
    if k == 0 {
        count
    } else {
        tick_effect(count_after(count, (k - 1) as nat)).0
    }
}

impl GreetingCounter {
    pub fn new() -> (c: Self)
        ensures
            c.count == 0,
    {
        GreetingCounter { count: 0 }
    }

    /// One round of the greeting program.
    pub fn tick(&mut self) -> (acts: Vec<Action>)
        ensures
            (final(self).count, acts@) == tick_effect(old(self).count),
    {
        let mut acts = vec![Action::SendGreeting, Action::DelayMs(GREETING_PAUSE_MS)];
        if self.count > GREETING_LIMIT {
            acts.push(Action::Halt);
        } else {
            self.count = self.count + 1;
        }
        assert(acts@ =~= tick_effect(old(self).count).1);
        acts
    }
}

/// The first rounds from a fresh counter count up one by one.
proof fn lemma_counts_up(k: nat)
    requires
        k <= 11,
    ensures
        count_after(0, k) == k,
    decreases k,
{
    if k > 0 {
        lemma_counts_up((k - 1) as nat);
    }
}

/// From a fresh counter the program greets exactly twelve times: the first
/// eleven rounds go on, counting 1 to 11, and the twelfth round greets and then
/// halts.
pub proof fn law_twelve_greetings(k: nat)
    ensures
        k <= 11 ==> count_after(0, k) == k,
        k < 11 ==> !halts_at(count_after(0, k)),
        halts_at(count_after(0, 11)),
{
    lemma_counts_up(11);
    law_halt_iff_over_limit(11);
    if k <= 11 {
        lemma_counts_up(k);
        law_halt_iff_over_limit(k as u32);
    }
}

/// A round halts exactly when the count exceeds 10; every round greets first and
/// pauses 300 ms; a round that goes on counts one more, one that halts keeps the count.
pub proof fn law_halt_iff_over_limit(count: u32)
    ensures
        halts_at(count) <==> count > 10,
        tick_effect(count).1[0] == Action::SendGreeting,
        tick_effect(count).1[1] == Action::DelayMs(300),
        count <= 10 ==> tick_effect(count).0 == count + 1,
        count > 10 ==> tick_effect(count).0 == count,
{
    let acts = tick_effect(count).1;
    if count > GREETING_LIMIT {
        assert(acts[2] == Action::Halt);
    } else {
        assert(acts =~= seq![Action::SendGreeting, Action::DelayMs(GREETING_PAUSE_MS)]);
        if acts.contains(Action::Halt) {
            let i = choose|i: int| 0 <= i < acts.len() && acts[i] == Action::Halt;
            assert(i == 0 || i == 1);
        }
    }
}

} // verus!
