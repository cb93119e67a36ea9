//! The counter: a number that goes up by one with every press.

use vstd::prelude::*;

verus! {

/// The button was pressed.
#[derive(Debug, Clone, Copy)]
pub struct Increment;

#[derive(Debug, Clone, Copy, PartialEq, Eq, Structural)]
pub struct Counter {
    pub value: i32,
}

impl Counter {
    /// Whether the value can still go up by one.
    pub open spec fn can_step(self) -> bool {
        self.value < i32::MAX
    }

    /// The counter after one press.
    pub open spec fn next(self) -> Counter {
        Counter { value: (self.value + 1) as i32 }
    }

    /// The counter after `presses` presses in a row.
    pub open spec fn run(self, presses: nat) -> Counter
        decreases presses,
    {
        if presses == 0 {
            self
        } else {
            self.run((presses - 1) as nat).next()
        }
    }

    /// A counter at zero.
    pub fn new() -> (r: Self)
        ensures
            r.value == 0,
    {
        Counter { value: 0 }
    }

    /// One press: the value goes up by one. The counter cannot go beyond
    /// what its value can hold.
    pub fn update(&mut self, message: Increment)
        requires
            old(self).can_step(),
        ensures
            *final(self) == old(self).next(),
            final(self).value == old(self).value + 1,
    {
        self.value = self.value + 1;
    }
}

impl Default for Counter {
    fn default() -> (r: Self)
        ensures
            r.value == 0,
    {
        Counter::new()
    }
}

/// Every press adds one. As long as the value can hold the sum, each of
/// `presses` presses in a row finds a counter that can still go up, and
/// together they move it up by `presses`.
pub proof fn lemma_presses_add_up(counter: Counter, presses: nat)
    requires
        counter.value + presses <= i32::MAX,
    ensures
        counter.run(presses).value == counter.value + presses,
        forall|earlier: nat| earlier < presses ==> (#[trigger] counter.run(earlier)).can_step(),
    decreases presses,
{
    if presses > 0 {
        let before = (presses - 1) as nat;
        lemma_presses_add_up(counter, before);
        assert forall|earlier: nat| earlier < presses implies (#[trigger] counter.run(
            earlier,
        )).can_step() by {
            if earlier == before {
            }
        }
    }
}

/// A counter that starts at zero can be pressed any number of times that
/// its value can hold, and then shows that number.
pub proof fn lemma_counts_presses(presses: nat)
    requires
        presses <= i32::MAX,
    ensures
        (Counter { value: 0 }).run(presses).value == presses,
        forall|earlier: nat|
            earlier < presses ==> (#[trigger] (Counter { value: 0 }).run(earlier)).can_step(),
{
    lemma_presses_add_up(Counter { value: 0 }, presses);
}

} // verus!
