use rand::Rng;
use vstd::prelude::*;

verus! {

/// One weighted coin flip: its weight `numerator / denominator` and what
/// came up.
pub struct Draw {
    pub numerator: u32,
    pub denominator: u32,
    pub outcome: bool,
}

/// How many of the draws came up false.
pub open spec fn misses(draws: Seq<Draw>) -> int
    decreases draws.len(),
{
    if draws.len() == 0 {
        0
    } else {
        misses(draws.drop_last()) + if draws.last().outcome {
            0int
        } else {
            1int
        }
    }
}

/// A source of weighted coin flips: `flip(n, d)` comes up true with
/// probability `n / d`.
pub trait WeightedCoin {
    /// Every flip made so far, oldest first.
    spec fn draws(&self) -> Seq<Draw>;

    fn flip(&mut self, numerator: u32, denominator: u32) -> (r: bool)
        requires
            0 < denominator,
            numerator <= denominator,
        ensures
            numerator == 0 ==> !r,
            numerator == denominator ==> r,
            final(self).draws() == old(self).draws().push(
                (Draw { numerator, denominator, outcome: r }),
            ),
    ;
}

/// Relies on rand's `Rng::gen_ratio` on the thread-local generator: it panics
/// unless `0 < denominator` and `numerator <= denominator`, always returns
/// true when the two are equal, and false when the numerator is 0.
#[verifier::external_body]
fn thread_gen_ratio(numerator: u32, denominator: u32) -> (r: bool)
    requires
        0 < denominator,
        numerator <= denominator,
    ensures
        numerator == 0 ==> !r,
        numerator == denominator ==> r,
{
    rand::thread_rng().gen_ratio(numerator, denominator)
}

/// Coin flips drawn from the thread-local random number generator.
#[derive(Copy, Clone)]
pub struct RandomCoin {
    pub history: Ghost<Seq<Draw>>,
}

impl RandomCoin {
    /// A coin that has not been flipped yet.
    pub fn new() -> (r: RandomCoin)
        ensures
            r.history@ == Seq::<Draw>::empty(),
    {
        RandomCoin { history: Ghost(Seq::empty()) }
    }
}

impl WeightedCoin for RandomCoin {
    open spec fn draws(&self) -> Seq<Draw> {
        self.history@
    }

    fn flip(&mut self, numerator: u32, denominator: u32) -> (r: bool) {
        let r = thread_gen_ratio(numerator, denominator);
        self.history = Ghost(self.history@.push(Draw { numerator, denominator, outcome: r }));
        r
    }
}

/// Coin flips replayed from a fixed list of outcomes. Flips whose outcome is
/// certain (weight 0 or 1) consume nothing; the others take the next outcome
/// in the list, and come up false once it is used up.
#[derive(Clone)]
pub struct ScriptedCoin {
    pub outcomes: Vec<bool>,
    pub next: usize,
    pub history: Ghost<Seq<Draw>>,
}

impl ScriptedCoin {
    /// A scripted coin that will replay `outcomes` from the start.
    pub fn new(outcomes: Vec<bool>) -> (r: ScriptedCoin)
        ensures
            r.outcomes@ == outcomes@,
            r.next == 0,
            r.history@ == Seq::<Draw>::empty(),
    {
        ScriptedCoin { outcomes, next: 0, history: Ghost(Seq::empty()) }
    }
}

impl WeightedCoin for ScriptedCoin {
    open spec fn draws(&self) -> Seq<Draw> {
        self.history@
    }

    fn flip(&mut self, numerator: u32, denominator: u32) -> (r: bool) {
        let r = self.next_outcome(numerator, denominator);
        self.history = Ghost(self.history@.push(Draw { numerator, denominator, outcome: r }));
        r
    }
}

impl ScriptedCoin {
    /// The outcome of the next flip of weight `numerator / denominator`.
    fn next_outcome(&mut self, numerator: u32, denominator: u32) -> (r: bool)
        ensures
            numerator == 0 ==> !r,
            numerator == denominator && numerator != 0 ==> r,
            final(self).history == old(self).history,
            final(self).outcomes == old(self).outcomes,
    {
        if numerator == 0 {
            false
        } else if numerator == denominator {
            true
        } else if self.next < self.outcomes.len() {
            let r = self.outcomes[self.next];
            self.next = self.next + 1;
            r
        } else {
            false
        }
    }
}

} // verus!
