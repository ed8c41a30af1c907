use vstd::prelude::*;

use crate::celsius::{celsius_ninths, Celsius};

verus! {

/// The state of a generator: the next Fahrenheit value to hand out, and the fixed step.
pub struct TableState {
    pub current: int,
    pub step: int,
}

/// One production: the current value moves on by the step, which stays.
pub open spec fn advance(s: TableState) -> TableState {
    TableState { current: s.current + s.step, step: s.step }
}

/// The state after `n` productions from `s`.
pub open spec fn after(s: TableState, n: nat) -> TableState
    decreases n,
{
    if n == 0 {
        s
    } else {
        advance(after(s, (n - 1) as nat))
    }
}

/// The Fahrenheit value of the `n`-th production from `s`, counting from 0.
pub open spec fn produced_at(s: TableState, n: nat) -> int {
    after(s, n).current
}

/// A Fahrenheit value that the generator can hold.
pub open spec fn fits(v: int) -> bool {
    i32::MIN <= v <= i32::MAX
}

/// A lazy, unbounded table of Fahrenheit values from a start by a fixed step, each handed
/// out with its Celsius equivalent.
pub struct FahrToCelc {
    fahr: i32,
    step: i32,
}

impl View for FahrToCelc {
    type V = TableState;

    closed spec fn view(&self) -> TableState {
        TableState { current: self.fahr as int, step: self.step as int }
    }
}

impl FahrToCelc {
    /// A generator whose first value is `fahr`, each next one `step` further on.
    pub fn new(fahr: i32, step: i32) -> (r: FahrToCelc)
        ensures
            r@ == (TableState { current: fahr as int, step: step as int }),
    {
        FahrToCelc { fahr: fahr, step: step }
    }

    /// Hands out the current value with its Celsius equivalent and moves on by the step.
    /// Returns `None`, and stays as it is, only where the value after this one would not
    /// fit in an `i32`.
    pub fn next(&mut self) -> (r: Option<(i32, Celsius)>)
        ensures
            fits(advance(old(self)@).current) ==> r is Some,
            match r {
                Some((v, c)) => {
                    &&& v as int == old(self)@.current
                    &&& c.ninths == celsius_ninths(v as int)
                    &&& final(self)@ == advance(old(self)@)
                },
                None => {
                    &&& !fits(advance(old(self)@).current)
                    &&& final(self)@ == old(self)@
                },
            },
    {
        match self.fahr.checked_add(self.step) {
            Some(following) => {
                let curr_fahr = self.fahr;
                let curr_celc = Celsius::of_fahrenheit(curr_fahr);
                self.fahr = following;
                Some((curr_fahr, curr_celc))
            },
            None => None,
        }
    }

    /// The next `n` productions, in order; fewer only where a value after them would not
    /// fit in an `i32`.
    pub fn take(&mut self, n: usize) -> (r: Vec<(i32, Celsius)>)
        ensures
            r.len() <= n,
            final(self)@ == after(old(self)@, r.len() as nat),
            forall|i: int|
                0 <= i < r.len() ==> {
                    &&& r@[i].0 as int == produced_at(old(self)@, i as nat)
                    &&& r@[i].1.ninths == celsius_ninths(r@[i].0 as int)
                },
            r.len() < n ==> !fits(advance(final(self)@).current),
    {
        let mut r: Vec<(i32, Celsius)> = Vec::new();
        let ghost start = self@;
        while r.len() < n
            invariant
                r.len() <= n,
                start == old(self)@,
                self@ == after(start, r.len() as nat),
                forall|i: int|
                    0 <= i < r.len() ==> {
                        &&& r@[i].0 as int == produced_at(start, i as nat)
                        &&& r@[i].1.ninths == celsius_ninths(r@[i].0 as int)
                    },
            decreases n - r.len(),
        {
            match self.next() {
                Some(pair) => {
                    r.push(pair);
                },
                None => {
                    return r;
                },
            }
        }
        r
    }
}

/// The `n`-th Fahrenheit value produced is the start plus `n` steps, and the step never
/// changes.
pub proof fn lemma_produced_at(s: TableState, n: nat)
    ensures
        produced_at(s, n) == s.current + n * s.step,
        after(s, n).step == s.step,
    decreases n,
{
    if n > 0 {
        let k = (n - 1) as nat;
        lemma_produced_at(s, k);
        assert(after(s, n) == advance(after(s, k)));
        assert(s.current + k * s.step + s.step == s.current + n * s.step) by (nonlinear_arith)
            requires
                k + 1 == n,
        ;
    } else {
        assert(n * s.step == 0) by (nonlinear_arith)
            requires
                n == 0,
        ;
    }
}

/// Two generators made with the same start and step produce the same sequence: a
/// production depends on the generator's own state alone.
pub proof fn lemma_same_arguments_same_sequence(a: TableState, b: TableState, n: nat)
    requires
        a.current == b.current,
        a.step == b.step,
    ensures
        after(a, n) == after(b, n),
        produced_at(a, n) == produced_at(b, n),
        celsius_ninths(produced_at(a, n)) == celsius_ninths(produced_at(b, n)),
{
    assert(a == b);
}

/// With a zero step every production has the starting value.
pub proof fn lemma_zero_step_is_constant(s: TableState, n: nat)
    requires
        s.step == 0,
    ensures
        produced_at(s, n) == s.current,
{
    lemma_produced_at(s, n);
}

/// With a negative step every production is below each one before it.
pub proof fn lemma_negative_step_descends(s: TableState, m: nat, n: nat)
    requires
        s.step < 0,
        m < n,
    ensures
        produced_at(s, n) < produced_at(s, m),
{
    lemma_produced_at(s, m);
    lemma_produced_at(s, n);
    assert(n * s.step < m * s.step) by (nonlinear_arith)
        requires
            s.step < 0,
            m < n,
    ;
}

} // verus!
