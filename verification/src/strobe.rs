//! A strobe circuit: a pulse each time an enabled counter reaches a
//! threshold, and a few small kernels around it.
use vstd::prelude::*;
use vstd::arithmetic::power2::{lemma2_to64, lemma_pow2_strictly_increases, pow2};
use crate::bits::{Bits, bits};

verus! {

/// A clock line.
#[derive(Clone, Copy, PartialEq, Eq, Structural, Debug)]
pub struct Clock {
    pub raw: bool,
}

/// A constant: a circuit that always outputs `value`.
#[derive(Clone, Copy, Debug)]
pub struct Constant<T> {
    pub value: T,
}

/// An enabled counter of `N` bits.
#[derive(Clone, Copy, Debug)]
pub struct Counter<const N: usize> {}

/// The inputs of a counter.
#[derive(Clone, Copy, PartialEq, Eq, Structural, Debug)]
pub struct CounterI {
    pub clock: Clock,
    pub enable: bool,
}

/// The strobe: a threshold and two counters.
#[derive(Clone, Copy, Debug)]
pub struct Strobe<const N: usize> {
    threshold: Constant<Bits<N>>,
    counter_1: Counter<N>,
    counter_2: Counter<N>,
}

impl<const N: usize> Strobe<N> {
    /// The threshold the strobe fires at.
    pub closed spec fn threshold_value(self) -> Bits<N> {
        self.threshold.value
    }

    /// A strobe that fires when its counter reaches `param`.
    pub fn new(param: Bits<N>) -> (s: Self)
        ensures
            s.threshold_value() == param,
    {
        Strobe { threshold: Constant { value: param }, counter_1: Counter {}, counter_2: Counter {} }
    }

    /// The threshold the strobe fires at.
    pub fn threshold(&self) -> (t: Bits<N>)
        ensures
            t == self.threshold_value(),
    {
        self.threshold.value
    }
}

/// The inputs of the strobe.
#[derive(Clone, Copy, PartialEq, Eq, Structural, Debug)]
pub struct StrobeI {
    pub clock: Clock,
    pub enable: bool,
}

/// The outputs of the strobe's children, as the kernel sees them.
#[derive(Clone, Copy, Debug)]
pub struct StrobeQ<const N: usize> {
    pub threshold: Bits<N>,
    pub counter_1: Bits<N>,
    pub counter_2: Bits<N>,
}

/// The inputs the kernel gives the strobe's children.
#[derive(Clone, Copy, PartialEq, Eq, Structural, Debug)]
pub struct StrobeD {
    pub counter_1: CounterI,
    pub counter_2: CounterI,
}

/// Two registers of a demonstration circuit, as read.
#[derive(Clone, Copy, Debug)]
pub struct DemoQ {
    pub child_one: Bits<4>,
    pub child_two: Bits<8>,
}

/// Two registers of a demonstration circuit, as written.
#[derive(Clone, Copy, Debug)]
pub struct DemoD {
    pub child_one: Bits<4>,
    pub child_two: Bits<8>,
}

/// `count + 1`, wrapping at `2^N`.
pub fn add_one<const N: usize>(count: Bits<N>) -> (r: Bits<N>)
    requires
        N >= 1,
    ensures
        r.val() == (count.val() + 1) % pow2(N as nat),
{
    count.width_and_range();
    proof {
        lemma2_to64();
        if N > 1 {
            lemma_pow2_strictly_increases(1, N as nat);
        }
    }
    count.wrapping_add(bits::<N>(1))
}

/// `count + 1` when enabled, `count` otherwise.
pub fn add_enabled<const N: usize>(enable: bool, count: Bits<N>) -> (r: Bits<N>)
    requires
        enable ==> N >= 1,
    ensures
        r.val() == if enable {
            (count.val() + 1) % pow2(N as nat)
        } else {
            count.val()
        },
{
    if enable {
        add_one::<N>(count)
    } else {
        count
    }
}

/// The strobe's kernel: it fires when enabled and the first counter has
/// reached the threshold, and it passes clock and enable on to both
/// counters.
pub fn strobe<const N: usize>(i: StrobeI, q: StrobeQ<N>) -> (r: (bool, StrobeD))
    requires
        i.enable ==> N >= 1,
    ensures
        r.0 == (i.enable && q.counter_1.val() == q.threshold.val()),
        r.1 == (StrobeD {
            counter_1: CounterI { clock: i.clock, enable: i.enable },
            counter_2: CounterI { clock: i.clock, enable: i.enable },
        }),
{
    let mut d = StrobeD {
        counter_1: CounterI { clock: Clock { raw: false }, enable: false },
        counter_2: CounterI { clock: Clock { raw: false }, enable: false },
    };
    let counter_next = add_enabled::<N>(i.enable, q.counter_1);
    let reached = q.counter_1.equals(&q.threshold);
    let strobe = i.enable && reached;
    q.counter_1.width_and_range();
    let _counter_next = if strobe {
        proof {
            lemma2_to64();
            if N > 1 {
                lemma_pow2_strictly_increases(1, N as nat);
            }
        }
        bits::<N>(1)
    } else {
        counter_next
    };
    d.counter_1.enable = i.enable;
    d.counter_2.enable = i.enable;
    d.counter_1.clock = i.clock;
    d.counter_2.clock = i.clock;
    (strobe, d)
}

/// The identity on four bits.
pub fn child_one(i: Bits<4>) -> (r: Bits<4>)
    ensures
        r == i,
{
    i
}

/// The identity on eight bits.
pub fn child_two(i: Bits<8>) -> (r: Bits<8>)
    ensures
        r == i,
{
    i
}

/// Passes the input through and feeds each register back to itself.
pub fn update_me(i: Bits<1>, q: DemoQ) -> (r: (Bits<1>, DemoD))
    ensures
        r.0 == i,
        r.1.child_one == q.child_one,
        r.1.child_two == q.child_two,
{
    (i, DemoD { child_one: child_one(q.child_one), child_two: child_two(q.child_two) })
}

/// The demonstration circuit: its output is its input.
pub fn circuit(i: Bits<1>) -> (r: Bits<1>)
    ensures
        r == i,
{
    let mut q = DemoQ { child_one: Bits::<4>::zero(), child_two: Bits::<8>::zero() };
    let (o, d) = update_me(i, q);
    q.child_one = child_one(d.child_one);
    q.child_two = child_two(d.child_two);
    o
}

} // verus!
