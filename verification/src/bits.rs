//! Unsigned bit vectors of a fixed width of at most 128 bits.
use vstd::prelude::*;
use vstd::arithmetic::power2::{
    lemma2_to64, lemma_pow2_adds, lemma_pow2_pos, lemma_pow2_strictly_increases, lemma_pow2_unfold,
    pow2,
};

verus! {

/// The number of values of a 128-bit word.
pub proof fn lemma_pow2_128()
    ensures
        pow2(128) == 0x1_0000_0000_0000_0000_0000_0000_0000_0000,
{
    lemma2_to64();
    lemma_pow2_adds(64, 64);
}

/// `m` is a run of ones from bit 0 up.
pub open spec fn all_ones(m: u128) -> bool {
    m & ((m as int + 1) as u128) == 0
}

proof fn lemma_all_ones_step(m: u128)
    requires
        all_ones(m),
        m < 0x8000_0000_0000_0000_0000_0000_0000_0000,
    ensures
        all_ones((m * 2 + 1) as u128),
{
    assert(m & ((m as int + 1) as u128) == 0 && m < 0x8000_0000_0000_0000_0000_0000_0000_0000 ==> ((m * 2 + 1) as u128) & (((m * 2 + 1) as u128 as int + 1) as u128) == 0) by (bit_vector);
}

proof fn lemma_within_ones(x: u128, y: u128, m: u128)
    requires
        all_ones(m),
        x <= m,
        y <= m,
    ensures
        x | y <= m,
        x ^ y <= m,
        x & y <= m,
{
    assert(m & ((m as int + 1) as u128) == 0 && x <= m && y <= m ==> x | y <= m && x ^ y <= m && x & y <= m) by (bit_vector);
}

/// `2^n - 1`: the largest value of `n` bits.
pub fn low_mask(n: usize) -> (m: u128)
    requires
        n <= 128,
    ensures
        m == pow2(n as nat) - 1,
        all_ones(m),
{
    let mut m: u128 = 0;
    let mut i: usize = 0;
    proof {
        lemma2_to64();
        assert(all_ones(0u128)) by (bit_vector);
    }
    while i < n
        invariant
            i <= n <= 128,
            m == pow2(i as nat) - 1,
            all_ones(m),
        decreases n - i,
    {
        proof {
            lemma_pow2_unfold((i + 1) as nat);
            lemma_pow2_128();
            if i + 1 < 128 {
                lemma_pow2_strictly_increases((i + 1) as nat, 128);
            }
            lemma_all_ones_step(m);
        }
        m = m * 2 + 1;
        i = i + 1;
    }
    m
}


/// An unsigned number of `N` bits.
#[derive(Clone, Copy, Debug)]
pub struct Bits<const N: usize> {
    value: u128,
}

impl<const N: usize> Bits<N> {
    /// The bits as a 128-bit word.
    pub closed spec fn word(self) -> u128 {
        self.value
    }

    /// The number the bits stand for.
    pub open spec fn val(self) -> nat {
        self.word() as nat
    }

    #[verifier::type_invariant]
    closed spec fn fits(self) -> bool {
        N <= 128 && self.value < pow2(N as nat)
    }

    /// The value of a vector lies below `2^N`, and `N` is at most 128.
    pub fn width_and_range(&self)
        ensures
            N <= 128,
            self.val() < pow2(N as nat),
    {
        proof {
            use_type_invariant(self);
        }
    }

    /// The bits that stand for `value`, which must fit in `N` bits.
    pub fn new(value: u128) -> (b: Self)
        requires
            N <= 128,
            value < pow2(N as nat),
        ensures
            b.val() == value,
    {
        Bits { value }
    }

    /// The zero vector.
    pub fn zero() -> (b: Self)
        requires
            N <= 128,
        ensures
            b.val() == 0,
    {
        proof {
            lemma_pow2_pos(N as nat);
        }
        Bits { value: 0 }
    }

    /// The number the bits stand for.
    pub fn raw(&self) -> (r: u128)
        ensures
            r == self.val(),
    {
        self.value
    }

    /// Addition modulo `2^N`.
    pub fn wrapping_add(self, rhs: Self) -> (r: Self)
        ensures
            r.val() == (self.val() + rhs.val()) % pow2(N as nat),
    {
        proof {
            use_type_invariant(&self);
            use_type_invariant(&rhs);
        }
        let m = low_mask(N);
        let a = self.value;
        let b = rhs.value;
        if a <= m - b {
            proof {
                vstd::arithmetic::div_mod::lemma_small_mod((a + b) as nat, pow2(N as nat));
            }
            Bits { value: a + b }
        } else {
            let r = a - (m - b) - 1;
            proof {
                let p = pow2(N as nat);
                assert(r == a + b - p);
                lemma_pow2_pos(N as nat);
                vstd::arithmetic::div_mod::lemma_mod_add_multiples_vanish((a + b - p) as int, p as int);
                vstd::arithmetic::div_mod::lemma_small_mod((a + b - p) as nat, p);
            }
            Bits { value: r }
        }
    }

    /// Subtraction modulo `2^N`.
    pub fn wrapping_sub(self, rhs: Self) -> (r: Self)
        ensures
            r.val() == (self.val() - rhs.val()) % (pow2(N as nat) as int),
    {
        proof {
            use_type_invariant(&self);
            use_type_invariant(&rhs);
        }
        let m = low_mask(N);
        let a = self.value;
        let b = rhs.value;
        if a >= b {
            proof {
                vstd::arithmetic::div_mod::lemma_small_mod((a - b) as nat, pow2(N as nat));
            }
            Bits { value: a - b }
        } else {
            let r = a + (m - b) + 1;
            proof {
                let p = pow2(N as nat);
                assert(r == a - b + p);
                lemma_pow2_pos(N as nat);
                vstd::arithmetic::div_mod::lemma_mod_add_multiples_vanish((a - b) as int, p as int);
                vstd::arithmetic::div_mod::lemma_small_mod(r as nat, p);
            }
            Bits { value: r }
        }
    }

    /// The complement: every one of the `N` bits flipped.
    pub fn not(self) -> (r: Self)
        ensures
            r.val() == pow2(N as nat) - 1 - self.val(),
    {
        proof {
            use_type_invariant(&self);
        }
        let m = low_mask(N);
        Bits { value: m - self.value }
    }

    /// Bitwise and.
    pub fn bitand(self, rhs: Self) -> (r: Self)
        ensures
            r.word() == self.word() & rhs.word(),
    {
        proof {
            use_type_invariant(&self);
            use_type_invariant(&rhs);
        }
        let m = low_mask(N);
        proof {
            lemma_within_ones(self.value, rhs.value, m);
        }
        Bits { value: self.value & rhs.value }
    }

    /// Bitwise or.
    pub fn bitor(self, rhs: Self) -> (r: Self)
        ensures
            r.word() == self.word() | rhs.word(),
    {
        proof {
            use_type_invariant(&self);
            use_type_invariant(&rhs);
        }
        let m = low_mask(N);
        proof {
            lemma_within_ones(self.value, rhs.value, m);
        }
        Bits { value: self.value | rhs.value }
    }

    /// Bitwise exclusive or.
    pub fn bitxor(self, rhs: Self) -> (r: Self)
        ensures
            r.word() == self.word() ^ rhs.word(),
    {
        proof {
            use_type_invariant(&self);
            use_type_invariant(&rhs);
        }
        let m = low_mask(N);
        proof {
            lemma_within_ones(self.value, rhs.value, m);
        }
        Bits { value: self.value ^ rhs.value }
    }

    /// The bits moved `amount` places towards the top, the bits that pass
    /// the width dropped: `val * 2^amount` modulo `2^N`.
    pub fn shl(self, amount: u128) -> (r: Self)
        requires
            amount < 128,
        ensures
            r.val() == (self.val() * pow2(amount as nat)) % pow2(N as nat),
    {
        proof {
            use_type_invariant(&self);
            lemma2_to64();
            lemma_pow2_pos(N as nat);
            vstd::arithmetic::div_mod::lemma_small_mod(self.val(), pow2(N as nat));
        }
        let mut v = self;
        let mut i: u128 = 0;
        while i < amount
            invariant
                i <= amount,
                0 < pow2(N as nat),
                v.val() == (self.val() * pow2(i as nat)) % pow2(N as nat),
            decreases amount - i,
        {
            proof {
                let p = pow2(N as nat) as int;
                let x = self.val() as int;
                let q = pow2(i as nat) as int;
                lemma_pow2_unfold((i + 1) as nat);
                vstd::arithmetic::div_mod::lemma_mul_mod_noop_right(2, x * q, p);
                assert(x * pow2((i + 1) as nat) == 2 * (x * q)) by (nonlinear_arith)
                    requires
                        pow2((i + 1) as nat) == 2 * q,
                ;
            }
            v = v.wrapping_add(v);
            i = i + 1;
        }
        v
    }

    /// The bits moved `amount` places towards the bottom: `val / 2^amount`.
    pub fn shr(self, amount: u128) -> (r: Self)
        requires
            amount < 128,
        ensures
            r.val() == self.val() / pow2(amount as nat),
    {
        proof {
            use_type_invariant(&self);
            lemma2_to64();
        }
        let mut v: u128 = self.value;
        let mut i: u128 = 0;
        while i < amount
            invariant
                i <= amount,
                N <= 128,
                self.value < pow2(N as nat),
                v <= self.value,
                v as nat == (self.value as nat) / pow2(i as nat),
            decreases amount - i,
        {
            proof {
                lemma_pow2_unfold((i + 1) as nat);
                lemma_pow2_pos(i as nat);
                vstd::arithmetic::div_mod::lemma_div_denominator(self.value as int, pow2(i as nat) as int, 2);
            }
            v = v / 2;
            i = i + 1;
        }
        Bits { value: v }
    }

    /// Whether this vector stands for a smaller number than `rhs`.
    pub fn lt(&self, rhs: &Self) -> (r: bool)
        ensures
            r == (self.val() < rhs.val()),
    {
        self.value < rhs.value
    }

    /// Whether this vector stands for a number no larger than `rhs`.
    pub fn le(&self, rhs: &Self) -> (r: bool)
        ensures
            r == (self.val() <= rhs.val()),
    {
        self.value <= rhs.value
    }

    /// Whether this vector stands for a larger number than `rhs`.
    pub fn gt(&self, rhs: &Self) -> (r: bool)
        ensures
            r == (self.val() > rhs.val()),
    {
        self.value > rhs.value
    }

    /// Whether this vector stands for a number no smaller than `rhs`.
    pub fn ge(&self, rhs: &Self) -> (r: bool)
        ensures
            r == (self.val() >= rhs.val()),
    {
        self.value >= rhs.value
    }

    /// Whether both vectors stand for the same number.
    pub fn equals(&self, rhs: &Self) -> (r: bool)
        ensures
            r == (self.val() == rhs.val()),
    {
        self.value == rhs.value
    }
}

/// The bits of `value`, which must fit in `N` bits.
pub fn bits<const N: usize>(value: u128) -> (b: Bits<N>)
    requires
        N <= 128,
        value < pow2(N as nat),
    ensures
        b.val() == value,
{
    Bits::new(value)
}

} // verus!
