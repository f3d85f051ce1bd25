//! Signals: values that belong to a clock domain, and the kinds of timed
//! values.
use vstd::prelude::*;
use vstd::arithmetic::power2::pow2;
use std::marker::PhantomData;
use crate::bits::Bits;
use crate::types::{Color, Kind};

verus! {

/// A clock domain, known by its color.
pub trait ClockType {
    spec fn spec_color() -> Color;

    /// The color of the domain.
    fn color() -> (c: Color)
        ensures
            c == Self::spec_color(),
    ;
}

/// The red clock domain.
#[derive(Clone, Copy, Debug)]
pub struct Red;

/// The orange clock domain.
#[derive(Clone, Copy, Debug)]
pub struct Orange;

/// The yellow clock domain.
#[derive(Clone, Copy, Debug)]
pub struct Yellow;

/// The green clock domain.
#[derive(Clone, Copy, Debug)]
pub struct Green;

/// The blue clock domain.
#[derive(Clone, Copy, Debug)]
pub struct Blue;

/// The indigo clock domain.
#[derive(Clone, Copy, Debug)]
pub struct Indigo;

/// The violet clock domain.
#[derive(Clone, Copy, Debug)]
pub struct Violet;

impl ClockType for Red {
    open spec fn spec_color() -> Color {
        Color::Red
    }

    fn color() -> (c: Color) {
        Color::Red
    }
}

impl ClockType for Orange {
    open spec fn spec_color() -> Color {
        Color::Orange
    }

    fn color() -> (c: Color) {
        Color::Orange
    }
}

impl ClockType for Yellow {
    open spec fn spec_color() -> Color {
        Color::Yellow
    }

    fn color() -> (c: Color) {
        Color::Yellow
    }
}

impl ClockType for Green {
    open spec fn spec_color() -> Color {
        Color::Green
    }

    fn color() -> (c: Color) {
        Color::Green
    }
}

impl ClockType for Blue {
    open spec fn spec_color() -> Color {
        Color::Blue
    }

    fn color() -> (c: Color) {
        Color::Blue
    }
}

impl ClockType for Indigo {
    open spec fn spec_color() -> Color {
        Color::Indigo
    }

    fn color() -> (c: Color) {
        Color::Indigo
    }
}

impl ClockType for Violet {
    open spec fn spec_color() -> Color {
        Color::Violet
    }

    fn color() -> (c: Color) {
        Color::Violet
    }
}

/// A value whose kind is fixed by its type.
pub trait Timed: Sized {
    spec fn spec_static_kind() -> Kind;

    /// The kind of every value of the type.
    fn static_kind() -> (k: Kind)
        ensures
            k == Self::spec_static_kind(),
    ;

    /// The kind of this value: that of its type.
    fn kind(&self) -> (k: Kind)
        ensures
            k == Self::spec_static_kind(),
    {
        Self::static_kind()
    }
}

impl Timed for bool {
    open spec fn spec_static_kind() -> Kind {
        Kind::Bits(1)
    }

    fn static_kind() -> (k: Kind) {
        Kind::Bits(1)
    }
}

impl<const N: usize> Timed for Bits<N> {
    open spec fn spec_static_kind() -> Kind {
        Kind::Bits(N)
    }

    fn static_kind() -> (k: Kind) {
        Kind::Bits(N)
    }
}

/// A value of type `T` in the clock domain `C`.
#[derive(Debug)]
pub struct Sig<T, C> {
    val: T,
    clock: PhantomData<C>,
}

impl<T: Copy, C> Sig<T, C> {
    /// The value the signal carries.
    pub closed spec fn value(&self) -> T {
        self.val
    }

    /// A signal that carries `val`.
    pub fn signal(val: T) -> (s: Self)
        ensures
            s.value() == val,
    {
        Sig { val, clock: PhantomData }
    }

    /// The value the signal carries.
    pub fn val(&self) -> (r: T)
        ensures
            r == self.value(),
    {
        self.val
    }
}

/// A signal is of the kind of its values, in the color of its domain.
impl<T: Timed, C: ClockType> Timed for Sig<T, C> {
    open spec fn spec_static_kind() -> Kind {
        Kind::Signal(Box::new(T::spec_static_kind()), C::spec_color())
    }

    fn static_kind() -> (k: Kind) {
        Kind::make_signal(T::static_kind(), C::color())
    }
}

impl<const N: usize, C> Sig<Bits<N>, C> {
    /// The sum of the two signals' values, modulo `2^N`.
    pub fn add(self, rhs: Self) -> (r: Self)
        ensures
            r.value().val() == (self.value().val() + rhs.value().val()) % pow2(N as nat),
    {
        Sig { val: self.val.wrapping_add(rhs.val), clock: PhantomData }
    }

    /// The difference of the two signals' values, modulo `2^N`.
    pub fn sub(self, rhs: Self) -> (r: Self)
        ensures
            r.value().val() == (self.value().val() - rhs.value().val()) % (pow2(N as nat) as int),
    {
        Sig { val: self.val.wrapping_sub(rhs.val), clock: PhantomData }
    }

    /// The bitwise and of the two signals' values.
    pub fn bitand(self, rhs: Self) -> (r: Self)
        ensures
            r.value().word() == self.value().word() & rhs.value().word(),
    {
        Sig { val: self.val.bitand(rhs.val), clock: PhantomData }
    }

    /// The bitwise or of the two signals' values.
    pub fn bitor(self, rhs: Self) -> (r: Self)
        ensures
            r.value().word() == self.value().word() | rhs.value().word(),
    {
        Sig { val: self.val.bitor(rhs.val), clock: PhantomData }
    }

    /// The bitwise exclusive or of the two signals' values.
    pub fn bitxor(self, rhs: Self) -> (r: Self)
        ensures
            r.value().word() == self.value().word() ^ rhs.value().word(),
    {
        Sig { val: self.val.bitxor(rhs.val), clock: PhantomData }
    }

    /// The complement of the signal's value.
    pub fn not(self) -> (r: Self)
        ensures
            r.value().val() == pow2(N as nat) - 1 - self.value().val(),
    {
        Sig { val: self.val.not(), clock: PhantomData }
    }

    /// The value shifted up by the other signal's value, within `N` bits.
    pub fn shl(self, rhs: Self) -> (r: Self)
        requires
            rhs.value().val() < 128,
        ensures
            r.value().val() == (self.value().val() * pow2(rhs.value().val())) % pow2(N as nat),
    {
        Sig { val: self.val.shl(rhs.val.raw()), clock: PhantomData }
    }

    /// The value shifted down by the other signal's value.
    pub fn shr(self, rhs: Self) -> (r: Self)
        requires
            rhs.value().val() < 128,
        ensures
            r.value().val() == self.value().val() / pow2(rhs.value().val()),
    {
        Sig { val: self.val.shr(rhs.val.raw()), clock: PhantomData }
    }

    /// Whether this signal carries a smaller value than the other.
    pub fn lt(&self, rhs: &Self) -> (r: bool)
        ensures
            r == (self.value().val() < rhs.value().val()),
    {
        self.val.lt(&rhs.val)
    }

    /// Whether this signal carries a value no larger than the other's.
    pub fn le(&self, rhs: &Self) -> (r: bool)
        ensures
            r == (self.value().val() <= rhs.value().val()),
    {
        self.val.le(&rhs.val)
    }

    /// Whether this signal carries a larger value than the other.
    pub fn gt(&self, rhs: &Self) -> (r: bool)
        ensures
            r == (self.value().val() > rhs.value().val()),
    {
        self.val.gt(&rhs.val)
    }

    /// Whether this signal carries a value no smaller than the other's.
    pub fn ge(&self, rhs: &Self) -> (r: bool)
        ensures
            r == (self.value().val() >= rhs.value().val()),
    {
        self.val.ge(&rhs.val)
    }

    /// Whether the two signals carry the same value.
    pub fn equals(&self, rhs: &Self) -> (r: bool)
        ensures
            r == (self.value().val() == rhs.value().val()),
    {
        self.val.equals(&rhs.val)
    }
}

impl<C> Sig<bool, C> {
    /// The negation of the signal's value.
    pub fn not(self) -> (r: Self)
        ensures
            r.value() == !self.value(),
    {
        Sig { val: !self.val, clock: PhantomData }
    }

    /// Both signals' values hold.
    pub fn bitand(self, rhs: Self) -> (r: Self)
        ensures
            r.value() == (self.value() && rhs.value()),
    {
        Sig { val: self.val && rhs.val, clock: PhantomData }
    }

    /// Either signal's value holds.
    pub fn bitor(self, rhs: Self) -> (r: Self)
        ensures
            r.value() == (self.value() || rhs.value()),
    {
        Sig { val: self.val || rhs.val, clock: PhantomData }
    }

    /// Exactly one signal's value holds.
    pub fn bitxor(self, rhs: Self) -> (r: Self)
        ensures
            r.value() == (self.value() != rhs.value()),
    {
        Sig { val: self.val ^ rhs.val, clock: PhantomData }
    }

    /// Whether the two signals carry the same value.
    pub fn equals(&self, rhs: &Self) -> (r: bool)
        ensures
            r == (self.value() == rhs.value()),
    {
        self.val == rhs.val
    }
}

} // verus!
