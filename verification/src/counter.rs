//! The counter state machine: one 256-bit unsigned value, mutated through a
//! small set of deterministic operations.
//!
//! Each operation is an atomic read-modify-write: either the new value is
//! within range and becomes the state, or the operation fails with
//! [`CounterError::ArithmeticOverflow`] and the state is unchanged. The
//! intended behaviour of every mutating operation is written once, as a spec
//! function from the mathematical state (`nat`) to the next state, and each
//! executable method is proved to follow its spec function exactly.

use vstd::prelude::*;
use crate::u256::U256;
use crate::u256::u256_bound;

verus! {

/// The only failure the machine can report: an arithmetic update would push
/// the value outside `[0, 2^256 - 1]`.
#[derive(Clone, Copy, PartialEq, Eq, Structural, Debug)]
pub enum CounterError {
    ArithmeticOverflow,
}

/// The next state after adding `delta`: the sum when it fits in 256 bits,
/// overflow otherwise.
pub open spec fn spec_add(value: nat, delta: nat) -> Result<nat, CounterError> {
    if value + delta < u256_bound() {
        Ok((value + delta) as nat)
    } else {
        Err(CounterError::ArithmeticOverflow)
    }
}

/// The next state after multiplying by `factor`: the product when it fits in
/// 256 bits, overflow otherwise.
pub open spec fn spec_mul(value: nat, factor: nat) -> Result<nat, CounterError> {
    if value * factor < u256_bound() {
        Ok((value * factor) as nat)
    } else {
        Err(CounterError::ArithmeticOverflow)
    }
}

/// The next state after incrementing: adding the constant one.
pub open spec fn spec_increment(value: nat) -> Result<nat, CounterError> {
    spec_add(value, 1)
}

/// The next state after an update gated by a transferred amount: amounts
/// below one leave the state untouched and still succeed; any other amount
/// is added, with the same overflow fault as a plain addition.
pub open spec fn spec_add_from_msg_value(value: nat, msg_value: nat) -> Result<
    nat,
    CounterError,
> {
    if msg_value < 1 {
        Ok(value)
    } else {
        spec_add(value, msg_value)
    }
}

/// The counter entity: its state is the one stored value.
///
/// The host is expected to serialize invocations and to commit or roll back
/// durable storage around each call; the machine itself only computes the
/// next state.
pub struct Counter {
    number: U256,
}

impl View for Counter {
    type V = nat;

    closed spec fn view(&self) -> nat {
        self.number@
    }
}

impl Counter {
    /// A freshly initialized entity holds zero.
    pub fn new() -> (c: Counter)
        ensures
            c@ == 0,
    {
        Counter { number: U256::zero() }
    }

    /// The machine's state never leaves the canonical range.
    pub proof fn lemma_in_range(self)
        ensures
            self@ < u256_bound(),
    {
        self.number.lemma_in_range();
    }

    /// Reads the current value.
    pub fn number(&self) -> (r: U256)
        ensures
            r@ == self@,
    {
        self.number
    }

    /// Writes a caller-chosen value; total, it always succeeds.
    pub fn set_number(&mut self, new_number: U256)
        ensures
            final(self)@ == new_number@,
    {
        self.number = new_number;
    }

    /// Adds `new_number` to the value, or fails on overflow leaving the
    /// value unchanged.
    pub fn add_number(&mut self, new_number: U256) -> (r: Result<(), CounterError>)
        ensures
            match spec_add(old(self)@, new_number@) {
                Ok(v) => r is Ok && final(self)@ == v,
                Err(e) => r == Err::<(), CounterError>(e) && final(self)@ == old(self)@,
            },
    {
        match self.number.checked_add(&new_number) {
            Some(sum) => {
                self.set_number(sum);
                Ok(())
            },
            None => Err(CounterError::ArithmeticOverflow),
        }
    }

    /// Multiplies the value by `new_number`, or fails on overflow leaving
    /// the value unchanged.
    pub fn mul_number(&mut self, new_number: U256) -> (r: Result<(), CounterError>)
        ensures
            match spec_mul(old(self)@, new_number@) {
                Ok(v) => r is Ok && final(self)@ == v,
                Err(e) => r == Err::<(), CounterError>(e) && final(self)@ == old(self)@,
            },
    {
        match self.number.checked_mul(&new_number) {
            Some(product) => {
                self.set_number(product);
                Ok(())
            },
            None => Err(CounterError::ArithmeticOverflow),
        }
    }

    /// Adds one to the value, or fails when the value is already at the
    /// maximum. Written in terms of reading the value and storing the sum,
    /// so it shares the addition's overflow fault for the constant one.
    pub fn increment(&mut self) -> (r: Result<(), CounterError>)
        ensures
            match spec_increment(old(self)@) {
                Ok(v) => r is Ok && final(self)@ == v,
                Err(e) => r == Err::<(), CounterError>(e) && final(self)@ == old(self)@,
            },
    {
        let number = self.number();
        match number.checked_add(&U256::from_u64(1)) {
            Some(sum) => {
                self.set_number(sum);
                Ok(())
            },
            None => Err(CounterError::ArithmeticOverflow),
        }
    }

    /// Adds the amount transferred with the invocation, supplied by the host
    /// as `msg_value`. An amount below one is a successful no-op; any other
    /// amount is added with the usual overflow fault.
    pub fn add_from_msg_value(&mut self, msg_value: U256) -> (r: Result<(), CounterError>)
        ensures
            match spec_add_from_msg_value(old(self)@, msg_value@) {
                Ok(v) => r is Ok && final(self)@ == v,
                Err(e) => r == Err::<(), CounterError>(e) && final(self)@ == old(self)@,
            },
    {
        if msg_value.is_zero() {
            return Ok(());
        }
        match self.number.checked_add(&msg_value) {
            Some(sum) => {
                self.set_number(sum);
                Ok(())
            },
            None => Err(CounterError::ArithmeticOverflow),
        }
    }
}

/// Incrementing is the same transition as adding the constant one, on every
/// state.
pub proof fn lemma_increment_is_add_one(value: nat)
    ensures
        spec_increment(value) == spec_add(value, 1),
{
}

/// A transferred amount of zero never changes the state, and the operation
/// still succeeds.
pub proof fn lemma_msg_value_zero_is_noop(value: nat)
    ensures
        spec_add_from_msg_value(value, 0) == Ok::<nat, CounterError>(value),
{
}

/// A transferred amount of at least one behaves exactly like adding that
/// amount, overflow fault included.
pub proof fn lemma_msg_value_positive_is_add(value: nat, msg_value: nat)
    requires
        msg_value >= 1,
    ensures
        spec_add_from_msg_value(value, msg_value) == spec_add(value, msg_value),
{
}

} // verus!
