//! Payload types and a verified driver model for lock-throughput benchmarking.
//!
//! The library has two halves.  This file holds the contended payload types:
//! fixed-size structs carrying a 64-bit counter plus padding, sized so that
//! `Small` fits in one cache line and `Large` spans many.  The [`driver`]
//! module holds the verified core of the benchmark driver: splitting a total
//! amount of work across threads and a model of the increment protocol that
//! proves the final counter value for every interleaving of workers.

use vstd::prelude::*;

pub mod driver;

verus! {

/// Total size in bytes of the small payload: on the order of one cache line.
pub const SIZE_OF_SMALL: usize = 32;

/// Total size in bytes of the large payload: spans many cache lines.
pub const SIZE_OF_LARGE: usize = 1024;

/// Size in bytes of the `u64` counter field at the head of each payload.
const SIZE_OF_COUNTER: usize = 8;

const SIZE_OF_SMALL_BUFFER: usize = SIZE_OF_SMALL - SIZE_OF_COUNTER;

const SIZE_OF_LARGE_BUFFER: usize = SIZE_OF_LARGE - SIZE_OF_COUNTER;

/// A generic type that is "small".  Larger than a single register,
/// but small enough to fit into a cache line.
#[derive(Debug, Copy, Clone, Eq, PartialEq, Hash)]
pub struct Small {
    pub counter: u64,
    _buffer: [u8; SIZE_OF_SMALL_BUFFER],
}

/// A generic type that is "large".  Larger than a cache line.
#[derive(Debug, Copy, Clone, Eq, PartialEq, Hash)]
pub struct Large {
    pub counter: u64,
    _buffer: [u8; SIZE_OF_LARGE_BUFFER],
}

impl Small {
    /// The padding carries no meaning; a freshly constructed payload has it
    /// zeroed.
    pub closed spec fn padding_zeroed(&self) -> bool {
        forall|i: int| 0 <= i < SIZE_OF_SMALL_BUFFER ==> self._buffer@[i] == 0
    }
}

impl Large {
    /// The padding carries no meaning; a freshly constructed payload has it
    /// zeroed.
    pub closed spec fn padding_zeroed(&self) -> bool {
        forall|i: int| 0 <= i < SIZE_OF_LARGE_BUFFER ==> self._buffer@[i] == 0
    }
}

impl Default for Small {
    fn default() -> (s: Self)
        ensures
            s.spec_counter() == 0,
            s.padding_zeroed(),
    {
        Self { counter: 0, _buffer: [0u8; SIZE_OF_SMALL_BUFFER] }
    }
}

impl Default for Large {
    fn default() -> (s: Self)
        ensures
            s.spec_counter() == 0,
            s.padding_zeroed(),
    {
        Self { counter: 0, _buffer: [0u8; SIZE_OF_LARGE_BUFFER] }
    }
}

/// The one capability the benchmark driver needs of a payload: read the
/// shared counter, and get a mutable handle to it for an in-place increment.
pub trait Counter: Sized {
    /// The current counter value, as the contracts see it.
    spec fn spec_counter(&self) -> u64;

    /// Returns the current counter value.
    fn counter(&self) -> (r: u64)
        ensures
            r == self.spec_counter(),
    ;

    /// Returns a mutable handle to the counter; writing through the handle
    /// is the only change made to the payload.
    fn counter_mut(&mut self) -> (r: &mut u64)
        ensures
            *r == old(self).spec_counter(),
            final(self).spec_counter() == *final(r),
    ;
}

impl Counter for Small {
    closed spec fn spec_counter(&self) -> u64 {
        self.counter
    }

    fn counter(&self) -> (r: u64) {
        self.counter
    }

    fn counter_mut(&mut self) -> (r: &mut u64) {
        &mut self.counter
    }
}

impl Counter for Large {
    closed spec fn spec_counter(&self) -> u64 {
        self.counter
    }

    fn counter(&self) -> (r: u64) {
        self.counter
    }

    fn counter_mut(&mut self) -> (r: &mut u64) {
        &mut self.counter
    }
}

} // verus!
