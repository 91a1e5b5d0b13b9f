//! A small library that turns a lazily produced sequence of values (primes,
//! in the ready-made generators) into a concurrently consumable stream: a
//! producer unit of work drains the sequence into a FIFO channel, and a
//! caller-held receiving end reads the items from another task.

pub mod bridge;
pub mod channel;
pub mod generators;
pub mod primality;
pub mod sieve;
pub mod source;
pub mod stream;

pub use crate::bridge::Bridge;
pub use crate::bridge::BridgeOutcome;
pub use crate::bridge::lemma_cancellation_overshoot;
pub use crate::bridge::lemma_order_preservation;
pub use crate::bridge::make_bounded_bridge;
pub use crate::bridge::make_unbounded_bridge;
pub use crate::channel::sender_cap;
pub use crate::channel::sent_log;
pub use crate::generators::PrimesBounded;
pub use crate::generators::PrimesBoundedIterator;
pub use crate::generators::primes_bounded;
pub use crate::generators::primes_bounded_approx;
pub use crate::generators::primes_unbounded;
pub use crate::generators::spec_capacity_for;
pub use crate::primality::primes_upto;
pub use crate::primality::spec_prime;
pub use crate::sieve::SievePrimeSource;
pub use crate::sieve::prime_pi_bounds;
pub use crate::sieve::sieve_covers;
pub use crate::source::IteratorWithPrivateData;
pub use crate::source::ValueSource;
pub use crate::source::VecSource;
pub use crate::stream::PrimeStreamSource;
pub use crate::stream::primes_yielded;
