//! Decision kernel of a two-dimensional ray caster.
//!
//! Every real quantity is carried as the bit pattern of an IEEE 754
//! single-precision number. The library never does arithmetic on such a
//! value: it orders them, tests them against bounds and picks among them,
//! and it proves what it picks. The arithmetic that produces the values
//! is the caller's.

pub mod single;
pub mod hit;
pub mod nearest;
pub mod segment;
pub mod circle;
pub mod fan;
