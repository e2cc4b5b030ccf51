//! Step-indexed learning-rate schedules.
//!
//! A scheduler counts optimizer steps and says, for each step, which rate
//! applies: a fixed rate, a rate decayed by a whole power of a factor, a
//! point on a warmup ramp, or a point on the rise or the fall of the Noam
//! schedule. Rates and factors are double-precision scalars that the
//! schedulers carry as bit patterns and never compute on; the integer side
//! of every schedule (counting, the decay exponent, the end of a warmup,
//! snapshots of progress) is verified here.

pub mod base;
pub mod constant;
pub mod noam;
pub mod step;
pub mod warmup;
