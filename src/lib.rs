//! A homogeneous-coordinate tuple algebra for a ray tracer: points and
//! vectors on the integer grid with their exact arithmetic (sum, difference,
//! scaling, negation, dot and cross products), the tolerance-aware ordering
//! rule of the scalar type, and the bookkeeping of a tick-based projectile
//! flight.

pub mod order;
pub mod flight;
pub mod tuple;
