use vstd::prelude::*;

verus! {

/// A point of a trajectory in several dimensions.
#[derive(Clone, Debug)]
pub struct TrajectoryPoint<T> {
    pub position: Vec<T>,
    pub velocity: Vec<T>,
    pub acceleration: Vec<T>,
}

impl<T> TrajectoryPoint<T> {
    /// A trajectory point from its position, velocity and acceleration.
    pub fn new(position: Vec<T>, velocity: Vec<T>, acceleration: Vec<T>) -> (p: Self)
        ensures
            p.position == position,
            p.velocity == velocity,
            p.acceleration == acceleration,
    {
        Self { position, velocity, acceleration }
    }
}

} // verus!
