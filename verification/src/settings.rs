use vstd::prelude::*;

verus! {

/// The example system's configuration: the visual odometry dataset, the
/// robot description, and the teleoperation speeds, each as written in the
/// configuration file.
#[derive(Clone, Debug)]
pub struct Settings {
    pub freiberg_type: String,
    pub path_to_associations: String,
    pub path_to_urdf: String,
    pub turtlebot3_model: String,
    pub max_lin_vel: String,
    pub max_ang_vel: String,
    pub lin_vel_step_size: String,
    pub angle_vel_step_size: String,
}

} // verus!
