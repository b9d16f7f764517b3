use anodize::grouped_thread::{GroupedThread, GroupedThreadChannel};
use anodize::settings::Settings;
use anodize::trajectory::TrajectoryPoint;

#[test]
fn grouped_thread_records_group() {
    let t = GroupedThread::new(3);
    assert_eq!(t.group, 3);
    GroupedThread::spawn();
}

#[test]
fn grouped_thread_channel_is_stateless() {
    let c = GroupedThreadChannel::new(5);
    assert_eq!(c, GroupedThreadChannel {});
    GroupedThreadChannel::send(GroupedThread::new(1), GroupedThread::new(2));
}

#[test]
fn trajectory_point_keeps_its_vectors() {
    let p = TrajectoryPoint::new(vec![1, 2], vec![3], vec![]);
    assert_eq!(p.position, vec![1, 2]);
    assert_eq!(p.velocity, vec![3]);
    assert!(p.acceleration.is_empty());
}

#[test]
fn settings_hold_strings() {
    let s = Settings {
        freiberg_type: "fr1".to_string(),
        path_to_associations: "/a.txt".to_string(),
        path_to_urdf: "robot.urdf".to_string(),
        turtlebot3_model: "burger".to_string(),
        max_lin_vel: "0.22".to_string(),
        max_ang_vel: "2.84".to_string(),
        lin_vel_step_size: "0.01".to_string(),
        angle_vel_step_size: "0.1".to_string(),
    };
    let c = s.clone();
    assert_eq!(c.freiberg_type, "fr1");
    assert_eq!(c.angle_vel_step_size, "0.1");
}
