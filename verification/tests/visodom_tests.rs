use anodize::visodom::{
    associations_from_content, check_args, create_args, create_camera, CameraModel,
};

fn strings(v: &[&str]) -> Vec<String> {
    v.iter().map(|s| s.to_string()).collect()
}

#[test]
fn create_camera_knows_four_cameras() {
    assert_eq!(create_camera("fr1").unwrap(), CameraModel::Fr1);
    assert_eq!(create_camera("fr2").unwrap(), CameraModel::Fr2);
    assert_eq!(create_camera("fr3").unwrap(), CameraModel::Fr3);
    assert_eq!(create_camera("icl").unwrap(), CameraModel::IclNuim);
}

#[test]
fn create_camera_rejects_unknown_id() {
    assert_eq!(create_camera("fr4").unwrap_err(), "Unknown camera id: fr4");
    assert_eq!(create_camera("").unwrap_err(), "Unknown camera id: ");
    assert_eq!(create_camera("FR1").unwrap_err(), "Unknown camera id: FR1");
}

#[test]
fn check_args_accepts_camera_and_existing_file() {
    let args = check_args(&strings(&["fr2", "/data/assoc.txt"]), true).unwrap();
    assert_eq!(args.camera, CameraModel::Fr2);
    assert_eq!(args.associations_file_path, "/data/assoc.txt");
}

#[test]
fn check_args_wrong_number() {
    assert_eq!(check_args(&strings(&["fr1"]), true).unwrap_err(), "Wrong number of arguments");
    assert_eq!(
        check_args(&strings(&["fr1", "a", "b"]), true).unwrap_err(),
        "Wrong number of arguments"
    );
    assert_eq!(check_args(&[], false).unwrap_err(), "Wrong number of arguments");
}

#[test]
fn check_args_unknown_camera_comes_before_missing_file() {
    assert_eq!(
        check_args(&strings(&["tum", "x.txt"]), false).unwrap_err(),
        "Unknown camera id: tum"
    );
}

#[test]
fn check_args_missing_file() {
    assert_eq!(
        check_args(&strings(&["icl", "x.txt"]), false).unwrap_err(),
        "The association file does not exist or is not reachable: x.txt"
    );
}

#[test]
fn create_args_skips_program_name() {
    let args = create_args(&strings(&["vors", "fr3", "assoc.txt"]), true).unwrap();
    assert_eq!(args.camera, CameraModel::Fr3);
    assert_eq!(args.associations_file_path, "assoc.txt");
    assert_eq!(
        create_args(&strings(&["fr3", "assoc.txt"]), true).unwrap_err(),
        "Wrong number of arguments"
    );
    assert_eq!(
        create_args(&strings(&["vors", "fr3", "assoc.txt"]), false).unwrap_err(),
        "The association file does not exist or is not reachable: assoc.txt"
    );
}

#[test]
fn associations_are_parsed_from_content() {
    let content = "# depth rgb\n1305031102.160407 depth/1.png 1305031102.175304 rgb/1.png\n1.5 d2.png 2.5 c2.png";
    let v = associations_from_content(content).unwrap();
    assert_eq!(v.len(), 2);
    assert_eq!(v[0].depth_timestamp_bits, 1305031102.160407f64.to_bits());
    assert_eq!(v[0].depth_file_path, "depth/1.png");
    assert_eq!(v[0].color_timestamp_bits, 1305031102.175304f64.to_bits());
    assert_eq!(v[0].color_file_path, "rgb/1.png");
    assert_eq!(f64::from_bits(v[1].depth_timestamp_bits), 1.5);
    assert_eq!(f64::from_bits(v[1].color_timestamp_bits), 2.5);
    assert_eq!(v[1].color_file_path, "c2.png");
}

#[test]
fn malformed_associations_are_a_parsing_error() {
    assert_eq!(associations_from_content("not a number").unwrap_err(), "Parsing error");
}
