use vstd::prelude::*;
use vstd::string::*;

verus! {

/// The camera whose intrinsics a TUM RGB-D scene was taken with.
#[derive(Clone, Copy, Debug, PartialEq, Eq, Structural)]
pub enum CameraModel {
    /// Freiburg 1 scenes, id `fr1`.
    Fr1,
    /// Freiburg 2 scenes, id `fr2`.
    Fr2,
    /// Freiburg 3 scenes, id `fr3`.
    Fr3,
    /// The ICL-NUIM dataset, id `icl`.
    IclNuim,
}

/// The camera that an id names, if it names one.
pub open spec fn camera_of(camera_id: Seq<char>) -> Option<CameraModel> {
    if camera_id == "fr1"@ {
        Some(CameraModel::Fr1)
    } else if camera_id == "fr2"@ {
        Some(CameraModel::Fr2)
    } else if camera_id == "fr3"@ {
        Some(CameraModel::Fr3)
    } else if camera_id == "icl"@ {
        Some(CameraModel::IclNuim)
    } else {
        None
    }
}

/// The message for an id that names no camera.
pub open spec fn unknown_camera_message(camera_id: Seq<char>) -> Seq<char> {
    "Unknown camera id: "@ + camera_id
}

/// The message for an association file that is not there.
pub open spec fn missing_file_message(path: Seq<char>) -> Seq<char> {
    "The association file does not exist or is not reachable: "@ + path
}

/// The message for a wrong number of arguments.
pub open spec fn wrong_arity_message() -> Seq<char> {
    "Wrong number of arguments"@
}

/// The camera named by `camera_id` (`fr1`, `fr2`, `fr3` or `icl`).
pub fn create_camera(camera_id: &str) -> (r: Result<CameraModel, String>)
    ensures
        camera_of(camera_id@) matches Some(c) ==> r == Ok::<CameraModel, String>(c),
        camera_of(camera_id@) is None ==> (r matches Err(e) && e@ == unknown_camera_message(
            camera_id@,
        )),
{
    let id = String::from_str(camera_id);
    if id == String::from_str("fr1") {
        Ok(CameraModel::Fr1)
    } else if id == String::from_str("fr2") {
        Ok(CameraModel::Fr2)
    } else if id == String::from_str("fr3") {
        Ok(CameraModel::Fr3)
    } else if id == String::from_str("icl") {
        Ok(CameraModel::IclNuim)
    } else {
        Err(String::from_str("Unknown camera id: ").concat(camera_id))
    }
}

/// Checked arguments of the visual odometry: the camera and the path of the
/// associations file.
#[derive(Debug)]
pub struct Args {
    pub camera: CameraModel,
    pub associations_file_path: String,
}

/// What checking a camera id and an associations path gives: the arguments,
/// or the message of the first thing wrong with them.
pub open spec fn checked_args(
    camera_id: Seq<char>,
    path: Seq<char>,
    file_exists: bool,
) -> Result<(CameraModel, Seq<char>), Seq<char>> {
    match camera_of(camera_id) {
        None => Err(unknown_camera_message(camera_id)),
        Some(c) => if file_exists {
            Ok((c, path))
        } else {
            Err(missing_file_message(path))
        },
    }
}

/// Whether a result of argument checking is the one the spec gives.
pub open spec fn args_result_matches(
    r: Result<Args, String>,
    expected: Result<(CameraModel, Seq<char>), Seq<char>>,
) -> bool {
    match (r, expected) {
        (Ok(a), Ok((c, p))) => a.camera == c && a.associations_file_path@ == p,
        (Err(e), Err(m)) => e@ == m,
        _ => false,
    }
}

fn camera_and_path(camera_id: &String, path: &String, file_exists: bool) -> (r: Result<
    Args,
    String,
>)
    ensures
        args_result_matches(r, checked_args(camera_id@, path@, file_exists)),
{
    match create_camera(camera_id.as_str()) {
        Err(e) => Err(e),
        Ok(camera) => {
            if file_exists {
                Ok(Args { camera, associations_file_path: path.clone() })
            } else {
                Err(
                    String::from_str(
                        "The association file does not exist or is not reachable: ",
                    ).concat(path.as_str()),
                )
            }
        },
    }
}

/// Checks the two arguments `[camera_id, associations_file_path]`.
/// `associations_file_exists` tells whether the second one names a file.
pub fn check_args(args: &[String], associations_file_exists: bool) -> (r: Result<Args, String>)
    ensures
        args@.len() != 2 ==> (r matches Err(e) && e@ == wrong_arity_message()),
        args@.len() == 2 ==> args_result_matches(
            r,
            checked_args(args@[0]@, args@[1]@, associations_file_exists),
        ),
        args@.len() == 2 && associations_file_exists ==> (camera_of(args@[0]@) matches Some(c)
            ==> (r matches Ok(parsed) && parsed.camera == c && parsed.associations_file_path@
            == args@[1]@)),
{
    proof {
        if args@.len() == 2 {
            lemma_checked_args_keep_camera(args@[0]@, args@[1]@, associations_file_exists);
        }
    }
    if args.len() == 2 {
        camera_and_path(&args[0], &args[1], associations_file_exists)
    } else {
        Err(String::from_str("Wrong number of arguments"))
    }
}

/// Checks a command line `[program, camera_id, associations_file_path]`.
/// `associations_file_exists` tells whether the last one names a file.
pub fn create_args(args: &[String], associations_file_exists: bool) -> (r: Result<Args, String>)
    ensures
        args@.len() != 3 ==> (r matches Err(e) && e@ == wrong_arity_message()),
        args@.len() == 3 ==> args_result_matches(
            r,
            checked_args(args@[1]@, args@[2]@, associations_file_exists),
        ),
        args@.len() == 3 && associations_file_exists ==> (camera_of(args@[1]@) matches Some(c)
            ==> (r matches Ok(parsed) && parsed.camera == c && parsed.associations_file_path@
            == args@[2]@)),
{
    proof {
        if args@.len() == 3 {
            lemma_checked_args_keep_camera(args@[1]@, args@[2]@, associations_file_exists);
        }
    }
    if args.len() == 3 {
        camera_and_path(&args[1], &args[2], associations_file_exists)
    } else {
        Err(String::from_str("Wrong number of arguments"))
    }
}


/// Each camera has exactly one id: `fr1`, `fr2`, `fr3` and `icl` name the
/// Freiburg 1, 2, 3 and ICL-NUIM cameras, and no other id names a camera.
pub proof fn lemma_camera_ids(id: Seq<char>)
    ensures
        camera_of(id) == Some(CameraModel::Fr1) <==> id == "fr1"@,
        camera_of(id) == Some(CameraModel::Fr2) <==> id == "fr2"@,
        camera_of(id) == Some(CameraModel::Fr3) <==> id == "fr3"@,
        camera_of(id) == Some(CameraModel::IclNuim) <==> id == "icl"@,
        camera_of(id) is None <==> (id != "fr1"@ && id != "fr2"@ && id != "fr3"@ && id != "icl"@),
{
    reveal_strlit("fr1");
    reveal_strlit("fr2");
    reveal_strlit("fr3");
    reveal_strlit("icl");
    assert("fr1"@[2] != "fr2"@[2]);
    assert("fr1"@[2] != "fr3"@[2]);
    assert("fr2"@[2] != "fr3"@[2]);
    assert("fr1"@[0] != "icl"@[0]);
    assert("fr2"@[0] != "icl"@[0]);
    assert("fr3"@[0] != "icl"@[0]);
}

/// Checking the arguments keeps the camera that the id names and the path as
/// given when the file exists; a file that does not exist is reported with
/// its path; an id that names no camera is reported first, whether the file
/// exists or not.
pub proof fn lemma_checked_args_keep_camera(id: Seq<char>, path: Seq<char>, file_exists: bool)
    ensures
        camera_of(id) matches Some(c) ==> checked_args(id, path, true) == Ok::<
            (CameraModel, Seq<char>),
            Seq<char>,
        >((c, path)),
        camera_of(id) is Some ==> checked_args(id, path, false) == Err::<
            (CameraModel, Seq<char>),
            Seq<char>,
        >("The association file does not exist or is not reachable: "@ + path),
        camera_of(id) is None ==> checked_args(id, path, file_exists) == Err::<
            (CameraModel, Seq<char>),
            Seq<char>,
        >("Unknown camera id: "@ + id),
        checked_args(id, path, file_exists) matches Ok((c, p)) ==> camera_of(id) == Some(c) && p
            == path && file_exists,
{
}

/// A depth image and a color image taken together, as a line of an
/// associations file gives them. The timestamps are carried as the bit
/// patterns of their 64-bit floating-point values.
#[derive(Debug)]
pub struct Association {
    pub depth_timestamp_bits: u64,
    pub depth_file_path: String,
    pub color_timestamp_bits: u64,
    pub color_file_path: String,
}

/// What the TUM RGB-D associations parser of `visual-odometry-rs` makes of a
/// file's content: one association per data line, or an error message.
pub uninterp spec fn parsed_associations(file_content: Seq<char>) -> Result<
    Seq<Association>,
    Seq<char>,
>;

/// Calls `visual_odometry_rs::dataset::tum_rgbd::parse::associations`. Its
/// result is named by `parsed_associations`; its only error message is
/// `Parsing error`. The paths it parses are text of the content, so turning
/// them back into `String`s loses nothing.
#[verifier::external_body]
fn parse_association_lines(file_content: &str) -> (r: Result<Vec<Association>, String>)
    ensures
        match r {
            Ok(v) => parsed_associations(file_content@) == Ok::<Seq<Association>, Seq<char>>(v@),
            Err(e) => parsed_associations(file_content@) == Err::<Seq<Association>, Seq<char>>(
                e@,
            ) && e@ == "Parsing error"@,
        },
{
    visual_odometry_rs::dataset::tum_rgbd::parse::associations(file_content).map(
        |v| v.into_iter().map(|a| Association {
            depth_timestamp_bits: a.depth_timestamp.to_bits(),
            depth_file_path: a.depth_file_path.to_string_lossy().into_owned(),
            color_timestamp_bits: a.color_timestamp.to_bits(),
            color_file_path: a.color_file_path.to_string_lossy().into_owned(),
        }).collect(),
    )
}

/// The associations that the content of an associations file lists, with
/// their paths as written in the file.
pub fn associations_from_content(file_content: &str) -> (r: Result<Vec<Association>, String>)
    ensures
        match r {
            Ok(v) => parsed_associations(file_content@) == Ok::<Seq<Association>, Seq<char>>(v@),
            Err(e) => parsed_associations(file_content@) == Err::<Seq<Association>, Seq<char>>(
                e@,
            ) && e@ == "Parsing error"@,
        },
{
    parse_association_lines(file_content)
}

} // verus!
