//! What is handed to the external metadata tool: the tags of a roll and of
//! a photo, the argument lists that write, clear or read them, and how the
//! tool's exit is read.

use vstd::prelude::*;
use crate::dates::{exif_stamp, format_shoot_date_for_exif};
use crate::metadata::{
    build_user_comment, camera_make, camera_model, comment_text, opt_text, parse_camera_string,
};
use crate::text::{owned, push_char, radix_digits, radix_text, views};

verus! {

/// The tags written for every photo of a roll.
#[derive(Debug, Clone)]
pub struct RollTags {
    pub make: String,
    pub model: String,
    pub lens: Option<String>,
    pub date_time_original: String,
    pub user_comment: String,
}

/// Derives the tags of a roll: maker and model from the camera string, the
/// noon time stamp of the shoot date, and the comment built from film stock,
/// place and notes.
pub fn roll_tags(
    camera: &str,
    lens: Option<&str>,
    shoot_date: &str,
    film_stock: &str,
    city: Option<&str>,
    country: Option<&str>,
    notes: Option<&str>,
) -> (r: RollTags)
    ensures
        r.make@ == camera_make(camera@),
        r.model@ == camera_model(camera@),
        r.lens matches Some(l) ==> lens matches Some(x) && l@ == x@,
        r.lens is None ==> lens is None,
        r.date_time_original@ == exif_stamp(shoot_date@),
        r.user_comment@ == comment_text(
            film_stock@,
            opt_text(city),
            opt_text(country),
            opt_text(notes),
        ),
{
    let (make, model) = parse_camera_string(camera);
    let lens_text = match lens {
        Some(l) => Some(owned(l)),
        None => None,
    };
    RollTags {
        make,
        model,
        lens: lens_text,
        date_time_original: format_shoot_date_for_exif(shoot_date),
        user_comment: build_user_comment(film_stock, city, country, notes),
    }
}

/// The place used for a photo's comment: the photo's own city and country
/// when it has both, else the roll's pair; never one of each.
pub open spec fn chosen_place(
    photo_city: Seq<char>,
    photo_country: Seq<char>,
    roll_city: Seq<char>,
    roll_country: Seq<char>,
) -> (Seq<char>, Seq<char>) {
    if photo_city.len() > 0 && photo_country.len() > 0 {
        (photo_city, photo_country)
    } else {
        (roll_city, roll_country)
    }
}

/// Builds the comment of one photo: the roll's film stock, the photo's place
/// or else the roll's, and the photo's own notes.
pub fn photo_comment(
    film_stock: &str,
    photo_city: Option<&str>,
    photo_country: Option<&str>,
    roll_city: Option<&str>,
    roll_country: Option<&str>,
    notes: Option<&str>,
) -> (r: String)
    ensures
        ({
            let place = chosen_place(
                opt_text(photo_city),
                opt_text(photo_country),
                opt_text(roll_city),
                opt_text(roll_country),
            );
            r@ == comment_text(film_stock@, place.0, place.1, opt_text(notes))
        }),
{
    let own_city = match photo_city {
        Some(c) => c.unicode_len() > 0,
        None => false,
    };
    let own_country = match photo_country {
        Some(c) => c.unicode_len() > 0,
        None => false,
    };
    if own_city && own_country {
        build_user_comment(film_stock, photo_city, photo_country, notes)
    } else {
        build_user_comment(film_stock, roll_city, roll_country, notes)
    }
}

/// One `-Tag=value` argument, or none when the value is empty.
pub open spec fn tag_arg(flag: Seq<char>, value: Seq<char>) -> Seq<Seq<char>> {
    if value.len() > 0 {
        seq![flag + value]
    } else {
        Seq::empty()
    }
}

/// Pushes `-Tag=value` when the value is not empty.
fn push_tag(args: &mut Vec<String>, flag: &str, value: &str)
    ensures
        views(final(args)@) == views(old(args)@) + tag_arg(flag@, value@),
{
    let ghost before = views(args@);
    if value.unicode_len() > 0 {
        let mut arg = owned(flag);
        arg.append(value);
        args.push(arg);
        assert(views(args@) =~= before + tag_arg(flag@, value@));
    } else {
        assert(views(args@) =~= before + tag_arg(flag@, value@));
    }
}

/// Pushes one argument.
fn push_arg(args: &mut Vec<String>, arg: &str)
    ensures
        views(final(args)@) == views(old(args)@).push(arg@),
{
    let ghost before = views(args@);
    args.push(owned(arg));
    assert(views(args@) =~= before.push(arg@));
}

/// The arguments that write a roll's tags into one file: overwrite in
/// place, drop the maker notes, each non-empty tag, the file last.
pub open spec fn roll_args(file_path: Seq<char>, tags: RollTags) -> Seq<Seq<char>> {
    seq!["-overwrite_original"@, "-MakerNotes:All="@] + tag_arg("-Make="@, tags.make@) + tag_arg(
        "-Model="@,
        tags.model@,
    ) + tag_arg("-LensModel="@, opt_string(tags.lens)) + tag_arg(
        "-DateTimeOriginal="@,
        tags.date_time_original@,
    ) + tag_arg("-CreateDate="@, tags.date_time_original@) + tag_arg(
        "-UserComment="@,
        tags.user_comment@,
    ) + seq![file_path]
}

/// The text of an optional owned string; an absent one counts as empty.
pub open spec fn opt_string(o: Option<String>) -> Seq<char> {
    match o {
        Some(s) => s@,
        None => Seq::empty(),
    }
}

/// Writes the argument list that stamps a roll's tags into one file.
pub fn roll_exif_args(file_path: &str, tags: &RollTags) -> (r: Vec<String>)
    ensures
        views(r@) == roll_args(file_path@, *tags),
{
    let mut args: Vec<String> = Vec::new();
    push_arg(&mut args, "-overwrite_original");
    push_arg(&mut args, "-MakerNotes:All=");
    push_tag(&mut args, "-Make=", tags.make.as_str());
    push_tag(&mut args, "-Model=", tags.model.as_str());
    let lens: &str = match &tags.lens {
        Some(l) => l.as_str(),
        None => "",
    };
    proof {
        reveal_strlit("");
    }
    push_tag(&mut args, "-LensModel=", lens);
    push_tag(&mut args, "-DateTimeOriginal=", tags.date_time_original.as_str());
    push_tag(&mut args, "-CreateDate=", tags.date_time_original.as_str());
    push_tag(&mut args, "-UserComment=", tags.user_comment.as_str());
    push_arg(&mut args, file_path);
    assert(views(args@) =~= roll_args(file_path@, *tags));
    args
}

/// The tags of one photo that the tool can write. Coordinates are carried
/// as the decimal text that is handed to the tool.
#[derive(Debug, Clone)]
pub struct PhotoTags {
    pub iso: Option<i32>,
    pub aperture: Option<String>,
    pub shutter_speed: Option<String>,
    pub focal_length: Option<String>,
    pub gps_latitude: Option<String>,
    pub gps_longitude: Option<String>,
    pub gps_altitude: Option<String>,
    pub rating: Option<i32>,
    pub user_comment: Option<String>,
    pub description: Option<String>,
}

/// A signed integer in decimal.
pub open spec fn signed_decimal(x: int) -> Seq<char> {
    if x < 0 {
        seq!['-'] + radix_digits((-x) as nat, 10, 1)
    } else {
        radix_digits(x as nat, 10, 1)
    }
}

/// The text of an optional integer; an absent one counts as empty.
pub open spec fn opt_int_text(o: Option<i32>) -> Seq<char> {
    match o {
        Some(x) => signed_decimal(x as int),
        None => Seq::empty(),
    }
}

/// Writes a signed integer in decimal.
pub fn signed_decimal_text(x: i32) -> (r: String)
    ensures
        r@ == signed_decimal(x as int),
{
    if x < 0 {
        let magnitude: u64 = (0 - (x as i64)) as u64;
        let mut out = String::new();
        push_char(&mut out, '-');
        let digits = radix_text(magnitude, 10, 1);
        out.append(digits.as_str());
        out
    } else {
        radix_text(x as u64, 10, 1)
    }
}

/// The arguments that write a photo's own tags into its file: overwrite in
/// place, each non-empty tag, the file last.
pub open spec fn photo_args(file_path: Seq<char>, tags: PhotoTags) -> Seq<Seq<char>> {
    seq!["-overwrite_original"@] + tag_arg("-ISO="@, opt_int_text(tags.iso)) + tag_arg(
        "-FNumber="@,
        opt_string(tags.aperture),
    ) + tag_arg("-ExposureTime="@, opt_string(tags.shutter_speed)) + tag_arg(
        "-FocalLength="@,
        opt_string(tags.focal_length),
    ) + tag_arg("-GPSLatitude="@, opt_string(tags.gps_latitude)) + tag_arg(
        "-GPSLongitude="@,
        opt_string(tags.gps_longitude),
    ) + tag_arg("-GPSAltitude="@, opt_string(tags.gps_altitude)) + tag_arg(
        "-Rating="@,
        opt_int_text(tags.rating),
    ) + tag_arg("-UserComment="@, opt_string(tags.user_comment)) + tag_arg(
        "-Description="@,
        opt_string(tags.description),
    ) + seq![file_path]
}

/// Pushes `-Tag=value` for an optional text.
fn push_opt_tag(args: &mut Vec<String>, flag: &str, value: &Option<String>)
    ensures
        views(final(args)@) == views(old(args)@) + tag_arg(flag@, opt_string(*value)),
{
    match value {
        Some(v) => push_tag(args, flag, v.as_str()),
        None => {
            let ghost before = views(args@);
            assert(views(args@) =~= before + tag_arg(flag@, opt_string(*value)));
        },
    }
}

/// Pushes `-Tag=value` for an optional integer.
fn push_int_tag(args: &mut Vec<String>, flag: &str, value: Option<i32>)
    ensures
        views(final(args)@) == views(old(args)@) + tag_arg(flag@, opt_int_text(value)),
{
    match value {
        Some(v) => {
            let text = signed_decimal_text(v);
            push_tag(args, flag, text.as_str());
        },
        None => {
            let ghost before = views(args@);
            assert(views(args@) =~= before + tag_arg(flag@, opt_int_text(value)));
        },
    }
}

/// Writes the argument list that stamps a photo's own tags into its file.
pub fn photo_exif_args(file_path: &str, tags: &PhotoTags) -> (r: Vec<String>)
    ensures
        views(r@) == photo_args(file_path@, *tags),
{
    let mut args: Vec<String> = Vec::new();
    push_arg(&mut args, "-overwrite_original");
    push_int_tag(&mut args, "-ISO=", tags.iso);
    push_opt_tag(&mut args, "-FNumber=", &tags.aperture);
    push_opt_tag(&mut args, "-ExposureTime=", &tags.shutter_speed);
    push_opt_tag(&mut args, "-FocalLength=", &tags.focal_length);
    push_opt_tag(&mut args, "-GPSLatitude=", &tags.gps_latitude);
    push_opt_tag(&mut args, "-GPSLongitude=", &tags.gps_longitude);
    push_opt_tag(&mut args, "-GPSAltitude=", &tags.gps_altitude);
    push_int_tag(&mut args, "-Rating=", tags.rating);
    push_opt_tag(&mut args, "-UserComment=", &tags.user_comment);
    push_opt_tag(&mut args, "-Description=", &tags.description);
    push_arg(&mut args, file_path);
    assert(views(args@) =~= photo_args(file_path@, *tags));
    args
}

/// Writes the argument list that strips every tag from a file.
pub fn clear_exif_args(file_path: &str) -> (r: Vec<String>)
    ensures
        views(r@) == seq!["-overwrite_original"@, "-all="@, file_path@],
{
    let mut args: Vec<String> = Vec::new();
    push_arg(&mut args, "-overwrite_original");
    push_arg(&mut args, "-all=");
    push_arg(&mut args, file_path);
    assert(views(args@) =~= seq!["-overwrite_original"@, "-all="@, file_path@]);
    args
}

/// Writes the argument list that reads a file's tags as JSON, with
/// coordinates in decimal degrees.
pub fn read_exif_args(file_path: &str) -> (r: Vec<String>)
    ensures
        views(r@) == seq!["-j"@, "-coordFormat"@, "%f"@, file_path@],
{
    let mut args: Vec<String> = Vec::new();
    push_arg(&mut args, "-j");
    push_arg(&mut args, "-coordFormat");
    push_arg(&mut args, "%f");
    push_arg(&mut args, file_path);
    assert(views(args@) =~= seq!["-j"@, "-coordFormat"@, "%f"@, file_path@]);
    args
}

/// How one run of the tool ended, as seen from outside.
#[derive(Debug, Clone)]
pub enum ToolRun {
    /// The target file was not there, so the tool was not started.
    MissingFile,
    /// The tool could not be started.
    LaunchFailed(String),
    /// The tool ran and exited; `success` is its exit status, `stderr` what
    /// it wrote to its error stream.
    Exited { success: bool, stderr: String },
}

/// The error message for a run of the tool on `file_path`, or none when it
/// succeeded.
pub open spec fn run_error(file_path: Seq<char>, run: ToolRun) -> Option<Seq<char>> {
    match run {
        ToolRun::MissingFile => Some("File not found: "@ + file_path),
        ToolRun::LaunchFailed(e) => Some("Failed to execute exiftool: "@ + e@),
        ToolRun::Exited { success, stderr } => if success {
            None
        } else {
            Some("ExifTool error: "@ + stderr@)
        },
    }
}

/// Reads how a run of the tool ended: a missing file, a tool that could not
/// start, and a non-zero exit are failures, the last with the tool's error
/// text as detail.
pub fn tool_run_error(file_path: &str, run: &ToolRun) -> (r: Option<String>)
    ensures
        r matches Some(e) ==> run_error(file_path@, *run) == Some(e@),
        r is None ==> run_error(file_path@, *run) is None,
{
    match run {
        ToolRun::MissingFile => {
            let mut e = owned("File not found: ");
            e.append(file_path);
            Some(e)
        },
        ToolRun::LaunchFailed(detail) => {
            let mut e = owned("Failed to execute exiftool: ");
            e.append(detail.as_str());
            Some(e)
        },
        ToolRun::Exited { success, stderr } => {
            if *success {
                None
            } else {
                let mut e = owned("ExifTool error: ");
                e.append(stderr.as_str());
                Some(e)
            }
        },
    }
}

} // verus!
