//! Storing a downloaded picture: the file's name, made of the second at
//! which it is stored, and the address under which the bot serves it.

use vstd::prelude::*;
use vstd::string::*;
use crate::http::HttpOutcome;
use crate::text::{decimal_text, two_digit_text};

verus! {

#[verifier::external_type_specification]
#[verifier::external_body]
pub struct ExDynamicImage(image::DynamicImage);

#[verifier::external_type_specification]
#[verifier::external_body]
pub struct ExImageError(image::ImageError);

#[verifier::external_type_specification]
#[verifier::external_body]
pub struct ExImageFormat(image::ImageFormat);

/// Whether the year `year` of the proleptic Gregorian calendar has a
/// 29th of February.
pub open spec fn is_leap_year(year: int) -> bool {
    year % 4 == 0 && (year % 100 != 0 || year % 400 == 0)
}

/// The number of days of the month `month` of the year `year`.
pub open spec fn days_in_month(year: int, month: int) -> int {
    if month == 2 {
        if is_leap_year(year) {
            29int
        } else {
            28int
        }
    } else if month == 4 || month == 6 || month == 9 || month == 11 {
        30int
    } else {
        31int
    }
}

/// The first year that a date can lie in.
pub const MIN_YEAR: i32 = -262143;

/// The last year that a date can lie in.
pub const MAX_YEAR: i32 = 262142;

/// A second of the calendar, in local time.
#[derive(Clone, Copy, Debug, PartialEq, Eq, Structural)]
pub struct Timestamp {
    pub year: i32,
    pub month: u32,
    pub day: u32,
    pub hour: u32,
    pub minute: u32,
    pub second: u32,
}

/// Whether the six numbers name a second of a day that the calendar has.
pub open spec fn is_moment(year: int, month: int, day: int, hour: int, minute: int, second: int)
    -> bool {
    &&& MIN_YEAR <= year <= MAX_YEAR
    &&& 1 <= month <= 12
    &&& 1 <= day <= days_in_month(year, month)
    &&& 0 <= hour < 24
    &&& 0 <= minute < 60
    &&& 0 <= second < 60
}

/// The digits of `n`, at least four of them.
pub open spec fn four_digit_text(n: nat) -> Seq<char> {
    if n <= 9999 {
        two_digit_text(n as int / 100) + two_digit_text(n as int % 100)
    } else {
        decimal_text(n)
    }
}

/// The year as it is written in a file's name: four digits from 0 to 9999,
/// and a sign before the digits of any other year.
pub open spec fn year_text(year: int) -> Seq<char> {
    if 0 <= year <= 9999 {
        four_digit_text(year as nat)
    } else if year > 9999 {
        seq!['+'] + four_digit_text(year as nat)
    } else {
        seq!['-'] + four_digit_text((-year) as nat)
    }
}

/// The name of the file in which a picture is stored.
pub open spec fn filename_text(stamp: Seq<char>) -> Seq<char> {
    "image_"@ + stamp + ".png"@
}

/// The address under which the file `filename` is served.
pub open spec fn public_url_text(filename: Seq<char>) -> Seq<char> {
    "https://threads.dasm.asia/images/"@ + filename
}

impl Timestamp {
    /// Whether this is a second of a day that the calendar has.
    pub open spec fn is_valid(self) -> bool {
        is_moment(
            self.year as int,
            self.month as int,
            self.day as int,
            self.hour as int,
            self.minute as int,
            self.second as int,
        )
    }

    /// The second written as year, month and day, an underscore, then hour,
    /// minute and second, each but the year in two digits.
    pub open spec fn stamp_text(self) -> Seq<char> {
        year_text(self.year as int) + two_digit_text(self.month as int) + two_digit_text(
            self.day as int,
        ) + seq!['_'] + two_digit_text(self.hour as int) + two_digit_text(self.minute as int)
            + two_digit_text(self.second as int)
    }

    /// The timestamp of the given second, if the calendar has it.
    pub fn new(year: i32, month: u32, day: u32, hour: u32, minute: u32, second: u32) -> (r:
        Option<Timestamp>)
        ensures
            match r {
                Some(ts) => is_moment(
                    year as int,
                    month as int,
                    day as int,
                    hour as int,
                    minute as int,
                    second as int,
                ) && ts == (Timestamp { year, month, day, hour, minute, second }),
                None => !is_moment(
                    year as int,
                    month as int,
                    day as int,
                    hour as int,
                    minute as int,
                    second as int,
                ),
            },
    {
        if year < MIN_YEAR || year > MAX_YEAR || month < 1 || month > 12 || hour >= 24 || minute
            >= 60 || second >= 60 {
            return None;
        }
        if day < 1 || day > month_length(year, month) {
            return None;
        }
        Some(Timestamp { year, month, day, hour, minute, second })
    }

    /// The current second of the local clock.
    pub fn now() -> (r: Timestamp)
        ensures
            r.is_valid(),
    {
        local_now()
    }
}

/// The number of days of the month `month` of the year `year`.
pub fn month_length(year: i32, month: u32) -> (r: u32)
    ensures
        r == days_in_month(year as int, month as int),
{
    if month == 2 {
        // A multiple of 400 that lifts every year above zero.
        let lifted: i64 = year as i64 + 2147484000;
        let leap = lifted % 4 == 0 && (lifted % 100 != 0 || lifted % 400 == 0);
        assert(leap == is_leap_year(year as int)) by {
            assert((year + 2147484000) % 4 == year % 4) by (nonlinear_arith);
            assert((year + 2147484000) % 100 == year % 100) by (nonlinear_arith);
            assert((year + 2147484000) % 400 == year % 400) by (nonlinear_arith);
        }
        if leap {
            29
        } else {
            28
        }
    } else if month == 4 || month == 6 || month == 9 || month == 11 {
        30
    } else {
        31
    }
}

/// Reads the local clock with `chrono::Local::now` and takes the date and
/// the time of day out of it with the getters of chrono's `Datelike` and
/// `Timelike`. The outcome is the time, so the contract says only what
/// chrono documents of every date and time: the day exists in the calendar,
/// and hour, minute and second lie below 24, 60 and 60.
/// chrono gives up only where the system's clock or its time zone data
/// cannot be used.
#[verifier::external_body]
fn local_now() -> (r: Timestamp)
    ensures
        r.is_valid(),
{
    let now = chrono::Local::now();
    Timestamp {
        year: chrono::Datelike::year(&now),
        month: chrono::Datelike::month(&now),
        day: chrono::Datelike::day(&now),
        hour: chrono::Timelike::hour(&now),
        minute: chrono::Timelike::minute(&now),
        second: chrono::Timelike::second(&now),
    }
}

/// Writes a second with chrono: `NaiveDate::from_ymd_opt` and
/// `and_hms_opt` make the date and time, and `format` writes it by the
/// pattern. The contract is stated for the one pattern that file names are
/// made with, `%Y%m%d_%H%M%S`: chrono writes the year in four digits from 0
/// to 9999 and with a sign and at least four digits otherwise, and month,
/// day, hour, minute and second in two digits each.
#[verifier::external_body]
fn format_moment(moment: &Timestamp, pattern: &str) -> (r: String)
    requires
        moment.is_valid(),
        pattern@ == "%Y%m%d_%H%M%S"@,
    ensures
        r@ == moment.stamp_text(),
{
    chrono::NaiveDate::from_ymd_opt(moment.year, moment.month, moment.day)
        .unwrap()
        .and_hms_opt(moment.hour, moment.minute, moment.second)
        .unwrap()
        .format(pattern)
        .to_string()
}

/// The format that `image::guess_format` reads off the first bytes, or
/// `None` where it knows none.
pub uninterp spec fn guessed_format(bytes: Seq<u8>) -> Option<image::ImageFormat>;

/// The picture that `image::load_from_memory_with_format` decodes from
/// `bytes` as a picture of the format `format`, or `None` where it reports
/// an error.
pub uninterp spec fn decoded_as(bytes: Seq<u8>, format: image::ImageFormat) -> Option<
    image::DynamicImage,
>;

/// The picture that `bytes` hold: what the decoder of the format that
/// their first bytes show makes of them.
pub open spec fn decoded_picture(bytes: Seq<u8>) -> Option<image::DynamicImage> {
    match guessed_format(bytes) {
        None => None,
        Some(format) => decoded_as(bytes, format),
    }
}

/// Calls `image::guess_format`, which holds the first bytes against the
/// signatures of the formats that the image crate knows. The contract
/// gives the outcome a name and claims only that it is a function of the
/// bytes: `Ok` with the format where a signature fits, `Err` where none
/// does.
#[verifier::external_body]
fn guess(bytes: &[u8]) -> (r: Result<image::ImageFormat, image::ImageError>)
    ensures
        match r {
            Ok(format) => guessed_format(bytes@) == Some(format),
            Err(_) => guessed_format(bytes@) is None,
        },
{
    image::guess_format(bytes)
}

/// Calls `image::load_from_memory_with_format`, which decodes the bytes
/// with the image crate's own decoder of the given format. The contract
/// gives the outcome a name and claims only that it is a function of the
/// bytes and the format: `Ok` with the picture where the bytes hold one,
/// `Err` where not.
#[verifier::external_body]
fn decode_as(bytes: &[u8], format: image::ImageFormat) -> (r: Result<
    image::DynamicImage,
    image::ImageError,
>)
    ensures
        match r {
            Ok(picture) => decoded_as(bytes@, format) == Some(picture),
            Err(_) => decoded_as(bytes@, format) is None,
        },
{
    image::load_from_memory_with_format(bytes, format)
}

/// Decodes a picture: the format is read off the first bytes, and the
/// bytes are decoded by it.
pub fn decode(bytes: &[u8]) -> (r: Result<image::DynamicImage, image::ImageError>)
    ensures
        match r {
            Ok(picture) => decoded_picture(bytes@) == Some(picture),
            Err(_) => decoded_picture(bytes@) is None,
        },
{
    match guess(bytes) {
        Err(error) => Err(error),
        Ok(format) => decode_as(bytes, format),
    }
}

/// The name of the file for a picture that is stored at `moment`.
pub fn stored_filename(moment: &Timestamp) -> (r: String)
    requires
        moment.is_valid(),
    ensures
        r@ == filename_text(moment.stamp_text()),
{
    let stamp = format_moment(moment, "%Y%m%d_%H%M%S");
    let mut r = String::from_str("image_");
    r.append(stamp.as_str());
    r.append(".png");
    r
}

/// The address under which the file `filename` is served.
pub fn public_url(filename: &str) -> (r: String)
    ensures
        r@ == public_url_text(filename@),
{
    let mut r = String::from_str("https://threads.dasm.asia/images/");
    r.append(filename);
    r
}

/// A decoded picture on its way to the disk: the name of the file to write
/// it to, and the address to hand out once it is written.
pub struct StorePlan {
    pub image: image::DynamicImage,
    pub filename: String,
    pub public_url: String,
}

/// The plan for a picture that is stored at `moment`.
pub fn plan_store(image: image::DynamicImage, moment: &Timestamp) -> (r: StorePlan)
    requires
        moment.is_valid(),
    ensures
        r.image == image,
        r.filename@ == filename_text(moment.stamp_text()),
        r.public_url@ == public_url_text(r.filename@),
{
    let filename = stored_filename(moment);
    let public_url = public_url(filename.as_str());
    StorePlan { image, filename, public_url }
}

/// The picture that a download holds: what the decoder makes of the body
/// of a reply with a success status, and none for every other outcome.
pub open spec fn downloaded_picture(outcome: HttpOutcome) -> Option<image::DynamicImage> {
    match outcome.accepted_body() {
        None => None,
        Some(body) => decoded_picture(body),
    }
}

/// Decodes the body of a download and plans its storage at the current
/// second. There is a plan exactly where the download was answered with a
/// status from 200 to 299 and the body is a picture; the plan holds that
/// picture, a file name made of a second of the calendar, and the public
/// address of that name. Which second it is, is for the clock to say.
pub fn prepare_store(outcome: &HttpOutcome) -> (r: Option<StorePlan>)
    ensures
        r is Some <==> downloaded_picture(*outcome) is Some,
        outcome.accepted_body() is None ==> r is None,
        match r {
            Some(plan) => downloaded_picture(*outcome) == Some(plan.image) && (exists|
                moment: Timestamp,
            |
                moment.is_valid() && plan.filename@ == filename_text(
                    #[trigger] moment.stamp_text(),
                )) && plan.public_url@ == public_url_text(plan.filename@),
            None => downloaded_picture(*outcome) is None,
        },
{
    match outcome.body_if_success() {
        None => None,
        Some(body) => {
            let decoded = decode(body.as_slice());
            let moment = Timestamp::now();
            plan_decoded(decoded, &moment)
        },
    }
}

/// The address to hand out for a planned picture: its public address once
/// the file is written, none where writing failed.
pub fn stored_url(plan: StorePlan, written: bool) -> (r: Option<String>)
    ensures
        match r {
            Some(url) => written && url@ == plan.public_url@,
            None => !written,
        },
{
    if written {
        Some(plan.public_url)
    } else {
        None
    }
}

/// The plan for what the decoder made of a download, at `moment`: the
/// picture with its file name and address, and none where the decoder
/// found no picture.
pub fn plan_decoded(decoded: Result<image::DynamicImage, image::ImageError>, moment: &Timestamp)
    -> (r: Option<StorePlan>)
    requires
        moment.is_valid(),
    ensures
        r is Some <==> decoded is Ok,
        match r {
            Some(plan) => decoded is Ok && plan.image == decoded->Ok_0 && plan.filename@
                == filename_text(moment.stamp_text()) && plan.public_url@ == public_url_text(
                plan.filename@,
            ),
            None => decoded is Err,
        },
{
    match decoded {
        Ok(image) => Some(plan_store(image, moment)),
        Err(_) => None,
    }
}

} // verus!
