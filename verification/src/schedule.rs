//! The daily runs: the three times of day, and the cron expression that
//! stands for each of them.

use vstd::prelude::*;
use vstd::string::*;
use crate::text::{decimal, decimal_text};

verus! {

/// A time of day on the local clock at which a run starts, to the minute.
#[derive(Clone, Copy, Debug, PartialEq, Eq, Structural)]
pub struct RunTime {
    pub hour: u32,
    pub minute: u32,
}

/// A run to register with the scheduler: the cron expression that says
/// when it starts, to be read in local time, and the folder that it stores
/// its picture in. A scheduled run is given no picture of its own: it
/// generates one.
#[derive(Debug, PartialEq, Eq)]
pub struct ScheduledJob {
    pub cron: String,
    pub image_folder: String,
}

/// The times of day at which the bot runs: 8:00, 14:00 and 20:00, local
/// time.
pub open spec fn daily_run_times() -> Seq<RunTime> {
    seq![
        RunTime { hour: 8, minute: 0 },
        RunTime { hour: 14, minute: 0 },
        RunTime { hour: 20, minute: 0 },
    ]
}

/// The cron expression, of six fields with the seconds first, that fires
/// once a day at `time` where it is read in local time.
pub open spec fn cron_text(time: RunTime) -> Seq<char> {
    "0 "@ + decimal_text(time.minute as nat) + " "@ + decimal_text(time.hour as nat) + " * * *"@
}

/// Makes a time of day with `chrono::NaiveTime::from_hms_opt` and reads
/// hour and minute back with the getters of chrono's `Timelike`. chrono
/// gives a time exactly where hour, minute and second lie below 24, 60 and
/// 60, and hands back the hour and minute that it was made of.
#[verifier::external_body]
fn time_of_day(hour: u32, minute: u32, second: u32) -> (r: Option<RunTime>)
    ensures
        match r {
            Some(time) => hour < 24 && minute < 60 && second < 60 && time.hour == hour
                && time.minute == minute,
            None => !(hour < 24 && minute < 60 && second < 60),
        },
{
    chrono::NaiveTime::from_hms_opt(hour, minute, second).map(
        |time| RunTime {
            hour: chrono::Timelike::hour(&time),
            minute: chrono::Timelike::minute(&time),
        },
    )
}

/// The time of day `hour`:`minute`, where the clock has it.
pub fn run_time(hour: u32, minute: u32) -> (r: Option<RunTime>)
    ensures
        match r {
            Some(time) => hour < 24 && minute < 60 && time == (RunTime { hour, minute }),
            None => !(hour < 24 && minute < 60),
        },
{
    time_of_day(hour, minute, 0)
}

/// The times of day at which the bot runs.
pub fn run_times() -> (r: Vec<RunTime>)
    ensures
        r@ == daily_run_times(),
{
    let mut r: Vec<RunTime> = Vec::new();
    r.push(run_time(8, 0).unwrap());
    r.push(run_time(14, 0).unwrap());
    r.push(run_time(20, 0).unwrap());
    assert(r@ =~= daily_run_times());
    r
}

/// The cron expression that fires once a day at `time`.
pub fn cron_expression(time: &RunTime) -> (r: String)
    ensures
        r@ == cron_text(*time),
{
    let mut r = String::from_str("0 ");
    r.append(decimal(time.minute).as_str());
    r.append(" ");
    r.append(decimal(time.hour).as_str());
    r.append(" * * *");
    r
}

/// The runs to register with the scheduler, in local time: one for each
/// of the daily times, in their order, each storing into
/// `downloaded_images`.
pub fn schedule_jobs() -> (r: Vec<ScheduledJob>)
    ensures
        r@.len() == daily_run_times().len(),
        forall|i: int|
            0 <= i < r@.len() ==> (#[trigger] r@[i]).cron@ == cron_text(daily_run_times()[i])
                && r@[i].image_folder@ == "downloaded_images"@,
{
    let times = run_times();
    let mut r: Vec<ScheduledJob> = Vec::new();
    let mut i: usize = 0;
    while i < times.len()
        invariant
            times@ == daily_run_times(),
            0 <= i <= times@.len(),
            r@.len() == i,
            forall|k: int|
                0 <= k < i ==> (#[trigger] r@[k]).cron@ == cron_text(times@[k])
                    && r@[k].image_folder@ == "downloaded_images"@,
        decreases times@.len() - i,
    {
        let job = ScheduledJob {
            cron: cron_expression(&times[i]),
            image_folder: String::from_str("downloaded_images"),
        };
        r.push(job);
        i = i + 1;
    }
    r
}

} // verus!
