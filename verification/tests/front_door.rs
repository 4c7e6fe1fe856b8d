use threads_bot::http::{answer_image_request, job_trigger_reply, ImageAnswer, TextReply};
use threads_bot::schedule::{cron_expression, run_time, run_times, schedule_jobs, RunTime};
use threads_bot::text::decimal;

#[test]
fn missing_file_is_not_found_whatever_else_holds() {
    assert_eq!(answer_image_request(false, false), ImageAnswer::NotFound);
    assert_eq!(answer_image_request(false, true), ImageAnswer::NotFound);
    assert_eq!(ImageAnswer::NotFound.status(), 404);
    assert_eq!(
        ImageAnswer::NotFound.text_reply(),
        Some(TextReply { status: 404, body: "Image not found" })
    );
}

#[test]
fn file_that_opens_is_sent() {
    assert_eq!(answer_image_request(true, true), ImageAnswer::File);
    assert_eq!(ImageAnswer::File.status(), 200);
    assert_eq!(ImageAnswer::File.text_reply(), None);
}

#[test]
fn file_that_does_not_open_is_a_server_error() {
    assert_eq!(answer_image_request(true, false), ImageAnswer::OpenFailed);
    assert_eq!(ImageAnswer::OpenFailed.status(), 500);
    assert_eq!(
        ImageAnswer::OpenFailed.text_reply(),
        Some(TextReply { status: 500, body: "Error opening file" })
    );
}

#[test]
fn job_trigger_reply_is_fixed() {
    let reply = job_trigger_reply();
    assert_eq!(reply.status, 200);
    assert_eq!(reply.key, "message");
    assert_eq!(reply.message, "Job executed successfully");
    assert_eq!(job_trigger_reply(), reply);
}

#[test]
fn run_times_are_morning_afternoon_and_evening() {
    assert_eq!(
        run_times(),
        vec![
            RunTime { hour: 8, minute: 0 },
            RunTime { hour: 14, minute: 0 },
            RunTime { hour: 20, minute: 0 },
        ]
    );
}

#[test]
fn run_time_is_a_time_of_the_clock() {
    assert_eq!(run_time(0, 0), Some(RunTime { hour: 0, minute: 0 }));
    assert_eq!(run_time(23, 59), Some(RunTime { hour: 23, minute: 59 }));
    assert_eq!(run_time(7, 45), Some(RunTime { hour: 7, minute: 45 }));
    assert_eq!(run_time(24, 0), None);
    assert_eq!(run_time(0, 60), None);
    assert_eq!(run_time(u32::MAX, u32::MAX), None);
}

#[test]
fn cron_expression_puts_seconds_first() {
    assert_eq!(cron_expression(&RunTime { hour: 8, minute: 0 }), "0 0 8 * * *");
    assert_eq!(cron_expression(&RunTime { hour: 14, minute: 0 }), "0 0 14 * * *");
    assert_eq!(cron_expression(&RunTime { hour: 20, minute: 0 }), "0 0 20 * * *");
    assert_eq!(cron_expression(&RunTime { hour: 7, minute: 45 }), "0 45 7 * * *");
}

#[test]
fn schedule_jobs_registers_the_three_daily_runs() {
    let jobs = schedule_jobs();
    let crons: Vec<&str> = jobs.iter().map(|j| j.cron.as_str()).collect();
    assert_eq!(crons, vec!["0 0 8 * * *", "0 0 14 * * *", "0 0 20 * * *"]);
    for job in &jobs {
        assert_eq!(job.image_folder, "downloaded_images");
    }
}

#[test]
fn decimal_writes_numbers_as_they_are_printed() {
    for n in [0u32, 1, 9, 10, 11, 99, 100, 101, 1000, 65535, 1234567890, u32::MAX] {
        assert_eq!(decimal(n), format!("{}", n));
    }
    assert_eq!(decimal(0), "0");
    assert_eq!(decimal(4294967295), "4294967295");
}
