use std::sync::Arc;

use copilot::app::{
    error_lines, task_failure_context, App, ErrorMail, JobOutcome, JobPhase, JobRun, JobStep,
    StartError, StartStep, Starter,
};
use copilot::helper::{Env, EnvVar, HelperError};

fn full_env() -> Env {
    Env {
        mail_to: Some("me@example.com".to_string()),
        mail_username: Some("bot@163.com".to_string()),
        mail_password: Some("pw".to_string()),
        openai_key: Some("ok".to_string()),
        deep_seek_key: Some("dk".to_string()),
        github_token: Some("gh".to_string()),
    }
}

#[test]
fn error_lines_match_str_lines() {
    let samples = [
        "",
        "one",
        "one\n",
        "one\ntwo",
        "one\r\ntwo\r\n",
        "\n",
        "\n\n",
        "a\n\nb",
        "tail\r",
        "mid\rdle\nx",
        "任务失败: 日常\n\nCaused by:\n    模型没有回复",
        "\r\n",
    ];
    for s in samples {
        let expected: Vec<&str> = s.lines().collect();
        assert_eq!(error_lines(s), expected, "input {s:?}");
    }
}

#[test]
fn error_mail_has_fixed_subject_and_lines() {
    let mail = ErrorMail::new("first\nsecond\r\nthird".to_string());
    assert_eq!(mail.subject, "检测到错误");
    assert_eq!(mail.page().error_lines(), &vec!["first", "second", "third"]);
}

#[test]
fn failure_context_names_the_task() {
    assert_eq!(task_failure_context("发送日常资讯"), "任务失败: 发送日常资讯");
}

#[test]
fn job_run_success_sends_nothing() {
    let (mut run, first) = JobRun::new("daily");
    assert!(matches!(first, JobStep::RunTask));
    assert_eq!(run.phase(), JobPhase::Running);
    assert!(matches!(run.step(Ok(String::new())), JobStep::Finish(JobOutcome::Completed)));
    assert_eq!(run.phase(), JobPhase::Finished);
    assert!(matches!(run.step(Err("late".to_string())), JobStep::Finish(JobOutcome::Completed)));
}

#[test]
fn job_run_failure_is_described_rendered_then_mailed() {
    let (mut run, _) = JobRun::new("daily");
    match run.step(Err("boom".to_string())) {
        JobStep::DescribeFailure { context } => assert_eq!(context, "任务失败: daily"),
        _ => panic!("expected the failure to be described"),
    }
    assert_eq!(run.phase(), JobPhase::Describing);
    let text = "任务失败: daily\n\nCaused by:\n    0: boom\n    1: cause";
    match run.step(Ok(text.to_string())) {
        JobStep::RenderReport(mail) => {
            assert_eq!(mail.subject, "检测到错误");
            assert_eq!(mail.text, text);
            assert_eq!(
                mail.page().error_lines(),
                &vec!["任务失败: daily", "", "Caused by:", "    0: boom", "    1: cause"]
            );
        }
        _ => panic!("expected a report"),
    }
    assert_eq!(run.phase(), JobPhase::Rendering);
    match run.step(Ok("<p>page</p>".to_string())) {
        JobStep::SendReport { subject, body } => {
            assert_eq!(subject, "检测到错误");
            assert_eq!(body, "<p>page</p>");
        }
        _ => panic!("expected the mail"),
    }
    assert_eq!(run.phase(), JobPhase::Sending);
    assert!(matches!(run.step(Ok(String::new())), JobStep::Finish(JobOutcome::Reported)));
    assert_eq!(run.phase(), JobPhase::Finished);
}

#[test]
fn job_run_undescribed_failure_is_not_mailed() {
    let (mut run, _) = JobRun::new("daily");
    let _ = run.step(Err("boom".to_string()));
    match run.step(Err("no text".to_string())) {
        JobStep::Finish(JobOutcome::ReportNotRendered(m)) => assert_eq!(m, "no text"),
        _ => panic!("expected the run to end"),
    }
}

#[test]
fn job_run_unrendered_report_is_not_mailed() {
    let (mut run, _) = JobRun::new("daily");
    let _ = run.step(Err("boom".to_string()));
    let _ = run.step(Ok("任务失败: daily".to_string()));
    match run.step(Err("template".to_string())) {
        JobStep::Finish(JobOutcome::ReportNotRendered(m)) => assert_eq!(m, "template"),
        _ => panic!("expected the run to end"),
    }
}

#[test]
fn job_run_failed_report() {
    let (mut run, _) = JobRun::new("daily");
    let _ = run.step(Err("boom".to_string()));
    let _ = run.step(Ok("任务失败: daily".to_string()));
    let _ = run.step(Ok("<p/>".to_string()));
    match run.step(Err("smtp down".to_string())) {
        JobStep::Finish(JobOutcome::ReportNotSent(m)) => assert_eq!(m, "smtp down"),
        _ => panic!("expected the run to end"),
    }
    match run.step(Ok(String::new())) {
        JobStep::Finish(JobOutcome::ReportNotSent(m)) => assert_eq!(m, "smtp down"),
        _ => panic!("a finished run stays finished"),
    }
}

fn add_job(step: StartStep) -> (usize, String) {
    match step {
        StartStep::AddJob { index, cron, timezone } => {
            assert_eq!(timezone, "Asia/Shanghai");
            (index, cron)
        }
        _ => panic!("expected AddJob"),
    }
}

#[test]
fn starter_adds_every_job_then_starts() {
    let crons = vec!["0 0 6 * * *".to_string(), "0 0 0 */7 * *".to_string()];
    let (mut s, first) = Starter::new(crons);
    assert!(matches!(first, StartStep::CreateScheduler));
    assert_eq!(add_job(s.step(Ok(()))), (0, "0 0 6 * * *".to_string()));
    assert_eq!(add_job(s.step(Ok(()))), (1, "0 0 0 */7 * *".to_string()));
    assert!(matches!(s.step(Ok(())), StartStep::StartScheduler));
    assert!(matches!(s.step(Ok(())), StartStep::AwaitStop));
    assert!(matches!(s.step(Ok(())), StartStep::Shutdown));
    assert!(matches!(s.step(Ok(())), StartStep::Finish(Ok(()))));
    assert!(matches!(s.step(Ok(())), StartStep::Finish(Ok(()))));
}

#[test]
fn starter_without_tasks_starts_at_once() {
    let (mut s, _) = Starter::new(vec![]);
    assert!(matches!(s.step(Ok(())), StartStep::StartScheduler));
}

#[test]
fn starter_stops_at_bad_schedule() {
    let crons = vec!["0 0 6 * * *".to_string(), "every day".to_string(), "0 0 1 * * *".to_string()];
    let (mut s, _) = Starter::new(crons);
    assert_eq!(add_job(s.step(Ok(()))).0, 0);
    match s.step(Ok(())) {
        StartStep::Finish(Err(StartError::InvalidSchedule { index, cron })) => {
            assert_eq!(index, 1);
            assert_eq!(cron, "every day");
        }
        _ => panic!("expected the schedule error"),
    }
    assert!(matches!(
        s.step(Ok(())),
        StartStep::Finish(Err(StartError::InvalidSchedule { index: 1, .. }))
    ));
}

#[test]
fn starter_five_field_cron_is_refused() {
    let (mut s, _) = Starter::new(vec!["0 6 * * *".to_string()]);
    assert!(matches!(
        s.step(Ok(())),
        StartStep::Finish(Err(StartError::InvalidSchedule { index: 0, .. }))
    ));
}

#[test]
fn starter_failure_ends_start() {
    let (mut s, _) = Starter::new(vec!["0 0 6 * * *".to_string()]);
    let _ = s.step(Ok(()));
    match s.step(Err("scheduler gone".to_string())) {
        StartStep::Finish(Err(StartError::Scheduler(m))) => assert_eq!(m, "scheduler gone"),
        _ => panic!("expected failure"),
    }
    assert!(matches!(s.step(Ok(())), StartStep::Finish(Err(StartError::Scheduler(_)))));
}

#[test]
fn app_new_and_add_tasks() {
    let mut app: App<Arc<u32>> = App::new(full_env()).unwrap();
    assert!(app.all_tasks().is_empty());
    let helper = app.helper();
    let one = Arc::new(1u32);
    let kept = one.clone();
    assert_eq!(app.add_task(move |h| {
        assert!(Arc::ptr_eq(&h, &helper));
        Ok::<Arc<u32>, String>(one)
    }), Ok(()));
    assert_eq!(app.add_task(|_| Err::<Arc<u32>, String>("nope".to_string())), Err("nope".to_string()));
    assert_eq!(app.add_task(|_| Ok::<Arc<u32>, String>(Arc::new(2))), Ok(()));
    let tasks = app.all_tasks();
    assert_eq!(tasks.len(), 2);
    assert!(Arc::ptr_eq(&tasks[0], &kept));
    assert_eq!(*tasks[1], 2);
    let again = app.all_tasks();
    assert!(Arc::ptr_eq(&tasks[1], &again[1]));
}

#[test]
fn app_new_reports_configuration_error() {
    let mut env = full_env();
    env.deep_seek_key = None;
    assert!(matches!(App::<Arc<u32>>::new(env), Err(HelperError::Missing(EnvVar::DeepSeekKey))));
}
