use std::sync::Arc;

use copilot::helper::{Env, Helper};
use copilot::logger::LogLevel;
use copilot::task::github::{Github, GithubStep};
use copilot::task::log::{take_logs, Log, LogEvent, LogStep};
use copilot::task::normal::{total_downloads, Normal, NormalEvent, NormalStep};
use copilot::task::{Task, TaskError};

fn helper() -> Helper {
    Helper::new(Env {
        mail_to: Some("me@example.com".to_string()),
        mail_username: Some("bot@163.com".to_string()),
        mail_password: Some("pw".to_string()),
        openai_key: Some("ok".to_string()),
        deep_seek_key: Some("dk".to_string()),
        github_token: Some("gh".to_string()),
    })
    .unwrap()
}

#[test]
fn task_schedules_and_descriptions() {
    assert_eq!(Github.job(), "0 0 6 * * *");
    assert_eq!(Github.description(), "get github daily trending");
    assert_eq!(Log.job(), "0 0 0 */7 * *");
    assert_eq!(Log.description(), "send logs to email");
    let normal = Normal::new(Arc::new(helper())).unwrap();
    assert_eq!(normal.job(), "0 0 6 * * *");
    assert_eq!(normal.description(), "发送日常资讯");
}

#[test]
fn github_run_happy_path() {
    let helper = helper();
    let (mut run, first) = Github.run(&helper);
    match first {
        GithubStep::Summarize(req) => {
            assert_eq!(req.url, "https://r.jina.ai/https://github.com/trending/rust?since=daily");
            assert_eq!(req.target_selector, ".Box-row");
            assert_eq!(req.remove_selector, ".d-inline-block");
        }
        _ => panic!("expected a summary fetch"),
    }
    match run.step(&helper, Ok("repo list".to_string())) {
        GithubStep::Chat(req) => {
            assert_eq!(req.base, "https://models.inference.ai.azure.com");
            assert_eq!(req.model, "gpt-4o");
            assert_eq!(req.user, "请帮我总结一下所有的项目并按照顺序star的多少排列, repo list");
        }
        _ => panic!("expected a chat"),
    }
    match run.step(&helper, Ok("# Top\n\n*one*".to_string())) {
        GithubStep::Render { trending } => {
            assert_eq!(trending, "<h1>Top</h1>\n<p><em>one</em></p>")
        }
        _ => panic!("expected a render"),
    }
    match run.step(&helper, Ok("<html>page</html>".to_string())) {
        GithubStep::Mail { subject, body } => {
            assert_eq!(subject, "Github rust trending");
            assert_eq!(body, "<html>page</html>");
        }
        _ => panic!("expected a mail"),
    }
    assert!(matches!(run.step(&helper, Ok(String::new())), GithubStep::Finish(Ok(()))));
    assert!(matches!(run.step(&helper, Err("late".to_string())), GithubStep::Finish(Ok(()))));
}

#[test]
fn github_run_failure_stops() {
    let helper = helper();
    let (mut run, _) = Github.run(&helper);
    let _ = run.step(&helper, Ok("page".to_string()));
    match run.step(&helper, Err("model down".to_string())) {
        GithubStep::Finish(Err(TaskError::Failed(m))) => assert_eq!(m, "model down"),
        _ => panic!("expected failure"),
    }
    assert!(matches!(run.step(&helper, Ok("x".to_string())), GithubStep::Finish(Err(_))));
}

#[test]
fn log_run_mails_taken_entries() {
    let mut logger = copilot::helper::logger::Logger::new();
    logger.info("hello".to_string());
    logger.error("oops".to_string());
    let (mut run, first) = Log.run();
    assert!(matches!(first, LogStep::TakeLogs));
    match run.step(take_logs(&mut logger)) {
        LogStep::Render { logs } => {
            assert_eq!(logs.len(), 2);
            assert_eq!((logs[0].level(), logs[0].content()), (LogLevel::Info, "hello"));
            assert_eq!((logs[1].level(), logs[1].content()), (LogLevel::Error, "oops"));
        }
        _ => panic!("expected a render"),
    }
    assert!(logger.take_all().is_empty());
    match run.step(LogEvent::Text("<p>logs</p>".to_string())) {
        LogStep::Mail { subject, body } => {
            assert_eq!(subject, "Log summary for last 7 days");
            assert_eq!(body, "<p>logs</p>");
        }
        _ => panic!("expected a mail"),
    }
    assert!(matches!(run.step(LogEvent::Text(String::new())), LogStep::Finish(Ok(()))));
}

#[test]
fn log_run_unexpected_report() {
    let (mut run, _) = Log.run();
    assert!(matches!(
        run.step(LogEvent::Text("too early".to_string())),
        LogStep::Finish(Err(TaskError::Unexpected))
    ));
}

#[test]
fn total_downloads_sums_every_asset() {
    assert_eq!(total_downloads(&vec![]), 0);
    assert_eq!(total_downloads(&vec![vec![], vec![3]]), 3);
    assert_eq!(total_downloads(&vec![vec![1, 2], vec![10], vec![100, 200, 300]]), 613);
}

#[test]
fn normal_run_happy_path() {
    let helper = Arc::new(helper());
    let normal = Normal::new(helper.clone()).unwrap();
    assert!(Arc::ptr_eq(normal.helper(), &helper));
    let (mut run, first) = normal.run();
    match first {
        NormalStep::Stars { owner, repo } => assert_eq!((owner.as_str(), repo.as_str()), ("jane-212", "javcap")),
        _ => panic!("expected stars"),
    }
    match run.step(&helper, NormalEvent::Stars(None)) {
        NormalStep::Releases { owner, repo } => assert_eq!((owner.as_str(), repo.as_str()), ("jane-212", "javcap")),
        _ => panic!("expected releases"),
    }
    match run.step(&helper, NormalEvent::Releases(vec![vec![5, 6], vec![7]])) {
        NormalStep::Chat(req) => {
            assert_eq!(req.base, "https://api.deepseek.com");
            assert_eq!(req.model, "deepseek-chat");
            assert_eq!(req.user, "请给我随机推荐两个外出随机挑战");
        }
        _ => panic!("expected a chat"),
    }
    match run.step(&helper, NormalEvent::Text("**go**".to_string())) {
        NormalStep::Render { page, challenge } => {
            assert_eq!(page.star(), 0);
            assert_eq!(page.download(), 18);
            assert_eq!(challenge, "<p><strong>go</strong></p>");
        }
        _ => panic!("expected a render"),
    }
    match run.step(&helper, NormalEvent::Text("<html/>".to_string())) {
        NormalStep::Mail { subject, body } => {
            assert_eq!(subject, "Normal");
            assert_eq!(body, "<html/>");
        }
        _ => panic!("expected a mail"),
    }
    assert!(matches!(run.step(&helper, NormalEvent::Text(String::new())), NormalStep::Finish(Ok(()))));
}

#[test]
fn normal_run_keeps_star_count() {
    let helper = Arc::new(helper());
    let normal = Normal::new(helper.clone()).unwrap();
    let (mut run, _) = normal.run();
    let _ = run.step(&helper, NormalEvent::Stars(Some(1234)));
    let _ = run.step(&helper, NormalEvent::Releases(vec![]));
    match run.step(&helper, NormalEvent::Text("x".to_string())) {
        NormalStep::Render { page, .. } => assert_eq!((page.star(), page.download()), (1234, 0)),
        _ => panic!("expected a render"),
    }
}

#[test]
fn normal_run_failure_and_unexpected() {
    let helper = Arc::new(helper());
    let normal = Normal::new(helper.clone()).unwrap();
    let (mut run, _) = normal.run();
    assert!(matches!(
        run.step(&helper, NormalEvent::Releases(vec![])),
        NormalStep::Finish(Err(TaskError::Unexpected))
    ));
    let (mut run, _) = normal.run();
    match run.step(&helper, NormalEvent::Failed("github 502".to_string())) {
        NormalStep::Finish(Err(TaskError::Failed(m))) => assert_eq!(m, "github 502"),
        _ => panic!("expected failure"),
    }
}
