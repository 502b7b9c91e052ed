use copilot::helper::{Env, Helper};
use copilot::log::{take_logs, DigestEvent, DigestStep, Log};
use copilot::logger::Logger;
use copilot::normal::{greeting_body, GreetStep, Normal};
use copilot::task::{Task, TaskError};
use copilot::templates::error::Error;
use copilot::templates::normal::Normal as NormalPage;

fn helper() -> Helper {
    Helper::new(Env {
        mail_to: Some("me@example.com".to_string()),
        mail_username: Some("bot@163.com".to_string()),
        mail_password: Some("pw".to_string()),
        openai_key: Some("ok".to_string()),
        deep_seek_key: Some("dk".to_string()),
        github_token: Some("gh".to_string()),
    })
    .unwrap()
}

#[test]
fn digest_run_mails_seven_days_of_logs() {
    assert_eq!(Log.job(), "0 0 0 */7 * *");
    assert_eq!(Log.description(), "send logs to email");
    let mut logger = Logger::new();
    logger.warn("w".to_string());
    let (mut run, first) = Log.run();
    assert!(matches!(first, DigestStep::TakeLogs));
    match run.step(take_logs(&mut logger)) {
        DigestStep::Render { logs, count } => {
            assert_eq!(count, 7);
            assert_eq!(logs.len(), 1);
            assert_eq!(logs[0].content(), "w");
        }
        _ => panic!("expected a render"),
    }
    match run.step(DigestEvent::Text("page".to_string())) {
        DigestStep::Mail { subject, body } => assert_eq!((subject.as_str(), body.as_str()), ("Log summary", "page")),
        _ => panic!("expected a mail"),
    }
    assert!(matches!(run.step(DigestEvent::Text(String::new())), DigestStep::Finish(Ok(()))));
    assert!(matches!(run.step(DigestEvent::Failed("x".to_string())), DigestStep::Finish(Ok(()))));
}

#[test]
fn digest_run_failure() {
    let (mut run, _) = Log.run();
    match run.step(DigestEvent::Failed("lock".to_string())) {
        DigestStep::Finish(Err(TaskError::Failed(m))) => assert_eq!(m, "lock"),
        _ => panic!("expected failure"),
    }
}

#[test]
fn greeting_body_shows_both_answers() {
    assert_eq!(greeting_body("hi", "hey"), "<p>deep seek: hi</p><p>openai: hey</p>");
}

#[test]
fn greet_run_asks_both_models() {
    let helper = helper();
    assert_eq!(Normal.description(), "do some normal things");
    let (mut run, first) = Normal.run(&helper);
    match first {
        GreetStep::Chat(req) => assert_eq!((req.model.as_str(), req.user.as_str()), ("deepseek-chat", "hello")),
        _ => panic!("expected a chat"),
    }
    match run.step(&helper, Ok("A".to_string())) {
        GreetStep::Chat(req) => assert_eq!((req.model.as_str(), req.user.as_str()), ("gpt-4o", "hello")),
        _ => panic!("expected a chat"),
    }
    match run.step(&helper, Ok("B".to_string())) {
        GreetStep::Mail { subject, body } => {
            assert_eq!(subject, "normal test");
            assert_eq!(body, "<p>deep seek: A</p><p>openai: B</p>");
        }
        _ => panic!("expected a mail"),
    }
    assert!(matches!(run.step(&helper, Ok(String::new())), GreetStep::Finish(Ok(()))));
}

#[test]
fn greet_run_failure() {
    let helper = helper();
    let (mut run, _) = Normal.run(&helper);
    assert!(matches!(run.step(&helper, Err("down".to_string())), GreetStep::Finish(Err(TaskError::Failed(_)))));
}

#[test]
fn templates_keep_their_data() {
    let page = NormalPage::new(3, -1);
    assert_eq!((page.star(), page.download()), (3, -1));
    let e = Error::new(vec!["a", "b"]);
    assert_eq!(e.error_lines(), &vec!["a", "b"]);
}
