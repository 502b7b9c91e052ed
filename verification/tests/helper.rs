use copilot::helper::jina::{join_selectors, Jina};
use copilot::helper::mail::{MailError, Mailer};
use copilot::helper::openai::Openai;
use copilot::helper::{Env, EnvVar, Helper, HelperError};

fn full_env() -> Env {
    Env {
        mail_to: Some("me@example.com".to_string()),
        mail_username: Some("bot@163.com".to_string()),
        mail_password: Some("SECRET-REDACTED".to_string()),
        openai_key: Some("ok-1".to_string()),
        deep_seek_key: Some("dk-2".to_string()),
        github_token: Some("gh-3".to_string()),
    }
}

fn missing(res: Result<Helper, HelperError>) -> EnvVar {
    match res {
        Err(HelperError::Missing(v)) => v,
        Err(e) => panic!("unexpected error {e:?}"),
        Ok(_) => panic!("unexpected success"),
    }
}

#[test]
fn helper_from_full_env() {
    let helper = Helper::new(full_env()).unwrap();
    assert_eq!(helper.mailer.from().to_string(), "Bot <bot@163.com>");
    assert_eq!(helper.mailer.to().to_string(), "me@example.com");
    assert_eq!(helper.mailer.smtp_host(), "smtp.163.com");
    assert_eq!(helper.mailer.username(), "bot@163.com");
    assert_eq!(helper.mailer.password(), "SECRET-REDACTED");
    assert_eq!(helper.openai.base(), "https://models.inference.ai.azure.com");
    assert_eq!(helper.openai.model(), "gpt-4o");
    assert_eq!(helper.openai.key(), "ok-1");
    assert_eq!(helper.deep_seek.base(), "https://api.deepseek.com");
    assert_eq!(helper.deep_seek.model(), "deepseek-chat");
    assert_eq!(helper.deep_seek.key(), "dk-2");
    assert_eq!(helper.github.token, "gh-3");
}

#[test]
fn helper_reports_first_missing_variable() {
    let mut env = full_env();
    env.github_token = None;
    env.mail_password = None;
    assert_eq!(missing(Helper::new(env)), EnvVar::MailPassword);

    let mut env = full_env();
    env.mail_to = None;
    env.openai_key = None;
    assert_eq!(missing(Helper::new(env)), EnvVar::MailTo);

    let mut env = full_env();
    env.mail_username = None;
    assert_eq!(missing(Helper::new(env)), EnvVar::MailUsername);

    let mut env = full_env();
    env.openai_key = None;
    env.deep_seek_key = None;
    assert_eq!(missing(Helper::new(env)), EnvVar::OpenaiKey);

    let mut env = full_env();
    env.deep_seek_key = None;
    assert_eq!(missing(Helper::new(env)), EnvVar::DeepSeekKey);

    let mut env = full_env();
    env.github_token = None;
    assert_eq!(missing(Helper::new(env)), EnvVar::GithubToken);
}

#[test]
fn helper_reports_bad_mailboxes_before_later_variables() {
    let mut env = full_env();
    env.mail_username = Some("no at sign".to_string());
    env.openai_key = None;
    assert!(matches!(Helper::new(env), Err(HelperError::Mail(MailError::InvalidFrom(_)))));

    let mut env = full_env();
    env.mail_to = Some("nobody".to_string());
    env.github_token = None;
    assert!(matches!(Helper::new(env), Err(HelperError::Mail(MailError::InvalidTo(_)))));
}

#[test]
fn env_var_names() {
    assert_eq!(EnvVar::MailTo.name(), "MAIL_TO");
    assert_eq!(EnvVar::MailUsername.name(), "MAIL_USERNAME");
    assert_eq!(EnvVar::MailPassword.name(), "MAIL_PASSWORD");
    assert_eq!(EnvVar::OpenaiKey.name(), "OPENAI_KEY");
    assert_eq!(EnvVar::DeepSeekKey.name(), "DEEP_SEEK_KEY");
    assert_eq!(EnvVar::GithubToken.name(), "GITHUB_TOKEN");
}

#[test]
fn mailer_parses_both_mailboxes() {
    let m = Mailer::new(
        "Bot <a@b.com>",
        "c@d.org",
        "smtp.example.com".to_string(),
        "a@b.com".to_string(),
        "pw".to_string(),
    )
    .unwrap();
    assert_eq!(m.from().to_string(), "Bot <a@b.com>");
    assert_eq!(m.from().email.to_string(), "a@b.com");
    assert_eq!(m.to().to_string(), "c@d.org");
    assert_eq!(m.smtp_host(), "smtp.example.com");
}

#[test]
fn mailer_rejects_bad_sender_first() {
    let res = Mailer::new("broken", "also broken", "h".to_string(), "u".to_string(), "p".to_string());
    assert!(matches!(res, Err(MailError::InvalidFrom(_))));
    let res = Mailer::new("a@b.com", "also broken", "h".to_string(), "u".to_string(), "p".to_string());
    assert!(matches!(res, Err(MailError::InvalidTo(_))));
}

#[test]
fn mailer_message_parts() {
    let m = Mailer::new("Bot <a@b.com>", "c@d.org", "h".to_string(), "u".to_string(), "p".to_string())
        .unwrap();
    let mail = m.message("Hi".to_string(), "<p>x</p>".to_string());
    assert_eq!(mail.from.to_string(), "Bot <a@b.com>");
    assert_eq!(mail.to.to_string(), "c@d.org");
    assert_eq!(mail.subject, "Hi");
    assert_eq!(mail.content_type, "text/html; charset=utf-8");
    assert_eq!(mail.body, "<p>x</p>");
}

#[test]
fn chat_error_message_and_context() {
    let o = Openai::new("base".to_string(), "m1".to_string(), "k".to_string());
    let e = o.reply(vec![]).unwrap_err();
    assert_eq!(e.message(), "模型没有回复");
    assert_eq!(e.context(), "正在使用模型: m1");
}

#[test]
fn openai_request_and_reply() {
    let o = Openai::new("base".to_string(), "m1".to_string(), "k".to_string());
    let req = o.chat_request("what?".to_string());
    assert_eq!(req.base, "base");
    assert_eq!(req.model, "m1");
    assert_eq!(req.system, "You are a helpful assistant.");
    assert_eq!(req.user, "what?");
    assert_eq!(o.reply(vec![Some("yes".to_string()), Some("no".to_string())]).unwrap(), "yes");
    assert_eq!(o.reply(vec![]).unwrap_err().model, "m1");
    assert_eq!(o.reply(vec![None, Some("late".to_string())]).unwrap_err().model, "m1");
}

#[test]
fn selectors_are_joined_with_comma_space() {
    assert_eq!(join_selectors(&vec![]), "");
    assert_eq!(join_selectors(&vec![".a"]), ".a");
    assert_eq!(join_selectors(&vec![".a", "#b", "c d"]), ".a, #b, c d");
}

#[test]
fn jina_summary_request() {
    let req = Jina::new().summary_request("https://x.org/p", vec![".Box-row"], vec![".d", ".e"]);
    assert_eq!(req.url, "https://r.jina.ai/https://x.org/p");
    assert_eq!(req.target_selector, ".Box-row");
    assert_eq!(req.remove_selector, ".d, .e");
}
