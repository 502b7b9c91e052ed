//! The services every task can use, configured from the environment.
pub mod jina;
pub mod logger;
pub mod mail;
pub mod openai;

use vstd::prelude::*;
use vstd::string::*;
use self::jina::Jina;
use self::mail::{MailError, Mailer, mailbox_parse};
use self::openai::Openai;
use lettre::address::AddressError;

verus! {

/// The environment variables the bot is configured from, as read at start:
/// `None` where a variable is unset.
pub struct Env {
    pub mail_to: Option<String>,
    pub mail_username: Option<String>,
    pub mail_password: Option<String>,
    pub openai_key: Option<String>,
    pub deep_seek_key: Option<String>,
    pub github_token: Option<String>,
}

/// One of the environment variables the bot needs.
#[derive(Clone, Copy, Debug, PartialEq, Eq, Structural)]
pub enum EnvVar {
    MailTo,
    MailUsername,
    MailPassword,
    OpenaiKey,
    DeepSeekKey,
    GithubToken,
}

impl EnvVar {
    /// The variable's name in the environment.
    pub open spec fn spec_name(self) -> Seq<char> {
        match self {
            EnvVar::MailTo => "MAIL_TO"@,
            EnvVar::MailUsername => "MAIL_USERNAME"@,
            EnvVar::MailPassword => "MAIL_PASSWORD"@,
            EnvVar::OpenaiKey => "OPENAI_KEY"@,
            EnvVar::DeepSeekKey => "DEEP_SEEK_KEY"@,
            EnvVar::GithubToken => "GITHUB_TOKEN"@,
        }
    }

    /// The variable's name in the environment.
    pub fn name(&self) -> (res: &'static str)
        ensures
            res@ == self.spec_name(),
    {
        match self {
            EnvVar::MailTo => "MAIL_TO",
            EnvVar::MailUsername => "MAIL_USERNAME",
            EnvVar::MailPassword => "MAIL_PASSWORD",
            EnvVar::OpenaiKey => "OPENAI_KEY",
            EnvVar::DeepSeekKey => "DEEP_SEEK_KEY",
            EnvVar::GithubToken => "GITHUB_TOKEN",
        }
    }
}

/// Why the services could not be configured.
#[derive(Debug)]
pub enum HelperError {
    /// A needed environment variable is unset.
    Missing(EnvVar),
    /// The mail settings were refused.
    Mail(MailError),
}

/// The SMTP relay all mail goes through.
pub open spec fn smtp_server() -> Seq<char> {
    "smtp.163.com"@
}

/// The sender mailbox for a login name: `Bot <username>`.
pub open spec fn bot_sender(username: Seq<char>) -> Seq<char> {
    "Bot <"@ + username + ">"@
}

pub open spec fn openai_base() -> Seq<char> {
    "https://models.inference.ai.azure.com"@
}

pub open spec fn openai_model() -> Seq<char> {
    "gpt-4o"@
}

pub open spec fn deep_seek_base() -> Seq<char> {
    "https://api.deepseek.com"@
}

pub open spec fn deep_seek_model() -> Seq<char> {
    "deepseek-chat"@
}

/// Access to the GitHub API by a personal token.  (The program builds its
/// API client from the token inside its async runtime: the client spawns a
/// worker task when it is built.)
pub struct GithubAuth {
    pub token: String,
}

/// The services handed to every task.
pub struct Helper {
    pub mailer: Mailer,
    pub openai: Openai,
    pub deep_seek: Openai,
    pub jina: Jina,
    pub github: GithubAuth,
}

/// The mail settings can be made from `env`: its three mail variables are
/// set and both mailboxes parse.
pub open spec fn mail_ok(env: &Env) -> bool {
    &&& env.mail_to matches Some(to)
    &&& env.mail_username matches Some(user)
    &&& env.mail_password is Some
    &&& mailbox_parse(bot_sender(user@)) is Ok
    &&& mailbox_parse(to@) is Ok
}

/// The sender in `bot_sender` form for the login of `env`.
pub open spec fn env_sender(env: &Env) -> Seq<char> {
    bot_sender(env.mail_username->0@)
}

/// Every variable the services need is set in `env`.
pub open spec fn all_set(env: &Env) -> bool {
    &&& env.mail_to is Some
    &&& env.mail_username is Some
    &&& env.mail_password is Some
    &&& env.openai_key is Some
    &&& env.deep_seek_key is Some
    &&& env.github_token is Some
}

/// What configuring the services from `env` gives: the first problem met,
/// looking in this order: `MAIL_TO`, `MAIL_USERNAME`, `MAIL_PASSWORD`, the
/// sender and recipient mailboxes, `OPENAI_KEY`, `DEEP_SEEK_KEY`,
/// `GITHUB_TOKEN`; or, without a problem, services set from those values.
pub open spec fn configured(env: &Env, res: &Result<Helper, HelperError>) -> bool {
    let relay_failed = res matches Err(HelperError::Mail(MailError::Relay(_)));
    &&& (env.mail_to is None ==> res matches Err(HelperError::Missing(EnvVar::MailTo)))
    &&& (env.mail_to is Some && env.mail_username is None ==> res matches Err(
        HelperError::Missing(EnvVar::MailUsername),
    ))
    &&& (env.mail_to is Some && env.mail_username is Some && env.mail_password is None
        ==> res matches Err(HelperError::Missing(EnvVar::MailPassword)))
    &&& (relay_failed ==> env.mail_to is Some && env.mail_username is Some
        && env.mail_password is Some)
    &&& (env.mail_to is Some && env.mail_username is Some && env.mail_password is Some
        && !relay_failed ==> match mailbox_parse(env_sender(env)) {
        Err(e) => res matches Err(HelperError::Mail(MailError::InvalidFrom(f))) && f == e,
        Ok(_) => match mailbox_parse(env.mail_to->0@) {
            Err(e) => res matches Err(HelperError::Mail(MailError::InvalidTo(f))) && f == e,
            Ok(_) => true,
        },
    })
    &&& (mail_ok(env) && env.openai_key is None && !relay_failed ==> res matches Err(
        HelperError::Missing(EnvVar::OpenaiKey),
    ))
    &&& (mail_ok(env) && env.openai_key is Some && env.deep_seek_key is None && !relay_failed
        ==> res matches Err(HelperError::Missing(EnvVar::DeepSeekKey)))
    &&& (mail_ok(env) && env.openai_key is Some && env.deep_seek_key is Some
        && env.github_token is None && !relay_failed ==> res matches Err(
        HelperError::Missing(EnvVar::GithubToken),
    ))
    &&& (all_set(env) && mail_ok(env) ==> res is Ok || relay_failed)
    &&& res matches Ok(h) ==> {
        &&& mail_ok(env)
        &&& mailbox_parse(env_sender(env)) == Ok::<_, AddressError>(h.mailer.spec_from())
        &&& mailbox_parse(env.mail_to->0@) == Ok::<_, AddressError>(h.mailer.spec_to())
        &&& h.mailer.spec_smtp_host() == smtp_server()
        &&& h.mailer.spec_username() == env.mail_username->0@
        &&& h.mailer.spec_password() == env.mail_password->0@
        &&& env.openai_key matches Some(k) && h.openai.spec_key() == k@
        &&& h.openai.spec_base() == openai_base()
        &&& h.openai.spec_model() == openai_model()
        &&& env.deep_seek_key matches Some(k) && h.deep_seek.spec_key() == k@
        &&& h.deep_seek.spec_base() == deep_seek_base()
        &&& h.deep_seek.spec_model() == deep_seek_model()
        &&& env.github_token matches Some(t) && h.github.token@ == t@
    }
}

/// Configuring succeeds only when every variable is set and both mailboxes
/// (`Bot <MAIL_USERNAME>` and `MAIL_TO`) parse; when they are, it can fail
/// only in making the SMTP transport settings.  When it
/// fails with a missing variable, that variable is unset.
pub proof fn law_configured_succeeds_iff_complete(env: &Env, res: &Result<Helper, HelperError>)
    requires
        configured(env, res),
    ensures
        res is Ok ==> all_set(env) && mail_ok(env),
        all_set(env) && mail_ok(env) ==> res is Ok || res matches Err(
            HelperError::Mail(MailError::Relay(_)),
        ),
        res matches Err(HelperError::Missing(v)) ==> match v {
            EnvVar::MailTo => env.mail_to is None,
            EnvVar::MailUsername => env.mail_username is None,
            EnvVar::MailPassword => env.mail_password is None,
            EnvVar::OpenaiKey => env.openai_key is None,
            EnvVar::DeepSeekKey => env.deep_seek_key is None,
            EnvVar::GithubToken => env.github_token is None,
        },
{
}

impl Helper {
    /// Configures every service from `env`.  Variables are looked at in this
    /// order, and the first problem is reported: `MAIL_TO`, `MAIL_USERNAME`,
    /// `MAIL_PASSWORD`, the SMTP transport settings, the two mailboxes,
    /// `OPENAI_KEY`, `DEEP_SEEK_KEY`, `GITHUB_TOKEN`.
    pub fn new(env: Env) -> (res: Result<Helper, HelperError>)
        ensures
            configured(&env, &res),
    {
        let Env { mail_to, mail_username, mail_password, openai_key, deep_seek_key, github_token } =
            env;
        let mailer = Self::new_mailer(mail_to, mail_username, mail_password)?;
        let openai = Self::new_openai(openai_key)?;
        let deep_seek = Self::new_deep_seek(deep_seek_key)?;
        let github = Self::new_github(github_token)?;
        let jina = Jina::new();
        Ok(Helper { mailer, openai, deep_seek, jina, github })
    }

    fn new_github(token: Option<String>) -> (res: Result<GithubAuth, HelperError>)
        ensures
            match token {
                Some(t) => res matches Ok(g) && g.token@ == t@,
                None => res matches Err(HelperError::Missing(EnvVar::GithubToken)),
            },
    {
        match token {
            Some(token) => Ok(GithubAuth { token }),
            None => Err(HelperError::Missing(EnvVar::GithubToken)),
        }
    }

    fn new_deep_seek(key: Option<String>) -> (res: Result<Openai, HelperError>)
        ensures
            match key {
                Some(k) => res matches Ok(o) && o.spec_key() == k@ && o.spec_base()
                    == deep_seek_base() && o.spec_model() == deep_seek_model(),
                None => res matches Err(HelperError::Missing(EnvVar::DeepSeekKey)),
            },
    {
        match key {
            Some(key) => Ok(
                Openai::new(
                    String::from_str("https://api.deepseek.com"),
                    String::from_str("deepseek-chat"),
                    key,
                ),
            ),
            None => Err(HelperError::Missing(EnvVar::DeepSeekKey)),
        }
    }

    fn new_openai(key: Option<String>) -> (res: Result<Openai, HelperError>)
        ensures
            match key {
                Some(k) => res matches Ok(o) && o.spec_key() == k@ && o.spec_base() == openai_base()
                    && o.spec_model() == openai_model(),
                None => res matches Err(HelperError::Missing(EnvVar::OpenaiKey)),
            },
    {
        match key {
            Some(key) => Ok(
                Openai::new(
                    String::from_str("https://models.inference.ai.azure.com"),
                    String::from_str("gpt-4o"),
                    key,
                ),
            ),
            None => Err(HelperError::Missing(EnvVar::OpenaiKey)),
        }
    }

    fn new_mailer(to: Option<String>, username: Option<String>, password: Option<String>) -> (res:
        Result<Mailer, HelperError>)
        ensures
            to is None ==> res matches Err(HelperError::Missing(EnvVar::MailTo)),
            to is Some && username is None ==> res matches Err(
                HelperError::Missing(EnvVar::MailUsername),
            ),
            to is Some && username is Some && password is None ==> res matches Err(
                HelperError::Missing(EnvVar::MailPassword),
            ),
            res matches Err(HelperError::Mail(MailError::Relay(_))) ==> to is Some && username is Some
                && password is Some,
            to is Some && username is Some && password is Some && !(res matches Err(
                HelperError::Mail(MailError::Relay(_)),
            )) ==> match mailbox_parse(bot_sender(username->0@)) {
                Err(e) => res matches Err(HelperError::Mail(MailError::InvalidFrom(f))) && f == e,
                Ok(m) => match mailbox_parse(to->0@) {
                    Err(e) => res matches Err(HelperError::Mail(MailError::InvalidTo(f))) && f == e,
                    Ok(n) => res matches Ok(mailer) && mailer.spec_from() == m && mailer.spec_to()
                        == n && mailer.spec_smtp_host() == smtp_server() && mailer.spec_username()
                        == username->0@ && mailer.spec_password() == password->0@,
                },
            },
    {
        let to = match to {
            Some(v) => v,
            None => return Err(HelperError::Missing(EnvVar::MailTo)),
        };
        let username = match username {
            Some(v) => v,
            None => return Err(HelperError::Missing(EnvVar::MailUsername)),
        };
        let password = match password {
            Some(v) => v,
            None => return Err(HelperError::Missing(EnvVar::MailPassword)),
        };
        let mut from = String::from_str("Bot <");
        from.append(username.as_str());
        from.append(">");
        match Mailer::new(
            from.as_str(),
            to.as_str(),
            String::from_str("smtp.163.com"),
            username,
            password,
        ) {
            Ok(m) => Ok(m),
            Err(e) => Err(HelperError::Mail(e)),
        }
    }
}

} // verus!
