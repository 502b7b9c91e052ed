# copilot

A small bot that runs scheduled tasks (a daily digest, GitHub trending, a
weekly log digest), asks chat models for text, renders HTML and mails it.

* `src/` is the verified library: configuration from the environment
  (`helper`), mail, chat and reader settings, the two log stores
  (`logger`, `helper::logger`), the error report and the scheduler's
  start-up machine (`app`), and one state machine per task (`task::*`,
  a log digest over the untimed store in `log`, a greeting test in
  `normal`).  Each machine names the next piece of outside work and is
  told how it went.  Mail settings keep the SMTP relay host and login
  once lettre has accepted the host for a relay transport.
* `app/` is the program: it reads the environment, builds the HTTP, SMTP
  (from the mail settings' host and login), chat and GitHub clients,
  performs each step the machines ask for, and runs the cron scheduler
  until SIGTERM.
* `tests/` exercises the library on concrete values.
