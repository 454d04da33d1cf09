use caddy_dev::generate::{
    GenerateAction, GenerateEvent, GenerateMachine, GenerateOutcome, GeneratePhase,
};
use caddy_dev::init::{InitAction, InitEvent, InitMachine, InitOutcome, InitPhase};
use caddy_dev::paths::Environment;
use caddy_dev::reload::{ReloadAction, ReloadEvent, ReloadMachine, ReloadOutcome, ReloadPhase};

fn env() -> Environment {
    Environment { home: Some("/home/alice".to_string()), platform_config: None }
}

const FILE: &str = "/home/alice/.config/caddy-dev/Caddyfile";
const HEADER: &str = "# Auto-generated by caddy-dev init\n# Edit this file or run 'caddy-dev init' to reconfigure\n\n# Import Caddyfile.dev files from configured folders\n";

fn collecting() -> InitMachine {
    let e = env();
    let (mut m, first) = InitMachine::start(&e);
    assert_eq!(first, InitAction::CreateDir("/home/alice/.config/caddy-dev".to_string()));
    assert_eq!(m.phase, InitPhase::CreatingDir);
    assert_eq!(m.step(InitEvent::DirCreated, &e), InitAction::CheckExists(FILE.to_string()));
    assert_eq!(m.step(InitEvent::Exists(false), &e), InitAction::PromptFolder(0));
    assert_eq!(m.phase, InitPhase::Collecting);
    m
}

#[test]
fn init_collects_folders_and_writes_the_configuration() {
    let e = env();
    let mut m = collecting();
    assert_eq!(m.step(InitEvent::Line("/srv/app".to_string()), &e), InitAction::PromptFolder(1));
    assert_eq!(m.step(InitEvent::Line("~/proj/*/dev".to_string()), &e), InitAction::PromptFolder(2));
    assert_eq!(m.folders, vec!["/srv/app".to_string(), "/home/alice/proj/*/dev".to_string()]);
    let action = m.step(InitEvent::Line("  ".to_string()), &e);
    assert_eq!(
        action,
        InitAction::WriteConfig {
            path: FILE.to_string(),
            content: format!(
                "{}# Pattern: /srv/app\nimport /srv/app/*/Caddyfile.dev\n# Pattern: /home/alice/proj/*/dev\nimport /home/alice/proj/*/dev\n",
                HEADER
            ),
        }
    );
    assert_eq!(m.phase, InitPhase::Writing);
    assert_eq!(m.step(InitEvent::Written, &e), InitAction::Finish(InitOutcome::Saved));
    assert_eq!(m.phase, InitPhase::Done);
    assert_eq!(caddy_dev::init::exit_code(InitOutcome::Saved), 0);
}

#[test]
fn init_without_folders_writes_nothing() {
    let e = env();
    let mut m = collecting();
    assert_eq!(
        m.step(InitEvent::Line("".to_string()), &e),
        InitAction::Finish(InitOutcome::NothingSaved)
    );
    assert_eq!(m.phase, InitPhase::Done);
    assert_eq!(caddy_dev::init::exit_code(InitOutcome::NothingSaved), 0);
}

#[test]
fn init_keeps_the_file_when_the_user_declines() {
    let e = env();
    let (mut m, _) = InitMachine::start(&e);
    m.step(InitEvent::DirCreated, &e);
    assert_eq!(m.step(InitEvent::Exists(true), &e), InitAction::ConfirmOverwrite(FILE.to_string()));
    assert_eq!(m.phase, InitPhase::Confirming);
    assert_eq!(
        m.step(InitEvent::Answered(false), &e),
        InitAction::Finish(InitOutcome::KeptExisting)
    );
    assert_eq!(caddy_dev::init::exit_code(InitOutcome::KeptExisting), 0);
    assert_eq!(
        m.step(InitEvent::Line("/srv".to_string()), &e),
        InitAction::Finish(InitOutcome::OutOfTurn)
    );
}

#[test]
fn init_goes_on_when_the_user_agrees() {
    let e = env();
    let (mut m, _) = InitMachine::start(&e);
    m.step(InitEvent::DirCreated, &e);
    m.step(InitEvent::Exists(true), &e);
    assert_eq!(m.step(InitEvent::Answered(true), &e), InitAction::PromptFolder(0));
    assert_eq!(m.phase, InitPhase::Collecting);
}

#[test]
fn init_failures_end_the_run_with_status_one() {
    let e = env();
    let (mut m, _) = InitMachine::start(&e);
    assert_eq!(m.step(InitEvent::DirFailed, &e), InitAction::Finish(InitOutcome::DirError));
    let (mut m, _) = InitMachine::start(&e);
    m.step(InitEvent::DirCreated, &e);
    m.step(InitEvent::Exists(true), &e);
    assert_eq!(m.step(InitEvent::InputFailed, &e), InitAction::Finish(InitOutcome::InputError));
    let mut m = collecting();
    assert_eq!(m.step(InitEvent::InputFailed, &e), InitAction::Finish(InitOutcome::InputError));
    let mut m = collecting();
    m.step(InitEvent::Line("/srv".to_string()), &e);
    m.step(InitEvent::Line("".to_string()), &e);
    assert_eq!(m.step(InitEvent::WriteFailed, &e), InitAction::Finish(InitOutcome::WriteError));
    let (mut m, _) = InitMachine::start(&e);
    assert_eq!(m.step(InitEvent::Written, &e), InitAction::Finish(InitOutcome::OutOfTurn));
    for outcome in [
        InitOutcome::DirError,
        InitOutcome::InputError,
        InitOutcome::WriteError,
        InitOutcome::OutOfTurn,
    ] {
        assert_eq!(caddy_dev::init::exit_code(outcome), 1);
    }
}

#[test]
fn init_leaves_a_tilde_alone_without_a_home() {
    let e = Environment { home: None, platform_config: Some("/etc/xdg".to_string()) };
    let (mut m, first) = InitMachine::start(&e);
    assert_eq!(first, InitAction::CreateDir("/etc/xdg/caddy-dev".to_string()));
    assert_eq!(
        m.step(InitEvent::DirCreated, &e),
        InitAction::CheckExists("/etc/xdg/caddy-dev/Caddyfile".to_string())
    );
    m.step(InitEvent::Exists(false), &e);
    m.step(InitEvent::Line("~/x".to_string()), &e);
    assert_eq!(m.folders, vec!["~/x".to_string()]);
}

#[test]
fn generate_renders_the_template_into_the_output_file() {
    let args = vec!["port=8080".to_string(), "host=a".to_string(), "port=9090".to_string()];
    let (mut m, first) = GenerateMachine::start(Some("site".to_string()), None, &args);
    assert_eq!(first, GenerateAction::CheckDir("site".to_string()));
    assert_eq!(m.phase, GeneratePhase::CheckingDir);
    assert_eq!(m.template, "site/Caddyfile.template");
    assert_eq!(m.output, "site/Caddyfile.dev");
    assert_eq!(m.vars.keys(), vec!["port".to_string(), "host".to_string()]);
    assert_eq!(
        m.step(GenerateEvent::DirChecked(true)),
        GenerateAction::ReadTemplate("site/Caddyfile.template".to_string())
    );
    assert_eq!(
        m.step(GenerateEvent::TemplateRead("{{host}}:{{port}} {{other}}\n".to_string())),
        GenerateAction::WriteOutput {
            path: "site/Caddyfile.dev".to_string(),
            content: "a:9090 {{other}}\n".to_string(),
        }
    );
    assert_eq!(m.step(GenerateEvent::Written), GenerateAction::Finish(GenerateOutcome::Generated));
    assert_eq!(m.phase, GeneratePhase::Done);
    assert_eq!(caddy_dev::generate::exit_code(&GenerateOutcome::Generated), 0);
}

#[test]
fn generate_uses_the_current_directory_and_a_given_template() {
    let (m, first) = GenerateMachine::start(None, Some("/tmp/t.tpl".to_string()), &Vec::new());
    assert_eq!(first, GenerateAction::CheckDir(".".to_string()));
    assert_eq!(m.output_dir, ".");
    assert_eq!(m.template, "/tmp/t.tpl");
    assert_eq!(m.output, "./Caddyfile.dev");
    let (m, _) = GenerateMachine::start(None, None, &Vec::new());
    assert_eq!(m.template, "./Caddyfile.template");
}

#[test]
fn generate_without_variables_copies_the_template() {
    let (mut m, _) = GenerateMachine::start(None, None, &Vec::new());
    m.step(GenerateEvent::DirChecked(true));
    let text = "{{a}} {{b}}\n\u{1f600}\n";
    assert_eq!(
        m.step(GenerateEvent::TemplateRead(text.to_string())),
        GenerateAction::WriteOutput { path: "./Caddyfile.dev".to_string(), content: text.to_string() }
    );
}

#[test]
fn generate_rejects_a_malformed_argument_before_touching_a_file() {
    let args = vec!["a=1".to_string(), "novalue".to_string()];
    let (mut m, first) = GenerateMachine::start(None, None, &args);
    let outcome = GenerateOutcome::InvalidVariable(
        "Invalid variable format: 'novalue'. Expected key=value".to_string(),
    );
    assert_eq!(caddy_dev::generate::exit_code(&outcome), 1);
    assert_eq!(first, GenerateAction::Finish(outcome));
    assert_eq!(m.phase, GeneratePhase::Done);
    assert_eq!(
        m.step(GenerateEvent::DirChecked(true)),
        GenerateAction::Finish(GenerateOutcome::OutOfTurn)
    );
}

#[test]
fn generate_failures_end_the_run_with_status_one() {
    let (mut m, _) = GenerateMachine::start(None, None, &Vec::new());
    assert_eq!(
        m.step(GenerateEvent::DirChecked(false)),
        GenerateAction::Finish(GenerateOutcome::MissingOutputDir)
    );
    let (mut m, _) = GenerateMachine::start(None, None, &Vec::new());
    m.step(GenerateEvent::DirChecked(true));
    assert_eq!(
        m.step(GenerateEvent::ReadFailed),
        GenerateAction::Finish(GenerateOutcome::TemplateUnreadable)
    );
    let (mut m, _) = GenerateMachine::start(None, None, &Vec::new());
    m.step(GenerateEvent::DirChecked(true));
    m.step(GenerateEvent::TemplateRead("x".to_string()));
    assert_eq!(
        m.step(GenerateEvent::WriteFailed),
        GenerateAction::Finish(GenerateOutcome::WriteError)
    );
    for outcome in [
        GenerateOutcome::MissingOutputDir,
        GenerateOutcome::TemplateUnreadable,
        GenerateOutcome::WriteError,
        GenerateOutcome::OutOfTurn,
    ] {
        assert_eq!(caddy_dev::generate::exit_code(&outcome), 1);
    }
}

#[test]
fn reload_runs_the_proxy_with_the_configuration_file() {
    let (mut m, first) = ReloadMachine::start(&env());
    assert_eq!(first, ReloadAction::CheckExists(FILE.to_string()));
    assert_eq!(m.phase, ReloadPhase::CheckingConfig);
    assert_eq!(
        m.step(ReloadEvent::Exists(true)),
        ReloadAction::Run(vec![
            "caddy".to_string(),
            "reload".to_string(),
            "--config".to_string(),
            FILE.to_string(),
        ])
    );
    assert_eq!(m.phase, ReloadPhase::Running);
    assert_eq!(
        m.step(ReloadEvent::Exited(Some(0))),
        ReloadAction::Finish(ReloadOutcome::Reloaded)
    );
    assert_eq!(m.phase, ReloadPhase::Done);
    assert_eq!(caddy_dev::reload::exit_code(ReloadOutcome::Reloaded), 0);
}

#[test]
fn reload_without_configuration_runs_nothing() {
    let (mut m, _) = ReloadMachine::start(&env());
    assert_eq!(
        m.step(ReloadEvent::Exists(false)),
        ReloadAction::Finish(ReloadOutcome::MissingConfig)
    );
    assert_eq!(caddy_dev::reload::exit_code(ReloadOutcome::MissingConfig), 1);
    assert_eq!(
        m.step(ReloadEvent::Exists(true)),
        ReloadAction::Finish(ReloadOutcome::OutOfTurn)
    );
}

#[test]
fn reload_fails_on_any_other_exit_status() {
    for status in [Some(1), Some(-1), Some(2), None] {
        let (mut m, _) = ReloadMachine::start(&env());
        m.step(ReloadEvent::Exists(true));
        assert_eq!(
            m.step(ReloadEvent::Exited(status)),
            ReloadAction::Finish(ReloadOutcome::Failed(status))
        );
        assert_eq!(caddy_dev::reload::exit_code(ReloadOutcome::Failed(status)), 1);
    }
    let (mut m, _) = ReloadMachine::start(&env());
    m.step(ReloadEvent::Exists(true));
    assert_eq!(
        m.step(ReloadEvent::SpawnFailed),
        ReloadAction::Finish(ReloadOutcome::NotStarted)
    );
    assert_eq!(caddy_dev::reload::exit_code(ReloadOutcome::NotStarted), 1);
}
