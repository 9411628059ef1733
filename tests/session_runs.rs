use envsetup::config::{EnvSetupConfig, LanguageOptions};
use envsetup::exec::Platform;
use envsetup::git::GitOptions;
use envsetup::session::{run, Action, Session, Stage};

fn config(language: &str, git: &[(&str, &str)], setup: Option<&[&str]>, container: Option<&str>) -> EnvSetupConfig {
    let mut g = GitOptions::new();
    for (k, v) in git {
        g.insert(k.to_string(), v.to_string());
    }
    EnvSetupConfig {
        language: language.to_string(),
        language_options: None,
        git: g,
        setup_cmds: setup.map(|s| s.iter().map(|c| c.to_string()).collect()),
        container_system: container.map(|c| c.to_string()),
    }
}

/// Drives a session: queries are answered from `answers` in order, every run
/// step reports `step_ok`. Returns the queries asked and the steps run.
fn drive(s: &mut Session, answers: &[bool], step_ok: bool) -> (Vec<String>, Vec<String>) {
    let mut queries = Vec::new();
    let mut steps = Vec::new();
    loop {
        match s.next_action() {
            Action::Query(c) => {
                let ok = answers[queries.len()];
                queries.push(c);
                s.advance(ok);
            }
            Action::Run(c) => {
                steps.push(c);
                s.advance(step_ok);
            }
            Action::Done => break,
        }
    }
    (queries, steps)
}

#[test]
fn python_project_outside_checkout() {
    let conf = config("python", &[("repo", "https://example/a.git")], Some(&["echo ok"]), None);
    let mut s = run(conf, Platform::Linux);
    let (queries, steps) = drive(&mut s, &[true, false], true);
    assert_eq!(
        queries,
        vec![
            "which python3".to_string(),
            "cd . && git rev-parse --is-inside-work-tree".to_string()
        ]
    );
    assert_eq!(steps, vec!["git clone https://example/a.git".to_string(), "echo ok".to_string()]);
    assert_eq!(s.git_results(), &vec![true]);
    assert_eq!(s.setup_results(), &vec![true]);
    assert_eq!(s.current_stage(), Stage::Finished);
}

#[test]
fn python_project_inside_checkout_skips_clone() {
    let conf = config("python", &[("repo", "https://example/a.git")], Some(&["echo ok"]), None);
    let mut s = run(conf, Platform::Linux);
    let (_, steps) = drive(&mut s, &[true, true], true);
    assert_eq!(steps, vec!["echo ok".to_string()]);
    assert!(s.git_results().is_empty());
    assert_eq!(s.setup_results(), &vec![true]);
}

#[test]
fn unsupported_language_runs_nothing() {
    let conf = config("cobol", &[("repo", "r")], Some(&["echo ok"]), None);
    let mut s = run(conf, Platform::Linux);
    assert_eq!(s.current_stage(), Stage::Rejected);
    let (queries, steps) = drive(&mut s, &[], true);
    assert!(queries.is_empty());
    assert!(steps.is_empty());
}

#[test]
fn missing_toolchain_refuses() {
    let conf = config("python", &[("repo", "r")], Some(&["echo ok"]), None);
    let mut s = run(conf, Platform::Linux);
    let (queries, steps) = drive(&mut s, &[false], true);
    assert_eq!(queries, vec!["which python3".to_string()]);
    assert!(steps.is_empty());
    assert_eq!(s.current_stage(), Stage::Rejected);
}

#[test]
fn rust_builds_before_git() {
    let conf = config("rust", &[("branch", "dev"), ("repo", "r")], None, None);
    let mut s = run(conf, Platform::Windows);
    let (queries, steps) = drive(&mut s, &[true, false], true);
    assert_eq!(
        queries,
        vec![
            "where rustup".to_string(),
            "cd . && git rev-parse --is-inside-work-tree".to_string()
        ]
    );
    assert_eq!(
        steps,
        vec!["cargo build".to_string(), "git clone r".to_string(), "git checkout dev".to_string()]
    );
    assert_eq!(s.current_stage(), Stage::Finished);
}

#[test]
fn failed_build_refuses() {
    let conf = config("rust", &[("repo", "r")], Some(&["echo ok"]), None);
    let mut s = run(conf, Platform::Linux);
    let (_, steps) = drive(&mut s, &[true], false);
    assert_eq!(steps, vec!["cargo build".to_string()]);
    assert_eq!(s.current_stage(), Stage::Rejected);
}

#[test]
fn bad_git_section_refuses_after_probe() {
    let conf = config("python", &[("tag", "v1")], Some(&["echo ok"]), None);
    let mut s = run(conf, Platform::Linux);
    let (queries, steps) = drive(&mut s, &[true], true);
    assert_eq!(queries.len(), 1);
    assert!(steps.is_empty());
    assert_eq!(s.current_stage(), Stage::Rejected);
}

#[test]
fn docker_is_probed_when_asked_for() {
    let conf = config("python", &[("repo", "r")], Some(&["echo ok"]), Some("docker"));
    let mut s = run(conf, Platform::MacOs);
    let (queries, steps) = drive(&mut s, &[true, true, true], true);
    assert_eq!(queries[1], "which docker".to_string());
    assert_eq!(steps, vec!["echo ok".to_string()]);

    let conf = config("python", &[("repo", "r")], Some(&["echo ok"]), Some("docker"));
    let mut s = run(conf, Platform::MacOs);
    let (queries, steps) = drive(&mut s, &[true, false], true);
    assert_eq!(queries.len(), 2);
    assert!(steps.is_empty());
    assert_eq!(s.current_stage(), Stage::Rejected);
}

#[test]
fn unknown_or_empty_container_refuses() {
    for name in ["podman", ""] {
        let conf = config("python", &[("repo", "r")], Some(&["echo ok"]), Some(name));
        let mut s = run(conf, Platform::Linux);
        let (queries, steps) = drive(&mut s, &[true], true);
        assert_eq!(queries.len(), 1);
        assert!(steps.is_empty());
        assert_eq!(s.current_stage(), Stage::Rejected);
    }
}

#[test]
fn failures_do_not_stop_later_commands() {
    let conf = config("python", &[("repo", "r"), ("branch", "b")], Some(&["false", "echo ok"]), None);
    let mut s = run(conf, Platform::Linux);
    let (_, steps) = drive(&mut s, &[true, false], false);
    assert_eq!(steps.len(), 4);
    assert_eq!(s.git_results(), &vec![false, false]);
    assert_eq!(s.setup_results(), &vec![false, false]);
    assert_eq!(s.current_stage(), Stage::Finished);
}

#[test]
fn absent_setup_commands_end_after_git() {
    let mut opts = LanguageOptions::new();
    opts.insert("version".to_string(), "3.10".to_string());
    assert_eq!(opts.get(&"version".to_string()), Some(&"3.10".to_string()));
    let mut conf = config("python", &[("repo", "r")], None, None);
    conf.language_options = Some(opts);
    let mut s = run(conf, Platform::Linux);
    let (_, steps) = drive(&mut s, &[true, true], true);
    assert!(steps.is_empty());
    assert_eq!(s.current_stage(), Stage::Finished);
}
