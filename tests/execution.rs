use envsetup::exec::{execute_cmd_list, shell_invocation, Outcome, Plan, Platform};
use envsetup::probe::{check_aptget_present, check_choco_present, check_homebrew_present, ensure_tool_present};

#[test]
fn empty_command_list_is_finished_at_once() {
    let e = execute_cmd_list(&[]);
    assert!(e.is_finished());
    assert!(e.next_command().is_none());
    assert!(e.results_so_far().is_empty());
}

#[test]
fn command_list_runs_in_order_past_failures() {
    let cmds = vec!["a".to_string(), "b".to_string(), "c".to_string()];
    let mut e = execute_cmd_list(&cmds);
    let mut seen = Vec::new();
    let mut ok = false;
    while let Some(c) = e.next_command() {
        seen.push(c.clone());
        e.record(ok);
        ok = !ok;
    }
    assert_eq!(seen, cmds);
    assert_eq!(e.results_so_far(), &vec![false, true, false]);
}

#[test]
fn plan_starts_empty_and_runs_its_commands() {
    let mut p = Plan::new();
    assert!(!p.requires_elevator);
    assert!(p.commands.is_empty());
    p.commands.push("echo one".to_string());
    let mut e = Plan::execute_plan(&p);
    assert_eq!(e.next_command(), Some(&"echo one".to_string()));
    e.record(true);
    assert!(e.is_finished());
    assert_eq!(e.results_so_far(), &vec![true]);
}

#[test]
fn outcome_success_policy() {
    assert!(Outcome::Exited(Some(0)).succeeded());
    assert!(!Outcome::Exited(Some(1)).succeeded());
    assert!(!Outcome::Exited(Some(127)).succeeded());
    assert!(!Outcome::Exited(None).succeeded());
    assert!(!Outcome::NotStarted.succeeded());
}

#[test]
fn shells_per_platform() {
    assert_eq!(shell_invocation(Platform::Windows), ("cmd".to_string(), "/C".to_string()));
    assert_eq!(shell_invocation(Platform::Linux), ("sh".to_string(), "-c".to_string()));
    assert_eq!(shell_invocation(Platform::MacOs), ("sh".to_string(), "-c".to_string()));
}

#[test]
fn tool_probe_commands() {
    assert_eq!(ensure_tool_present("git", Platform::Linux), "which git");
    assert_eq!(ensure_tool_present("git", Platform::Windows), "where git");
}

#[test]
fn package_manager_probes_by_platform() {
    assert_eq!(check_homebrew_present(Platform::MacOs), Some("which brew".to_string()));
    assert_eq!(check_homebrew_present(Platform::Linux), None);
    assert_eq!(check_aptget_present(Platform::Linux), Some("which apt-get".to_string()));
    assert_eq!(check_aptget_present(Platform::Windows), None);
    assert_eq!(check_choco_present(Platform::Windows), Some("where choco".to_string()));
    assert_eq!(check_choco_present(Platform::MacOs), None);
}

#[test]
fn plan_preview_lines() {
    let mut p = Plan::new();
    assert!(p.preview_plan().is_empty());
    p.commands.push("git clone r".to_string());
    p.commands.push("echo ok".to_string());
    assert_eq!(p.preview_plan(), vec!["+ git clone r".to_string(), "+ echo ok".to_string()]);
}
