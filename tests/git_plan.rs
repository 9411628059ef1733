use envsetup::git::{check_if_in_repo, process_git_cmds, validate_git_conf, GitOptions};
use envsetup::mapping::KeyValues;

fn section(pairs: &[(&str, &str)]) -> GitOptions {
    let mut g = GitOptions::new();
    for (k, v) in pairs {
        g.insert(k.to_string(), v.to_string());
    }
    g
}

#[test]
fn git_section_with_unknown_key_is_refused() {
    assert!(!validate_git_conf(&section(&[("tag", "v1")])));
    assert!(!validate_git_conf(&section(&[("repo", "X"), ("depth", "1")])));
    assert!(!validate_git_conf(&section(&[("branch", "Y"), ("repo", "X"), ("remote", "o")])));
}

#[test]
fn empty_git_section_is_refused() {
    assert!(!validate_git_conf(&GitOptions::new()));
}

#[test]
fn recognized_git_sections_are_accepted() {
    assert!(validate_git_conf(&section(&[("repo", "X")])));
    assert!(validate_git_conf(&section(&[("branch", "Y")])));
    assert!(validate_git_conf(&section(&[("repo", "X"), ("branch", "Y")])));
}

#[test]
fn clone_comes_before_checkout() {
    let expected = vec!["git clone https://x".to_string(), "git checkout main".to_string()];
    assert_eq!(process_git_cmds(&section(&[("repo", "https://x"), ("branch", "main")])), expected);
    assert_eq!(process_git_cmds(&section(&[("branch", "main"), ("repo", "https://x")])), expected);
}

#[test]
fn empty_git_section_gives_no_commands() {
    assert!(process_git_cmds(&GitOptions::new()).is_empty());
}

#[test]
fn unknown_git_keys_give_no_command() {
    let g = section(&[("depth", "1"), ("branch", "dev")]);
    assert_eq!(process_git_cmds(&g), vec!["git checkout dev".to_string()]);
}

#[test]
fn later_value_replaces_earlier() {
    let g = section(&[("repo", "a"), ("repo", "b")]);
    assert_eq!(process_git_cmds(&g), vec!["git clone b".to_string()]);
    assert_eq!(g.keys(), vec!["repo".to_string()]);
    assert_eq!(g.get(&"repo".to_string()), Some(&"b".to_string()));
    assert_eq!(g.get(&"branch".to_string()), None);
}

#[test]
fn repository_check_command() {
    assert_eq!(check_if_in_repo("."), "cd . && git rev-parse --is-inside-work-tree");
    assert_eq!(check_if_in_repo("/tmp/x"), "cd /tmp/x && git rev-parse --is-inside-work-tree");
}

#[test]
fn key_values_keep_first_insertion_order() {
    let mut m = KeyValues::new();
    assert_eq!(m.len(), 0);
    m.insert("b".to_string(), "1".to_string());
    m.insert("a".to_string(), "2".to_string());
    m.insert("b".to_string(), "3".to_string());
    assert_eq!(m.len(), 2);
    assert_eq!(m.keys(), vec!["b".to_string(), "a".to_string()]);
    assert_eq!(m.get(&"b".to_string()), Some(&"3".to_string()));
}
