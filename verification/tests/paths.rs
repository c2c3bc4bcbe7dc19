use linkup_cli::domains::find_isolated_suffixes;
use linkup_cli::paths::{
    dotenv_value, first_dotenv_value, lines, linkup_certs_dir_path, linkup_dir_path, linkup_file_path, push_path, split_str,
    state_file_name,
};

#[test]
fn paths_in_linkup_dir() {
    assert_eq!(linkup_file_path("/home/me/.linkup", "state"), "/home/me/.linkup/state");
    assert_eq!(linkup_file_path("/home/me/.linkup/", "state"), "/home/me/.linkup/state");
    assert_eq!(linkup_file_path("/home/me/.linkup", "/abs"), "/abs");
    assert_eq!(linkup_certs_dir_path("/x"), "/x/certs");
    assert_eq!(push_path("", "a"), "a");
    let p = std::path::PathBuf::from("/home/me").join("state");
    assert_eq!(linkup_file_path("/home/me", "state"), p.to_str().unwrap());
}

#[test]
fn linkup_dir_precedence() {
    assert_eq!(linkup_dir_path(Some("/explicit/instance"), Some("/dot"), None, Some("/home/me")), "/explicit/instance");
    assert_eq!(linkup_dir_path(Some(""), Some("/dot"), None, Some("/home/me")), "/dot");
    assert_eq!(linkup_dir_path(None, None, Some("/active"), Some("/home/me")), "/active");
    assert_eq!(linkup_dir_path(None, None, None, Some("/home/me")), "/home/me/.linkup");
    assert_eq!(linkup_dir_path(None, None, None, None), "/var/tmp/.linkup");
}

#[test]
fn state_file_names_round_trip() {
    assert_eq!(state_file_name(None), "state");
    assert_eq!(state_file_name(Some("wt1")), "state-wt1");
    let names = vec![state_file_name(None), state_file_name(Some("wt1")), "state-".to_string(), "other".to_string()];
    assert_eq!(find_isolated_suffixes(&names), vec!["wt1".to_string(), "".to_string()]);
}

#[test]
fn text_lines_like_str_lines() {
    for text in ["a\nb", "a\nb\n", "a\r\nb\r\n", "", "\n", "a\n\nb", "x\r", "\r\n\r\n"] {
        let expected: Vec<String> = text.lines().map(|l| l.to_string()).collect();
        assert_eq!(lines(text), expected, "lines of {:?}", text);
    }
    assert_eq!(split_str("a,b,,c", ','), vec!["a", "b", "", "c"]);
}

#[test]
fn test_dotenv_finds_linkup_home_and_config() {
    let content = "OTHER_VAR=foo\nLINKUP_HOME=/tmp/test-instance\nLINKUP_CONFIG=/tmp/worktree.yaml\n";
    assert_eq!(dotenv_value(content, "LINKUP_HOME"), Some("/tmp/test-instance".to_string()));
    assert_eq!(dotenv_value(content, "LINKUP_CONFIG"), Some("/tmp/worktree.yaml".to_string()));
}

#[test]
fn dotenv_values() {
    assert_eq!(dotenv_value("A=1\nLINKUP_HOME=  /x  \n", "LINKUP_HOME"), Some("/x".to_string()));
    assert_eq!(dotenv_value("LINKUP_HOME=\nLINKUP_HOME=/y", "LINKUP_HOME"), Some("/y".to_string()));
    assert_eq!(dotenv_value(" LINKUP_HOME=/x", "LINKUP_HOME"), None);
    assert_eq!(dotenv_value("LINKUP_HOMEX=/x", "LINKUP_HOME"), None);
    assert_eq!(dotenv_value("", "LINKUP_HOME"), None);
}

#[test]
fn test_dotenv_config_overrides_inherited() {
    let inherited = Some("/stale/main-worktree/linkup-config.yaml".to_string());
    let contents = vec![Some("LINKUP_CONFIG=/correct/worktree/linkup-config.worktree.yaml\n".to_string())];
    let found = first_dotenv_value(&contents, "LINKUP_CONFIG");
    let config = found.or(inherited);
    assert_eq!(
        config.as_deref(),
        Some("/correct/worktree/linkup-config.worktree.yaml"),
        "dotenv LINKUP_CONFIG should override inherited value"
    );
}

#[test]
fn test_dotenv_walks_up_directories() {
    // applications/editor and applications have no .env; their parent has one.
    let contents = vec![
        None,
        None,
        Some("LINKUP_HOME=/tmp/walk-instance\nLINKUP_CONFIG=/tmp/walk-config.yaml\n".to_string()),
        None,
    ];
    assert_eq!(
        first_dotenv_value(&contents, "LINKUP_HOME").as_deref(),
        Some("/tmp/walk-instance"),
        "should find LINKUP_HOME in ancestor .env"
    );
    assert_eq!(first_dotenv_value(&contents, "LINKUP_CONFIG").as_deref(), Some("/tmp/walk-config.yaml"));
}

#[test]
fn test_linkup_dir_path_with_env_var_also_sets_config() {
    let contents = vec![Some("LINKUP_CONFIG=/correct/worktree-config.yaml\n".to_string())];
    let result = linkup_dir_path(Some("/explicit/instance"), None, None, Some("/home/me"));
    assert_eq!(result, "/explicit/instance");
    let config = first_dotenv_value(&contents, "LINKUP_CONFIG").or(Some("/stale/main-config.yaml".to_string()));
    assert_eq!(
        config.as_deref(),
        Some("/correct/worktree-config.yaml"),
        "linkup_dir_path should correct LINKUP_CONFIG from .env even when LINKUP_HOME is set via env var"
    );
}

#[test]
fn dotenv_lookup_skips_files_without_the_key() {
    let contents = vec![Some("OTHER=1\n".to_string()), Some("LINKUP_HOME=\n".to_string()), Some("LINKUP_HOME=/up\n".to_string())];
    assert_eq!(first_dotenv_value(&contents, "LINKUP_HOME").as_deref(), Some("/up"));
    assert_eq!(first_dotenv_value(&[], "LINKUP_HOME"), None);
}

#[test]
fn saved_instances_are_listed_and_deleted_ones_are_not() {
    let saved = vec!["state".to_string(), "state-alpha".to_string(), "Caddyfile".to_string(), "state-beta".to_string()];
    assert!(find_isolated_suffixes(&saved).contains(&"alpha".to_string()));
    let deleted: Vec<String> = saved.into_iter().filter(|n| n != "state-alpha").collect();
    assert!(!find_isolated_suffixes(&deleted).contains(&"alpha".to_string()));
    assert_eq!(find_isolated_suffixes(&deleted), vec!["beta".to_string()]);
}
