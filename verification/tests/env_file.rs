use linkup_cli::env_file::{
    clear_env_content, clear_env_content_is_defined, env_block, env_file_for, has_linkup_block, is_dev_env_file,
    separator, use_paid_tunnels, write_env_content,
};

const SEP: &str = "##### Linkup environment - DO NOT EDIT #####";

/// What writing a dev env file into an env file leaves in it.
fn written(existing: &str, dev: &str) -> String {
    write_env_content(existing, dev).unwrap_or_else(|| existing.to_string())
}

/// What clearing an env file leaves in it.
fn cleared(existing: &str) -> String {
    assert!(clear_env_content_is_defined(existing));
    match clear_env_content(existing) {
        Some(bytes) => String::from_utf8(bytes).unwrap(),
        None => existing.to_string(),
    }
}

#[test]
fn write_to_env_file_empty_target() {
    let file_content = written("", "SOURCE_1=VALUE_1");
    let expected_content = format!("\n{}\n{}\n{}\n", SEP, "SOURCE_1=VALUE_1", SEP);
    assert_eq!(file_content, expected_content);
}

#[test]
fn write_to_env_file_filled_target() {
    let file_content = written("EXISTING_1=VALUE_1\nEXISTING_2=VALUE_2", "SOURCE_1=VALUE_1");
    let expected_content =
        format!("{}\n{}\n{}\n{}\n{}\n", "EXISTING_1=VALUE_1", "EXISTING_2=VALUE_2", SEP, "SOURCE_1=VALUE_1", SEP);
    assert_eq!(file_content, expected_content);
}

#[test]
fn clear_env_file_only_linkup_env() {
    let content = format!("\n{}\n{}\n{}\n", SEP, "SOURCE_1=VALUE_1", SEP);
    assert_eq!("\n", cleared(&content));
}

#[test]
fn clear_env_file_existing_env_before_linkup() {
    let content = format!("{}\n{}\n{}\n\n{}\n{}\n", "EXISTING_1=VALUE_1", "EXISTING_2=VALUE_2", SEP, "SOURCE_1=VALUE_1", SEP);
    let expected_content = format!("{}\n{}\n", "EXISTING_1=VALUE_1", "EXISTING_2=VALUE_2",);
    assert_eq!(expected_content, cleared(&content));
}

#[test]
fn clear_env_file_existing_env_before_and_after_linkup() {
    let content = format!(
        "{}\n{}\n{}\n\n{}\n{}\n\n{}\n{}",
        "EXISTING_1=VALUE_1", "EXISTING_2=VALUE_2", SEP, "SOURCE_1=VALUE_1", SEP, "EXISTING_3=VALUE_3", "EXISTING_4=VALUE_4",
    );
    let expected_content = format!(
        "{}\n{}\n{}\n{}\n",
        "EXISTING_1=VALUE_1", "EXISTING_2=VALUE_2", "EXISTING_3=VALUE_3", "EXISTING_4=VALUE_4",
    );
    assert_eq!(expected_content, cleared(&content));
}

#[test]
fn clear_env_file_no_new_line_after_linkup() {
    let content = format!("{}\n{}\n{}\n\n{}\n{}", "EXISTING_1=VALUE_1", "EXISTING_2=VALUE_2", SEP, "SOURCE_1=VALUE_1", SEP);
    let expected_content = format!("{}\n{}\n", "EXISTING_1=VALUE_1", "EXISTING_2=VALUE_2",);
    assert_eq!(expected_content, cleared(&content));
}

#[test]
fn clear_env_file_multiple_new_lines_after_linkup() {
    let content =
        format!("{}\n{}\n{}\n\n{}\n{}\n\n\n\n", "EXISTING_1=VALUE_1", "EXISTING_2=VALUE_2", SEP, "SOURCE_1=VALUE_1", SEP);
    let expected_content = format!("{}\n{}\n", "EXISTING_1=VALUE_1", "EXISTING_2=VALUE_2",);
    assert_eq!(expected_content, cleared(&content));
}

#[test]
fn write_and_clear() {
    let file_content = written("EXISTING_1=VALUE_1\nEXISTING_2=VALUE_2", "SOURCE_1=VALUE_1\nSOURCE_2=VALUE_2");
    let expected_content = format!(
        "{}\n{}\n{}\n{}\n{}\n{}\n",
        "EXISTING_1=VALUE_1", "EXISTING_2=VALUE_2", SEP, "SOURCE_1=VALUE_1", "SOURCE_2=VALUE_2", SEP,
    );
    assert_eq!(file_content, expected_content);

    let file_content = cleared(&file_content);
    let expected_content = format!("{}\n{}\n", "EXISTING_1=VALUE_1", "EXISTING_2=VALUE_2",);
    assert_eq!(file_content, expected_content);
}

#[test]
fn writing_twice_changes_nothing() {
    let once = written("A=1\n", "B=2\n");
    let twice = written(&once, "B=2\n");
    assert_eq!(once, twice);
}

#[test]
fn clearing_without_block_leaves_file() {
    assert!(clear_env_content("A=1\nB=2").is_none());
    assert!(!has_linkup_block("A=1\nB=2"));
}

#[test]
fn dev_env_block_drops_one_trailing_newline() {
    assert_eq!(env_block("X=1\n"), format!("\n{}\nX=1\n{}\n", SEP, SEP));
    assert_eq!(env_block("X=1\n\n"), format!("\n{}\nX=1\n\n{}\n", SEP, SEP));
    assert_eq!(separator(), SEP);
}

#[test]
fn dev_env_file_names() {
    assert!(is_dev_env_file(".env.development.linkup"));
    assert!(!is_dev_env_file(".env.development"));
    assert!(!is_dev_env_file("env.linkup"));
    assert_eq!(env_file_for(".env.development.linkup"), ".env.development");
    assert!(use_paid_tunnels(true, true, true));
    assert!(!use_paid_tunnels(true, false, true));
}

#[test]
fn writing_twice_writes_once() {
    let once = write_env_content("A=1\n", "B=2\n").unwrap();
    assert_eq!(once, format!("A=1\n\n{}\nB=2\n{}\n", SEP, SEP));
    assert!(has_linkup_block(&once));
    assert_eq!(write_env_content(&once, "C=3"), None);
}
