use cheime_tip::studio::{save_request, save_yaml_of};
use cheime_tip::cli::{
    bin_dir, emoji_data_source, engine_options, installation_dir, installer_command, line_key,
    stdin_line, EmojiDataSource, InstallerCommand, StdinLine,
};

fn args(list: &[&str]) -> Vec<String> {
    list.iter().map(|a| a.to_string()).collect()
}

#[test]
fn installer_commands_default_to_status() {
    assert_eq!(installer_command(None), InstallerCommand::Status);
    assert_eq!(installer_command(Some("install")), InstallerCommand::Install);
    assert_eq!(installer_command(Some("uninstall")), InstallerCommand::Uninstall);
    assert_eq!(installer_command(Some("status")), InstallerCommand::Status);
    assert_eq!(
        installer_command(Some("frob")),
        InstallerCommand::Unknown("frob".into())
    );
}

#[test]
fn installer_paths() {
    let dir = installation_dir(r"C:\Users\me\AppData\Local");
    assert_eq!(dir, r"C:\Users\me\AppData\Local\CheIME");
    assert_eq!(bin_dir(&dir), r"C:\Users\me\AppData\Local\CheIME\bin");
}

#[test]
fn engine_options_read_flags_and_values() {
    let o = engine_options(
        &args(&["engine", "--pipe", "p", "--dict-dir", "d", "--stdin", "--bogus", "--config", "c"]),
        "default",
    );
    assert_eq!(o.pipe_name, "p");
    assert_eq!(o.dict_dir.as_deref(), Some("d"));
    assert_eq!(o.config_path.as_deref(), Some("c"));
    assert!(o.stdin_mode);
    assert!(!o.help);
}

#[test]
fn engine_options_stop_at_help_and_ignore_a_missing_value() {
    let o = engine_options(&args(&["engine", "--help", "--stdin"]), "default");
    assert!(o.help);
    assert!(!o.stdin_mode);
    let o = engine_options(&args(&["engine", "--pipe"]), "default");
    assert_eq!(o.pipe_name, "default");
}

#[test]
fn stdin_lines_skip_quit_or_carry_input() {
    assert_eq!(stdin_line(""), StdinLine::Skip);
    assert_eq!(stdin_line("quit"), StdinLine::Quit);
    assert_eq!(stdin_line("exit"), StdinLine::Quit);
    assert_eq!(stdin_line("n"), StdinLine::Input("n".into()));
    assert_eq!(line_key("nihao"), 'n');
    assert_eq!(line_key(""), 'a');
}

#[test]
fn studio_saves_only_save_messages_with_yaml() {
    assert_eq!(
        save_request(r#"{"type":"save","yaml":"style: {}\n"}"#),
        Some("style: {}\n".to_string())
    );
    assert_eq!(save_request(r#"{"type":"load","yaml":"x"}"#), None);
    assert_eq!(save_request(r#"{"type":"save"}"#), None);
    assert_eq!(save_request(r#"{"type":"save","yaml":3}"#), None);
    assert_eq!(save_request("not json"), None);
    assert_eq!(
        save_yaml_of(Some((Some("save".into()), Some("y".into())))),
        Some("y".to_string())
    );
    assert_eq!(save_yaml_of(Some((None, Some("y".into())))), None);
}

#[test]
fn emoji_data_prefers_absolute_then_schema_then_data_dir_then_default() {
    assert_eq!(emoji_data_source(true, false, false, false), EmojiDataSource::Configured);
    assert_eq!(emoji_data_source(true, true, true, true), EmojiDataSource::Configured);
    assert_eq!(emoji_data_source(false, true, true, true), EmojiDataSource::ConfigRelative);
    assert_eq!(emoji_data_source(false, false, true, true), EmojiDataSource::RuntimeRelative);
    assert_eq!(emoji_data_source(false, false, false, true), EmojiDataSource::Default);
    assert_eq!(emoji_data_source(false, false, false, false), EmojiDataSource::ConfigRelative);
}
