use chatguard::command::{parse_command, Command};

#[test]
fn recognizes_plain_commands() {
    assert_eq!(parse_command("/start"), Some(Command::Start));
    assert_eq!(parse_command("/confirm"), Some(Command::Confirm));
}

#[test]
fn strips_bot_name_suffix() {
    assert_eq!(parse_command("/start@gatekeeper_bot"), Some(Command::Start));
    assert_eq!(parse_command("/confirm@gatekeeper_bot"), Some(Command::Confirm));
}

#[test]
fn reads_only_the_first_token() {
    assert_eq!(parse_command("/start now please"), Some(Command::Start));
    assert_eq!(parse_command("  /confirm  "), Some(Command::Confirm));
    assert_eq!(parse_command("please /start"), None);
}

#[test]
fn rejects_unknown_and_miscased_commands() {
    assert_eq!(parse_command("/stop"), None);
    assert_eq!(parse_command("/Start"), None);
    assert_eq!(parse_command("/CONFIRM"), None);
    assert_eq!(parse_command("start"), None);
    assert_eq!(parse_command(""), None);
    assert_eq!(parse_command("   "), None);
    assert_eq!(parse_command("/starts"), None);
}

#[test]
fn suffix_alone_does_not_make_a_command() {
    assert_eq!(parse_command("@gatekeeper_bot /start"), None);
    assert_eq!(parse_command("/start@"), Some(Command::Start));
}
