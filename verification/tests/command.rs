use ivi::command::{parse_command, unsupported_message, Command, UsageError};

fn words(list: &[&str]) -> Vec<String> {
    list.iter().map(|w| String::from(*w)).collect()
}

#[test]
fn create_takes_image_and_machine() {
    assert_eq!(
        parse_command(&words(&["ivi", "create", "ubuntu", "myvm"])),
        Ok(Command::Create { image: String::from("ubuntu"), vm_id: String::from("myvm") })
    );
}

#[test]
fn up_takes_machine() {
    assert_eq!(
        parse_command(&words(&["ivi", "up", "myvm"])),
        Ok(Command::Up { vm_id: String::from("myvm") })
    );
}

#[test]
fn extra_arguments_are_ignored() {
    assert_eq!(
        parse_command(&words(&["ivi", "create", "centos", "a", "b", "c"])),
        Ok(Command::Create { image: String::from("centos"), vm_id: String::from("a") })
    );
    assert_eq!(
        parse_command(&words(&["ivi", "up", "a", "b"])),
        Ok(Command::Up { vm_id: String::from("a") })
    );
}

#[test]
fn other_subcommands_are_unsupported() {
    for name in ["foo", "Create", "UP", "destroy", "", "--help"] {
        assert_eq!(
            parse_command(&words(&["ivi", name, "x", "y"])),
            Ok(Command::Unsupported { name: String::from(name) })
        );
    }
}

#[test]
fn the_program_name_is_not_a_subcommand() {
    assert_eq!(parse_command(&words(&["create"])), Err(UsageError::MissingSubcommand));
    assert_eq!(
        parse_command(&words(&["create", "up", "vm"])),
        Ok(Command::Up { vm_id: String::from("vm") })
    );
}

#[test]
fn too_few_words_are_usage_errors() {
    assert_eq!(parse_command(&words(&[])), Err(UsageError::MissingSubcommand));
    assert_eq!(parse_command(&words(&["ivi"])), Err(UsageError::MissingSubcommand));
    assert_eq!(
        parse_command(&words(&["ivi", "create"])),
        Err(UsageError::MissingCreateArguments)
    );
    assert_eq!(
        parse_command(&words(&["ivi", "create", "ubuntu"])),
        Err(UsageError::MissingCreateArguments)
    );
    assert_eq!(parse_command(&words(&["ivi", "up"])), Err(UsageError::MissingUpArguments));
}

#[test]
fn usage_messages() {
    assert_eq!(
        UsageError::MissingSubcommand.message(),
        "Missing sub-command: expected create or up"
    );
    assert_eq!(UsageError::MissingCreateArguments.message(), "Usage: create <image> <vm_id>");
    assert_eq!(UsageError::MissingUpArguments.message(), "Usage: up <vm_id>");
}

#[test]
fn unsupported_message_quotes_the_name() {
    assert_eq!(unsupported_message("foo"), "Unsupported sub-command \"foo\"");
    assert_eq!(unsupported_message(""), "Unsupported sub-command \"\"");
}
