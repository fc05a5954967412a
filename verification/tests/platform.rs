use ivi::platform::Platform;
use ivi::tool::{command_line, vagrant};

#[test]
fn unix_reads_home() {
    assert_eq!(Platform::Unix.home_variable(), "HOME");
    assert_eq!(Platform::Unix.separator(), "/");
    assert_eq!(Platform::Unix.config_subpath(), ".config/ivi");
}

#[test]
fn windows_reads_appdata() {
    assert_eq!(Platform::Windows.home_variable(), "APPDATA");
    assert_eq!(Platform::Windows.separator(), "\\");
    assert_eq!(Platform::Windows.config_subpath(), "ivi");
}

#[test]
fn config_root_on_unix() {
    assert_eq!(Platform::Unix.config_root("/home/ann"), "/home/ann/.config/ivi");
}

#[test]
fn config_root_on_windows() {
    assert_eq!(
        Platform::Windows.config_root("C:\\Users\\ann\\AppData\\Roaming"),
        "C:\\Users\\ann\\AppData\\Roaming\\ivi"
    );
}

#[test]
fn join_puts_one_separator_between() {
    assert_eq!(Platform::Unix.join("/a/b", "c"), "/a/b/c");
    assert_eq!(Platform::Windows.join("C:\\a", "c"), "C:\\a\\c");
    assert_eq!(Platform::Unix.join("", ""), "/");
}

#[test]
fn missing_variable_is_named() {
    assert_eq!(Platform::Unix.missing_home_message(), "HOME environmental variable is not set.");
    assert_eq!(
        Platform::Windows.missing_home_message(),
        "APPDATA environmental variable is not set."
    );
}

#[test]
fn command_line_is_tool_space_subcommand() {
    assert_eq!(command_line("up"), "vagrant up");
    assert_eq!(command_line("halt --force"), "vagrant halt --force");
    assert_eq!(command_line(""), "vagrant ");
}

#[test]
fn unix_runs_the_tool_through_sh() {
    let invocation = vagrant(Platform::Unix, "up", "/home/ann/.config/ivi/myvm");
    assert_eq!(invocation.program, "sh");
    assert_eq!(invocation.args, vec![String::from("-c"), String::from("vagrant up")]);
    assert_eq!(invocation.dir, "/home/ann/.config/ivi/myvm");
}

#[test]
fn windows_runs_the_tool_through_cmd() {
    let invocation = vagrant(Platform::Windows, "up", "C:\\ivi\\myvm");
    assert_eq!(invocation.program, "cmd");
    assert_eq!(invocation.args, vec![String::from("/C"), String::from("vagrant up")]);
    assert_eq!(invocation.dir, "C:\\ivi\\myvm");
}
