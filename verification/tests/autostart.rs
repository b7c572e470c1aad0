use ludusavi::resource::autostart::{autostart_command, RUN_KEY_PATH, VALUE_NAME};

#[test]
fn command_quotes_executable_and_starts_minimized() {
    assert_eq!(
        autostart_command(r"C:\Program Files\ludusavi\ludusavi.exe"),
        "\"C:\\Program Files\\ludusavi\\ludusavi.exe\" --minimized"
    );
}

#[test]
fn command_of_empty_path() {
    assert_eq!(autostart_command(""), "\"\" --minimized");
}

#[test]
fn registry_location() {
    assert_eq!(RUN_KEY_PATH, r"Software\Microsoft\Windows\CurrentVersion\Run");
    assert_eq!(VALUE_NAME, "Ludusavi");
}
