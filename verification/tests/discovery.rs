//! Browser and installed-software discovery over registry snapshots.

use tray_bridge::browsers::{
    collect_webbrowser, collect_webbrowser_info, command_words, get_default_webbrowser_command,
    get_default_webbrowser_id, get_installed_software, get_webbrowser_command,
    BrowserRegistration, ProgIdCommand, RegError, RegistrySnapshot, UninstallEntry,
};

fn registration(key: &str, name: Option<&str>, id: Option<&str>) -> BrowserRegistration {
    BrowserRegistration {
        key: String::from(key),
        display_name: name.map(String::from),
        https_prog_id: id.map(String::from),
    }
}

fn command(prog_id: &str, command: Option<&str>) -> ProgIdCommand {
    ProgIdCommand { prog_id: String::from(prog_id), command: command.map(String::from) }
}

fn uninstall(
    key: &str,
    name: Option<&str>,
    version: Option<&str>,
    path: Option<&str>,
) -> UninstallEntry {
    UninstallEntry {
        key: String::from(key),
        display_name: name.map(String::from),
        display_version: version.map(String::from),
        install_location: path.map(String::from),
    }
}

fn empty_snapshot() -> RegistrySnapshot {
    RegistrySnapshot {
        default_http_prog_id: None,
        registrations: Vec::new(),
        commands: Vec::new(),
        uninstall: Vec::new(),
    }
}

#[test]
fn default_id_found_and_missing() {
    let mut reg = empty_snapshot();
    assert_eq!(get_default_webbrowser_id(&reg), Err(RegError::NotFound));
    reg.default_http_prog_id = Some(String::from("FirefoxURL"));
    assert_eq!(get_default_webbrowser_id(&reg), Ok(String::from("FirefoxURL")));
}

#[test]
fn command_lookup_finds_first_match() {
    let mut reg = empty_snapshot();
    reg.commands = vec![
        command("ChromeHTML", Some("\"C:\\chrome.exe\" -- \"%1\"")),
        command("FirefoxURL", Some("\"C:\\firefox.exe\" %1")),
        command("EdgeHTM", None),
    ];
    assert_eq!(
        get_webbrowser_command(&reg, "FirefoxURL"),
        Ok(String::from("\"C:\\firefox.exe\" %1"))
    );
    assert_eq!(get_webbrowser_command(&reg, "EdgeHTM"), Err(RegError::NotFound));
    assert_eq!(get_webbrowser_command(&reg, "Missing"), Err(RegError::NotFound));
}

#[test]
fn default_command_composes_both_lookups() {
    let mut reg = empty_snapshot();
    reg.commands = vec![command("FirefoxURL", Some("run firefox"))];
    assert_eq!(get_default_webbrowser_command(&reg), Err(RegError::NotFound));
    reg.default_http_prog_id = Some(String::from("FirefoxURL"));
    assert_eq!(get_default_webbrowser_command(&reg), Ok(String::from("run firefox")));
    reg.default_http_prog_id = Some(String::from("Unknown"));
    assert_eq!(get_default_webbrowser_command(&reg), Err(RegError::NotFound));
}

#[test]
fn collect_dedupes_across_roots_last_wins() {
    let mut reg = empty_snapshot();
    reg.registrations = vec![
        registration("FIREFOX.EXE", Some("Firefox (machine)"), Some("FirefoxURL")),
        registration("chrome", Some("Chrome"), Some("ChromeHTML")),
        registration("incomplete", None, Some("NoName")),
        registration("nameless", Some("No id"), None),
        registration("FIREFOX.EXE", Some("Firefox (user)"), Some("FirefoxURL")),
    ];
    let mut found = collect_webbrowser(&reg);
    found.sort();
    assert_eq!(
        found,
        vec![
            (String::from("ChromeHTML"), String::from("Chrome")),
            (String::from("FirefoxURL"), String::from("Firefox (user)")),
        ]
    );
}

#[test]
fn info_joins_names_with_commands() {
    let mut reg = empty_snapshot();
    reg.registrations = vec![
        registration("firefox", Some("Firefox"), Some("FirefoxURL")),
        registration("chrome", Some("Chrome"), Some("ChromeHTML")),
        registration("edge", Some("Edge"), Some("EdgeHTM")),
    ];
    reg.commands = vec![
        command("FirefoxURL", Some("run firefox")),
        command("ChromeHTML", Some("run chrome")),
    ];
    let mut infos: Vec<(String, String, String)> = collect_webbrowser_info(&reg)
        .into_iter()
        .map(|(id, info)| (id, info.name, info.command))
        .collect();
    infos.sort();
    assert_eq!(
        infos,
        vec![
            (String::from("ChromeHTML"), String::from("Chrome"), String::from("run chrome")),
            (String::from("FirefoxURL"), String::from("Firefox"), String::from("run firefox")),
        ]
    );
}

#[test]
fn software_keeps_complete_entries_in_order() {
    let mut reg = empty_snapshot();
    reg.uninstall = vec![
        uninstall("app-b", Some("B"), Some("2.0"), Some("C:\\b")),
        uninstall("no-version", Some("X"), None, Some("C:\\x")),
        uninstall("app-a", Some("A"), Some("1.0"), Some("C:\\a")),
        uninstall("no-name", None, Some("3.0"), Some("C:\\y")),
        uninstall("no-path", Some("Y"), Some("4.0"), None),
    ];
    let softwares = get_installed_software(&reg);
    let flat: Vec<(String, String, String, String)> = softwares
        .into_iter()
        .map(|(id, info)| (id, info.name, info.version, info.path))
        .collect();
    assert_eq!(
        flat,
        vec![
            (
                String::from("app-b"),
                String::from("B"),
                String::from("2.0"),
                String::from("C:\\b")
            ),
            (
                String::from("app-a"),
                String::from("A"),
                String::from("1.0"),
                String::from("C:\\a")
            ),
        ]
    );
}

#[test]
fn command_words_splits_like_a_shell() {
    assert_eq!(
        command_words("\"C:\\Program Files\\x.exe\" --flag %1"),
        vec![String::from("C:\\Program Files\\x.exe"), String::from("--flag"), String::from("%1")]
    );
    assert_eq!(command_words("plain words"), vec![String::from("plain"), String::from("words")]);
    assert_eq!(command_words(""), Vec::<String>::new());
    // Mismatched quoting does not parse: no words at all.
    assert_eq!(command_words("\"unterminated"), Vec::<String>::new());
}
