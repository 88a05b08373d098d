use cosmic_panel_button::{Descriptor, EntryFields, ResolveError};

fn fields(name: Option<&str>, icon: Option<&str>, command: Option<&str>) -> EntryFields {
    EntryFields {
        name: name.map(String::from),
        icon: icon.map(String::from),
        command: command.map(String::from),
    }
}

#[test]
fn from_fields_keeps_the_three_values() {
    let d = Descriptor::from_fields(fields(Some("Firefox"), Some("firefox"), Some("firefox %u")))
        .unwrap();
    assert_eq!(d.name(), "Firefox");
    assert_eq!(d.icon(), Some("firefox"));
    assert_eq!(d.command(), "firefox %u");
}

#[test]
fn from_fields_without_icon() {
    let d = Descriptor::from_fields(fields(Some("Files"), None, Some("nautilus"))).unwrap();
    assert_eq!(d.name(), "Files");
    assert_eq!(d.icon(), None);
    assert_eq!(d.command(), "nautilus");
}

#[test]
fn from_fields_keeps_an_empty_icon() {
    let d = Descriptor::from_fields(fields(Some("Files"), Some(""), Some("nautilus"))).unwrap();
    assert_eq!(d.icon(), Some(""));
}

#[test]
fn from_fields_keeps_bytes_as_they_are() {
    let d = Descriptor::from_fields(fields(
        Some("Ünïcödé  App "),
        None,
        Some("sh -c 'echo \"$HOME\"' %U"),
    ))
    .unwrap();
    assert_eq!(d.name(), "Ünïcödé  App ");
    assert_eq!(d.command(), "sh -c 'echo \"$HOME\"' %U");
}

#[test]
fn from_fields_without_name() {
    let r = Descriptor::from_fields(fields(None, Some("x"), Some("run")));
    assert_eq!(r.err(), Some(ResolveError::MissingName));
}

#[test]
fn from_fields_with_empty_name() {
    let r = Descriptor::from_fields(fields(Some(""), None, Some("run")));
    assert_eq!(r.err(), Some(ResolveError::MissingName));
}

#[test]
fn from_fields_without_command() {
    let r = Descriptor::from_fields(fields(Some("App"), None, None));
    assert_eq!(r.err(), Some(ResolveError::MissingCommand));
}

#[test]
fn from_fields_with_empty_command() {
    let r = Descriptor::from_fields(fields(Some("App"), Some("icon"), Some("")));
    assert_eq!(r.err(), Some(ResolveError::MissingCommand));
}

#[test]
fn from_fields_with_empty_name_and_no_command_lacks_the_command() {
    let r = Descriptor::from_fields(fields(Some(""), None, None));
    assert_eq!(r.err(), Some(ResolveError::MissingCommand));
    let r = Descriptor::from_fields(fields(Some(""), Some("icon"), None));
    assert_eq!(r.err(), Some(ResolveError::MissingCommand));
}

#[test]
fn from_fields_with_no_name_and_empty_command_lacks_the_name() {
    let r = Descriptor::from_fields(fields(None, None, Some("")));
    assert_eq!(r.err(), Some(ResolveError::MissingName));
}

#[test]
fn from_fields_reports_the_name_first() {
    let r = Descriptor::from_fields(fields(None, None, None));
    assert_eq!(r.err(), Some(ResolveError::MissingName));
    let r = Descriptor::from_fields(fields(Some(""), None, Some("")));
    assert_eq!(r.err(), Some(ResolveError::MissingName));
}

#[test]
fn descriptor_clone_is_equal() {
    let d = Descriptor::from_fields(fields(Some("A"), Some("b"), Some("c"))).unwrap();
    let e = d.clone();
    assert_eq!(e.name(), d.name());
    assert_eq!(e.icon(), d.icon());
    assert_eq!(e.command(), d.command());
}

#[test]
fn message_of_not_found() {
    assert_eq!(
        ResolveError::NotFound.message("nonexistent-app-xyz.desktop"),
        "Failed to find valid desktop file 'nonexistent-app-xyz.desktop' in search paths"
    );
}

#[test]
fn message_of_missing_name() {
    assert_eq!(
        ResolveError::MissingName.message("firefox.desktop"),
        "Desktop file 'firefox.desktop' doesn't have `Name`"
    );
}

#[test]
fn message_of_missing_command() {
    assert_eq!(
        ResolveError::MissingCommand.message("firefox.desktop"),
        "Desktop file 'firefox.desktop' doesn't have `Exec`"
    );
}

#[test]
fn errors_are_distinct() {
    assert_ne!(ResolveError::NotFound, ResolveError::MissingName);
    assert_ne!(ResolveError::NotFound, ResolveError::MissingCommand);
    assert_ne!(ResolveError::MissingName, ResolveError::MissingCommand);
}
