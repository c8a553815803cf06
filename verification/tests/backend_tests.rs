use scrotto::backend::{
    classify_session, default_backend, desktop_mentions_gnome, resolve_backend, split_colon,
    Backend, SessionType,
};

#[test]
fn classify_wayland_any_case() {
    assert_eq!(classify_session("wayland"), SessionType::Wayland);
    assert_eq!(classify_session("Wayland"), SessionType::Wayland);
    assert_eq!(classify_session("WAYLAND"), SessionType::Wayland);
}

#[test]
fn classify_x11_any_case() {
    assert_eq!(classify_session("x11"), SessionType::X11);
    assert_eq!(classify_session("X11"), SessionType::X11);
}

#[test]
fn classify_other_is_unknown() {
    assert_eq!(classify_session("tty"), SessionType::Unknown);
    assert_eq!(classify_session(""), SessionType::Unknown);
    assert_eq!(classify_session("waylandish"), SessionType::Unknown);
}

#[test]
fn backend_from_str_accepts_known_names() {
    assert_eq!(Backend::from_str("auto"), Some(Backend::Auto));
    assert_eq!(Backend::from_str("AUTO"), Some(Backend::Auto));
    assert_eq!(Backend::from_str("portal"), Some(Backend::Portal));
    assert_eq!(Backend::from_str("Portal"), Some(Backend::Portal));
}

#[test]
fn backend_from_str_rejects_everything_else() {
    assert_eq!(Backend::from_str("bogus"), None);
    assert_eq!(Backend::from_str(""), None);
    assert_eq!(Backend::from_str("porta"), None);
    assert_eq!(Backend::from_str("portals"), None);
}

#[test]
fn split_colon_plain() {
    let parts = split_colon("ubuntu:GNOME");
    assert_eq!(parts, vec!["ubuntu".to_string(), "GNOME".to_string()]);
}

#[test]
fn split_colon_no_colon_is_one_component() {
    assert_eq!(split_colon("GNOME"), vec!["GNOME".to_string()]);
}

#[test]
fn split_colon_empty_and_bare_colon() {
    assert_eq!(split_colon(""), vec!["".to_string()]);
    assert_eq!(split_colon(":"), vec!["".to_string(), "".to_string()]);
    assert_eq!(
        split_colon("a::b"),
        vec!["a".to_string(), "".to_string(), "b".to_string()]
    );
}

#[test]
fn gnome_detected_in_components() {
    assert!(desktop_mentions_gnome("GNOME"));
    assert!(desktop_mentions_gnome("gnome"));
    assert!(desktop_mentions_gnome("ubuntu:GNOME"));
    assert!(desktop_mentions_gnome(" Gnome "));
    assert!(desktop_mentions_gnome("x: gnome :y"));
}

#[test]
fn gnome_not_detected_elsewhere() {
    assert!(!desktop_mentions_gnome("KDE"));
    assert!(!desktop_mentions_gnome(""));
    assert!(!desktop_mentions_gnome("GNOME-Classic"));
    assert!(!desktop_mentions_gnome("mygnome"));
}

#[test]
fn default_backend_portal_on_gnome_wayland() {
    let d = Some("ubuntu:GNOME".to_string());
    assert_eq!(default_backend(&SessionType::Wayland, &d), Backend::Portal);
}

#[test]
fn default_backend_auto_on_kde_wayland() {
    let d = Some("KDE".to_string());
    assert_eq!(default_backend(&SessionType::Wayland, &d), Backend::Auto);
}

#[test]
fn default_backend_auto_without_desktop() {
    assert_eq!(default_backend(&SessionType::Wayland, &None), Backend::Auto);
}

#[test]
fn default_backend_auto_off_wayland() {
    let d = Some("GNOME".to_string());
    assert_eq!(default_backend(&SessionType::X11, &d), Backend::Auto);
    assert_eq!(default_backend(&SessionType::Unknown, &d), Backend::Auto);
}

#[test]
fn resolve_backend_override_beats_default() {
    let gnome = Some("GNOME".to_string());
    assert_eq!(
        resolve_backend(&SessionType::Wayland, &gnome, &Some(Backend::Auto)),
        Backend::Auto
    );
    let kde = Some("KDE".to_string());
    assert_eq!(
        resolve_backend(&SessionType::Wayland, &kde, &Some(Backend::Portal)),
        Backend::Portal
    );
}

#[test]
fn resolve_backend_falls_back_to_default() {
    let gnome = Some("GNOME".to_string());
    assert_eq!(
        resolve_backend(&SessionType::Wayland, &gnome, &None),
        Backend::Portal
    );
    assert_eq!(resolve_backend(&SessionType::Wayland, &None, &None), Backend::Auto);
}
