use whoami::DesktopEnv;
use whoami::Platform;

fn named_platforms() -> Vec<Platform> {
    vec![
        Platform::Linux,
        Platform::Bsd,
        Platform::Windows,
        Platform::MacOS,
        Platform::Ios,
        Platform::Android,
        Platform::Nintendo,
        Platform::Xbox,
        Platform::PlayStation,
        Platform::Fuchsia,
        Platform::Redox,
    ]
}

fn named_desktop_envs() -> Vec<DesktopEnv> {
    vec![
        DesktopEnv::Gnome,
        DesktopEnv::Windows,
        DesktopEnv::Lxde,
        DesktopEnv::Openbox,
        DesktopEnv::Mate,
        DesktopEnv::Xfce,
        DesktopEnv::Kde,
        DesktopEnv::Cinnamon,
        DesktopEnv::I3,
        DesktopEnv::Aqua,
        DesktopEnv::Ios,
        DesktopEnv::Android,
        DesktopEnv::WebBrowser,
        DesktopEnv::Console,
        DesktopEnv::Ubuntu,
        DesktopEnv::Ermine,
        DesktopEnv::Orbital,
    ]
}

#[test]
fn platform_labels_are_the_fixed_table() {
    assert_eq!(Platform::Linux.to_string(), "Linux");
    assert_eq!(Platform::Bsd.to_string(), "BSD");
    assert_eq!(Platform::Windows.to_string(), "Windows");
    assert_eq!(Platform::MacOS.to_string(), "Mac OS");
    assert_eq!(Platform::Ios.to_string(), "iOS");
    assert_eq!(Platform::Android.to_string(), "Android");
    assert_eq!(Platform::Nintendo.to_string(), "Nintendo");
    assert_eq!(Platform::Xbox.to_string(), "XBox");
    assert_eq!(Platform::PlayStation.to_string(), "PlayStation");
    assert_eq!(Platform::Fuchsia.to_string(), "Fuchsia");
    assert_eq!(Platform::Redox.to_string(), "Redox");
}

#[test]
fn desktop_env_labels_are_the_fixed_table() {
    assert_eq!(DesktopEnv::Gnome.to_string(), "Gnome");
    assert_eq!(DesktopEnv::Windows.to_string(), "Windows");
    assert_eq!(DesktopEnv::Lxde.to_string(), "LXDE");
    assert_eq!(DesktopEnv::Openbox.to_string(), "Openbox");
    assert_eq!(DesktopEnv::Mate.to_string(), "Mate");
    assert_eq!(DesktopEnv::Xfce.to_string(), "XFCE");
    assert_eq!(DesktopEnv::Kde.to_string(), "KDE");
    assert_eq!(DesktopEnv::Cinnamon.to_string(), "Cinnamon");
    assert_eq!(DesktopEnv::I3.to_string(), "I3");
    assert_eq!(DesktopEnv::Aqua.to_string(), "Aqua");
    assert_eq!(DesktopEnv::Ios.to_string(), "IOS");
    assert_eq!(DesktopEnv::Android.to_string(), "Android");
    assert_eq!(DesktopEnv::WebBrowser.to_string(), "Web Browser");
    assert_eq!(DesktopEnv::Console.to_string(), "Console");
    assert_eq!(DesktopEnv::Ubuntu.to_string(), "Ubuntu");
    assert_eq!(DesktopEnv::Ermine.to_string(), "Ermine");
    assert_eq!(DesktopEnv::Orbital.to_string(), "Orbital");
}

#[test]
fn platform_labels_are_distinct_and_plain() {
    let all = named_platforms();
    for (i, a) in all.iter().enumerate() {
        let shown = a.to_string();
        assert!(!shown.is_empty());
        assert!(shown.is_ascii());
        assert!(!shown.starts_with("Unknown: "));
        for (j, b) in all.iter().enumerate() {
            assert_eq!(shown == b.to_string(), i == j);
        }
    }
}

#[test]
fn desktop_env_labels_are_distinct_and_plain() {
    let all = named_desktop_envs();
    for (i, a) in all.iter().enumerate() {
        let shown = a.to_string();
        assert!(!shown.is_empty());
        assert!(shown.is_ascii());
        assert!(!shown.starts_with("Unknown: "));
        for (j, b) in all.iter().enumerate() {
            assert_eq!(shown == b.to_string(), i == j);
        }
    }
}

#[test]
fn unknown_platform_shows_prefix_and_description() {
    assert_eq!(Platform::Unknown("Haiku".to_string()).to_string(), "Unknown: Haiku");
    assert_eq!(Platform::Unknown(String::new()).to_string(), "Unknown: ");
    assert_eq!(
        Platform::Unknown("  Plan 9 \u{00e9} ".to_string()).to_string(),
        "Unknown:   Plan 9 \u{00e9} "
    );
}

#[test]
fn unknown_desktop_env_shows_prefix_and_description() {
    assert_eq!(DesktopEnv::Unknown("sway".to_string()).to_string(), "Unknown: sway");
    assert_eq!(DesktopEnv::Unknown(String::new()).to_string(), "Unknown: ");
    assert_eq!(
        DesktopEnv::Unknown("Unknown: twice".to_string()).to_string(),
        "Unknown: Unknown: twice"
    );
}

#[test]
fn unknown_with_a_label_as_description_differs_from_the_named_variant() {
    assert_eq!(Platform::Unknown("Linux".to_string()).to_string(), "Unknown: Linux");
    assert_ne!(
        Platform::Unknown("Linux".to_string()).to_string(),
        Platform::Linux.to_string()
    );
    assert_ne!(
        DesktopEnv::Unknown("Gnome".to_string()).to_string(),
        DesktopEnv::Gnome.to_string()
    );
}

#[test]
fn classifications_compare_and_clone() {
    assert_eq!(Platform::Linux, Platform::Linux.clone());
    assert_ne!(Platform::Linux, Platform::Bsd);
    assert_eq!(Platform::Unknown("x".to_string()), Platform::Unknown("x".to_string()));
    assert_ne!(Platform::Unknown("x".to_string()), Platform::Unknown("y".to_string()));
    assert_eq!(DesktopEnv::Kde, DesktopEnv::Kde.clone());
    assert_ne!(DesktopEnv::Ios, DesktopEnv::Aqua);
    assert_eq!(
        DesktopEnv::Unknown("x".to_string()).clone(),
        DesktopEnv::Unknown("x".to_string())
    );
}
