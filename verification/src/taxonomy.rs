//! The two classifications of a host: its platform and its desktop environment.
//!
//! Each is a closed set of named variants with one more, `Unknown`, that carries
//! the resolver's own description of a host it could not classify. A named
//! variant is shown as its fixed label; an unclassified one as `Unknown: `
//! followed by the description.

use vstd::prelude::*;
use vstd::string::*;

verus! {

/// The text that opens the rendering of every unclassified value.
pub open spec fn unknown_prefix() -> Seq<char> {
    "Unknown: "@
}

/// Which desktop environment the user's session runs.
#[derive(Debug, PartialEq, Eq, Clone)]
#[non_exhaustive]
pub enum DesktopEnv {
    /// GTK-based desktop environment on Linux.
    Gnome,
    /// One of the desktop environments of a version of Windows.
    Windows,
    /// Linux desktop environment made for low resource use.
    Lxde,
    /// Stacking window manager for X on Linux.
    Openbox,
    /// Desktop environment for Linux, BSD and Illumos.
    Mate,
    /// Lightweight desktop environment for Unix-like systems.
    Xfce,
    /// KDE Plasma.
    Kde,
    /// Default desktop environment of Linux Mint.
    Cinnamon,
    /// Tiling window manager for Linux.
    I3,
    /// Desktop environment of macOS.
    Aqua,
    /// Desktop environment of iOS.
    Ios,
    /// Desktop environment of Android.
    Android,
    /// A web page, for code that runs as WebAssembly.
    WebBrowser,
    /// The desktop environment of a game console.
    Console,
    /// Ubuntu's flavour of Gnome.
    Ubuntu,
    /// Default shell of Fuchsia.
    Ermine,
    /// Default desktop environment of Redox.
    Orbital,
    /// A desktop environment outside the named ones, with the resolver's description of it.
    Unknown(String),
}

impl DesktopEnv {
    /// The fixed label of a named environment; for an unclassified one, its description.
    pub open spec fn label(self) -> Seq<char> {
        match self {
            DesktopEnv::Gnome => "Gnome"@,
            DesktopEnv::Windows => "Windows"@,
            DesktopEnv::Lxde => "LXDE"@,
            DesktopEnv::Openbox => "Openbox"@,
            DesktopEnv::Mate => "Mate"@,
            DesktopEnv::Xfce => "XFCE"@,
            DesktopEnv::Kde => "KDE"@,
            DesktopEnv::Cinnamon => "Cinnamon"@,
            DesktopEnv::I3 => "I3"@,
            DesktopEnv::Aqua => "Aqua"@,
            DesktopEnv::Ios => "IOS"@,
            DesktopEnv::Android => "Android"@,
            DesktopEnv::WebBrowser => "Web Browser"@,
            DesktopEnv::Console => "Console"@,
            DesktopEnv::Ubuntu => "Ubuntu"@,
            DesktopEnv::Ermine => "Ermine"@,
            DesktopEnv::Orbital => "Orbital"@,
            DesktopEnv::Unknown(description) => description@,
        }
    }

    /// The text that a desktop environment is shown as.
    pub open spec fn display(self) -> Seq<char> {
        if self is Unknown {
            unknown_prefix() + self.label()
        } else {
            self.label()
        }
    }

    /// Renders the desktop environment as text.
    pub fn to_string(&self) -> (text: String)
        ensures
            text@ == self.display(),
    {
        match self {
            DesktopEnv::Gnome => "Gnome".to_owned(),
            DesktopEnv::Windows => "Windows".to_owned(),
            DesktopEnv::Lxde => "LXDE".to_owned(),
            DesktopEnv::Openbox => "Openbox".to_owned(),
            DesktopEnv::Mate => "Mate".to_owned(),
            DesktopEnv::Xfce => "XFCE".to_owned(),
            DesktopEnv::Kde => "KDE".to_owned(),
            DesktopEnv::Cinnamon => "Cinnamon".to_owned(),
            DesktopEnv::I3 => "I3".to_owned(),
            DesktopEnv::Aqua => "Aqua".to_owned(),
            DesktopEnv::Ios => "IOS".to_owned(),
            DesktopEnv::Android => "Android".to_owned(),
            DesktopEnv::WebBrowser => "Web Browser".to_owned(),
            DesktopEnv::Console => "Console".to_owned(),
            DesktopEnv::Ubuntu => "Ubuntu".to_owned(),
            DesktopEnv::Ermine => "Ermine".to_owned(),
            DesktopEnv::Orbital => "Orbital".to_owned(),
            DesktopEnv::Unknown(description) => {
                let mut text = "Unknown: ".to_owned();
                text.append(description.as_str());
                text
            },
        }
    }

    /// The named desktop environments have labels that are not empty, that do
    /// not begin with the prefix kept for unclassified ones, and that differ
    /// from one environment to the next.
    pub proof fn lemma_named_labels(self, other: DesktopEnv)
        requires
            self !is Unknown,
            other !is Unknown,
        ensures
            self.display().len() > 0,
            !unknown_prefix().is_prefix_of(self.display()),
            self.display() == other.display() ==> self == other,
    {
        reveal_strlit("Unknown: ");
        reveal_strlit("Gnome");
        reveal_strlit("Windows");
        reveal_strlit("LXDE");
        reveal_strlit("Openbox");
        reveal_strlit("Mate");
        reveal_strlit("XFCE");
        reveal_strlit("KDE");
        reveal_strlit("Cinnamon");
        reveal_strlit("I3");
        reveal_strlit("Aqua");
        reveal_strlit("IOS");
        reveal_strlit("Android");
        reveal_strlit("Web Browser");
        reveal_strlit("Console");
        reveal_strlit("Ubuntu");
        reveal_strlit("Ermine");
        reveal_strlit("Orbital");
        let shown = self.display();
        assert(shown.len() >= 2);
        assert(unknown_prefix()[0] == 'U');
        if unknown_prefix().is_prefix_of(shown) {
            assert(shown[0] == shown.subrange(0, unknown_prefix().len() as int)[0]);
        }
        if shown == other.display() {
            assert(shown.len() == other.display().len());
            assert(shown[0] == other.display()[0]);
            assert(shown[1] == other.display()[1]);
        }
    }

    /// Two desktop environments that are shown as the same text are the same: both
    /// are the same named variant, or both are unclassified with the same
    /// description.
    pub proof fn lemma_display_tells_apart(self, other: DesktopEnv)
        requires
            self.display() == other.display(),
        ensures
            self is Unknown <==> other is Unknown,
            self is Unknown ==> self.label() == other.label(),
            self !is Unknown ==> self == other,
    {
        let prefix = unknown_prefix();
        if self is Unknown && other is Unknown {
            let shown = self.display();
            assert(self.label() =~= shown.subrange(prefix.len() as int, shown.len() as int));
            assert(other.label() =~= shown.subrange(prefix.len() as int, shown.len() as int));
        } else if self is Unknown {
            other.lemma_named_labels(other);
            assert(prefix =~= self.display().subrange(0, prefix.len() as int));
        } else if other is Unknown {
            self.lemma_named_labels(self);
            assert(prefix =~= other.display().subrange(0, prefix.len() as int));
        } else {
            self.lemma_named_labels(other);
        }
    }

    /// An unclassified desktop environment is shown as the prefix followed by
    /// its description, unchanged.
    pub proof fn lemma_unknown_display(description: String)
        ensures
            DesktopEnv::Unknown(description).display() == "Unknown: "@ + description@,
    {
    }
}

/// Which family of operating system the host runs.
#[derive(Debug, PartialEq, Eq, Clone)]
#[non_exhaustive]
pub enum Platform {
    Linux,
    Bsd,
    Windows,
    MacOS,
    Ios,
    Android,
    Nintendo,
    Xbox,
    PlayStation,
    Fuchsia,
    Redox,
    /// A platform outside the named families, with the resolver's description of it.
    Unknown(String),
}

impl Platform {
    /// The fixed label of a named family; for an unclassified platform, its description.
    pub open spec fn label(self) -> Seq<char> {
        match self {
            Platform::Linux => "Linux"@,
            Platform::Bsd => "BSD"@,
            Platform::Windows => "Windows"@,
            Platform::MacOS => "Mac OS"@,
            Platform::Ios => "iOS"@,
            Platform::Android => "Android"@,
            Platform::Nintendo => "Nintendo"@,
            Platform::Xbox => "XBox"@,
            Platform::PlayStation => "PlayStation"@,
            Platform::Fuchsia => "Fuchsia"@,
            Platform::Redox => "Redox"@,
            Platform::Unknown(description) => description@,
        }
    }

    /// The text that a platform is shown as.
    pub open spec fn display(self) -> Seq<char> {
        if self is Unknown {
            unknown_prefix() + self.label()
        } else {
            self.label()
        }
    }

    /// Renders the platform as text.
    pub fn to_string(&self) -> (text: String)
        ensures
            text@ == self.display(),
    {
        match self {
            Platform::Linux => "Linux".to_owned(),
            Platform::Bsd => "BSD".to_owned(),
            Platform::Windows => "Windows".to_owned(),
            Platform::MacOS => "Mac OS".to_owned(),
            Platform::Ios => "iOS".to_owned(),
            Platform::Android => "Android".to_owned(),
            Platform::Nintendo => "Nintendo".to_owned(),
            Platform::Xbox => "XBox".to_owned(),
            Platform::PlayStation => "PlayStation".to_owned(),
            Platform::Fuchsia => "Fuchsia".to_owned(),
            Platform::Redox => "Redox".to_owned(),
            Platform::Unknown(description) => {
                let mut text = "Unknown: ".to_owned();
                text.append(description.as_str());
                text
            },
        }
    }

    /// The named platforms have labels that are not empty, that do not begin
    /// with the prefix kept for unclassified ones, and that differ from one
    /// platform to the next.
    pub proof fn lemma_named_labels(self, other: Platform)
        requires
            self !is Unknown,
            other !is Unknown,
        ensures
            self.display().len() > 0,
            !unknown_prefix().is_prefix_of(self.display()),
            self.display() == other.display() ==> self == other,
    {
        reveal_strlit("Unknown: ");
        reveal_strlit("Linux");
        reveal_strlit("BSD");
        reveal_strlit("Windows");
        reveal_strlit("Mac OS");
        reveal_strlit("iOS");
        reveal_strlit("Android");
        reveal_strlit("Nintendo");
        reveal_strlit("XBox");
        reveal_strlit("PlayStation");
        reveal_strlit("Fuchsia");
        reveal_strlit("Redox");
        let shown = self.display();
        assert(shown.len() >= 3);
        assert(unknown_prefix()[0] == 'U');
        if unknown_prefix().is_prefix_of(shown) {
            assert(shown[0] == shown.subrange(0, unknown_prefix().len() as int)[0]);
        }
        if shown == other.display() {
            assert(shown.len() == other.display().len());
            assert(shown[0] == other.display()[0]);
        }
    }

    /// Two platforms that are shown as the same text are the same: both
    /// are the same named variant, or both are unclassified with the same
    /// description.
    pub proof fn lemma_display_tells_apart(self, other: Platform)
        requires
            self.display() == other.display(),
        ensures
            self is Unknown <==> other is Unknown,
            self is Unknown ==> self.label() == other.label(),
            self !is Unknown ==> self == other,
    {
        let prefix = unknown_prefix();
        if self is Unknown && other is Unknown {
            let shown = self.display();
            assert(self.label() =~= shown.subrange(prefix.len() as int, shown.len() as int));
            assert(other.label() =~= shown.subrange(prefix.len() as int, shown.len() as int));
        } else if self is Unknown {
            other.lemma_named_labels(other);
            assert(prefix =~= self.display().subrange(0, prefix.len() as int));
        } else if other is Unknown {
            self.lemma_named_labels(self);
            assert(prefix =~= other.display().subrange(0, prefix.len() as int));
        } else {
            self.lemma_named_labels(other);
        }
    }

    /// An unclassified platform is shown as the prefix followed by its
    /// description, unchanged.
    pub proof fn lemma_unknown_display(description: String)
        ensures
            Platform::Unknown(description).display() == "Unknown: "@ + description@,
    {
    }
}

} // verus!
