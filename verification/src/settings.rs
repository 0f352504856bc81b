//! The settings: the look of the application and the accounts it posts to.

use vstd::prelude::*;
use vstd::string::*;

verus! {

/// Which colours the application wears.
#[derive(Clone, Copy, Debug, PartialEq, Eq, Structural)]
pub enum ThemeMode {
    System,
    Light,
    Dark,
}

impl Default for ThemeMode {
    fn default() -> (r: ThemeMode)
        ensures
            r == ThemeMode::Dark,
    {
        ThemeMode::Dark
    }
}

/// The name of a theme mode, as shown to the user.
pub open spec fn mode_label(mode: ThemeMode) -> Seq<char> {
    match mode {
        ThemeMode::System => "System"@,
        ThemeMode::Light => "Light"@,
        ThemeMode::Dark => "Dark"@,
    }
}

impl ThemeMode {
    /// Every theme mode, in the order in which they are offered.
    pub fn all() -> (r: [ThemeMode; 3])
        ensures
            r@ == seq![ThemeMode::System, ThemeMode::Light, ThemeMode::Dark],
    {
        let r = [ThemeMode::System, ThemeMode::Light, ThemeMode::Dark];
        assert(r@ =~= seq![ThemeMode::System, ThemeMode::Light, ThemeMode::Dark]);
        r
    }

    /// The name of this mode, as shown to the user.
    pub fn label(&self) -> (r: &'static str)
        ensures
            r@ == mode_label(*self),
    {
        match self {
            ThemeMode::System => "System",
            ThemeMode::Light => "Light",
            ThemeMode::Dark => "Dark",
        }
    }
}

/// What the user changed.
#[derive(Clone, Debug)]
pub enum Message {
    ThemeChanged(ThemeMode),
    MastodonUrlChanged(String),
    MastodonTokenChanged(String),
    BlueskyIdentifierChanged(String),
    BlueskyPasswordChanged(String),
    SaveAccountsPressed,
}

/// The settings as the user has entered them.
#[derive(Debug)]
pub struct Settings {
    pub theme_mode: ThemeMode,
    mastodon_url: String,
    mastodon_token: String,
    bluesky_identifier: String,
    bluesky_password: String,
}

/// What [`Settings`] hold, as mathematical values.
pub struct SettingsView {
    pub theme_mode: ThemeMode,
    pub mastodon_url: Seq<char>,
    pub mastodon_token: Seq<char>,
    pub bluesky_identifier: Seq<char>,
    pub bluesky_password: Seq<char>,
}

impl View for Settings {
    type V = SettingsView;

    closed spec fn view(&self) -> SettingsView {
        SettingsView {
            theme_mode: self.theme_mode,
            mastodon_url: self.mastodon_url@,
            mastodon_token: self.mastodon_token@,
            bluesky_identifier: self.bluesky_identifier@,
            bluesky_password: self.bluesky_password@,
        }
    }
}

/// The settings after a message: the one field the message names has the
/// new value. Pressing save changes nothing; saving is the caller's to carry
/// out.
pub open spec fn updated(s: SettingsView, message: Message) -> SettingsView {
    match message {
        Message::ThemeChanged(mode) => SettingsView { theme_mode: mode, ..s },
        Message::MastodonUrlChanged(value) => SettingsView { mastodon_url: value@, ..s },
        Message::MastodonTokenChanged(value) => SettingsView { mastodon_token: value@, ..s },
        Message::BlueskyIdentifierChanged(value) => SettingsView {
            bluesky_identifier: value@,
            ..s
        },
        Message::BlueskyPasswordChanged(value) => SettingsView { bluesky_password: value@, ..s },
        Message::SaveAccountsPressed => s,
    }
}

impl Settings {
    /// Dark theme, and no account entered.
    pub fn new() -> (r: Settings)
        ensures
            r@ == (SettingsView {
                theme_mode: ThemeMode::Dark,
                mastodon_url: Seq::empty(),
                mastodon_token: Seq::empty(),
                bluesky_identifier: Seq::empty(),
                bluesky_password: Seq::empty(),
            }),
    {
        Settings {
            theme_mode: ThemeMode::Dark,
            mastodon_url: String::new(),
            mastodon_token: String::new(),
            bluesky_identifier: String::new(),
            bluesky_password: String::new(),
        }
    }

    /// Takes a message as [`updated`] says.
    pub fn update(&mut self, message: Message)
        ensures
            final(self)@ == updated(old(self)@, message),
    {
        match message {
            Message::ThemeChanged(mode) => {
                self.theme_mode = mode;
            },
            Message::MastodonUrlChanged(value) => {
                self.mastodon_url = value;
            },
            Message::MastodonTokenChanged(value) => {
                self.mastodon_token = value;
            },
            Message::BlueskyIdentifierChanged(value) => {
                self.bluesky_identifier = value;
            },
            Message::BlueskyPasswordChanged(value) => {
                self.bluesky_password = value;
            },
            Message::SaveAccountsPressed => {},
        }
    }

    /// The Mastodon account: server URL and access token.
    pub fn mastodon_creds(&self) -> (r: (String, String))
        ensures
            r.0@ == self@.mastodon_url,
            r.1@ == self@.mastodon_token,
    {
        (self.mastodon_url.clone(), self.mastodon_token.clone())
    }

    /// The Bluesky account: identifier and password.
    pub fn bluesky_creds(&self) -> (r: (String, String))
        ensures
            r.0@ == self@.bluesky_identifier,
            r.1@ == self@.bluesky_password,
    {
        (self.bluesky_identifier.clone(), self.bluesky_password.clone())
    }
}

} // verus!
