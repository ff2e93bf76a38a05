//! What the rich-presence indicator shows, decided from the presence mode
//! and the running game. Sending the decision to the presence service is the
//! caller's part.

use vstd::prelude::*;
use vstd::string::*;

verus! {

/// How much of the user's activity the presence indicator reveals.
#[derive(Clone, Copy, Debug, PartialEq, Eq, Structural)]
pub enum DiscordPresenceMode {
    /// Shown always: an idle status between games.
    All,
    /// Shown only while a game runs.
    InGame,
    /// Never shown.
    Disabled,
}

impl Default for DiscordPresenceMode {
    fn default() -> (r: Self)
        ensures
            r == DiscordPresenceMode::All,
    {
        DiscordPresenceMode::All
    }
}

/// The identity of a running game, as far as presence needs it.
#[derive(Debug)]
pub struct DiscordGameDetails {
    pub id: String,
    pub title: String,
    pub image_url: String,
    /// Whether the game's identity must stay hidden.
    pub nsfw_mode: bool,
}

/// What a `DiscordGameDetails` value holds.
pub struct DiscordGameDetailsView {
    pub id: Seq<char>,
    pub title: Seq<char>,
    pub image_url: Seq<char>,
    pub nsfw_mode: bool,
}

impl View for DiscordGameDetails {
    type V = DiscordGameDetailsView;

    open spec fn view(&self) -> DiscordGameDetailsView {
        DiscordGameDetailsView {
            id: self.id@,
            title: self.title@,
            image_url: self.image_url@,
            nsfw_mode: self.nsfw_mode,
        }
    }
}

impl DiscordGameDetails {
    pub fn new(id: String, title: String, image_url: String, nsfw_mode: bool) -> (r: Self)
        ensures
            r@ == (DiscordGameDetailsView {
                id: id@,
                title: title@,
                image_url: image_url@,
                nsfw_mode,
            }),
    {
        DiscordGameDetails { id, title, image_url, nsfw_mode }
    }
}

/// A link shown under an activity.
#[derive(Debug)]
pub struct PresenceButton {
    pub label: String,
    pub url: String,
}

/// One activity as the presence service displays it.
#[derive(Debug)]
pub struct PresenceActivity {
    /// The status line; absent where nothing may be said.
    pub state: Option<String>,
    pub details: Option<String>,
    pub large_image: String,
    pub large_text: String,
    /// Seconds since the Unix epoch at which the activity began.
    pub start: Option<u64>,
    pub button: Option<PresenceButton>,
}

/// What a `PresenceActivity` value holds.
pub struct PresenceActivityView {
    pub state: Option<Seq<char>>,
    pub details: Option<Seq<char>>,
    pub large_image: Seq<char>,
    pub large_text: Seq<char>,
    pub start: Option<u64>,
    /// Label and target of the button, if there is one.
    pub button: Option<(Seq<char>, Seq<char>)>,
}

impl View for PresenceActivity {
    type V = PresenceActivityView;

    open spec fn view(&self) -> PresenceActivityView {
        PresenceActivityView {
            state: crate::text::opt_text(self.state),
            details: crate::text::opt_text(self.details),
            large_image: self.large_image@,
            large_text: self.large_text@,
            start: self.start,
            button: match self.button {
                Some(b) => Some((b.label@, b.url@)),
                None => None,
            },
        }
    }
}

/// The activity shown while no game runs.
pub open spec fn idle_activity() -> PresenceActivityView {
    PresenceActivityView {
        state: Some("In Menus"@),
        details: None,
        large_image: "app_icon"@,
        large_text: "Tadoku"@,
        start: None,
        button: None,
    }
}

/// The activity shown for a running game that began at `now`. With
/// `nsfw_mode` set it is a placeholder that depends on `now` alone.
pub open spec fn game_activity(details: DiscordGameDetailsView, now: u64) -> PresenceActivityView {
    if details.nsfw_mode {
        PresenceActivityView {
            state: None,
            details: Some("Playing"@),
            large_image: "app_icon"@,
            large_text: "Tadoku"@,
            start: Some(now),
            button: None,
        }
    } else {
        PresenceActivityView {
            state: Some(details.title),
            details: Some("Playing"@),
            large_image: details.image_url,
            large_text: details.title,
            start: Some(now),
            button: Some(("Game Details"@, "https://vndb.org/"@ + details.id)),
        }
    }
}

/// What the caller has to tell the presence service.
#[derive(Debug)]
pub enum PresenceUpdate {
    /// Nothing is sent.
    Keep,
    /// The activity is replaced by this one.
    Show(PresenceActivity),
    /// Any visible activity is removed.
    Clear,
}

/// What a `PresenceUpdate` value holds.
pub enum PresenceUpdateView {
    Keep,
    Show(PresenceActivityView),
    Clear,
}

impl View for PresenceUpdate {
    type V = PresenceUpdateView;

    open spec fn view(&self) -> PresenceUpdateView {
        match self {
            PresenceUpdate::Keep => PresenceUpdateView::Keep,
            PresenceUpdate::Show(a) => PresenceUpdateView::Show(a@),
            PresenceUpdate::Clear => PresenceUpdateView::Clear,
        }
    }
}

/// What `set` sends for a game under a presence mode.
pub open spec fn set_update(
    mode: DiscordPresenceMode,
    details: DiscordGameDetailsView,
    now: u64,
) -> PresenceUpdateView {
    if mode == DiscordPresenceMode::Disabled {
        PresenceUpdateView::Keep
    } else {
        PresenceUpdateView::Show(game_activity(details, now))
    }
}

/// What `reset` sends under a presence mode.
pub open spec fn reset_update(mode: DiscordPresenceMode) -> PresenceUpdateView {
    if mode == DiscordPresenceMode::All {
        PresenceUpdateView::Show(idle_activity())
    } else {
        PresenceUpdateView::Clear
    }
}

/// What is sent right after the connection to the presence service.
pub open spec fn connect_update(mode: DiscordPresenceMode) -> PresenceUpdateView {
    if mode == DiscordPresenceMode::All {
        PresenceUpdateView::Show(idle_activity())
    } else {
        PresenceUpdateView::Keep
    }
}

/// The presence adapter's own state: the mode that gates what is shown.
#[derive(Debug)]
pub struct DiscordPresence {
    pub mode: DiscordPresenceMode,
}

fn idle() -> (r: PresenceActivity)
    ensures
        r@ == idle_activity(),
{
    PresenceActivity {
        state: Some(String::from_str("In Menus")),
        details: None,
        large_image: String::from_str("app_icon"),
        large_text: String::from_str("Tadoku"),
        start: None,
        button: None,
    }
}

impl DiscordPresence {
    pub fn new(mode: DiscordPresenceMode) -> (r: Self)
        ensures
            r.mode == mode,
    {
        DiscordPresence { mode }
    }

    /// The update to send once the connection stands.
    pub fn connect(&self) -> (r: PresenceUpdate)
        ensures
            r@ == connect_update(self.mode),
    {
        match self.mode {
            DiscordPresenceMode::All => PresenceUpdate::Show(idle()),
            _ => PresenceUpdate::Keep,
        }
    }

    /// The update that shows `details` as the running game, started at
    /// `now` (seconds since the Unix epoch).
    pub fn set(&self, details: &DiscordGameDetails, now: u64) -> (r: PresenceUpdate)
        ensures
            r@ == set_update(self.mode, details@, now),
    {
        match self.mode {
            DiscordPresenceMode::Disabled => PresenceUpdate::Keep,
            _ => {
                if details.nsfw_mode {
                    PresenceUpdate::Show(
                        PresenceActivity {
                            state: None,
                            details: Some(String::from_str("Playing")),
                            large_image: String::from_str("app_icon"),
                            large_text: String::from_str("Tadoku"),
                            start: Some(now),
                            button: None,
                        },
                    )
                } else {
                    let url = String::from_str("https://vndb.org/").concat(details.id.as_str());
                    PresenceUpdate::Show(
                        PresenceActivity {
                            state: Some(details.title.clone()),
                            details: Some(String::from_str("Playing")),
                            large_image: details.image_url.clone(),
                            large_text: details.title.clone(),
                            start: Some(now),
                            button: Some(
                                PresenceButton { label: String::from_str("Game Details"), url },
                            ),
                        },
                    )
                }
            },
        }
    }

    /// The update that returns presence to its state between games.
    pub fn reset(&self) -> (r: PresenceUpdate)
        ensures
            r@ == reset_update(self.mode),
    {
        match self.mode {
            DiscordPresenceMode::All => PresenceUpdate::Show(idle()),
            _ => PresenceUpdate::Clear,
        }
    }

    /// Changes the mode and returns the update that applies it at once.
    pub fn set_mode(&mut self, to: DiscordPresenceMode) -> (r: PresenceUpdate)
        ensures
            final(self).mode == to,
            r@ == reset_update(to),
    {
        self.mode = to;
        self.reset()
    }
}

/// A game whose identity is suppressed leaves no trace in what is shown:
/// two such games started at the same time give the same update.
pub proof fn lemma_suppressed_hides_identity(
    mode: DiscordPresenceMode,
    a: DiscordGameDetailsView,
    b: DiscordGameDetailsView,
    now: u64,
)
    requires
        a.nsfw_mode,
        b.nsfw_mode,
    ensures
        set_update(mode, a, now) == set_update(mode, b, now),
{
}

} // verus!
