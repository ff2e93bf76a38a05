//! The saved games and the store that keeps their cumulative playtime and
//! timestamps up to date.

use vstd::prelude::*;
use crate::images::{construct_image_path, image_name_of, url_path_segments, ImageError};
use crate::text::{clone_opt_text, clone_texts, opt_text, texts};

verus! {

/// The categories a game is filed under.
pub type Categories = Vec<String>;

/// A character of a game.
#[derive(Debug)]
pub struct Character {
    pub id: String,
    pub en_name: String,
    pub og_name: Option<String>,
    pub image_url: Option<String>,
}

/// What a `Character` value holds.
pub struct CharacterView {
    pub id: Seq<char>,
    pub en_name: Seq<char>,
    pub og_name: Option<Seq<char>>,
    pub image_url: Option<Seq<char>>,
}

impl View for Character {
    type V = CharacterView;

    open spec fn view(&self) -> CharacterView {
        CharacterView {
            id: self.id@,
            en_name: self.en_name@,
            og_name: opt_text(self.og_name),
            image_url: opt_text(self.image_url),
        }
    }
}

impl Clone for Character {
    fn clone(&self) -> (r: Self)
        ensures
            r@ == self@,
    {
        Character {
            id: self.id.clone(),
            en_name: self.en_name.clone(),
            og_name: clone_opt_text(&self.og_name),
            image_url: clone_opt_text(&self.image_url),
        }
    }
}

/// What a list of characters holds, in order.
pub open spec fn characters_view(v: Seq<Character>) -> Seq<CharacterView> {
    Seq::new(v.len(), |i: int| v[i]@)
}

/// What an optional list of characters holds.
pub open spec fn opt_characters_view(o: Option<Vec<Character>>) -> Option<Seq<CharacterView>> {
    match o {
        Some(v) => Some(characters_view(v@)),
        None => None,
    }
}

/// An owned copy of a list of characters.
pub fn clone_characters(v: &Vec<Character>) -> (r: Vec<Character>)
    ensures
        characters_view(r@) == characters_view(v@),
{
    let mut r: Vec<Character> = Vec::new();
    let mut i: usize = 0;
    while i < v.len()
        invariant
            i <= v.len(),
            r.len() == i,
            forall|j: int| 0 <= j < i ==> r@[j]@ == v@[j]@,
        decreases v.len() - i,
    {
        r.push(v[i].clone());
        i = i + 1;
    }
    assert(characters_view(r@) =~= characters_view(v@));
    r
}

/// A saved game.
#[derive(Debug)]
pub struct Game {
    pub title: String,
    pub description: String,
    /// The cover's address as the catalogue gave it.
    pub image_url: String,
    pub exe_file_path: String,
    pub process_file_path: String,
    /// Cumulative playtime in seconds.
    pub playtime: u64,
    pub today_playtime: u64,
    /// Seconds since the Unix epoch.
    pub last_played: Option<u64>,
    /// Seconds since the Unix epoch; set once.
    pub first_played: Option<u64>,
    pub last_play_date: Option<String>,
    pub is_pinned: bool,
    pub is_nsfw: bool,
    pub icon_url: Option<String>,
    pub notes: String,
    pub categories: Categories,
    pub characters: Option<Vec<Character>>,
}

/// What a `Game` value holds.
pub struct GameView {
    pub title: Seq<char>,
    pub description: Seq<char>,
    pub image_url: Seq<char>,
    pub exe_file_path: Seq<char>,
    pub process_file_path: Seq<char>,
    pub playtime: u64,
    pub today_playtime: u64,
    pub last_played: Option<u64>,
    pub first_played: Option<u64>,
    pub last_play_date: Option<Seq<char>>,
    pub is_pinned: bool,
    pub is_nsfw: bool,
    pub icon_url: Option<Seq<char>>,
    pub notes: Seq<char>,
    pub categories: Seq<Seq<char>>,
    pub characters: Option<Seq<CharacterView>>,
}

impl View for Game {
    type V = GameView;

    open spec fn view(&self) -> GameView {
        GameView {
            title: self.title@,
            description: self.description@,
            image_url: self.image_url@,
            exe_file_path: self.exe_file_path@,
            process_file_path: self.process_file_path@,
            playtime: self.playtime,
            today_playtime: self.today_playtime,
            last_played: self.last_played,
            first_played: self.first_played,
            last_play_date: opt_text(self.last_play_date),
            is_pinned: self.is_pinned,
            is_nsfw: self.is_nsfw,
            icon_url: opt_text(self.icon_url),
            notes: self.notes@,
            categories: texts(self.categories@),
            characters: opt_characters_view(self.characters),
        }
    }
}

impl GameView {
    /// A game of which nothing is known yet.
    pub open spec fn blank() -> GameView {
        GameView {
            title: Seq::empty(),
            description: Seq::empty(),
            image_url: Seq::empty(),
            exe_file_path: Seq::empty(),
            process_file_path: Seq::empty(),
            playtime: 0,
            today_playtime: 0,
            last_played: None,
            first_played: None,
            last_play_date: None,
            is_pinned: false,
            is_nsfw: false,
            icon_url: None,
            notes: Seq::empty(),
            categories: Seq::empty(),
            characters: None,
        }
    }
}

impl Default for Game {
    fn default() -> (r: Self)
        ensures
            r@ == GameView::blank(),
    {
        let r = Game {
            title: String::new(),
            description: String::new(),
            image_url: String::new(),
            exe_file_path: String::new(),
            process_file_path: String::new(),
            playtime: 0,
            today_playtime: 0,
            last_played: None,
            first_played: None,
            last_play_date: None,
            is_pinned: false,
            is_nsfw: false,
            icon_url: None,
            notes: String::new(),
            categories: Vec::new(),
            characters: None,
        };
        assert(r@.categories =~= Seq::empty());
        r
    }
}

impl Clone for Game {
    fn clone(&self) -> (r: Self)
        ensures
            r@ == self@,
    {
        Game {
            title: self.title.clone(),
            description: self.description.clone(),
            image_url: self.image_url.clone(),
            exe_file_path: self.exe_file_path.clone(),
            process_file_path: self.process_file_path.clone(),
            playtime: self.playtime,
            today_playtime: self.today_playtime,
            last_played: self.last_played,
            first_played: self.first_played,
            last_play_date: clone_opt_text(&self.last_play_date),
            is_pinned: self.is_pinned,
            is_nsfw: self.is_nsfw,
            icon_url: clone_opt_text(&self.icon_url),
            notes: self.notes.clone(),
            categories: clone_texts(&self.categories),
            characters: match &self.characters {
                Some(v) => Some(clone_characters(v)),
                None => None,
            },
        }
    }
}

/// Why the store refused a request.
#[derive(Clone, Copy, Debug, PartialEq, Eq, Structural)]
pub enum StoreError {
    /// No game is saved under the given id.
    GameNotFound,
    /// The cumulative playtime would no longer fit its counter.
    PlaytimeOverflow,
}

impl StoreError {
    /// The error in words.
    pub fn message(&self) -> (r: String)
        ensures
            r@ == match self {
                StoreError::GameNotFound => "Couldn't find game"@,
                StoreError::PlaytimeOverflow => "Playtime counter is full"@,
            },
    {
        match self {
            StoreError::GameNotFound => "Couldn't find game".to_owned(),
            StoreError::PlaytimeOverflow => "Playtime counter is full".to_owned(),
        }
    }
}

/// One saved game under its id.
#[derive(Debug)]
pub struct GameEntry {
    pub id: String,
    pub game: Game,
}

/// The saved games, keyed by id: the persistence gateway of the tracking
/// strategies. It is a value in memory; loading it from disk and writing it
/// back is the caller's part.
#[derive(Debug)]
pub struct GamesStore {
    entries: Vec<GameEntry>,
    base_app_path: String,
}

/// The games after `delta` seconds were added to the playtime of `id`.
pub open spec fn with_playtime(
    games: Map<Seq<char>, GameView>,
    id: Seq<char>,
    delta: u64,
) -> Map<Seq<char>, GameView> {
    games.insert(id, GameView { playtime: (games[id].playtime + delta) as u64, ..games[id] })
}

/// The games after `id` was played at `now`.
pub open spec fn with_last_played(
    games: Map<Seq<char>, GameView>,
    id: Seq<char>,
    now: u64,
) -> Map<Seq<char>, GameView> {
    games.insert(id, GameView { last_played: Some(now), ..games[id] })
}

/// The games after the first start of `id` was recorded at `now`: a game
/// that has a first start already keeps it.
pub open spec fn with_first_played(
    games: Map<Seq<char>, GameView>,
    id: Seq<char>,
    now: u64,
) -> Map<Seq<char>, GameView> {
    if games[id].first_played is Some {
        games
    } else {
        games.insert(id, GameView { first_played: Some(now), ..games[id] })
    }
}

impl View for GamesStore {
    type V = Map<Seq<char>, GameView>;

    closed spec fn view(&self) -> Map<Seq<char>, GameView> {
        Map::new(
            |k: Seq<char>| self.holds(k),
            |k: Seq<char>| self.entries@[self.slot(k)].game@,
        )
    }
}

impl GamesStore {
    spec fn holds(&self, k: Seq<char>) -> bool {
        exists|i: int| 0 <= i < self.entries@.len() && #[trigger] self.entries@[i].id@ == k
    }

    spec fn slot(&self, k: Seq<char>) -> int {
        choose|i: int| 0 <= i < self.entries@.len() && #[trigger] self.entries@[i].id@ == k
    }

    /// No id is saved twice.
    pub closed spec fn wf(&self) -> bool {
        forall|i: int, j: int|
            0 <= i < j < self.entries@.len() ==> self.entries@[i].id@ != self.entries@[j].id@
    }

    /// The directory under which the images are kept.
    pub closed spec fn base_path(&self) -> Seq<char> {
        self.base_app_path@
    }

    proof fn lemma_slot(&self, i: int)
        requires
            self.wf(),
            0 <= i < self.entries@.len(),
        ensures
            self@.dom().contains(self.entries@[i].id@),
            self@[self.entries@[i].id@] == self.entries@[i].game@,
    {
        let k = self.entries@[i].id@;
        assert(self.holds(k));
        let s = self.slot(k);
        if s < i {
            assert(self.entries@[s].id@ != self.entries@[i].id@);
        } else if i < s {
            assert(self.entries@[i].id@ != self.entries@[s].id@);
        }
    }

    proof fn lemma_view_is(&self, m: Map<Seq<char>, GameView>)
        requires
            self.wf(),
            forall|i: int|
                0 <= i < self.entries@.len() ==> m.dom().contains(#[trigger] self.entries@[i].id@)
                    && m[self.entries@[i].id@] == self.entries@[i].game@,
            forall|k: Seq<char>| #[trigger] m.dom().contains(k) ==> self.holds(k),
        ensures
            self@ == m,
    {
        assert forall|k: Seq<char>| self@.dom().contains(k) == m.dom().contains(k) by {
            if self.holds(k) {
                let i = self.slot(k);
                assert(m.dom().contains(self.entries@[i].id@));
            }
        }
        assert forall|k: Seq<char>| self@.dom().contains(k) implies self@[k] == m[k] by {
            let i = self.slot(k);
            self.lemma_slot(i);
        }
        assert(self@ =~= m);
    }

    /// An empty store whose images live under `base_app_path`.
    pub fn new(base_app_path: String) -> (r: Self)
        ensures
            r.wf(),
            r@ == Map::<Seq<char>, GameView>::empty(),
            r.base_path() == base_app_path@,
    {
        let r = GamesStore { entries: Vec::new(), base_app_path };
        assert(r@ =~= Map::<Seq<char>, GameView>::empty());
        r
    }

    /// How many games are saved.
    pub fn len(&self) -> (r: usize)
        requires
            self.wf(),
        ensures
            r == self@.dom().len(),
            self@.dom().finite(),
    {
        proof {
            self.lemma_dom_len();
        }
        self.entries.len()
    }

    proof fn lemma_dom_len(&self)
        requires
            self.wf(),
        ensures
            self@.dom().finite(),
            self@.dom().len() == self.entries@.len(),
    {
        self.lemma_len(self.entries@.len() as int);
        assert(self.prefix_ids(self.entries@.len() as int) =~= self@.dom()) by {
            assert forall|k: Seq<char>| self@.dom().contains(k) implies self.prefix_ids(
                self.entries@.len() as int,
            ).contains(k) by {
                let i = self.slot(k);
                assert(self.entries@[i].id@ == k);
            }
        }
    }

    spec fn prefix_ids(&self, n: int) -> Set<Seq<char>> {
        Set::new(|k: Seq<char>| exists|i: int| 0 <= i < n && #[trigger] self.entries@[i].id@ == k)
    }

    proof fn lemma_len(&self, n: int)
        requires
            self.wf(),
            0 <= n <= self.entries@.len(),
        ensures
            self.prefix_ids(n).finite(),
            self.prefix_ids(n).len() == n,
        decreases n,
    {
        if n == 0 {
            assert(self.prefix_ids(0) =~= Set::<Seq<char>>::empty());
        } else {
            self.lemma_len(n - 1);
            let k = self.entries@[n - 1].id@;
            assert(!self.prefix_ids(n - 1).contains(k)) by {
                if self.prefix_ids(n - 1).contains(k) {
                    let i = choose|i: int| 0 <= i < n - 1 && #[trigger] self.entries@[i].id@ == k;
                    assert(self.entries@[i].id@ != self.entries@[n - 1].id@);
                }
            }
            assert(self.prefix_ids(n) =~= self.prefix_ids(n - 1).insert(k)) by {
                assert(self.entries@[n - 1].id@ == k);
            }
        }
    }

    fn position(&self, game_id: &str) -> (r: Option<usize>)
        requires
            self.wf(),
        ensures
            match r {
                Some(i) => i < self.entries@.len() && self.entries@[i as int].id@ == game_id@
                    && self@.dom().contains(game_id@) && self@[game_id@]
                    == self.entries@[i as int].game@,
                None => !self@.dom().contains(game_id@) && forall|j: int|
                    0 <= j < self.entries@.len() ==> self.entries@[j].id@ != game_id@,
            },
    {
        let key = game_id.to_owned();
        let mut i: usize = 0;
        while i < self.entries.len()
            invariant
                self.wf(),
                key@ == game_id@,
                i <= self.entries@.len(),
                forall|j: int| 0 <= j < i ==> self.entries@[j].id@ != game_id@,
            decreases self.entries@.len() - i,
        {
            if self.entries[i].id == key {
                proof {
                    self.lemma_slot(i as int);
                }
                return Some(i);
            }
            i = i + 1;
        }
        None
    }

    /// The game saved under `game_id`, if there is one.
    pub fn get(&self, game_id: &str) -> (r: Option<Game>)
        requires
            self.wf(),
        ensures
            match r {
                Some(g) => self@.dom().contains(game_id@) && g@ == self@[game_id@],
                None => !self@.dom().contains(game_id@),
            },
    {
        match self.position(game_id) {
            Some(i) => Some(self.entries[i].game.clone()),
            None => None,
        }
    }

    /// Saves `game_data` under `game_id`, in place of what was there.
    pub fn save(&mut self, game_id: String, game_data: Game)
        requires
            old(self).wf(),
        ensures
            final(self).wf(),
            final(self)@ == old(self)@.insert(game_id@, game_data@),
            final(self).base_path() == old(self).base_path(),
    {
        let ghost target = self@.insert(game_id@, game_data@);
        match self.position(game_id.as_str()) {
            Some(i) => {
                proof {
                    assert forall|j: int| 0 <= j < self.entries@.len() implies target.dom().contains(
                        #[trigger] self.entries@[j].id@,
                    ) && (j != i ==> target[self.entries@[j].id@] == self.entries@[j].game@) by {
                        self.lemma_slot(j);
                        if j < i {
                            assert(self.entries@[j].id@ != self.entries@[i as int].id@);
                        } else if i < j {
                            assert(self.entries@[i as int].id@ != self.entries@[j].id@);
                        }
                    }
                }
                self.entries[i].game = game_data;
                proof {
                    assert(forall|j: int|
                        0 <= j < self.entries@.len() ==> #[trigger] self.entries@[j].id@ == old(self).entries@[j].id@);
                    assert forall|k: Seq<char>| #[trigger] target.dom().contains(k) implies self.holds(
                        k,
                    ) by {
                        if k == game_id@ {
                            assert(self.entries@[i as int].id@ == k);
                        } else {
                            let j = old(self).slot(k);
                            assert(self.entries@[j].id@ == k);
                        }
                    }
                    self.lemma_view_is(target);
                }
            },
            None => {
                proof {
                    assert forall|j: int| 0 <= j < self.entries@.len() implies target.dom().contains(
                        #[trigger] self.entries@[j].id@,
                    ) && target[self.entries@[j].id@] == self.entries@[j].game@ by {
                        self.lemma_slot(j);
                    }
                }
                self.entries.push(GameEntry { id: game_id, game: game_data });
                proof {
                    let n = old(self).entries@.len() as int;
                    assert(forall|j: int|
                        0 <= j < n ==> #[trigger] self.entries@[j] == old(self).entries@[j]);
                    assert forall|k: Seq<char>| #[trigger] target.dom().contains(k) implies self.holds(
                        k,
                    ) by {
                        if k == game_id@ {
                            assert(self.entries@[n].id@ == k);
                        } else {
                            let j = old(self).slot(k);
                            assert(self.entries@[j].id@ == k);
                        }
                    }
                    self.lemma_view_is(target);
                }
            },
        }
    }

    proof fn lemma_updated(before: &GamesStore, after: &GamesStore, i: int)
        requires
            before.wf(),
            0 <= i < before.entries@.len(),
            after.entries@.len() == before.entries@.len(),
            forall|j: int|
                0 <= j < before.entries@.len() ==> #[trigger] after.entries@[j].id@
                    == before.entries@[j].id@,
            forall|j: int|
                0 <= j < before.entries@.len() && j != i ==> #[trigger] after.entries@[j].game@
                    == before.entries@[j].game@,
            after.base_app_path@ == before.base_app_path@,
        ensures
            after.wf(),
            before@.dom().contains(before.entries@[i].id@),
            after@ == before@.insert(before.entries@[i].id@, after.entries@[i].game@),
            after.base_path() == before.base_path(),
    {
        before.lemma_slot(i);
        let target = before@.insert(before.entries@[i].id@, after.entries@[i].game@);
        assert(after.wf()) by {
            assert forall|a: int, b: int| 0 <= a < b < after.entries@.len() implies after.entries@[a].id@
                != after.entries@[b].id@ by {
                assert(before.entries@[a].id@ != before.entries@[b].id@);
            }
        }
        assert forall|j: int| 0 <= j < after.entries@.len() implies target.dom().contains(
            #[trigger] after.entries@[j].id@,
        ) && target[after.entries@[j].id@] == after.entries@[j].game@ by {
            before.lemma_slot(j);
            if j < i {
                assert(before.entries@[j].id@ != before.entries@[i].id@);
            } else if i < j {
                assert(before.entries@[i].id@ != before.entries@[j].id@);
            }
        }
        assert forall|k: Seq<char>| #[trigger] target.dom().contains(k) implies after.holds(k) by {
            if k == before.entries@[i].id@ {
                assert(after.entries@[i].id@ == k);
            } else {
                let j = before.slot(k);
                assert(after.entries@[j].id@ == k);
            }
        }
        after.lemma_view_is(target);
    }

    /// Removes the game saved under `game_id` and hands it back, so that
    /// the caller can delete its images.
    pub fn delete(&mut self, game_id: &str) -> (r: Option<Game>)
        requires
            old(self).wf(),
        ensures
            final(self).wf(),
            final(self)@ == old(self)@.remove(game_id@),
            final(self).base_path() == old(self).base_path(),
            match r {
                Some(g) => old(self)@.dom().contains(game_id@) && g@ == old(self)@[game_id@],
                None => !old(self)@.dom().contains(game_id@),
            },
    {
        match self.position(game_id) {
            None => {
                assert(self@.remove(game_id@) =~= self@);
                None
            },
            Some(i) => {
                let ghost target = self@.remove(game_id@);
                proof {
                    assert forall|j: int| 0 <= j < self.entries@.len() implies self@.dom().contains(
                        #[trigger] self.entries@[j].id@,
                    ) && self@[self.entries@[j].id@] == self.entries@[j].game@ by {
                        self.lemma_slot(j);
                    }
                }
                let removed = self.entries.remove(i);
                proof {
                    let before = old(self).entries@;
                    assert forall|j: int| 0 <= j < self.entries@.len() implies #[trigger] self.entries@[j]
                        == before[if j < i { j } else { j + 1 }] by {}
                    assert(self.wf()) by {
                        assert forall|a: int, b: int|
                            0 <= a < b < self.entries@.len() implies self.entries@[a].id@
                            != self.entries@[b].id@ by {
                            let a2 = if a < i { a } else { a + 1 };
                            let b2 = if b < i { b } else { b + 1 };
                            assert(before[a2].id@ != before[b2].id@);
                        }
                    }
                    assert forall|j: int| 0 <= j < self.entries@.len() implies target.dom().contains(
                        #[trigger] self.entries@[j].id@,
                    ) && target[self.entries@[j].id@] == self.entries@[j].game@ by {
                        let j2 = if j < i { j } else { j + 1 };
                        assert(self.entries@[j] == before[j2]);
                        if j2 < i {
                            assert(before[j2].id@ != before[i as int].id@);
                        } else {
                            assert(before[i as int].id@ != before[j2].id@);
                        }
                    }
                    assert forall|k: Seq<char>| #[trigger] target.dom().contains(k) implies self.holds(
                        k,
                    ) by {
                        let j = old(self).slot(k);
                        let j3 = if j < i { j } else { j - 1 };
                        assert(self.entries@[j3] == before[j]);
                        assert(self.entries@[j3].id@ == k);
                    }
                    self.lemma_view_is(target);
                }
                Some(removed.game)
            },
        }
    }

    /// Flips whether the game is pinned.
    pub fn toggle_pin(&mut self, game_id: &str) -> (r: Result<(), StoreError>)
        requires
            old(self).wf(),
        ensures
            final(self).wf(),
            final(self).base_path() == old(self).base_path(),
            match r {
                Ok(_) => old(self)@.dom().contains(game_id@) && final(self)@ == old(self)@.insert(
                    game_id@,
                    GameView { is_pinned: !old(self)@[game_id@].is_pinned, ..old(self)@[game_id@] },
                ),
                Err(e) => e == StoreError::GameNotFound && !old(self)@.dom().contains(game_id@)
                    && final(self)@ == old(self)@,
            },
    {
        match self.position(game_id) {
            None => Err(StoreError::GameNotFound),
            Some(i) => {
                let pinned = self.entries[i].game.is_pinned;
                self.entries[i].game.is_pinned = !pinned;
                proof {
                    Self::lemma_updated(old(self), self, i as int);
                }
                Ok(())
            },
        }
    }

    /// Adds `playtime` seconds to the cumulative playtime of a game: the
    /// flush of a tracking strategy.
    pub fn update_playtime(&mut self, game_id: &str, playtime: u64) -> (r: Result<(), StoreError>)
        requires
            old(self).wf(),
        ensures
            final(self).wf(),
            final(self).base_path() == old(self).base_path(),
            match r {
                Ok(_) => old(self)@.dom().contains(game_id@) && old(self)@[game_id@].playtime
                    + playtime <= u64::MAX && final(self)@ == with_playtime(
                    old(self)@,
                    game_id@,
                    playtime,
                ),
                Err(StoreError::GameNotFound) => !old(self)@.dom().contains(game_id@) && final(self)@ == old(self)@,
                Err(StoreError::PlaytimeOverflow) => old(self)@.dom().contains(game_id@) && old(self)@[game_id@].playtime + playtime > u64::MAX && final(self)@ == old(self)@,
            },
    {
        match self.position(game_id) {
            None => Err(StoreError::GameNotFound),
            Some(i) => {
                match self.entries[i].game.playtime.checked_add(playtime) {
                    None => Err(StoreError::PlaytimeOverflow),
                    Some(total) => {
                        self.entries[i].game.playtime = total;
                        proof {
                            Self::lemma_updated(old(self), self, i as int);
                        }
                        Ok(())
                    },
                }
            },
        }
    }

    /// Records `now` (seconds since the Unix epoch) as the moment the game
    /// was last played.
    pub fn update_last_played(&mut self, game_id: &str, now: u64) -> (r: Result<(), StoreError>)
        requires
            old(self).wf(),
        ensures
            final(self).wf(),
            final(self).base_path() == old(self).base_path(),
            match r {
                Ok(_) => old(self)@.dom().contains(game_id@) && final(self)@ == with_last_played(
                    old(self)@,
                    game_id@,
                    now,
                ),
                Err(e) => e == StoreError::GameNotFound && !old(self)@.dom().contains(game_id@)
                    && final(self)@ == old(self)@,
            },
    {
        match self.position(game_id) {
            None => Err(StoreError::GameNotFound),
            Some(i) => {
                self.entries[i].game.last_played = Some(now);
                proof {
                    Self::lemma_updated(old(self), self, i as int);
                }
                Ok(())
            },
        }
    }

    /// Records `now` (seconds since the Unix epoch) as the first start of
    /// the game, unless a first start is recorded already.
    pub fn set_first_played(&mut self, game_id: &str, now: u64) -> (r: Result<(), StoreError>)
        requires
            old(self).wf(),
        ensures
            final(self).wf(),
            final(self).base_path() == old(self).base_path(),
            match r {
                Ok(_) => old(self)@.dom().contains(game_id@) && final(self)@ == with_first_played(
                    old(self)@,
                    game_id@,
                    now,
                ),
                Err(e) => e == StoreError::GameNotFound && !old(self)@.dom().contains(game_id@)
                    && final(self)@ == old(self)@,
            },
    {
        match self.position(game_id) {
            None => Err(StoreError::GameNotFound),
            Some(i) => {
                if self.entries[i].game.first_played.is_none() {
                    self.entries[i].game.first_played = Some(now);
                    proof {
                        Self::lemma_updated(old(self), self, i as int);
                    }
                }
                Ok(())
            },
        }
    }

    /// Replaces the path of the game's executable.
    pub fn update_exe_path(&mut self, game_id: &str, exe_path: &str) -> (r: Result<(), StoreError>)
        requires
            old(self).wf(),
        ensures
            final(self).wf(),
            final(self).base_path() == old(self).base_path(),
            match r {
                Ok(_) => old(self)@.dom().contains(game_id@) && final(self)@ == old(self)@.insert(
                    game_id@,
                    GameView { exe_file_path: exe_path@, ..old(self)@[game_id@] },
                ),
                Err(e) => e == StoreError::GameNotFound && !old(self)@.dom().contains(game_id@)
                    && final(self)@ == old(self)@,
            },
    {
        match self.position(game_id) {
            None => Err(StoreError::GameNotFound),
            Some(i) => {
                self.entries[i].game.exe_file_path = exe_path.to_owned();
                proof {
                    Self::lemma_updated(old(self), self, i as int);
                }
                Ok(())
            },
        }
    }

    /// Replaces the path by which the game's process is recognised.
    pub fn update_process_path(&mut self, game_id: &str, process_path: &str) -> (r: Result<
        (),
        StoreError,
    >)
        requires
            old(self).wf(),
        ensures
            final(self).wf(),
            final(self).base_path() == old(self).base_path(),
            match r {
                Ok(_) => old(self)@.dom().contains(game_id@) && final(self)@ == old(self)@.insert(
                    game_id@,
                    GameView { process_file_path: process_path@, ..old(self)@[game_id@] },
                ),
                Err(e) => e == StoreError::GameNotFound && !old(self)@.dom().contains(game_id@)
                    && final(self)@ == old(self)@,
            },
    {
        match self.position(game_id) {
            None => Err(StoreError::GameNotFound),
            Some(i) => {
                self.entries[i].game.process_file_path = process_path.to_owned();
                proof {
                    Self::lemma_updated(old(self), self, i as int);
                }
                Ok(())
            },
        }
    }

    /// Replaces the categories of a game.
    pub fn set_categories(&mut self, game_id: &str, categories: Categories) -> (r: Result<
        (),
        StoreError,
    >)
        requires
            old(self).wf(),
        ensures
            final(self).wf(),
            final(self).base_path() == old(self).base_path(),
            match r {
                Ok(_) => old(self)@.dom().contains(game_id@) && final(self)@ == old(self)@.insert(
                    game_id@,
                    GameView { categories: texts(categories@), ..old(self)@[game_id@] },
                ),
                Err(e) => e == StoreError::GameNotFound && !old(self)@.dom().contains(game_id@)
                    && final(self)@ == old(self)@,
            },
    {
        match self.position(game_id) {
            None => Err(StoreError::GameNotFound),
            Some(i) => {
                self.entries[i].game.categories = categories;
                proof {
                    Self::lemma_updated(old(self), self, i as int);
                }
                Ok(())
            },
        }
    }

    /// Replaces the characters of a game.
    pub fn set_characters(&mut self, game_id: &str, characters: Vec<Character>) -> (r: Result<
        (),
        StoreError,
    >)
        requires
            old(self).wf(),
        ensures
            final(self).wf(),
            final(self).base_path() == old(self).base_path(),
            match r {
                Ok(_) => old(self)@.dom().contains(game_id@) && final(self)@ == old(self)@.insert(
                    game_id@,
                    GameView {
                        characters: Some(characters_view(characters@)),
                        ..old(self)@[game_id@]
                    },
                ),
                Err(e) => e == StoreError::GameNotFound && !old(self)@.dom().contains(game_id@)
                    && final(self)@ == old(self)@,
            },
    {
        match self.position(game_id) {
            None => Err(StoreError::GameNotFound),
            Some(i) => {
                self.entries[i].game.characters = Some(characters);
                proof {
                    Self::lemma_updated(old(self), self, i as int);
                }
                Ok(())
            },
        }
    }

    /// All saved games as they are stored, each once, for writing them
    /// back to disk.
    pub fn entries(&self) -> (r: Vec<GameEntry>)
        requires
            self.wf(),
        ensures
            r@.len() == self@.dom().len(),
            forall|i: int|
                0 <= i < r@.len() ==> self@.dom().contains(#[trigger] r@[i].id@) && r@[i].game@
                    == self@[r@[i].id@],
            forall|i: int, j: int| 0 <= i < j < r@.len() ==> r@[i].id@ != r@[j].id@,
    {
        proof {
            self.lemma_dom_len();
        }
        let mut all: Vec<GameEntry> = Vec::new();
        let mut i: usize = 0;
        while i < self.entries.len()
            invariant
                self.wf(),
                i <= self.entries@.len(),
                all@.len() == i,
                forall|j: int|
                    0 <= j < i ==> (#[trigger] all@[j]).id@ == self.entries@[j].id@
                        && all@[j].game@ == self.entries@[j].game@,
            decreases self.entries@.len() - i,
        {
            all.push(
                GameEntry { id: self.entries[i].id.clone(), game: self.entries[i].game.clone() },
            );
            i = i + 1;
        }
        proof {
            assert forall|j: int| 0 <= j < all@.len() implies self@.dom().contains(
                #[trigger] all@[j].id@,
            ) && all@[j].game@ == self@[all@[j].id@] by {
                self.lemma_slot(j);
            }
            assert forall|a: int, b: int| 0 <= a < b < all@.len() implies all@[a].id@
                != all@[b].id@ by {
                assert(self.entries@[a].id@ != self.entries@[b].id@);
            }
        }
        all
    }

    /// All saved games, each with the place of its cover on disk in the
    /// stead of the cover's address. It fails where some cover's address
    /// gives no file name.
    pub fn get_all(&self) -> (r: Result<Vec<GameEntry>, ImageError>)
        requires
            self.wf(),
        ensures
            match r {
                Ok(all) => all@.len() == self@.dom().len() && (forall|i: int|
                    0 <= i < all@.len() ==> self@.dom().contains(#[trigger] all@[i].id@)
                        && shown_as(self@[all@[i].id@], all@[i].game@)) && (forall|i: int, j: int|
                    0 <= i < j < all@.len() ==> all@[i].id@ != all@[j].id@) && (forall|
                    k: Seq<char>,
                |
                    self@.dom().contains(k) ==> image_name_of(
                        url_path_segments(#[trigger] self@[k].image_url),
                    ) is Ok),
                Err(e) => exists|k: Seq<char>|
                    self@.dom().contains(k) && image_name_of(
                        url_path_segments(#[trigger] self@[k].image_url),
                    ) == Err::<Seq<char>, ImageError>(e),
            },
    {
        proof {
            self.lemma_dom_len();
        }
        let mut all: Vec<GameEntry> = Vec::new();
        let mut i: usize = 0;
        while i < self.entries.len()
            invariant
                self.wf(),
                i <= self.entries@.len(),
                all@.len() == i,
                forall|j: int|
                    0 <= j < i ==> (#[trigger] all@[j]).id@ == self.entries@[j].id@ && shown_as(
                        self.entries@[j].game@,
                        all@[j].game@,
                    ) && image_name_of(url_path_segments(self.entries@[j].game@.image_url)) is Ok,
            decreases self.entries@.len() - i,
        {
            let mut game = self.entries[i].game.clone();
            match construct_image_path(self.base_app_path.as_str(), game.image_url.as_str()) {
                Err(e) => {
                    proof {
                        self.lemma_slot(i as int);
                        let k = self.entries@[i as int].id@;
                        assert(self@.dom().contains(k) && image_name_of(
                            url_path_segments(self@[k].image_url),
                        ) == Err::<Seq<char>, ImageError>(e));
                    }
                    return Err(e);
                },
                Ok(path) => {
                    game.image_url = path;
                    all.push(GameEntry { id: self.entries[i].id.clone(), game });
                },
            }
            i = i + 1;
        }
        proof {
            assert forall|j: int| 0 <= j < all@.len() implies self@.dom().contains(
                #[trigger] all@[j].id@,
            ) && shown_as(self@[all@[j].id@], all@[j].game@) by {
                self.lemma_slot(j);
            }
            assert forall|a: int, b: int| 0 <= a < b < all@.len() implies all@[a].id@
                != all@[b].id@ by {
                assert(self.entries@[a].id@ != self.entries@[b].id@);
            }
            assert forall|k: Seq<char>| self@.dom().contains(k) implies image_name_of(
                url_path_segments(#[trigger] self@[k].image_url),
            ) is Ok by {
                assert(self.holds(k));
                let j = self.slot(k);
                self.lemma_slot(j);
                assert(all@[j].id@ == k);
            }
        }
        Ok(all)
    }

    /// Gives every game that names no process path its executable's path
    /// to be recognised by.
    pub fn repair_process_paths(&mut self)
        requires
            old(self).wf(),
        ensures
            final(self).wf(),
            final(self).base_path() == old(self).base_path(),
            final(self)@ == old(self)@.map_values(|g: GameView| repaired(g)),
    {
        let ghost target = self@.map_values(|g: GameView| repaired(g));
        let mut i: usize = 0;
        while i < self.entries.len()
            invariant
                old(self).wf(),
                self.base_app_path@ == old(self).base_app_path@,
                self.entries@.len() == old(self).entries@.len(),
                i <= self.entries@.len(),
                forall|j: int|
                    0 <= j < self.entries@.len() ==> (#[trigger] self.entries@[j]).id@ == old(self).entries@[j].id@,
                forall|j: int|
                    0 <= j < i ==> (#[trigger] self.entries@[j]).game@ == repaired(
                        old(self).entries@[j].game@,
                    ),
                forall|j: int|
                    i <= j < self.entries@.len() ==> (#[trigger] self.entries@[j]).game@ == old(self).entries@[j].game@,
            decreases self.entries@.len() - i,
        {
            if self.entries[i].game.process_file_path.as_str().is_empty() {
                let exe = self.entries[i].game.exe_file_path.clone();
                self.entries[i].game.process_file_path = exe;
            }
            i = i + 1;
        }
        proof {
            assert(self.wf()) by {
                assert forall|a: int, b: int|
                    0 <= a < b < self.entries@.len() implies self.entries@[a].id@
                    != self.entries@[b].id@ by {
                    assert(old(self).entries@[a].id@ != old(self).entries@[b].id@);
                }
            }
            assert forall|j: int| 0 <= j < self.entries@.len() implies target.dom().contains(
                #[trigger] self.entries@[j].id@,
            ) && target[self.entries@[j].id@] == self.entries@[j].game@ by {
                old(self).lemma_slot(j);
            }
            assert forall|k: Seq<char>| #[trigger] target.dom().contains(k) implies self.holds(
                k,
            ) by {
                let j = old(self).slot(k);
                assert(self.entries@[j].id@ == k);
            }
            self.lemma_view_is(target);
        }
    }
}

/// Whether `shown` is the stored game with another place for its cover.
pub open spec fn shown_as(stored: GameView, shown: GameView) -> bool {
    shown == (GameView { image_url: shown.image_url, ..stored })
}

/// A game with a process path to be recognised by: its own where it names
/// one, else the path of its executable.
pub open spec fn repaired(g: GameView) -> GameView {
    if g.process_file_path.len() == 0 {
        GameView { process_file_path: g.exe_file_path, ..g }
    } else {
        g
    }
}

/// Brings the saved games in line with what the tracking strategies rely
/// on: every game has a process path.
pub fn setup_store(store: &mut GamesStore)
    requires
        old(store).wf(),
    ensures
        final(store).wf(),
        final(store).base_path() == old(store).base_path(),
        final(store)@ == old(store)@.map_values(|g: GameView| repaired(g)),
{
    store.repair_process_paths()
}

/// Flushes `playtime` seconds of a session into the cumulative playtime of
/// its game.
pub fn flush_playtime(store: &mut GamesStore, game_id: &str, playtime: u64) -> (r: Result<
    (),
    StoreError,
>)
    requires
        old(store).wf(),
    ensures
        final(store).wf(),
        final(store).base_path() == old(store).base_path(),
        match r {
            Ok(_) => old(store)@.dom().contains(game_id@) && old(store)@[game_id@].playtime
                + playtime <= u64::MAX && final(store)@ == with_playtime(
                old(store)@,
                game_id@,
                playtime,
            ),
            Err(StoreError::GameNotFound) => !old(store)@.dom().contains(game_id@) && final(store)@ == old(store)@,
            Err(StoreError::PlaytimeOverflow) => old(store)@.dom().contains(game_id@) && old(store)@[game_id@].playtime + playtime > u64::MAX && final(store)@ == old(store)@,
        },
{
    store.update_playtime(game_id, playtime)
}

/// Recording the first start twice never changes what the first recording
/// left: the second call is a no-op, whatever its time.
pub proof fn lemma_first_played_idempotent(
    games: Map<Seq<char>, GameView>,
    id: Seq<char>,
    first: u64,
    second: u64,
)
    requires
        games.dom().contains(id),
    ensures
        with_first_played(with_first_played(games, id, first), id, second) == with_first_played(
            games,
            id,
            first,
        ),
        with_first_played(games, id, first)[id].first_played is Some,
{
}

/// Flushes add up: flushing `a` and then `b` seconds leaves the same
/// records as flushing `a + b` at once, and the cumulative playtime never
/// decreases.
pub proof fn lemma_flushes_add_up(games: Map<Seq<char>, GameView>, id: Seq<char>, a: u64, b: u64)
    requires
        games.dom().contains(id),
        games[id].playtime + a + b <= u64::MAX,
    ensures
        with_playtime(with_playtime(games, id, a), id, b) == with_playtime(
            games,
            id,
            (a + b) as u64,
        ),
        with_playtime(games, id, a)[id].playtime >= games[id].playtime,
{
    assert(with_playtime(with_playtime(games, id, a), id, b) =~= with_playtime(
        games,
        id,
        (a + b) as u64,
    ));
}

} // verus!
