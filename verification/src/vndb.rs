//! What the visual-novel catalogue returns, and how its answers are taken
//! into the saved games. Asking the catalogue is the caller's part.

use vstd::prelude::*;
use crate::games::{Character, CharacterView};
use crate::text::opt_text;

verus! {

/// The most entries that the catalogue returns for one request.
pub const VNDB_MAX_PAGE_SIZE: usize = 100;

/// The image of a character in the catalogue.
#[derive(Debug)]
pub struct CharacterImage {
    pub url: String,
}

/// A character as the catalogue describes it.
#[derive(Debug)]
pub struct VndbCharacter {
    pub id: String,
    pub name: String,
    pub image: Option<CharacterImage>,
    pub original: Option<String>,
}

/// The alternative title of a game in the catalogue.
#[derive(Debug)]
pub struct VndbAltTitleGame {
    pub id: String,
    pub alttitle: Option<String>,
}

impl VndbCharacter {
    /// The character as it is saved with a game: under its catalogue id
    /// and names, with `image_url` as the place of its image on disk.
    pub fn into_character(self, image_url: Option<String>) -> (r: Character)
        ensures
            r@ == (CharacterView {
                id: self.id@,
                en_name: self.name@,
                og_name: opt_text(self.original),
                image_url: opt_text(image_url),
            }),
    {
        Character { id: self.id, en_name: self.name, og_name: self.original, image_url }
    }
}

/// The catalogue, as far as deciding what to ask of it goes.
#[derive(Debug)]
pub struct Vndb;

/// The number of requests that `total` ids take.
pub open spec fn pages_for(total: nat) -> nat {
    (total + VNDB_MAX_PAGE_SIZE - 1) as nat / (VNDB_MAX_PAGE_SIZE as nat)
}

/// The ids of request `index`: those from `start` up to, not including,
/// `end`.
pub open spec fn page_bounds(total: nat, index: nat) -> (nat, nat) {
    let start = (index * VNDB_MAX_PAGE_SIZE) as nat;
    (
        start,
        if start + VNDB_MAX_PAGE_SIZE <= total {
            (start + VNDB_MAX_PAGE_SIZE) as nat
        } else {
            total
        },
    )
}

impl Vndb {
    /// How many requests it takes to ask for `total` ids, a page at a
    /// time.
    pub fn page_count(total: usize) -> (r: usize)
        ensures
            r == pages_for(total as nat),
    {
        let full = total / VNDB_MAX_PAGE_SIZE;
        if total % VNDB_MAX_PAGE_SIZE == 0 {
            full
        } else {
            full + 1
        }
    }

    /// Which of `total` ids request `index` asks for.
    pub fn page(total: usize, index: usize) -> (r: (usize, usize))
        requires
            index < pages_for(total as nat),
        ensures
            (r.0 as nat, r.1 as nat) == page_bounds(total as nat, index as nat),
    {
        let start = index * VNDB_MAX_PAGE_SIZE;
        let end = if total - start >= VNDB_MAX_PAGE_SIZE {
            start + VNDB_MAX_PAGE_SIZE
        } else {
            total
        };
        (start, end)
    }
}

/// The pages split the ids without gap or overlap: the first page starts
/// at the first id, each page starts where the one before ended, the last
/// ends at the last id, and every page holds at least one id and at most
/// `VNDB_MAX_PAGE_SIZE`.
pub proof fn lemma_pages_partition(total: nat, index: nat)
    requires
        index < pages_for(total),
    ensures
        page_bounds(total, 0).0 == 0,
        page_bounds(total, index).0 < page_bounds(total, index).1,
        page_bounds(total, index).1 - page_bounds(total, index).0 <= VNDB_MAX_PAGE_SIZE,
        index + 1 < pages_for(total) ==> page_bounds(total, index).1 == page_bounds(
            total,
            index + 1,
        ).0,
        index + 1 == pages_for(total) ==> page_bounds(total, index).1 == total,
{
}

} // verus!
