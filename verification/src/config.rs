//! The settings of a run: resolution, folder, number of pictures and the
//! words whose pictures are skipped.

use vstd::prelude::*;
use crate::text::{to_lowercase, unicode_lowercase, views};

verus! {

/// The screen resolution whose wallpapers are fetched.
pub const DEFAULT_RESOLUTION: &'static str = "2560x1440";

/// The folder that pictures are saved to.
pub const IMAGE_FOLDER: &'static str = "img";

/// How many pictures one run fetches.
pub const PICTURES_TO_FETCH: i32 = 10;

/// The words, as written, whose pictures are skipped.
pub open spec fn black_list_words() -> Seq<Seq<char>> {
    seq![
        "pubg"@,
        "Solo Leveling Arise"@,
        "playerunknown"@,
        "fifa"@,
        "garena"@,
        "nba"@,
        "football"@,
        "genshin"@,
        "soccer"@,
        "hockey"@,
        "fortnite"@,
    ]
}

/// The black list of a run: each word lower-cased.
pub fn default_black_list() -> (r: Vec<String>)
    ensures
        views(r@) == black_list_words().map_values(|w: Seq<char>| unicode_lowercase(w)),
{
    let mut r: Vec<String> = Vec::new();
    r.push(to_lowercase("pubg"));
    r.push(to_lowercase("Solo Leveling Arise"));
    r.push(to_lowercase("playerunknown"));
    r.push(to_lowercase("fifa"));
    r.push(to_lowercase("garena"));
    r.push(to_lowercase("nba"));
    r.push(to_lowercase("football"));
    r.push(to_lowercase("genshin"));
    r.push(to_lowercase("soccer"));
    r.push(to_lowercase("hockey"));
    r.push(to_lowercase("fortnite"));
    assert(views(r@) =~= black_list_words().map_values(|w: Seq<char>| unicode_lowercase(w)));
    r
}

/// The game names skipped when pictures are taken from the listing sorted
/// by views (already in lower case).
pub open spec fn sorted_view_black_list_words() -> Seq<Seq<char>> {
    seq!["pubg"@, "playerunknown"@, "fifa"@, "nba"@, "football"@, "genshin"@, "fortnite"@]
}

/// The black list used with the listing sorted by views.
pub fn sorted_view_black_list() -> (r: Vec<String>)
    ensures
        views(r@) == sorted_view_black_list_words(),
{
    let mut r: Vec<String> = Vec::new();
    r.push(String::from_str("pubg"));
    r.push(String::from_str("playerunknown"));
    r.push(String::from_str("fifa"));
    r.push(String::from_str("nba"));
    r.push(String::from_str("football"));
    r.push(String::from_str("genshin"));
    r.push(String::from_str("fortnite"));
    assert(views(r@) =~= sorted_view_black_list_words());
    r
}

} // verus!
