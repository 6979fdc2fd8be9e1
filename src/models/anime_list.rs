use vstd::prelude::*;

verus! {

/// An external list service on which a collection is cross-referenced.
#[derive(PartialEq, Eq, Structural, Clone, Copy, Debug)]
pub enum AnimeList {
    MyAnimeList,
    AniList,
}

pub open spec fn anime_list_ordinal(l: AnimeList) -> i32 {
    match l {
        AnimeList::MyAnimeList => 0,
        AnimeList::AniList => 1,
    }
}

impl AnimeList {
    /// The list service with a given ordinal; `None` outside `0..=1`.
    pub fn from_i32(n: i32) -> (r: Option<AnimeList>)
        ensures
            r is Some <==> 0 <= n <= 1,
            r matches Some(l) ==> anime_list_ordinal(l) == n,
    {
        match n {
            0 => Some(AnimeList::MyAnimeList),
            1 => Some(AnimeList::AniList),
            _ => None,
        }
    }

    pub fn to_i32(self) -> (r: i32)
        ensures
            r == anime_list_ordinal(self),
    {
        match self {
            AnimeList::MyAnimeList => 0,
            AnimeList::AniList => 1,
        }
    }
}

} // verus!
