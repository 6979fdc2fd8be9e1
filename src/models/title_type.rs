use vstd::prelude::*;

verus! {

/// The kind of a title: its script or language.
#[derive(PartialEq, Eq, Structural, Clone, Copy, Debug)]
pub enum TitleType {
    Romaji,
    English,
    Portuguese,
    Native,
}

pub open spec fn title_type_ordinal(t: TitleType) -> i32 {
    match t {
        TitleType::Romaji => 0,
        TitleType::English => 1,
        TitleType::Portuguese => 2,
        TitleType::Native => 3,
    }
}

impl TitleType {
    /// The title type with a given ordinal; `None` outside `0..=3`.
    pub fn from_i32(n: i32) -> (r: Option<TitleType>)
        ensures
            r is Some <==> 0 <= n <= 3,
            r matches Some(t) ==> title_type_ordinal(t) == n,
    {
        match n {
            0 => Some(TitleType::Romaji),
            1 => Some(TitleType::English),
            2 => Some(TitleType::Portuguese),
            3 => Some(TitleType::Native),
            _ => None,
        }
    }

    pub fn to_i32(self) -> (r: i32)
        ensures
            r == title_type_ordinal(self),
    {
        match self {
            TitleType::Romaji => 0,
            TitleType::English => 1,
            TitleType::Portuguese => 2,
            TitleType::Native => 3,
        }
    }
}

} // verus!
