use vstd::prelude::*;

use crate::models::error::ApplicationError;
use crate::models::title_type::{title_type_ordinal, TitleType};
use crate::rpc;
use crate::validation::{check_length, len_within};

verus! {

/// One title of a collection.
#[derive(Debug)]
pub struct Title {
    pub name: String,
    pub title_type: TitleType,
    pub is_main: bool,
}

pub const MAX_TITLE_LEN: usize = 1024;

pub open spec fn title_input_ok(t: rpc::Title) -> bool {
    0 <= t.title_type <= 3 && len_within(t.name@, 1, MAX_TITLE_LEN as int)
}

/// The error a rejected title input gives: an unknown type is invalid data,
/// a bad name length a validation failure.
pub open spec fn title_error_matches(t: rpc::Title, e: ApplicationError) -> bool {
    if !(0 <= t.title_type <= 3) {
        e is InvalidData
    } else {
        e is ValidationError
    }
}

pub open spec fn title_from(t: Title, input: rpc::Title) -> bool {
    &&& t.name@ == input.name@
    &&& title_type_ordinal(t.title_type) == input.title_type
    &&& t.is_main == input.is_main
}

/// A title list is valid when it is not empty and at least one title is main.
pub open spec fn titles_valid(titles: Seq<Title>) -> bool {
    titles.len() > 0 && exists|i: int| 0 <= i < titles.len() && #[trigger] titles[i].is_main
}

impl Title {
    pub fn from_grpc(value: rpc::Title) -> (r: Result<Title, ApplicationError>)
        ensures
            r is Ok <==> title_input_ok(value),
            r matches Ok(t) ==> title_from(t, value),
            r matches Err(e) ==> title_error_matches(value, e),
    {
        let title_type = match TitleType::from_i32(value.title_type) {
            Some(t) => t,
            None => return Err(ApplicationError::InvalidData(String::from_str("title type is invalid"))),
        };
        check_length(&value.name, 1, MAX_TITLE_LEN, "name")?;
        Ok(Title { name: value.name, is_main: value.is_main, title_type })
    }

    /// Converts every title, failing with the error of the first bad one.
    pub fn from_grpc_arr(arr: Vec<rpc::Title>) -> (r: Result<Vec<Title>, ApplicationError>)
        ensures
            r is Ok <==> forall|i: int| 0 <= i < arr@.len() ==> title_input_ok(#[trigger] arr@[i]),
            r matches Ok(v) ==> v@.len() == arr@.len() && forall|i: int|
                0 <= i < arr@.len() ==> title_from(#[trigger] v@[i], arr@[i]),
            r matches Err(e) ==> exists|i: int|
                0 <= i < arr@.len() && !title_input_ok(#[trigger] arr@[i]) && (forall|j: int|
                    0 <= j < i ==> title_input_ok(#[trigger] arr@[j])) && title_error_matches(arr@[i], e),
    {
        let ghost input = arr@;
        let mut converted: Vec<Title> = Vec::new();
        for title in iter: arr
            invariant
                iter.seq() == input,
                converted@.len() == iter.index(),
                forall|j: int| 0 <= j < iter.index() ==> title_input_ok(#[trigger] input[j]),
                forall|j: int| 0 <= j < iter.index() ==> title_from(#[trigger] converted@[j], input[j]),
        {
            let ghost k = iter.index();
            match Title::from_grpc(title) {
                Ok(t) => converted.push(t),
                Err(e) => {
                    assert(!title_input_ok(input[k]) && title_error_matches(input[k], e));
                    assert(forall|j: int| 0 <= j < k ==> title_input_ok(#[trigger] input[j]));
                    return Err(e);
                },
            }
        }
        Ok(converted)
    }

    pub fn to_grpc(self) -> (r: rpc::Title)
        ensures
            title_from(self, r),
    {
        rpc::Title { name: self.name, is_main: self.is_main, title_type: self.title_type.to_i32() }
    }
}

/// Checks a title list as a unit: not empty, and at least one title is main.
pub fn validate_titles(titles: &Vec<Title>) -> (r: Result<(), ApplicationError>)
    ensures
        r is Ok <==> titles_valid(titles@),
        r matches Err(e) ==> e is ValidationError,
{
    if titles.len() == 0 {
        return Err(ApplicationError::ValidationError(String::from_str("titles cannot be empty")));
    }
    let mut i: usize = 0;
    while i < titles.len()
        invariant
            i <= titles@.len(),
            forall|j: int| 0 <= j < i ==> !(#[trigger] titles@[j]).is_main,
        decreases titles@.len() - i,
    {
        if titles[i].is_main {
            return Ok(());
        }
        i = i + 1;
    }
    Err(ApplicationError::ValidationError(String::from_str("at least one title must be main")))
}

} // verus!
