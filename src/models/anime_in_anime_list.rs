use vstd::prelude::*;

use crate::models::anime_list::{anime_list_ordinal, AnimeList};
use crate::models::error::ApplicationError;
use crate::rpc;
use crate::validation::{check_length, len_within};

verus! {

/// A cross-reference of a collection on an external list service.
#[derive(Debug)]
pub struct AnimeInAnimeList {
    pub anime_list: AnimeList,
    pub id_in_list: String,
}

pub const MAX_ID_IN_LIST_LEN: usize = 100;

pub open spec fn list_ref_input_ok(l: rpc::AnimeInAnimeList) -> bool {
    0 <= l.anime_list <= 1 && len_within(l.id_in_list@, 1, MAX_ID_IN_LIST_LEN as int)
}

pub open spec fn list_ref_error_matches(l: rpc::AnimeInAnimeList, e: ApplicationError) -> bool {
    if !(0 <= l.anime_list <= 1) {
        e is InvalidData
    } else {
        e is ValidationError
    }
}

pub open spec fn list_ref_from(a: AnimeInAnimeList, input: rpc::AnimeInAnimeList) -> bool {
    &&& anime_list_ordinal(a.anime_list) == input.anime_list
    &&& a.id_in_list@ == input.id_in_list@
}

impl AnimeInAnimeList {
    pub fn from_grpc(value: rpc::AnimeInAnimeList) -> (r: Result<AnimeInAnimeList, ApplicationError>)
        ensures
            r is Ok <==> list_ref_input_ok(value),
            r matches Ok(a) ==> list_ref_from(a, value),
            r matches Err(e) ==> list_ref_error_matches(value, e),
    {
        let anime_list = match AnimeList::from_i32(value.anime_list) {
            Some(l) => l,
            None => return Err(
                ApplicationError::InvalidData(String::from_str("anime_list type is invalid")),
            ),
        };
        check_length(&value.id_in_list, 1, MAX_ID_IN_LIST_LEN, "id_in_list")?;
        Ok(AnimeInAnimeList { anime_list, id_in_list: value.id_in_list })
    }

    /// Converts every cross-reference, failing with the error of the first bad one.
    pub fn from_grpc_arr(arr: Vec<rpc::AnimeInAnimeList>) -> (r: Result<
        Vec<AnimeInAnimeList>,
        ApplicationError,
    >)
        ensures
            r is Ok <==> forall|i: int| 0 <= i < arr@.len() ==> list_ref_input_ok(#[trigger] arr@[i]),
            r matches Ok(v) ==> v@.len() == arr@.len() && forall|i: int|
                0 <= i < arr@.len() ==> list_ref_from(#[trigger] v@[i], arr@[i]),
            r matches Err(e) ==> exists|i: int|
                0 <= i < arr@.len() && !list_ref_input_ok(#[trigger] arr@[i]) && (forall|j: int|
                    0 <= j < i ==> list_ref_input_ok(#[trigger] arr@[j])) && list_ref_error_matches(arr@[i], e),
    {
        let ghost input = arr@;
        let mut converted: Vec<AnimeInAnimeList> = Vec::new();
        for item in iter: arr
            invariant
                iter.seq() == input,
                converted@.len() == iter.index(),
                forall|j: int| 0 <= j < iter.index() ==> list_ref_input_ok(#[trigger] input[j]),
                forall|j: int|
                    0 <= j < iter.index() ==> list_ref_from(#[trigger] converted@[j], input[j]),
        {
            let ghost k = iter.index();
            match AnimeInAnimeList::from_grpc(item) {
                Ok(a) => converted.push(a),
                Err(e) => {
                    assert(!list_ref_input_ok(input[k]) && list_ref_error_matches(input[k], e));
                    assert(forall|j: int| 0 <= j < k ==> list_ref_input_ok(#[trigger] input[j]));
                    return Err(e);
                },
            }
        }
        Ok(converted)
    }

    pub fn to_grpc(self) -> (r: rpc::AnimeInAnimeList)
        ensures
            list_ref_from(self, r),
    {
        rpc::AnimeInAnimeList { anime_list: self.anime_list.to_i32(), id_in_list: self.id_in_list }
    }
}

} // verus!
