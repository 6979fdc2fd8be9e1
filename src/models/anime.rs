use vstd::prelude::*;

use crate::authorization::{authorize, permits, Requirement};
use crate::bindings::{checked_unix_time, now_unix_time, valid_unix_time};
use crate::models::anime_in_anime_list::{list_ref_from, list_ref_input_ok, AnimeInAnimeList};
use crate::models::error::ApplicationError;
use crate::models::genre::{Genre, ALL_GENRES};
use crate::models::season::MAX_MEDIA_ID_LEN;
use crate::models::title::{title_from, title_input_ok, titles_valid, validate_titles, Title};
use crate::models::user::{opt_view, User};
use crate::rpc;
use crate::validation::{check_length, check_optional_length, len_within, opt_len_within};

verus! {

/// A collection: the top of the catalog hierarchy.
#[derive(Debug)]
pub struct Anime {
    pub id: Option<u32>,
    pub titles: Vec<Title>,
    pub title_search: String,
    pub synopsis: String,
    pub thumbnail_id: Option<String>,
    pub banner_id: Option<String>,
    pub is_hidden: bool,
    pub is_nsfw: bool,
    pub created_by: String,
    pub created_at: i64,
    pub genre: Genre,
    pub release_date: i64,
    pub anime_in_lists: Vec<AnimeInAnimeList>,
}

pub const MAX_SYNOPSIS_LEN: usize = 4000;

/// The search index of a title list: the names joined by underscores.
pub open spec fn joined_names(titles: Seq<Title>) -> Seq<char>
    decreases titles.len(),
{
    if titles.len() == 0 {
        Seq::empty()
    } else if titles.len() == 1 {
        titles[0].name@
    } else {
        joined_names(titles.drop_last()) + seq!['_'] + titles.last().name@
    }
}

/// Title inputs that each convert.
pub open spec fn titles_decode(titles: Seq<rpc::Title>) -> bool {
    forall|i: int| 0 <= i < titles.len() ==> title_input_ok(#[trigger] titles[i])
}

/// Title inputs that form a valid list: not empty, one of them main.
pub open spec fn titles_structure_ok(titles: Seq<rpc::Title>) -> bool {
    titles.len() > 0 && exists|i: int| 0 <= i < titles.len() && #[trigger] titles[i].is_main
}

/// List-reference inputs that each convert.
pub open spec fn lists_decode(lists: Seq<rpc::AnimeInAnimeList>) -> bool {
    forall|i: int| 0 <= i < lists.len() ==> list_ref_input_ok(#[trigger] lists[i])
}

pub open spec fn media_fields_ok(thumbnail_id: Option<String>, banner_id: Option<String>) -> bool {
    &&& opt_len_within(opt_view(thumbnail_id), 1, MAX_MEDIA_ID_LEN as int)
    &&& opt_len_within(opt_view(banner_id), 1, MAX_MEDIA_ID_LEN as int)
}

pub open spec fn titles_from(v: Seq<Title>, input: Seq<rpc::Title>) -> bool {
    v.len() == input.len() && forall|i: int| 0 <= i < input.len() ==> title_from(#[trigger] v[i], input[i])
}

pub open spec fn lists_from(v: Seq<AnimeInAnimeList>, input: Seq<rpc::AnimeInAnimeList>) -> bool {
    v.len() == input.len() && forall|i: int|
        0 <= i < input.len() ==> list_ref_from(#[trigger] v[i], input[i])
}

/// Every field of a collection request decodes: titles, release date, list
/// references and genre bits.
pub open spec fn request_decodes(
    titles: Seq<rpc::Title>,
    release_date: i64,
    lists: Seq<rpc::AnimeInAnimeList>,
    genre: u64,
) -> bool {
    &&& titles_decode(titles)
    &&& valid_unix_time(release_date as int)
    &&& lists_decode(lists)
    &&& genre & !ALL_GENRES == 0
}

/// The decoded collection passes structural validation.
pub open spec fn request_structure_ok(
    titles: Seq<rpc::Title>,
    synopsis: Seq<char>,
    thumbnail_id: Option<String>,
    banner_id: Option<String>,
    lists: Seq<rpc::AnimeInAnimeList>,
) -> bool {
    &&& titles_structure_ok(titles)
    &&& len_within(synopsis, 1, MAX_SYNOPSIS_LEN as int)
    &&& media_fields_ok(thumbnail_id, banner_id)
    &&& lists.len() > 0
}

pub open spec fn create_decodes(data: rpc::CreateAnimeRequest) -> bool {
    request_decodes(data.titles@, data.release_date, data.anime_in_lists@, data.genre)
}

pub open spec fn create_structure_ok(data: rpc::CreateAnimeRequest) -> bool {
    request_structure_ok(data.titles@, data.synopsis@, data.thumbnail_id, data.banner_id, data.anime_in_lists@)
}

pub open spec fn edit_decodes(data: rpc::EditAnimeRequest) -> bool {
    request_decodes(data.titles@, data.release_date, data.anime_in_lists@, data.genre)
}

pub open spec fn edit_structure_ok(data: rpc::EditAnimeRequest) -> bool {
    request_structure_ok(data.titles@, data.synopsis@, data.thumbnail_id, data.banner_id, data.anime_in_lists@)
}

/// The collection an edit request turns an existing one into: the request's
/// fields applied, the search index rebuilt from the new titles, creator,
/// creation time and visibility flags kept.
pub open spec fn edited_from(a: Anime, old: Anime, data: rpc::EditAnimeRequest) -> bool {
    &&& a.id == old.id
    &&& titles_from(a.titles@, data.titles@)
    &&& a.title_search@ == joined_names(a.titles@)
    &&& a.synopsis@ == data.synopsis@
    &&& opt_view(a.thumbnail_id) == opt_view(data.thumbnail_id)
    &&& opt_view(a.banner_id) == opt_view(data.banner_id)
    &&& a.is_hidden == old.is_hidden
    &&& a.is_nsfw == old.is_nsfw
    &&& a.created_by@ == old.created_by@
    &&& a.created_at == old.created_at
    &&& a.genre.spec_bits() == data.genre
    &&& a.release_date == data.release_date
    &&& lists_from(a.anime_in_lists@, data.anime_in_lists@)
}

proof fn lemma_titles_valid_from(v: Seq<Title>, input: Seq<rpc::Title>)
    requires
        titles_from(v, input),
    ensures
        titles_valid(v) <==> input.len() > 0 && exists|i: int|
            0 <= i < input.len() && #[trigger] input[i].is_main,
{
    if titles_valid(v) {
        let i = choose|i: int| 0 <= i < v.len() && #[trigger] v[i].is_main;
        assert(title_from(v[i], input[i]));
        assert(input[i].is_main);
    }
    if input.len() > 0 && exists|i: int| 0 <= i < input.len() && #[trigger] input[i].is_main {
        let i = choose|i: int| 0 <= i < input.len() && #[trigger] input[i].is_main;
        assert(title_from(v[i], input[i]));
        assert(v[i].is_main);
    }
}

/// Builds the search index of a title list.
pub fn generate_title_search(titles: &Vec<Title>) -> (r: String)
    ensures
        r@ == joined_names(titles@),
{
    let mut out = String::new();
    let mut i: usize = 0;
    while i < titles.len()
        invariant
            i <= titles@.len(),
            out@ == joined_names(titles@.subrange(0, i as int)),
        decreases titles@.len() - i,
    {
        proof {
            let pre = titles@.subrange(0, i + 1);
            assert(pre.drop_last() == titles@.subrange(0, i as int));
            assert(pre.last() == titles@[i as int]);
        }
        if i > 0 {
            push_underscore(&mut out);
        }
        out.append(titles[i].name.as_str());
        i = i + 1;
    }
    proof {
        assert(titles@.subrange(0, titles@.len() as int) == titles@);
    }
    out
}

fn push_underscore(s: &mut String)
    ensures
        final(s)@ == old(s)@ + seq!['_'],
{
    crate::bindings::push_char(s, '_');
    assert(old(s)@.push('_') == old(s)@ + seq!['_']);
}

impl Anime {
    pub open spec fn valid(&self) -> bool {
        &&& titles_valid(self.titles@)
        &&& len_within(self.synopsis@, 1, MAX_SYNOPSIS_LEN as int)
        &&& media_fields_ok(self.thumbnail_id, self.banner_id)
        &&& self.anime_in_lists@.len() > 0
    }

    /// A new collection built from a creation request: only an
    /// administrator may create one; titles, list references, genre bits and
    /// release date must decode, and the result must validate. The search
    /// index, creator and creation time are assigned here.
    pub fn new(data: rpc::CreateAnimeRequest, created_by: &User) -> (r: Result<Anime, ApplicationError>)
        ensures
            !permits(created_by.role, Requirement::AdminOnly) ==> r matches Err(
                ApplicationError::Unauthorized,
            ),
            r is Ok <==> permits(created_by.role, Requirement::AdminOnly) && create_decodes(data)
                && create_structure_ok(data),
            r matches Err(e) ==> e is Unauthorized || e is InvalidData || e is ValidationError,
            permits(created_by.role, Requirement::AdminOnly) && titles_decode(data.titles@) && (
            !valid_unix_time(data.release_date as int) || (valid_unix_time(data.release_date as int)
                && lists_decode(data.anime_in_lists@) && data.genre & !ALL_GENRES != 0)) ==> r matches Err(
                ApplicationError::InvalidData(_),
            ),
            permits(created_by.role, Requirement::AdminOnly) && create_decodes(data)
                && !create_structure_ok(data) ==> r matches Err(ApplicationError::ValidationError(_)),
            r matches Ok(a) ==> {
                &&& a.valid()
                &&& a.id is None
                &&& titles_from(a.titles@, data.titles@)
                &&& a.title_search@ == joined_names(a.titles@)
                &&& a.synopsis@ == data.synopsis@
                &&& opt_view(a.thumbnail_id) == opt_view(data.thumbnail_id)
                &&& opt_view(a.banner_id) == opt_view(data.banner_id)
                &&& a.is_hidden == data.is_hidden
                &&& a.is_nsfw == data.is_nsfw
                &&& a.created_by@ == created_by.id@
                &&& valid_unix_time(a.created_at as int)
                &&& a.genre.spec_bits() == data.genre
                &&& a.release_date == data.release_date
                &&& lists_from(a.anime_in_lists@, data.anime_in_lists@)
            },
    {
        authorize(created_by, Requirement::AdminOnly)?;
        let ghost input = data;
        let titles = Title::from_grpc_arr(data.titles)?;
        let title_search = generate_title_search(&titles);
        let release_date = match checked_unix_time(data.release_date) {
            Some(t) => t,
            None => return Err(
                ApplicationError::InvalidData(String::from_str("release_date is not a valid unixtime")),
            ),
        };
        let anime_in_lists = AnimeInAnimeList::from_grpc_arr(data.anime_in_lists)?;
        let genre = match Genre::from_bits(data.genre) {
            Some(g) => g,
            None => return Err(
                ApplicationError::InvalidData(String::from_str("genre is not a valid genre flag")),
            ),
        };
        let anime = Anime {
            id: None,
            titles,
            title_search,
            synopsis: data.synopsis,
            thumbnail_id: data.thumbnail_id,
            banner_id: data.banner_id,
            is_hidden: data.is_hidden,
            is_nsfw: data.is_nsfw,
            created_by: created_by.id.clone(),
            created_at: now_unix_time(),
            release_date,
            genre,
            anime_in_lists,
        };
        proof {
            lemma_titles_valid_from(anime.titles@, input.titles@);
        }
        anime.validate()?;
        Ok(anime)
    }

    /// Applies an edit request to a fetched collection: only an
    /// administrator may edit, the request must name this collection, and
    /// the new titles, genre bits, release date and list references must
    /// decode. The search index is rebuilt from the new titles; creator,
    /// creation time and visibility flags are left untouched.
    pub fn update(self, update_data: rpc::EditAnimeRequest, user: &User) -> (r: Result<
        Anime,
        ApplicationError,
    >)
        ensures
            !permits(user.role, Requirement::AdminOnly) ==> r matches Err(ApplicationError::Unauthorized),
            permits(user.role, Requirement::AdminOnly) && self.id != Some(update_data.id) ==> r matches Err(
                ApplicationError::IdMismatch,
            ),
            permits(user.role, Requirement::AdminOnly) && self.id == Some(update_data.id)
                && titles_decode(update_data.titles@) && (update_data.genre & !ALL_GENRES != 0
                || !valid_unix_time(update_data.release_date as int)) ==> r matches Err(
                ApplicationError::InvalidData(_),
            ),
            r is Ok <==> permits(user.role, Requirement::AdminOnly) && self.id == Some(update_data.id)
                && edit_decodes(update_data),
            r matches Err(e) ==> e is Unauthorized || e is IdMismatch || e is InvalidData
                || e is ValidationError,
            r matches Ok(a) ==> edited_from(a, self, update_data),
    {
        authorize(user, Requirement::AdminOnly)?;
        match self.id {
            Some(id) if id == update_data.id => {},
            _ => return Err(ApplicationError::IdMismatch),
        }
        let titles = Title::from_grpc_arr(update_data.titles)?;
        let genre = match Genre::from_bits(update_data.genre) {
            Some(g) => g,
            None => return Err(ApplicationError::InvalidData(String::from_str("genre is invalid"))),
        };
        let release_date = match checked_unix_time(update_data.release_date) {
            Some(t) => t,
            None => return Err(
                ApplicationError::InvalidData(String::from_str("release_date is invalid unix timestamp")),
            ),
        };
        let anime_in_lists = AnimeInAnimeList::from_grpc_arr(update_data.anime_in_lists)?;
        let title_search = generate_title_search(&titles);
        Ok(
            Anime {
                id: self.id,
                titles,
                title_search,
                synopsis: update_data.synopsis,
                thumbnail_id: update_data.thumbnail_id,
                banner_id: update_data.banner_id,
                is_hidden: self.is_hidden,
                is_nsfw: self.is_nsfw,
                created_by: self.created_by,
                created_at: self.created_at,
                genre,
                release_date,
                anime_in_lists,
            },
        )
    }

    /// The wire form of a collection; an unsaved one reads as id 0.
    pub fn to_grpc(self) -> (r: rpc::Anime)
        ensures
            r.id == (match self.id {
                Some(id) => id,
                None => 0,
            }),
            r.titles@.len() == self.titles@.len(),
            forall|i: int| 0 <= i < self.titles@.len() ==> title_from(self.titles@[i], #[trigger] r.titles@[i]),
            r.created_by@ == self.created_by@,
            r.release_date == self.release_date,
            r.genre == self.genre.spec_bits(),
            r.created_at == self.created_at,
            r.is_nsfw == self.is_nsfw,
            r.is_hidden == self.is_hidden,
            opt_view(r.banner_id) == opt_view(self.banner_id),
            opt_view(r.thumbnail_id) == opt_view(self.thumbnail_id),
            r.synopsis@ == self.synopsis@,
            lists_from(self.anime_in_lists@, r.anime_in_lists@),
    {
        let ghost old_titles = self.titles@;
        let ghost old_lists = self.anime_in_lists@;
        let mut titles: Vec<rpc::Title> = Vec::new();
        for t in iter: self.titles
            invariant
                iter.seq() == old_titles,
                titles@.len() == iter.index(),
                forall|j: int| 0 <= j < iter.index() ==> title_from(old_titles[j], #[trigger] titles@[j]),
        {
            titles.push(t.to_grpc());
        }
        let mut lists: Vec<rpc::AnimeInAnimeList> = Vec::new();
        for l in iter: self.anime_in_lists
            invariant
                iter.seq() == old_lists,
                lists@.len() == iter.index(),
                forall|j: int| 0 <= j < iter.index() ==> list_ref_from(old_lists[j], #[trigger] lists@[j]),
        {
            lists.push(l.to_grpc());
        }
        rpc::Anime {
            id: match self.id {
                Some(id) => id,
                None => 0,
            },
            titles,
            created_by: self.created_by,
            release_date: self.release_date,
            genre: self.genre.bits(),
            created_at: self.created_at,
            is_nsfw: self.is_nsfw,
            is_hidden: self.is_hidden,
            banner_id: self.banner_id,
            thumbnail_id: self.thumbnail_id,
            synopsis: self.synopsis,
            anime_in_lists: lists,
        }
    }

    pub fn validate(&self) -> (r: Result<(), ApplicationError>)
        ensures
            r is Ok <==> self.valid(),
            r matches Err(e) ==> e is ValidationError,
    {
        validate_titles(&self.titles)?;
        check_length(&self.synopsis, 1, MAX_SYNOPSIS_LEN, "synopsis")?;
        check_optional_length(&self.thumbnail_id, 1, MAX_MEDIA_ID_LEN, "thumbnail_id")?;
        check_optional_length(&self.banner_id, 1, MAX_MEDIA_ID_LEN, "banner_id")?;
        if self.anime_in_lists.len() == 0 {
            return Err(ApplicationError::ValidationError(String::from_str("anime_in_lists")));
        }
        Ok(())
    }
}

/// The update protocol for collections: fetch (absent: `NotFound`),
/// authorize, match identities, apply, validate. `Ok` carries the full
/// collection to persist; any error means nothing is written.
pub fn plan_anime_update(existing: Option<Anime>, request: rpc::EditAnimeRequest, user: &User) -> (r:
    Result<Anime, ApplicationError>)
    ensures
        existing is None ==> r matches Err(ApplicationError::NotFound),
        existing is Some && !permits(user.role, Requirement::AdminOnly) ==> r matches Err(
            ApplicationError::Unauthorized,
        ),
        existing matches Some(e) ==> (permits(user.role, Requirement::AdminOnly) && e.id != Some(
            request.id,
        ) ==> r matches Err(ApplicationError::IdMismatch)),
        existing matches Some(e) ==> (permits(user.role, Requirement::AdminOnly) && e.id == Some(
            request.id,
        ) && titles_decode(request.titles@) && (request.genre & !ALL_GENRES != 0
            || !valid_unix_time(request.release_date as int)) ==> r matches Err(
            ApplicationError::InvalidData(_),
        )),
        existing matches Some(e) ==> (permits(user.role, Requirement::AdminOnly) && e.id == Some(
            request.id,
        ) && edit_decodes(request) && !edit_structure_ok(request) ==> r matches Err(
            ApplicationError::ValidationError(_),
        )),
        existing matches Some(e) ==> (r is Ok <==> permits(user.role, Requirement::AdminOnly) && e.id
            == Some(request.id) && edit_decodes(request) && edit_structure_ok(request)),
        r matches Ok(a) ==> existing matches Some(e) && a.valid() && edited_from(a, e, request),
        r matches Err(e) ==> e is NotFound || e is Unauthorized || e is IdMismatch || e is InvalidData
            || e is ValidationError,
{
    let anime = match existing {
        Some(a) => a,
        None => return Err(ApplicationError::NotFound),
    };
    let ghost input = request;
    let anime = anime.update(request, user)?;
    proof {
        lemma_titles_valid_from(anime.titles@, input.titles@);
    }
    anime.validate()?;
    Ok(anime)
}

} // verus!
