use vstd::prelude::*;

use crate::authorization::{authorize, permits, Requirement};
use crate::bindings::{
    first_capture, hyphenated_uuid, is_lower_hex, is_uuid_hyphen_position, kana_digest, kana_mnemonic, new_uuid_string, push_char, regex_first_group,
};
use crate::models::error::ApplicationError;
use crate::models::season::MAX_MEDIA_ID_LEN;
use crate::models::user::{opt_view, User};
use crate::rpc;
use crate::validation::{check_optional_length, opt_len_within};

verus! {

/// A playable unit: one episode of a season from one source.
#[derive(Debug)]
pub struct Episode {
    pub id: String,
    pub name: String,
    pub cover_id: Option<String>,
    pub season_id: u32,
    pub source_id: u32,
    pub lbry_media_id: Option<String>,
    pub file_name: Option<String>,
    pub is_nsfw: bool,
    pub sequence: u16,
}

/// The prefix every external media URL must start with.
pub const LBRY_BASE_URL: &'static str = "https://open.lbry.com/";

pub open spec fn not_hyphen(c: char) -> bool {
    c != '-'
}

/// The media id a URL designates: what follows the known prefix.
pub open spec fn media_id_of(url: Seq<char>) -> Option<Seq<char>> {
    let prefix = LBRY_BASE_URL@;
    if prefix.len() <= url.len() && url.subrange(0, prefix.len() as int) == prefix {
        Some(url.subrange(prefix.len() as int, url.len() as int))
    } else {
        None
    }
}

/// The media id that must be looked up for an update: the one a supplied
/// URL designates, unless it is the one already stored.
pub open spec fn pending_lookup(stored: Option<Seq<char>>, url: Option<Seq<char>>) -> Option<Seq<char>> {
    match url {
        Some(u) => match media_id_of(u) {
            Some(m) => if stored == Some(m) {
                None
            } else {
                Some(m)
            },
            None => None,
        },
        None => None,
    }
}

/// The media id stored once an update with a supplied URL is done.
pub open spec fn media_after_update(stored: Option<Seq<char>>, url: Option<Seq<char>>) -> Option<Seq<char>> {
    match pending_lookup(stored, url) {
        Some(m) => Some(m),
        None => stored,
    }
}

/// How many of the hyphen positions of a UUID lie before index `i`.
pub open spec fn hyphens_before(i: int) -> int {
    (if i > 8 { 1int } else { 0int }) + (if i > 13 { 1int } else { 0int }) + (if i > 18 {
        1int
    } else {
        0int
    }) + (if i > 23 { 1int } else { 0int })
}

fn strip_hyphens(s: &str) -> (r: String)
    ensures
        r@ == s@.filter(|c: char| not_hyphen(c)),
        hyphenated_uuid(s@) ==> r@.len() == 32 && forall|k: int|
            0 <= k < r@.len() ==> is_lower_hex(#[trigger] r@[k]),
{
    let n = s.unicode_len();
    let mut out = String::new();
    let mut i: usize = 0;
    while i < n
        invariant
            n == s@.len(),
            i <= n,
            out@ == s@.subrange(0, i as int).filter(|c: char| not_hyphen(c)),
            hyphenated_uuid(s@) ==> out@.len() == i - hyphens_before(i as int),
            hyphenated_uuid(s@) ==> forall|k: int| 0 <= k < out@.len() ==> is_lower_hex(#[trigger] out@[k]),
        decreases n - i,
    {
        let c = s.get_char(i);
        proof {
            let pre = s@.subrange(0, i + 1);
            assert(pre.drop_last() == s@.subrange(0, i as int));
            assert(pre.last() == c);
            reveal(Seq::filter);
            if hyphenated_uuid(s@) {
                assert(is_uuid_hyphen_position(i as int) ==> c == '-');
                assert(!is_uuid_hyphen_position(i as int) ==> is_lower_hex(c));
                assert(is_lower_hex(c) ==> c != '-');
            }
        }
        if c != '-' {
            push_char(&mut out, c);
        }
        i = i + 1;
    }
    proof {
        assert(s@.subrange(0, n as int) == s@);
    }
    out
}

impl Episode {
    pub open spec fn valid(&self) -> bool {
        &&& opt_len_within(opt_view(self.cover_id), 1, MAX_MEDIA_ID_LEN as int)
        &&& opt_len_within(opt_view(self.lbry_media_id), 1, MAX_MEDIA_ID_LEN as int)
        &&& opt_len_within(opt_view(self.file_name), 1, MAX_MEDIA_ID_LEN as int)
    }

    /// A new episode with a fresh id (a UUID without hyphens) and a content
    /// name derived from that id; uploaders and administrators may create one.
    pub fn new(episode_request: rpc::CreateEpisodeRequest, user: &User) -> (r: Result<
        Episode,
        ApplicationError,
    >)
        ensures
            r is Ok <==> permits(user.role, Requirement::AdminOrUploader),
            r matches Err(e) ==> e is Unauthorized,
            r matches Ok(ep) ==> ep.name@ == kana_digest(ep.id@) && ep.id@.len() == 32 && (forall|k: int|
                0 <= k < ep.id@.len() ==> is_lower_hex(#[trigger] ep.id@[k])) && opt_view(ep.cover_id) == opt_view(episode_request.cover_id) && ep.season_id
                == episode_request.season_id && ep.source_id == episode_request.source_id
                && ep.lbry_media_id is None && ep.file_name is None && ep.is_nsfw
                == episode_request.is_nsfw && ep.sequence == episode_request.sequence as u16,
    {
        authorize(user, Requirement::AdminOrUploader)?;
        let uuid = new_uuid_string();
        let id = strip_hyphens(uuid.as_str());
        let name = kana_mnemonic(id.as_str());
        Ok(
            Episode {
                id,
                name,
                cover_id: episode_request.cover_id,
                season_id: episode_request.season_id,
                source_id: episode_request.source_id,
                lbry_media_id: None,
                file_name: None,
                is_nsfw: episode_request.is_nsfw,
                sequence: episode_request.sequence as u16,
            },
        )
    }

    /// The media id of an external URL; a URL without the known prefix is
    /// invalid data.
    pub fn get_lbry_media_id(url: &str) -> (r: Result<String, ApplicationError>)
        ensures
            r is Ok <==> media_id_of(url@) is Some,
            r matches Ok(m) ==> m@ == media_id_of(url@)->Some_0,
            r matches Err(e) ==> e is InvalidData,
    {
        let prefix_len = LBRY_BASE_URL.unicode_len();
        let url_len = url.unicode_len();
        if prefix_len <= url_len && url.substring_char(0, prefix_len).to_owned()
            == LBRY_BASE_URL.to_owned() {
            Ok(url.substring_char(prefix_len, url_len).to_owned())
        } else {
            Err(ApplicationError::InvalidData(String::from_str("the media URL has an unknown prefix")))
        }
    }

    /// The first half of an update: checks the caller's role, that the
    /// request names this episode, and the media URL, and says which media id,
    /// if any, must be looked up externally. A URL whose media id is the one
    /// already stored needs no lookup. Only an update that passed these checks
    /// can be finished.
    pub fn begin_update(self, new_data: rpc::UpdateEpisodeRequest, user: &User) -> (r: Result<
        PendingEpisodeUpdate,
        ApplicationError,
    >)
        ensures
            !permits(user.role, Requirement::AdminOrUploader) ==> r matches Err(
                ApplicationError::Unauthorized,
            ),
            permits(user.role, Requirement::AdminOrUploader) && self.id@ != new_data.id@ ==> r matches Err(
                ApplicationError::IdMismatch,
            ),
            r is Ok <==> permits(user.role, Requirement::AdminOrUploader) && self.id@ == new_data.id@
                && (self.lbry_media_id is Some || new_data.lbry_url is Some) && (
            new_data.lbry_url matches Some(u) ==> media_id_of(u@) is Some),
            permits(user.role, Requirement::AdminOrUploader) && self.id@ == new_data.id@ && ((
            self.lbry_media_id is None && new_data.lbry_url is None) || (new_data.lbry_url is Some
                && media_id_of(new_data.lbry_url->Some_0@) is None)) ==> r matches Err(
                ApplicationError::InvalidData(_),
            ),
            r matches Err(e) ==> e is Unauthorized || e is IdMismatch || e is InvalidData,
            r matches Ok(p) ==> p.episode() == self && p.request() == new_data && opt_view(p.lookup_spec())
                == pending_lookup(opt_view(self.lbry_media_id), opt_view(new_data.lbry_url)),
    {
        authorize(user, Requirement::AdminOrUploader)?;
        if self.id != new_data.id {
            return Err(ApplicationError::IdMismatch);
        }
        if self.lbry_media_id.is_none() && new_data.lbry_url.is_none() {
            return Err(ApplicationError::InvalidData(String::from_str("LBRY URL is required")));
        }
        let lookup = match &new_data.lbry_url {
            Some(url) => {
                let media_id = Episode::get_lbry_media_id(url.as_str())?;
                let unchanged = match &self.lbry_media_id {
                    Some(stored) => *stored == media_id,
                    None => false,
                };
                if unchanged {
                    None
                } else {
                    Some(media_id)
                }
            },
            None => None,
        };
        Ok(PendingEpisodeUpdate { episode: self, request: new_data, lookup })
    }

    pub fn validate(&self) -> (r: Result<(), ApplicationError>)
        ensures
            r is Ok <==> self.valid(),
            r matches Err(e) ==> e is ValidationError,
    {
        check_optional_length(&self.cover_id, 1, MAX_MEDIA_ID_LEN, "cover_id")?;
        check_optional_length(&self.lbry_media_id, 1, MAX_MEDIA_ID_LEN, "lbry_media_id")?;
        check_optional_length(&self.file_name, 1, MAX_MEDIA_ID_LEN, "file_name")
    }

    /// The wire form of a playable episode; one without a resolved media id
    /// or file name cannot be served and gives `UnknownError`.
    pub fn parse_to_grpc_model(self) -> (r: Result<rpc::Episode, ApplicationError>)
        ensures
            r is Ok <==> self.lbry_media_id is Some && self.file_name is Some,
            r matches Err(e) ==> e is UnknownError,
            r matches Ok(w) ==> episode_to_wire(self, w),
    {
        let lbry_media_id = match self.lbry_media_id {
            Some(m) => m,
            None => return Err(ApplicationError::UnknownError(String::from_str("lbry_media_id is null"))),
        };
        let file_name = match self.file_name {
            Some(f) => f,
            None => return Err(ApplicationError::UnknownError(String::from_str("file_name is null"))),
        };
        Ok(
            rpc::Episode {
                id: self.id,
                name: self.name,
                cover_id: self.cover_id,
                season_id: self.season_id,
                source_id: self.source_id,
                lbry_media_id,
                file_name,
                is_nsfw: self.is_nsfw,
                sequence: self.sequence as u32,
            },
        )
    }

    /// The wire form of every episode, failing on the first that cannot be served.
    pub fn parse_to_grpc_vec_model(episodes: Vec<Episode>) -> (r: Result<
        Vec<rpc::Episode>,
        ApplicationError,
    >)
        ensures
            r is Ok <==> forall|i: int|
                0 <= i < episodes@.len() ==> (#[trigger] episodes@[i]).lbry_media_id is Some
                    && episodes@[i].file_name is Some,
            r matches Ok(v) ==> v@.len() == episodes@.len() && forall|i: int|
                0 <= i < episodes@.len() ==> episode_to_wire(#[trigger] episodes@[i], v@[i]),
            r matches Err(e) ==> e is UnknownError,
    {
        let ghost input = episodes@;
        let mut out: Vec<rpc::Episode> = Vec::new();
        for ep in iter: episodes
            invariant
                iter.seq() == input,
                out@.len() == iter.index(),
                forall|j: int|
                    0 <= j < iter.index() ==> (#[trigger] input[j]).lbry_media_id is Some
                        && input[j].file_name is Some,
                forall|j: int| 0 <= j < iter.index() ==> episode_to_wire(#[trigger] input[j], out@[j]),
        {
            out.push(ep.parse_to_grpc_model()?);
        }
        Ok(out)
    }
}

/// An episode update that passed its checks and waits for the external
/// lookup, if one is pending.
#[derive(Debug)]
pub struct PendingEpisodeUpdate {
    episode: Episode,
    request: rpc::UpdateEpisodeRequest,
    lookup: Option<String>,
}

impl PendingEpisodeUpdate {
    pub closed spec fn episode(self) -> Episode {
        self.episode
    }

    pub closed spec fn request(self) -> rpc::UpdateEpisodeRequest {
        self.request
    }

    pub closed spec fn lookup_spec(self) -> Option<String> {
        self.lookup
    }

    /// The media id to look up externally, if any.
    pub fn lookup(&self) -> (r: Option<String>)
        ensures
            opt_view(r) == opt_view(self.lookup_spec()),
    {
        match &self.lookup {
            Some(m) => Some(m.clone()),
            None => None,
        }
    }

    /// The second half of an update: stores the pending media id and the
    /// file name resolved for it, when a lookup was pending, then the cover and sequence,
    /// and validates the result, which is the full episode to persist.
    pub fn finish(self, resolved_file_name: Option<String>) -> (r: Result<Episode, ApplicationError>)
        ensures
            r is Ok <==> {
                &&& opt_len_within(opt_view(self.request().cover_id), 1, MAX_MEDIA_ID_LEN as int)
                &&& opt_len_within(
                    match self.lookup_spec() {
                        Some(m) => Some(m@),
                        None => opt_view(self.episode().lbry_media_id),
                    },
                    1,
                    MAX_MEDIA_ID_LEN as int,
                )
                &&& opt_len_within(
                    if self.lookup_spec() is Some {
                        opt_view(resolved_file_name)
                    } else {
                        opt_view(self.episode().file_name)
                    },
                    1,
                    MAX_MEDIA_ID_LEN as int,
                )
            },
            r matches Ok(ep) ==> {
                let old = self.episode();
                let req = self.request();
                &&& ep.valid()
                &&& ep.id@ == old.id@
                &&& ep.name@ == old.name@
                &&& opt_view(ep.lbry_media_id) == (match self.lookup_spec() {
                    Some(m) => Some(m@),
                    None => opt_view(old.lbry_media_id),
                })
                &&& opt_view(ep.file_name) == (if self.lookup_spec() is Some {
                    opt_view(resolved_file_name)
                } else {
                    opt_view(old.file_name)
                })
                &&& opt_view(ep.cover_id) == opt_view(req.cover_id)
                &&& ep.sequence == req.sequence as u16
                &&& ep.season_id == old.season_id
                &&& ep.source_id == old.source_id
                &&& ep.is_nsfw == old.is_nsfw
            },
            r matches Err(e) ==> e is ValidationError,
    {
        let PendingEpisodeUpdate { episode, request, lookup } = self;
        let mut ep = episode;
        if let Some(media_id) = lookup {
            ep.lbry_media_id = Some(media_id);
            ep.file_name = resolved_file_name;
        }
        ep.cover_id = request.cover_id;
        ep.sequence = request.sequence as u16;
        ep.validate()?;
        Ok(ep)
    }
}

pub open spec fn episode_to_wire(ep: Episode, w: rpc::Episode) -> bool {
    &&& w.id@ == ep.id@
    &&& w.name@ == ep.name@
    &&& opt_view(w.cover_id) == opt_view(ep.cover_id)
    &&& w.season_id == ep.season_id
    &&& w.source_id == ep.source_id
    &&& ep.lbry_media_id matches Some(m) && w.lbry_media_id@ == m@
    &&& ep.file_name matches Some(f) && w.file_name@ == f@
    &&& w.is_nsfw == ep.is_nsfw
    &&& w.sequence == ep.sequence as u32
}

/// The update protocol for episodes, up to the external lookup: fetch
/// (absent: `NotFound`), then the checks of `begin_update`.
pub fn plan_episode_update(existing: Option<Episode>, request: rpc::UpdateEpisodeRequest, user: &User) -> (r:
    Result<PendingEpisodeUpdate, ApplicationError>)
    ensures
        existing is None ==> r matches Err(ApplicationError::NotFound),
        existing matches Some(e) ==> (!permits(user.role, Requirement::AdminOrUploader) ==> r matches Err(
            ApplicationError::Unauthorized,
        )),
        existing matches Some(e) ==> (permits(user.role, Requirement::AdminOrUploader) && e.id@
            != request.id@ ==> r matches Err(ApplicationError::IdMismatch)),
        existing matches Some(e) ==> (r is Ok <==> permits(user.role, Requirement::AdminOrUploader)
            && e.id@ == request.id@ && (e.lbry_media_id is Some || request.lbry_url is Some) && (
        request.lbry_url matches Some(u) ==> media_id_of(u@) is Some)),
        r matches Ok(p) ==> existing == Some(p.episode()) && p.request() == request && opt_view(
            p.lookup_spec(),
        ) == pending_lookup(opt_view(p.episode().lbry_media_id), opt_view(request.lbry_url)),
{
    match existing {
        Some(episode) => episode.begin_update(request, user),
        None => Err(ApplicationError::NotFound),
    }
}

/// The creation protocol for episodes: authorize, construct, validate.
/// `Ok` carries the episode to persist; its id and content name are what
/// the caller gets back.
pub fn plan_episode_creation(request: rpc::CreateEpisodeRequest, user: &User) -> (r: Result<
    Episode,
    ApplicationError,
>)
    ensures
        !permits(user.role, Requirement::AdminOrUploader) ==> r matches Err(
            ApplicationError::Unauthorized,
        ),
        r is Ok <==> permits(user.role, Requirement::AdminOrUploader) && opt_len_within(
            opt_view(request.cover_id),
            1,
            MAX_MEDIA_ID_LEN as int,
        ),
        r matches Ok(ep) ==> ep.valid() && ep.name@ == kana_digest(ep.id@) && ep.season_id
            == request.season_id && ep.source_id == request.source_id && ep.lbry_media_id is None
            && ep.file_name is None,
        r matches Err(e) ==> e is Unauthorized || e is ValidationError,
{
    let episode = Episode::new(request, user)?;
    episode.validate()?;
    Ok(episode)
}

/// The pattern of the structured-data block in a media page.
pub const LD_JSON_PATTERN: &'static str = r#"(?s)<script type="application/ld\+json">(.*?)</script>"#;

/// The structured-data block embedded in a media page; a page without one
/// fails with `UnknownError`.
pub fn media_json_block(page: &str) -> (r: Result<String, ApplicationError>)
    ensures
        r is Ok <==> regex_first_group(LD_JSON_PATTERN@, page@) is Some,
        r matches Ok(b) ==> b@ == regex_first_group(LD_JSON_PATTERN@, page@)->Some_0,
        r matches Err(e) ==> e is UnknownError,
{
    match first_capture(LD_JSON_PATTERN, page) {
        Some(block) => Ok(block),
        None => Err(ApplicationError::UnknownError(String::from_str("Failed to parse html for data"))),
    }
}

/// Updating twice with the same external URL looks the media up at most
/// once: after the first update the derived media id is stored, so the
/// second finds nothing pending.
pub proof fn lemma_same_url_resolves_once(stored: Option<Seq<char>>, url: Seq<char>)
    ensures
        pending_lookup(media_after_update(stored, Some(url)), Some(url)) is None,
        media_id_of(url) is Some ==> media_after_update(stored, Some(url)) == media_id_of(url),
{
}

} // verus!
