use vstd::prelude::*;

use crate::authorization::{authorize, permits, Requirement};
use crate::models::error::ApplicationError;
use crate::models::user::{opt_view, User};
use crate::rpc;
use crate::validation::{check_length, check_optional_length, len_within, opt_len_within};

verus! {

/// A grouping of episodes inside a collection.
#[derive(Debug)]
pub struct Season {
    pub id: Option<u32>,
    pub name: String,
    pub cover_id: Option<String>,
    pub anime_id: u32,
    pub sequence: u16,
}

pub const MAX_NAME_LEN: usize = 255;

pub const MAX_MEDIA_ID_LEN: usize = 255;

impl Season {
    pub open spec fn valid(&self) -> bool {
        len_within(self.name@, 1, MAX_NAME_LEN as int) && opt_len_within(
            opt_view(self.cover_id),
            1,
            MAX_MEDIA_ID_LEN as int,
        )
    }

    /// A new, not yet persisted season; only an administrator may create one.
    pub fn new(season_request: rpc::AddSeasonRequest, user: &User) -> (r: Result<Season, ApplicationError>)
        ensures
            r is Ok <==> permits(user.role, Requirement::AdminOnly),
            r matches Err(e) ==> e is Unauthorized,
            r matches Ok(s) ==> s.id is None && s.anime_id == season_request.anime_id
                && s.name@ == season_request.name@ && opt_view(s.cover_id) == opt_view(
                season_request.cover_id,
            ) && s.sequence == season_request.sequence as u16,
    {
        authorize(user, Requirement::AdminOnly)?;
        Ok(
            Season {
                anime_id: season_request.anime_id,
                cover_id: season_request.cover_id,
                sequence: season_request.sequence as u16,
                name: season_request.name,
                id: None,
            },
        )
    }

    /// Applies an edit to a fetched season: the caller must be an
    /// administrator and the request must name this very season.
    pub fn edit(self, new_data: rpc::EditSeasonRequest, user: &User) -> (r: Result<
        Season,
        ApplicationError,
    >)
        ensures
            !permits(user.role, Requirement::AdminOnly) ==> r matches Err(ApplicationError::Unauthorized),
            permits(user.role, Requirement::AdminOnly) && self.id != Some(new_data.id) ==> r matches Err(
                ApplicationError::IdMismatch,
            ),
            r is Ok <==> permits(user.role, Requirement::AdminOnly) && self.id == Some(new_data.id),
            r matches Ok(s) ==> s.id == self.id && s.anime_id == self.anime_id && s.name@
                == new_data.name@ && opt_view(s.cover_id) == opt_view(new_data.cover_id)
                && s.sequence == new_data.sequence as u16,
    {
        authorize(user, Requirement::AdminOnly)?;
        match self.id {
            Some(id) if id == new_data.id => {},
            _ => return Err(ApplicationError::IdMismatch),
        }
        Ok(
            Season {
                id: self.id,
                name: new_data.name,
                cover_id: new_data.cover_id,
                anime_id: self.anime_id,
                sequence: new_data.sequence as u16,
            },
        )
    }

    pub fn validate(&self) -> (r: Result<(), ApplicationError>)
        ensures
            r is Ok <==> self.valid(),
            r matches Err(e) ==> e is ValidationError,
    {
        check_length(&self.name, 1, MAX_NAME_LEN, "name")?;
        check_optional_length(&self.cover_id, 1, MAX_MEDIA_ID_LEN, "cover_id")
    }

    pub fn to_grpc(self) -> (r: rpc::Season)
        ensures
            r.id == (match self.id {
                Some(id) => id,
                None => 0,
            }),
            r.name@ == self.name@,
            opt_view(r.cover_id) == opt_view(self.cover_id),
            r.anime_id == self.anime_id,
            r.sequence == self.sequence as u32,
    {
        rpc::Season {
            id: match self.id {
                Some(id) => id,
                None => 0,
            },
            name: self.name,
            cover_id: self.cover_id,
            anime_id: self.anime_id,
            sequence: self.sequence as u32,
        }
    }
}

/// The creation protocol for seasons: authorize, construct, validate.
/// `Ok` carries the season to persist.
pub fn plan_season_creation(request: rpc::AddSeasonRequest, user: &User) -> (r: Result<
    Season,
    ApplicationError,
>)
    ensures
        !permits(user.role, Requirement::AdminOnly) ==> r matches Err(ApplicationError::Unauthorized),
        r is Ok <==> permits(user.role, Requirement::AdminOnly) && len_within(
            request.name@,
            1,
            MAX_NAME_LEN as int,
        ) && opt_len_within(opt_view(request.cover_id), 1, MAX_MEDIA_ID_LEN as int),
        r matches Ok(s) ==> s.valid() && s.id is None && s.anime_id == request.anime_id && s.name@
            == request.name@ && opt_view(s.cover_id) == opt_view(request.cover_id) && s.sequence
            == request.sequence as u16,
        r matches Err(e) ==> e is Unauthorized || e is ValidationError,
{
    let season = Season::new(request, user)?;
    season.validate()?;
    Ok(season)
}

/// The last sequence number of a collection's seasons, or 0 when it has none.
pub fn last_sequence_or_zero(last: Option<u16>) -> (r: u32)
    ensures
        r == (match last {
            Some(s) => s as u32,
            None => 0u32,
        }),
{
    match last {
        Some(s) => s as u32,
        None => 0,
    }
}

/// The update protocol for seasons: fetch (absent: `NotFound`), authorize,
/// match identities, apply, validate. `Ok` carries the full season to
/// persist; any error means nothing is written.
pub fn plan_season_update(existing: Option<Season>, request: rpc::EditSeasonRequest, user: &User) -> (r:
    Result<Season, ApplicationError>)
    ensures
        existing is None ==> r matches Err(ApplicationError::NotFound),
        existing is Some && !permits(user.role, Requirement::AdminOnly) ==> r matches Err(
            ApplicationError::Unauthorized,
        ),
        existing matches Some(e) ==> (permits(user.role, Requirement::AdminOnly) && e.id != Some(
            request.id,
        ) ==> r matches Err(ApplicationError::IdMismatch)),
        existing matches Some(e) ==> (permits(user.role, Requirement::AdminOnly) && e.id == Some(
            request.id,
        ) && !(len_within(request.name@, 1, MAX_NAME_LEN as int) && opt_len_within(
            opt_view(request.cover_id),
            1,
            MAX_MEDIA_ID_LEN as int,
        )) ==> r matches Err(ApplicationError::ValidationError(_))),
        existing matches Some(e) ==> (r is Ok <==> permits(user.role, Requirement::AdminOnly) && e.id
            == Some(request.id) && len_within(request.name@, 1, MAX_NAME_LEN as int)
            && opt_len_within(opt_view(request.cover_id), 1, MAX_MEDIA_ID_LEN as int)),
        r matches Ok(s) ==> existing matches Some(e) && s.valid() && s.id == e.id && s.anime_id
            == e.anime_id && s.name@ == request.name@ && opt_view(s.cover_id) == opt_view(
            request.cover_id,
        ) && s.sequence == request.sequence as u16,
{
    let season = match existing {
        Some(s) => s,
        None => return Err(ApplicationError::NotFound),
    };
    let season = season.edit(request, user)?;
    season.validate()?;
    Ok(season)
}

} // verus!
