use vstd::prelude::*;

use crate::authorization::{authorize, permits, Requirement};
use crate::models::error::ApplicationError;
use crate::models::season::MAX_NAME_LEN;
use crate::models::source_type::{SourceType, ALL_SOURCE_TYPES};
use crate::models::user::User;
use crate::rpc;
use crate::validation::{check_length, len_within};

verus! {

/// A variant of the episodes of a season: raw, dubbed or subtitled.
#[derive(Debug)]
pub struct Source {
    pub id: Option<u32>,
    pub name: String,
    pub source_type: SourceType,
    pub priority: u8,
}

impl Source {
    pub open spec fn valid(&self) -> bool {
        len_within(self.name@, 1, MAX_NAME_LEN as int)
    }

    /// A new, not yet persisted source; only an administrator may create one,
    /// and its type must decode.
    pub fn new(data: rpc::CreateSourceRequest, user: &User) -> (r: Result<Source, ApplicationError>)
        ensures
            !permits(user.role, Requirement::AdminOnly) ==> r matches Err(ApplicationError::Unauthorized),
            permits(user.role, Requirement::AdminOnly) && data.source_type & !ALL_SOURCE_TYPES != 0
                ==> r matches Err(ApplicationError::InvalidData(_)),
            r is Ok <==> permits(user.role, Requirement::AdminOnly) && data.source_type
                & !ALL_SOURCE_TYPES == 0,
            r matches Ok(s) ==> s.id is None && s.name@ == data.name@ && s.source_type.spec_bits()
                == data.source_type && s.priority == data.priority as u8,
    {
        authorize(user, Requirement::AdminOnly)?;
        let source_type = match SourceType::from_bits(data.source_type) {
            Some(t) => t,
            None => return Err(
                ApplicationError::InvalidData(String::from_str("source_type is not a valid source type")),
            ),
        };
        Ok(Source { id: None, name: data.name, source_type, priority: data.priority as u8 })
    }

    /// Applies an edit to a fetched source: the caller must be an
    /// administrator, the request must name this source, its type must decode.
    pub fn edit(self, edit_data: rpc::EditSourceRequest, user: &User) -> (r: Result<
        Source,
        ApplicationError,
    >)
        ensures
            !permits(user.role, Requirement::AdminOnly) ==> r matches Err(ApplicationError::Unauthorized),
            permits(user.role, Requirement::AdminOnly) && self.id != Some(edit_data.id) ==> r matches Err(
                ApplicationError::IdMismatch,
            ),
            permits(user.role, Requirement::AdminOnly) && self.id == Some(edit_data.id)
                && edit_data.source_type & !ALL_SOURCE_TYPES != 0 ==> r matches Err(
                ApplicationError::InvalidData(_),
            ),
            r is Ok <==> permits(user.role, Requirement::AdminOnly) && self.id == Some(edit_data.id)
                && edit_data.source_type & !ALL_SOURCE_TYPES == 0,
            r matches Ok(s) ==> s.id == self.id && s.name@ == edit_data.name@
                && s.source_type.spec_bits() == edit_data.source_type && s.priority
                == edit_data.priority as u8,
    {
        authorize(user, Requirement::AdminOnly)?;
        match self.id {
            Some(id) if id == edit_data.id => {},
            _ => return Err(ApplicationError::IdMismatch),
        }
        let source_type = match SourceType::from_bits(edit_data.source_type) {
            Some(t) => t,
            None => return Err(
                ApplicationError::InvalidData(String::from_str("source_type is not a valid source type")),
            ),
        };
        Ok(Source { id: self.id, name: edit_data.name, source_type, priority: edit_data.priority as u8 })
    }

    pub fn validate(&self) -> (r: Result<(), ApplicationError>)
        ensures
            r is Ok <==> self.valid(),
            r matches Err(e) ==> e is ValidationError,
    {
        check_length(&self.name, 1, MAX_NAME_LEN, "name")
    }

    pub fn to_grpc(self) -> (r: rpc::Sources)
        ensures
            r.id == (match self.id {
                Some(id) => id,
                None => 0,
            }),
            r.name@ == self.name@,
            r.source_type == self.source_type.spec_bits(),
            r.priority == self.priority as u32,
    {
        rpc::Sources {
            id: match self.id {
                Some(id) => id,
                None => 0,
            },
            name: self.name,
            source_type: self.source_type.bits(),
            priority: self.priority as u32,
        }
    }
}

/// The creation protocol for sources: authorize, construct, validate.
/// `Ok` carries the source to persist.
pub fn plan_source_creation(request: rpc::CreateSourceRequest, user: &User) -> (r: Result<
    Source,
    ApplicationError,
>)
    ensures
        !permits(user.role, Requirement::AdminOnly) ==> r matches Err(ApplicationError::Unauthorized),
        r is Ok <==> permits(user.role, Requirement::AdminOnly) && request.source_type
            & !ALL_SOURCE_TYPES == 0 && len_within(request.name@, 1, MAX_NAME_LEN as int),
        r matches Ok(s) ==> s.valid() && s.id is None && s.name@ == request.name@
            && s.source_type.spec_bits() == request.source_type && s.priority == request.priority as u8,
        r matches Err(e) ==> e is Unauthorized || e is InvalidData || e is ValidationError,
{
    let source = Source::new(request, user)?;
    source.validate()?;
    Ok(source)
}

/// The update protocol for sources: fetch (absent: `NotFound`), authorize,
/// match identities, apply, validate. `Ok` carries the full source to
/// persist; any error means nothing is written.
pub fn plan_source_update(existing: Option<Source>, request: rpc::EditSourceRequest, user: &User) -> (r:
    Result<Source, ApplicationError>)
    ensures
        existing is None ==> r matches Err(ApplicationError::NotFound),
        existing is Some && !permits(user.role, Requirement::AdminOnly) ==> r matches Err(
            ApplicationError::Unauthorized,
        ),
        existing matches Some(e) ==> (permits(user.role, Requirement::AdminOnly) && e.id != Some(
            request.id,
        ) ==> r matches Err(ApplicationError::IdMismatch)),
        existing matches Some(e) ==> (permits(user.role, Requirement::AdminOnly) && e.id == Some(
            request.id,
        ) && request.source_type & !ALL_SOURCE_TYPES != 0 ==> r matches Err(
            ApplicationError::InvalidData(_),
        )),
        existing matches Some(e) ==> (permits(user.role, Requirement::AdminOnly) && e.id == Some(
            request.id,
        ) && request.source_type & !ALL_SOURCE_TYPES == 0 && !len_within(
            request.name@,
            1,
            MAX_NAME_LEN as int,
        ) ==> r matches Err(ApplicationError::ValidationError(_))),
        existing matches Some(e) ==> (r is Ok <==> permits(user.role, Requirement::AdminOnly) && e.id
            == Some(request.id) && request.source_type & !ALL_SOURCE_TYPES == 0 && len_within(
            request.name@,
            1,
            MAX_NAME_LEN as int,
        )),
        r matches Ok(s) ==> existing matches Some(e) && s.valid() && s.id == e.id && s.name@
            == request.name@ && s.source_type.spec_bits() == request.source_type && s.priority
            == request.priority as u8,
{
    let source = match existing {
        Some(s) => s,
        None => return Err(ApplicationError::NotFound),
    };
    let source = source.edit(request, user)?;
    source.validate()?;
    Ok(source)
}

} // verus!
