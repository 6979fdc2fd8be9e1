//! The structured data that a media page describes itself with.
use vstd::prelude::*;

use crate::models::error::ApplicationError;

verus! {

pub struct Media {
    pub context: Option<String>,
    pub welcome_type: Option<String>,
    pub name: Option<String>,
    pub description: Option<String>,
    pub thumbnail_url: Option<String>,
    pub upload_date: Option<String>,
    pub duration: Option<String>,
    pub url: Option<String>,
    pub content_url: Option<String>,
    pub embed_url: Option<String>,
    pub author: Option<Author>,
    pub thumbnail: Option<Thumbnail>,
    pub keywords: Option<String>,
    pub width: Option<i64>,
    pub height: Option<i64>,
    pub potential_action: Option<PotentialAction>,
}

pub struct Author {
    pub author_type: Option<String>,
    pub name: Option<String>,
    pub url: Option<String>,
}

pub struct PotentialAction {
    pub potential_action_type: Option<String>,
    pub target: Option<String>,
    pub start_offset_input: Option<String>,
}

pub struct Thumbnail {
    pub thumbnail_type: Option<String>,
    pub url: Option<String>,
}

impl Media {
    /// The file a media description points at: its content URL. A
    /// description without one fails with `UnknownError`.
    pub fn file_name(self) -> (r: Result<String, ApplicationError>)
        ensures
            r is Ok <==> self.content_url is Some,
            r matches Ok(f) ==> self.content_url matches Some(c) && f@ == c@,
            r matches Err(e) ==> e is UnknownError,
    {
        match self.content_url {
            Some(url) => Ok(url),
            None => Err(
                ApplicationError::UnknownError(
                    String::from_str("Failed to get file_name from odysee response"),
                ),
            ),
        }
    }
}

} // verus!
