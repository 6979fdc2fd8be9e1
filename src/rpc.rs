//! The request and response shapes of the remote procedure interface.
use vstd::prelude::*;

verus! {

#[derive(Debug)]
pub struct Title {
    pub name: String,
    pub title_type: i32,
    pub is_main: bool,
}

#[derive(Debug)]
pub struct AnimeInAnimeList {
    pub anime_list: i32,
    pub id_in_list: String,
}

#[derive(Debug)]
pub struct CreateAnimeRequest {
    pub titles: Vec<Title>,
    pub synopsis: String,
    pub thumbnail_id: Option<String>,
    pub banner_id: Option<String>,
    pub is_hidden: bool,
    pub is_nsfw: bool,
    pub genre: u64,
    pub release_date: i64,
    pub anime_in_lists: Vec<AnimeInAnimeList>,
}

#[derive(Debug)]
pub struct EditAnimeRequest {
    pub id: u32,
    pub titles: Vec<Title>,
    pub synopsis: String,
    pub thumbnail_id: Option<String>,
    pub banner_id: Option<String>,
    pub genre: u64,
    pub release_date: i64,
    pub anime_in_lists: Vec<AnimeInAnimeList>,
}

#[derive(Debug)]
pub struct SearchAnimeRequest {
    pub title: Option<String>,
    pub synopsis: Option<String>,
    pub is_nsfw: Option<bool>,
    pub genre: Option<u64>,
    pub start_release_date: Option<i64>,
    pub end_release_date: Option<i64>,
}

#[derive(Debug)]
pub struct Anime {
    pub id: u32,
    pub titles: Vec<Title>,
    pub created_by: String,
    pub release_date: i64,
    pub genre: u64,
    pub created_at: i64,
    pub is_nsfw: bool,
    pub is_hidden: bool,
    pub banner_id: Option<String>,
    pub thumbnail_id: Option<String>,
    pub synopsis: String,
    pub anime_in_lists: Vec<AnimeInAnimeList>,
}

#[derive(Debug)]
pub struct AddSeasonRequest {
    pub anime_id: u32,
    pub name: String,
    pub cover_id: Option<String>,
    pub sequence: u32,
}

#[derive(Debug)]
pub struct EditSeasonRequest {
    pub id: u32,
    pub name: String,
    pub cover_id: Option<String>,
    pub sequence: u32,
}

#[derive(Debug)]
pub struct Season {
    pub id: u32,
    pub name: String,
    pub cover_id: Option<String>,
    pub anime_id: u32,
    pub sequence: u32,
}

#[derive(Debug)]
pub struct CreateSourceRequest {
    pub name: String,
    pub source_type: u64,
    pub priority: u32,
}

#[derive(Debug)]
pub struct EditSourceRequest {
    pub id: u32,
    pub name: String,
    pub source_type: u64,
    pub priority: u32,
}

#[derive(Debug)]
pub struct GetSourcesRequest {
    pub source_type: Option<u64>,
    pub name: Option<String>,
    pub priority: Option<u32>,
}

#[derive(Debug)]
pub struct Sources {
    pub id: u32,
    pub name: String,
    pub source_type: u64,
    pub priority: u32,
}

#[derive(Debug)]
pub struct CreateEpisodeRequest {
    pub cover_id: Option<String>,
    pub season_id: u32,
    pub source_id: u32,
    pub is_nsfw: bool,
    pub sequence: u32,
}

#[derive(Debug)]
pub struct UpdateEpisodeRequest {
    pub id: String,
    pub cover_id: Option<String>,
    pub lbry_url: Option<String>,
    pub sequence: u32,
}

#[derive(Debug)]
pub struct Episode {
    pub id: String,
    pub name: String,
    pub cover_id: Option<String>,
    pub season_id: u32,
    pub source_id: u32,
    pub lbry_media_id: String,
    pub file_name: String,
    pub is_nsfw: bool,
    pub sequence: u32,
}

#[derive(Debug)]
pub struct GetUserInfoResponse {
    pub id: String,
    pub display_name: String,
    pub role: String,
    pub mal_profile: Option<String>,
    pub anilist_profile: Option<String>,
}

} // verus!
