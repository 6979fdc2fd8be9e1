pub mod anime;
pub mod anime_in_anime_list;
pub mod anime_list;
pub mod config;
pub mod episode;
pub mod error;
pub mod genre;
pub mod roles;
pub mod season;
pub mod source;
pub mod source_type;
pub mod title;
pub mod title_type;
pub mod user;
