use arkalis::models::anime::{generate_title_search, plan_anime_update, Anime};
use arkalis::models::anime_in_anime_list::AnimeInAnimeList;
use arkalis::models::anime_list::AnimeList;
use arkalis::models::episode::{media_json_block, plan_episode_creation, plan_episode_update, Episode};
use arkalis::models::error::ApplicationError;
use arkalis::models::genre::{Genre, ACTION, COMEDY, HENTAI};
use arkalis::models::roles::Roles;
use arkalis::models::season::{last_sequence_or_zero, plan_season_creation, plan_season_update, Season};
use arkalis::models::source::{plan_source_creation, plan_source_update, Source};
use arkalis::models::source_type::SourceType;
use arkalis::models::title::{validate_titles, Title};
use arkalis::models::title_type::TitleType;
use arkalis::models::user::User;
use arkalis::rpc;
use arkalis::view_models::Media;

fn user_with_role(role: Roles) -> User {
    User {
        id: "creator".to_string(),
        display_name: "Creator".to_string(),
        role,
        mal_profile: None,
        anilist_profile: None,
        recovery_key: None,
    }
}

fn wire_title(name: &str, title_type: i32, is_main: bool) -> rpc::Title {
    rpc::Title { name: name.to_string(), title_type, is_main }
}

fn wire_list(anime_list: i32, id: &str) -> rpc::AnimeInAnimeList {
    rpc::AnimeInAnimeList { anime_list, id_in_list: id.to_string() }
}

fn create_request() -> rpc::CreateAnimeRequest {
    rpc::CreateAnimeRequest {
        titles: vec![wire_title("Naruto", 0, true), wire_title("ナルト", 3, false)],
        synopsis: "A ninja story".to_string(),
        thumbnail_id: Some("thumb".to_string()),
        banner_id: None,
        is_hidden: false,
        is_nsfw: false,
        genre: ACTION | COMEDY,
        release_date: 1_000_000_000,
        anime_in_lists: vec![wire_list(0, "20")],
    }
}

fn edit_request(id: u32) -> rpc::EditAnimeRequest {
    rpc::EditAnimeRequest {
        id,
        titles: vec![wire_title("Boruto", 0, true)],
        synopsis: "The next generation".to_string(),
        thumbnail_id: None,
        banner_id: Some("banner".to_string()),
        genre: ACTION,
        release_date: 1_500_000_000,
        anime_in_lists: vec![wire_list(1, "97938")],
    }
}

fn persisted_anime(id: u32) -> Anime {
    let mut a = Anime::new(create_request(), &user_with_role(Roles::Admin)).unwrap();
    a.id = Some(id);
    a
}

fn title(name: &str, is_main: bool) -> Title {
    Title { name: name.to_string(), title_type: TitleType::Romaji, is_main }
}

#[test]
fn genre_bits_outside_the_vocabulary_fail() {
    assert!(Genre::from_bits(1 << 21).is_none());
    assert!(Genre::from_bits(ACTION | (1 << 40)).is_none());
    assert!(Genre::from_bits(u64::MAX).is_none());
    assert_eq!(Genre::from_bits(0x1f_ffff).unwrap().bits(), 0x1f_ffff);
    let unknown = Genre::from_bits(0).unwrap();
    assert_eq!(unknown.bits(), 0);
    assert_eq!(unknown.to_string(), "Desconhecido");
}

#[test]
fn genre_names() {
    assert_eq!(Genre::from_bits(ACTION).unwrap().to_string(), "Ação");
    assert_eq!(Genre::from_bits(HENTAI).unwrap().to_string(), "Hentai");
    assert_eq!(Genre::from_bits(ACTION | COMEDY).unwrap().to_string(), "Genero Invalido");
}

#[test]
fn source_type_bits() {
    assert!(SourceType::from_bits(128).is_none());
    assert_eq!(SourceType::from_bits(2).unwrap().to_string(), "Dublagem em Inglês");
    assert_eq!(SourceType::from_bits(3).unwrap().to_string(), "Unknown");
    assert_eq!(SourceType::from_bits(0x7f).unwrap().bits(), 0x7f);
}

#[test]
fn enum_ordinals() {
    assert_eq!(TitleType::from_i32(3), Some(TitleType::Native));
    assert_eq!(TitleType::from_i32(4), None);
    assert_eq!(TitleType::from_i32(-1), None);
    assert_eq!(TitleType::English.to_i32(), 1);
    assert_eq!(AnimeList::from_i32(1), Some(AnimeList::AniList));
    assert_eq!(AnimeList::from_i32(2), None);
    assert_eq!(AnimeList::MyAnimeList.to_i32(), 0);
}

#[test]
fn titles_need_a_main_title() {
    let neither = vec![title("A", false), title("B", false)];
    assert!(matches!(validate_titles(&neither), Err(ApplicationError::ValidationError(_))));
    let one = vec![title("A", true), title("B", false)];
    assert!(validate_titles(&one).is_ok());
    assert!(matches!(validate_titles(&vec![]), Err(ApplicationError::ValidationError(_))));
}

#[test]
fn title_conversion_errors() {
    assert!(matches!(Title::from_grpc(wire_title("X", 9, true)), Err(ApplicationError::InvalidData(_))));
    assert!(matches!(Title::from_grpc(wire_title("", 0, true)), Err(ApplicationError::ValidationError(_))));
    let long = "x".repeat(1025);
    assert!(matches!(Title::from_grpc(wire_title(&long, 0, true)), Err(ApplicationError::ValidationError(_))));
    let t = Title::from_grpc(wire_title(&"x".repeat(1024), 2, false)).unwrap();
    assert_eq!(t.title_type, TitleType::Portuguese);
    let arr = Title::from_grpc_arr(vec![wire_title("ok", 0, true), wire_title("bad", 7, false)]);
    assert!(matches!(arr, Err(ApplicationError::InvalidData(_))));
    let first_bad = Title::from_grpc_arr(vec![wire_title("", 0, true), wire_title("bad", 7, false)]);
    assert!(matches!(first_bad, Err(ApplicationError::ValidationError(_))));
}

#[test]
fn list_reference_conversion() {
    assert!(matches!(AnimeInAnimeList::from_grpc(wire_list(5, "1")), Err(ApplicationError::InvalidData(_))));
    assert!(matches!(AnimeInAnimeList::from_grpc(wire_list(0, "")), Err(ApplicationError::ValidationError(_))));
    let l = AnimeInAnimeList::from_grpc(wire_list(1, "42")).unwrap();
    assert_eq!(l.anime_list, AnimeList::AniList);
    let back = l.to_grpc();
    assert_eq!(back.anime_list, 1);
    assert_eq!(back.id_in_list, "42");
}

#[test]
fn title_search_joins_names() {
    let titles = vec![title("Naruto", true), title("ナルト", false), title("NRT", false)];
    assert_eq!(generate_title_search(&titles), "Naruto_ナルト_NRT");
    assert_eq!(generate_title_search(&vec![]), "");
}

#[test]
fn anime_creation() {
    let admin = user_with_role(Roles::Admin);
    let a = Anime::new(create_request(), &admin).unwrap();
    assert_eq!(a.id, None);
    assert_eq!(a.title_search, "Naruto_ナルト");
    assert_eq!(a.created_by, "creator");
    assert_eq!(a.genre.bits(), ACTION | COMEDY);
    assert_eq!(a.release_date, 1_000_000_000);
    assert!(a.created_at > 1_600_000_000);
    let wire = a.to_grpc();
    assert_eq!(wire.id, 0);
    assert_eq!(wire.titles.len(), 2);
    assert_eq!(wire.titles[1].title_type, 3);
    assert_eq!(wire.anime_in_lists[0].id_in_list, "20");
}

#[test]
fn anime_creation_failures() {
    let admin = user_with_role(Roles::Admin);
    let uploader = user_with_role(Roles::Uploader);
    assert!(matches!(Anime::new(create_request(), &uploader), Err(ApplicationError::Unauthorized)));
    let mut bad_genre = create_request();
    bad_genre.genre = 1 << 21;
    assert!(matches!(Anime::new(bad_genre, &admin), Err(ApplicationError::InvalidData(_))));
    let mut no_lists = create_request();
    no_lists.anime_in_lists = vec![];
    assert!(matches!(Anime::new(no_lists, &admin), Err(ApplicationError::ValidationError(_))));
    let mut no_main = create_request();
    no_main.titles = vec![wire_title("A", 0, false), wire_title("B", 1, false)];
    assert!(matches!(Anime::new(no_main, &admin), Err(ApplicationError::ValidationError(_))));
    let mut empty_synopsis = create_request();
    empty_synopsis.synopsis = String::new();
    assert!(matches!(Anime::new(empty_synopsis, &admin), Err(ApplicationError::ValidationError(_))));
}

#[test]
fn release_date_range_is_chronos() {
    let admin = user_with_role(Roles::Admin);
    for ok in [8_210_266_876_799i64, -8_334_601_228_800, 0] {
        let mut r = create_request();
        r.release_date = ok;
        assert!(Anime::new(r, &admin).is_ok(), "{ok}");
    }
    for bad in [8_210_266_876_800i64, -8_334_601_228_801, i64::MAX, i64::MIN] {
        let mut r = create_request();
        r.release_date = bad;
        assert!(matches!(Anime::new(r, &admin), Err(ApplicationError::InvalidData(_))), "{bad}");
    }
}

#[test]
fn anime_update_protocol() {
    let admin = user_with_role(Roles::Admin);
    let updated = plan_anime_update(Some(persisted_anime(5)), edit_request(5), &admin).unwrap();
    assert_eq!(updated.id, Some(5));
    assert_eq!(updated.synopsis, "The next generation");
    assert_eq!(updated.title_search, "Boruto");
    assert_eq!(updated.banner_id.as_deref(), Some("banner"));
    assert!(matches!(plan_anime_update(None, edit_request(5), &admin), Err(ApplicationError::NotFound)));
    for role in [Roles::Admin, Roles::Uploader, Roles::User] {
        let r = plan_anime_update(Some(persisted_anime(5)), edit_request(6), &user_with_role(role));
        assert!(r.is_err());
    }
    let mismatch = plan_anime_update(Some(persisted_anime(5)), edit_request(6), &admin);
    assert!(matches!(mismatch, Err(ApplicationError::IdMismatch)));
    assert!(matches!(
        plan_anime_update(Some(persisted_anime(5)), edit_request(5), &user_with_role(Roles::Uploader)),
        Err(ApplicationError::Unauthorized)
    ));
    let mut no_main = edit_request(5);
    no_main.titles = vec![wire_title("A", 0, false)];
    assert!(matches!(plan_anime_update(Some(persisted_anime(5)), no_main, &admin), Err(ApplicationError::ValidationError(_))));
    let mut bad_genre = edit_request(5);
    bad_genre.genre = 1 << 22;
    assert!(matches!(plan_anime_update(Some(persisted_anime(5)), bad_genre, &admin), Err(ApplicationError::InvalidData(_))));
    let mut bad = edit_request(5);
    bad.release_date = i64::MAX;
    assert!(matches!(plan_anime_update(Some(persisted_anime(5)), bad, &admin), Err(ApplicationError::InvalidData(_))));
}

fn season(id: Option<u32>) -> Season {
    Season { id, name: "Season 1".to_string(), cover_id: None, anime_id: 5, sequence: 1 }
}

#[test]
fn season_protocols() {
    let admin = user_with_role(Roles::Admin);
    let req = rpc::AddSeasonRequest { anime_id: 9, name: "S".to_string(), cover_id: None, sequence: 65_537 };
    let s = plan_season_creation(req, &admin).unwrap();
    assert_eq!(s.sequence, 1);
    assert_eq!(s.anime_id, 9);
    let req = rpc::AddSeasonRequest { anime_id: 9, name: String::new(), cover_id: None, sequence: 1 };
    assert!(matches!(plan_season_creation(req, &admin), Err(ApplicationError::ValidationError(_))));
    let req = rpc::AddSeasonRequest { anime_id: 9, name: "S".to_string(), cover_id: None, sequence: 1 };
    assert!(matches!(Season::new(req, &user_with_role(Roles::Uploader)), Err(ApplicationError::Unauthorized)));

    let edit = |id: u32| rpc::EditSeasonRequest { id, name: "Renamed".to_string(), cover_id: Some("c".to_string()), sequence: 2 };
    let s = plan_season_update(Some(season(Some(5))), edit(5), &admin).unwrap();
    assert_eq!(s.name, "Renamed");
    assert_eq!(s.anime_id, 5);
    assert_eq!(s.sequence, 2);
    assert!(matches!(plan_season_update(Some(season(Some(5))), edit(6), &admin), Err(ApplicationError::IdMismatch)));
    assert!(matches!(plan_season_update(Some(season(Some(5))), edit(6), &user_with_role(Roles::User)), Err(ApplicationError::Unauthorized)));
    assert!(matches!(plan_season_update(Some(season(None)), edit(5), &admin), Err(ApplicationError::IdMismatch)));
    assert!(matches!(plan_season_update(None, edit(5), &admin), Err(ApplicationError::NotFound)));
    let wire = season(None).to_grpc();
    assert_eq!(wire.id, 0);
    assert_eq!(last_sequence_or_zero(None), 0);
    assert_eq!(last_sequence_or_zero(Some(7)), 7);
}

#[test]
fn source_protocols() {
    let admin = user_with_role(Roles::Admin);
    let req = rpc::CreateSourceRequest { name: "Raw".to_string(), source_type: 1, priority: 258 };
    let s = plan_source_creation(req, &admin).unwrap();
    assert_eq!(s.priority, 2);
    assert_eq!(s.source_type.bits(), 1);
    let req = rpc::CreateSourceRequest { name: "Raw".to_string(), source_type: 256, priority: 1 };
    assert!(matches!(plan_source_creation(req, &admin), Err(ApplicationError::InvalidData(_))));
    let req = rpc::CreateSourceRequest { name: String::new(), source_type: 1, priority: 1 };
    assert!(matches!(plan_source_creation(req, &admin), Err(ApplicationError::ValidationError(_))));

    let existing = || Source { id: Some(5), name: "Raw".to_string(), source_type: SourceType::from_bits(1).unwrap(), priority: 1 };
    let edit = |id: u32| rpc::EditSourceRequest { id, name: "Dub".to_string(), source_type: 2, priority: 3 };
    let s = plan_source_update(Some(existing()), edit(5), &admin).unwrap();
    assert_eq!(s.name, "Dub");
    assert_eq!(s.source_type.bits(), 2);
    assert!(matches!(plan_source_update(Some(existing()), edit(6), &admin), Err(ApplicationError::IdMismatch)));
    assert!(matches!(plan_source_update(Some(existing()), edit(5), &user_with_role(Roles::Uploader)), Err(ApplicationError::Unauthorized)));
    assert!(matches!(plan_source_update(None, edit(5), &admin), Err(ApplicationError::NotFound)));
    let wire = existing().to_grpc();
    assert_eq!((wire.id, wire.source_type, wire.priority), (5, 1, 1));
}

fn create_episode_request() -> rpc::CreateEpisodeRequest {
    rpc::CreateEpisodeRequest { cover_id: None, season_id: 3, source_id: 4, is_nsfw: false, sequence: 12 }
}

#[test]
fn episode_creation() {
    let uploader = user_with_role(Roles::Uploader);
    let ep = plan_episode_creation(create_episode_request(), &uploader).unwrap();
    assert_eq!(ep.id.len(), 32);
    assert!(ep.id.chars().all(|c| c.is_ascii_hexdigit() && !c.is_ascii_uppercase()));
    assert!(!ep.name.is_empty());
    assert_ne!(ep.name, ep.id);
    assert_eq!(ep.sequence, 12);
    assert!(matches!(Episode::new(create_episode_request(), &user_with_role(Roles::User)), Err(ApplicationError::Unauthorized)));
    let mut bad = create_episode_request();
    bad.cover_id = Some(String::new());
    assert!(matches!(plan_episode_creation(bad, &uploader), Err(ApplicationError::ValidationError(_))));
}

#[test]
fn media_id_from_url() {
    assert_eq!(Episode::get_lbry_media_id("https://open.lbry.com/abc:1").unwrap(), "abc:1");
    assert!(matches!(Episode::get_lbry_media_id("https://odysee.com/abc"), Err(ApplicationError::InvalidData(_))));
    assert!(matches!(Episode::get_lbry_media_id("https://open.lbry.co"), Err(ApplicationError::InvalidData(_))));
    assert_eq!(Episode::get_lbry_media_id("https://open.lbry.com/").unwrap(), "");
}

fn stored_episode(media: Option<&str>) -> Episode {
    Episode {
        id: "ep1".to_string(),
        name: "name".to_string(),
        cover_id: None,
        season_id: 1,
        source_id: 1,
        lbry_media_id: media.map(|m| m.to_string()),
        file_name: media.map(|_| "old.mp4".to_string()),
        is_nsfw: false,
        sequence: 1,
    }
}

fn update_request(url: Option<&str>) -> rpc::UpdateEpisodeRequest {
    rpc::UpdateEpisodeRequest { id: "ep1".to_string(), cover_id: None, lbry_url: url.map(|u| u.to_string()), sequence: 2 }
}

#[test]
fn same_url_is_looked_up_once() {
    let uploader = user_with_role(Roles::Uploader);
    let url = "https://open.lbry.com/video:7";
    let mut lookups = 0;
    let mut ep = stored_episode(None);
    for _ in 0..2 {
        let pending = ep.begin_update(update_request(Some(url)), &uploader).unwrap();
        let file = match pending.lookup() {
            Some(media_id) => {
                lookups += 1;
                assert_eq!(media_id, "video:7");
                Some("https://cdn/video.mp4".to_string())
            }
            None => None,
        };
        ep = pending.finish(file).unwrap();
    }
    assert_eq!(lookups, 1);
    let again = plan_episode_update(Some(ep), update_request(Some(url)), &uploader).unwrap();
    assert_eq!(again.lookup(), None);
    let ep = again.finish(None).unwrap();
    assert_eq!(ep.file_name.as_deref(), Some("https://cdn/video.mp4"));
    assert!(matches!(plan_episode_update(None, update_request(Some(url)), &uploader), Err(ApplicationError::NotFound)));
    assert_eq!(ep.lbry_media_id.as_deref(), Some("video:7"));
    assert_eq!(ep.file_name.as_deref(), Some("https://cdn/video.mp4"));
    assert_eq!(ep.sequence, 2);
}

#[test]
fn episode_update_failures() {
    let uploader = user_with_role(Roles::Uploader);
    let ep = stored_episode;
    assert!(matches!(ep(None).begin_update(update_request(None), &uploader), Err(ApplicationError::InvalidData(_))));
    assert!(matches!(ep(None).begin_update(update_request(Some("http://x")), &uploader), Err(ApplicationError::InvalidData(_))));
    assert!(matches!(ep(None).begin_update(update_request(None), &user_with_role(Roles::User)), Err(ApplicationError::Unauthorized)));
    let mut other = update_request(Some("https://open.lbry.com/v"));
    other.id = "ep2".to_string();
    assert!(matches!(ep(None).begin_update(other, &uploader), Err(ApplicationError::IdMismatch)));
    let kept = ep(Some("v")).begin_update(update_request(None), &uploader).unwrap();
    assert_eq!(kept.lookup(), None);
    let kept = kept.finish(None).unwrap();
    assert_eq!(kept.file_name.as_deref(), Some("old.mp4"));
    assert_eq!(kept.sequence, 2);
    let changed = ep(Some("v")).begin_update(update_request(Some("https://open.lbry.com/w")), &uploader).unwrap();
    assert_eq!(changed.lookup().as_deref(), Some("w"));
    let mut bad_cover = update_request(None);
    bad_cover.cover_id = Some(String::new());
    let pending = ep(Some("v")).begin_update(bad_cover, &uploader).unwrap();
    assert!(matches!(pending.finish(None), Err(ApplicationError::ValidationError(_))));
}

#[test]
fn episode_wire_form() {
    assert!(matches!(stored_episode(None).parse_to_grpc_model(), Err(ApplicationError::UnknownError(_))));
    let wire = stored_episode(Some("v")).parse_to_grpc_model().unwrap();
    assert_eq!(wire.lbry_media_id, "v");
    assert_eq!(wire.file_name, "old.mp4");
    let all = Episode::parse_to_grpc_vec_model(vec![stored_episode(Some("a")), stored_episode(Some("b"))]).unwrap();
    assert_eq!(all.len(), 2);
    assert_eq!(all[1].lbry_media_id, "b");
    let mixed = Episode::parse_to_grpc_vec_model(vec![stored_episode(Some("a")), stored_episode(None)]);
    assert!(matches!(mixed, Err(ApplicationError::UnknownError(_))));
}

#[test]
fn media_page_block() {
    let page = "<html><script type=\"application/ld+json\">\n{\"contentUrl\": \"x\"}\n</script></html>";
    assert_eq!(media_json_block(page).unwrap(), "\n{\"contentUrl\": \"x\"}\n");
    assert!(matches!(media_json_block("<html></html>"), Err(ApplicationError::UnknownError(_))));
}

fn empty_media() -> Media {
    Media {
        context: None, welcome_type: None, name: None, description: None, thumbnail_url: None,
        upload_date: None, duration: None, url: None, content_url: None, embed_url: None,
        author: None, thumbnail: None, keywords: None, width: None, height: None, potential_action: None,
    }
}

#[test]
fn media_file_name() {
    assert!(matches!(empty_media().file_name(), Err(ApplicationError::UnknownError(_))));
    let mut m = empty_media();
    m.content_url = Some("https://cdn/file.mp4".to_string());
    assert_eq!(m.file_name().unwrap(), "https://cdn/file.mp4");
}
