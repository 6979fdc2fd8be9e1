use arkalis::models::error::ApplicationError;
use arkalis::query::{
    anime_search_predicates, anime_search_query, complete_like, source_search_predicates,
    source_search_query, AnimeQueryTable, Comparison, FilterValue, QueryColumn, SourceQueryTable,
};
use arkalis::rpc::{GetSourcesRequest, SearchAnimeRequest};
use sea_query::Value;

fn no_filters() -> SearchAnimeRequest {
    SearchAnimeRequest { title: None, synopsis: None, is_nsfw: None, genre: None, start_release_date: None, end_release_date: None }
}

#[test]
fn title_filter_is_a_substring_match() {
    let mut f = no_filters();
    f.title = Some("Na".to_string());
    let preds = anime_search_predicates(f).unwrap();
    assert_eq!(preds.len(), 1);
    assert_eq!(preds[0].column, AnimeQueryTable::TitleSearch);
    assert_eq!(preds[0].comparison, Comparison::Like);
    assert!(matches!(&preds[0].value, FilterValue::Text(p) if p == "%Na%"));
}

#[test]
fn date_bounds_are_independent() {
    let mut f = no_filters();
    f.start_release_date = Some(100);
    f.end_release_date = Some(200);
    let preds = anime_search_predicates(f).unwrap();
    assert_eq!(preds.len(), 2);
    assert_eq!(preds[0].comparison, Comparison::AtLeast);
    assert_eq!(preds[1].comparison, Comparison::AtMost);
    assert!(matches!(preds[0].value, FilterValue::Time(100)));
    assert!(matches!(preds[1].value, FilterValue::Time(200)));
    let mut start_only = no_filters();
    start_only.start_release_date = Some(100);
    let preds = anime_search_predicates(start_only).unwrap();
    assert_eq!(preds.len(), 1);
    assert_eq!(preds[0].comparison, Comparison::AtLeast);
}

#[test]
fn no_filter_no_predicate() {
    assert!(anime_search_predicates(no_filters()).unwrap().is_empty());
    let (sql, values) = anime_search_query(no_filters()).unwrap();
    assert!(!sql.contains("WHERE"));
    assert!(sql.contains("FROM `animes`"));
    assert!(values.0.is_empty());
}

#[test]
fn all_filters_in_column_order() {
    let f = SearchAnimeRequest {
        title: Some("t".to_string()),
        synopsis: Some("s".to_string()),
        is_nsfw: Some(true),
        genre: Some(3),
        start_release_date: Some(1),
        end_release_date: Some(2),
    };
    let cols: Vec<AnimeQueryTable> = anime_search_predicates(f).unwrap().iter().map(|p| p.column).collect();
    assert_eq!(
        cols,
        vec![
            AnimeQueryTable::TitleSearch,
            AnimeQueryTable::Synopsis,
            AnimeQueryTable::IsNsfw,
            AnimeQueryTable::Genre,
            AnimeQueryTable::ReleaseDate,
            AnimeQueryTable::ReleaseDate
        ]
    );
}

#[test]
fn out_of_range_dates_are_invalid() {
    let mut f = no_filters();
    f.end_release_date = Some(i64::MAX);
    assert!(matches!(anime_search_predicates(f), Err(ApplicationError::InvalidData(_))));
    let mut g = no_filters();
    g.start_release_date = Some(i64::MIN);
    assert!(matches!(anime_search_query(g), Err(ApplicationError::InvalidData(_))));
}

#[test]
fn values_are_bound_not_interpolated() {
    let mut f = no_filters();
    f.title = Some("Na'; DROP TABLE animes; --".to_string());
    f.is_nsfw = Some(false);
    let (sql, values) = anime_search_query(f).unwrap();
    assert!(!sql.contains("DROP"));
    assert!(sql.contains("`title_search` LIKE ?"));
    assert!(sql.contains("`is_nsfw` = ?"));
    assert_eq!(values.0.len(), 2);
    assert_eq!(values.0[0], Value::String(Some(Box::new("%Na'; DROP TABLE animes; --%".to_string()))));
    assert_eq!(values.0[1], Value::Bool(Some(false)));
}

#[test]
fn date_range_query() {
    let mut f = no_filters();
    f.start_release_date = Some(0);
    f.end_release_date = Some(86_400);
    let (sql, values) = anime_search_query(f).unwrap();
    assert!(sql.contains("`release_date` >= ?"));
    assert!(sql.contains("`release_date` <= ?"));
    assert_eq!(values.0.len(), 2);
}

#[test]
fn source_filters() {
    let f = GetSourcesRequest { source_type: Some(4), name: Some("dub".to_string()), priority: Some(300) };
    let preds = source_search_predicates(f);
    assert_eq!(preds.len(), 3);
    assert_eq!(preds[0].column, SourceQueryTable::SourceType);
    assert!(matches!(&preds[1].value, FilterValue::Text(p) if p == "%dub%"));
    assert!(matches!(preds[2].value, FilterValue::Number(44)));
    let (sql, values) = source_search_query(GetSourcesRequest { source_type: None, name: Some("x".to_string()), priority: None });
    assert!(sql.contains("FROM `sources`"));
    assert!(sql.contains("`name` LIKE ?"));
    assert_eq!(values.0.len(), 1);
    assert!(source_search_predicates(GetSourcesRequest { source_type: None, name: None, priority: None }).is_empty());
}

#[test]
fn column_names() {
    assert_eq!(AnimeQueryTable::Table.unquoted(), "animes");
    assert_eq!(AnimeQueryTable::AnimeInLists.unquoted(), "anime_in_lists");
    assert_eq!(SourceQueryTable::Table.unquoted(), "sources");
    assert_eq!(SourceQueryTable::SourceType.unquoted(), "source_type");
    assert_eq!(complete_like(&"ab".to_string()), "%ab%");
    assert_eq!(complete_like(&String::new()), "%%");
}
