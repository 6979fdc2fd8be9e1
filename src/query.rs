use vstd::prelude::*;

use crate::bindings::{
    and_where_at_least_time, and_where_at_most_time, and_where_eq_bool, and_where_eq_number,
    and_where_like, bound_values, build_mysql, checked_unix_time, condition_shapes,
    condition_values, mysql_select_text, select_column, select_columns, select_conditions,
    select_from, select_table, valid_unix_time,
};
use crate::models::error::ApplicationError;
use crate::rpc;

verus! {

/// How a predicate compares its column with its bound value.
#[derive(PartialEq, Eq, Structural, Clone, Copy, Debug)]
pub enum Comparison {
    /// `LIKE`, with a pattern that already carries its wildcards.
    Like,
    Equal,
    AtLeast,
    AtMost,
}

/// A value bound to a predicate's placeholder; never part of the query text.
#[derive(Debug)]
pub enum FilterValue {
    Text(String),
    Bool(bool),
    Number(u64),
    /// Seconds since the Unix epoch, bound as a UTC date-time.
    Time(i64),
}

pub enum FilterValueView {
    Text(Seq<char>),
    Bool(bool),
    Number(u64),
    Time(i64),
}

impl View for FilterValue {
    type V = FilterValueView;

    open spec fn view(&self) -> FilterValueView {
        match self {
            FilterValue::Text(s) => FilterValueView::Text(s@),
            FilterValue::Bool(b) => FilterValueView::Bool(*b),
            FilterValue::Number(n) => FilterValueView::Number(*n),
            FilterValue::Time(t) => FilterValueView::Time(*t),
        }
    }
}

/// A column that predicates can name.
pub trait QueryColumn: Sized {
    spec fn spec_name(&self) -> Seq<char>;

    /// The column's name in the store.
    fn unquoted(&self) -> (r: &'static str)
        ensures
            r@ == self.spec_name(),
    ;
}

/// One `AND`-combined condition of a query.
#[derive(Debug)]
pub struct Predicate<C> {
    pub column: C,
    pub comparison: Comparison,
    pub value: FilterValue,
}

impl<C> View for Predicate<C> {
    type V = (C, Comparison, FilterValueView);

    open spec fn view(&self) -> (C, Comparison, FilterValueView) {
        (self.column, self.comparison, self.value@)
    }
}

pub open spec fn preds_view<C>(v: Seq<Predicate<C>>) -> Seq<(C, Comparison, FilterValueView)> {
    v.map_values(|p: Predicate<C>| p@)
}

/// The pattern that matches a value anywhere inside a column.
pub open spec fn contains_pattern(s: Seq<char>) -> Seq<char> {
    seq!['%'] + s + seq!['%']
}

/// The predicate an optional filter contributes: none when it is absent.
pub open spec fn optional<C>(p: Option<(C, Comparison, FilterValueView)>) -> Seq<(C, Comparison, FilterValueView)> {
    match p {
        Some(x) => seq![x],
        None => Seq::empty(),
    }
}

/// Columns of the collections table.
#[derive(PartialEq, Eq, Structural, Clone, Copy, Debug)]
pub enum AnimeQueryTable {
    Table,
    Id,
    Titles,
    TitleSearch,
    Synopsis,
    ThumbnailId,
    BannerId,
    IsHidden,
    IsNsfw,
    CreatedBy,
    CreatedAt,
    Genre,
    ReleaseDate,
    AnimeInLists,
}

pub open spec fn anime_column_name(c: AnimeQueryTable) -> Seq<char> {
    match c {
        AnimeQueryTable::Table => "animes"@,
        AnimeQueryTable::Id => "id"@,
        AnimeQueryTable::Titles => "titles"@,
        AnimeQueryTable::TitleSearch => "title_search"@,
        AnimeQueryTable::Synopsis => "synopsis"@,
        AnimeQueryTable::ThumbnailId => "thumbnail_id"@,
        AnimeQueryTable::BannerId => "banner_id"@,
        AnimeQueryTable::IsHidden => "is_hidden"@,
        AnimeQueryTable::IsNsfw => "is_nsfw"@,
        AnimeQueryTable::CreatedBy => "created_by"@,
        AnimeQueryTable::CreatedAt => "created_at"@,
        AnimeQueryTable::Genre => "genre"@,
        AnimeQueryTable::ReleaseDate => "release_date"@,
        AnimeQueryTable::AnimeInLists => "anime_in_lists"@,
    }
}

impl QueryColumn for AnimeQueryTable {
    open spec fn spec_name(&self) -> Seq<char> {
        anime_column_name(*self)
    }

    fn unquoted(&self) -> (r: &'static str) {
        match self {
            AnimeQueryTable::Table => "animes",
            AnimeQueryTable::Id => "id",
            AnimeQueryTable::Titles => "titles",
            AnimeQueryTable::TitleSearch => "title_search",
            AnimeQueryTable::Synopsis => "synopsis",
            AnimeQueryTable::ThumbnailId => "thumbnail_id",
            AnimeQueryTable::BannerId => "banner_id",
            AnimeQueryTable::IsHidden => "is_hidden",
            AnimeQueryTable::IsNsfw => "is_nsfw",
            AnimeQueryTable::CreatedBy => "created_by",
            AnimeQueryTable::CreatedAt => "created_at",
            AnimeQueryTable::Genre => "genre",
            AnimeQueryTable::ReleaseDate => "release_date",
            AnimeQueryTable::AnimeInLists => "anime_in_lists",
        }
    }
}

/// Columns of the sources table.
#[derive(PartialEq, Eq, Structural, Clone, Copy, Debug)]
pub enum SourceQueryTable {
    Table,
    Id,
    Name,
    SourceType,
    Priority,
}

pub open spec fn source_column_name(c: SourceQueryTable) -> Seq<char> {
    match c {
        SourceQueryTable::Table => "sources"@,
        SourceQueryTable::Id => "id"@,
        SourceQueryTable::Name => "name"@,
        SourceQueryTable::SourceType => "source_type"@,
        SourceQueryTable::Priority => "priority"@,
    }
}

impl QueryColumn for SourceQueryTable {
    open spec fn spec_name(&self) -> Seq<char> {
        source_column_name(*self)
    }

    fn unquoted(&self) -> (r: &'static str) {
        match self {
            SourceQueryTable::Table => "sources",
            SourceQueryTable::Id => "id",
            SourceQueryTable::Name => "name",
            SourceQueryTable::SourceType => "source_type",
            SourceQueryTable::Priority => "priority",
        }
    }
}

/// The predicates of a collection search, in a fixed column order: title
/// and synopsis as substrings, adult flag and genre bits by equality, and
/// each bound of the release-date range on its own.
pub open spec fn anime_search_spec(f: rpc::SearchAnimeRequest) -> Seq<(AnimeQueryTable, Comparison, FilterValueView)> {
    optional(
        match f.title {
            Some(t) => Some((AnimeQueryTable::TitleSearch, Comparison::Like, FilterValueView::Text(contains_pattern(t@)))),
            None => None,
        },
    ) + optional(
        match f.synopsis {
            Some(s) => Some((AnimeQueryTable::Synopsis, Comparison::Like, FilterValueView::Text(contains_pattern(s@)))),
            None => None,
        },
    ) + optional(
        match f.is_nsfw {
            Some(b) => Some((AnimeQueryTable::IsNsfw, Comparison::Equal, FilterValueView::Bool(b))),
            None => None,
        },
    ) + optional(
        match f.genre {
            Some(g) => Some((AnimeQueryTable::Genre, Comparison::Equal, FilterValueView::Number(g))),
            None => None,
        },
    ) + optional(
        match f.start_release_date {
            Some(t) => Some((AnimeQueryTable::ReleaseDate, Comparison::AtLeast, FilterValueView::Time(t))),
            None => None,
        },
    ) + optional(
        match f.end_release_date {
            Some(t) => Some((AnimeQueryTable::ReleaseDate, Comparison::AtMost, FilterValueView::Time(t))),
            None => None,
        },
    )
}

pub open spec fn opt_time_ok(t: Option<i64>) -> bool {
    match t {
        Some(s) => valid_unix_time(s as int),
        None => true,
    }
}

/// The predicates of a source search: type bits by equality, name as a
/// substring, priority (narrowed to a byte) by equality.
pub open spec fn source_search_spec(f: rpc::GetSourcesRequest) -> Seq<(SourceQueryTable, Comparison, FilterValueView)> {
    optional(
        match f.source_type {
            Some(t) => Some((SourceQueryTable::SourceType, Comparison::Equal, FilterValueView::Number(t))),
            None => None,
        },
    ) + optional(
        match f.name {
            Some(n) => Some((SourceQueryTable::Name, Comparison::Like, FilterValueView::Text(contains_pattern(n@)))),
            None => None,
        },
    ) + optional(
        match f.priority {
            Some(p) => Some((SourceQueryTable::Priority, Comparison::Equal, FilterValueView::Number((p as u8) as u64))),
            None => None,
        },
    )
}

/// The substring pattern of a value: `%value%`.
pub fn complete_like(value: &String) -> (r: String)
    ensures
        r@ == contains_pattern(value@),
{
    let mut pattern = String::from_str("%");
    pattern.append(value.as_str());
    pattern.append("%");
    proof {
        reveal_strlit("%");
    }
    pattern
}

fn push_pred<C>(preds: &mut Vec<Predicate<C>>, column: C, comparison: Comparison, value: FilterValue)
    ensures
        preds_view(final(preds)@) == preds_view(old(preds)@) + seq![(column, comparison, value@)],
        all_supported(old(preds)@) && supported(comparison, value@) ==> all_supported(final(preds)@),
{
    preds.push(Predicate { column, comparison, value });
    proof {
        assert(preds_view(final(preds)@) =~= preds_view(old(preds)@) + seq![(column, comparison, value@)]);
    }
}

pub open spec fn all_supported<C>(v: Seq<Predicate<C>>) -> bool {
    forall|i: int| 0 <= i < v.len() ==> supported((#[trigger] v[i]).comparison, v[i].value@)
}

/// Checks an optional epoch-seconds bound.
fn checked_bound(t: Option<i64>) -> (r: Result<Option<i64>, ApplicationError>)
    ensures
        r is Ok <==> opt_time_ok(t),
        r matches Ok(v) ==> v == t,
        r matches Err(e) ==> e is InvalidData,
{
    match t {
        Some(s) => match checked_unix_time(s) {
            Some(v) => Ok(Some(v)),
            None => Err(ApplicationError::InvalidData(String::from_str("date is not a valid unix time"))),
        },
        None => Ok(None),
    }
}

/// The predicates of a collection search. An absent filter emits nothing;
/// a date bound that is not a representable time fails with `InvalidData`.
pub fn anime_search_predicates(filters: rpc::SearchAnimeRequest) -> (r: Result<
    Vec<Predicate<AnimeQueryTable>>,
    ApplicationError,
>)
    ensures
        r is Ok <==> opt_time_ok(filters.start_release_date) && opt_time_ok(filters.end_release_date),
        r matches Err(e) ==> e is InvalidData,
        r matches Ok(v) ==> preds_view(v@) == anime_search_spec(filters) && all_supported(v@),
{
    let ghost f = filters;
    let start = checked_bound(filters.start_release_date)?;
    let end = checked_bound(filters.end_release_date)?;
    let mut preds: Vec<Predicate<AnimeQueryTable>> = Vec::new();
    proof {
        assert(preds_view(preds@) =~= Seq::<(AnimeQueryTable, Comparison, FilterValueView)>::empty());
    }
    if let Some(title) = &filters.title {
        push_pred(&mut preds, AnimeQueryTable::TitleSearch, Comparison::Like, FilterValue::Text(complete_like(title)));
    }
    if let Some(synopsis) = &filters.synopsis {
        push_pred(&mut preds, AnimeQueryTable::Synopsis, Comparison::Like, FilterValue::Text(complete_like(synopsis)));
    }
    if let Some(is_nsfw) = filters.is_nsfw {
        push_pred(&mut preds, AnimeQueryTable::IsNsfw, Comparison::Equal, FilterValue::Bool(is_nsfw));
    }
    if let Some(genre) = filters.genre {
        push_pred(&mut preds, AnimeQueryTable::Genre, Comparison::Equal, FilterValue::Number(genre));
    }
    if let Some(s) = start {
        push_pred(&mut preds, AnimeQueryTable::ReleaseDate, Comparison::AtLeast, FilterValue::Time(s));
    }
    if let Some(e) = end {
        push_pred(&mut preds, AnimeQueryTable::ReleaseDate, Comparison::AtMost, FilterValue::Time(e));
    }
    proof {
        assert(preds_view(preds@) =~= anime_search_spec(f));
    }
    Ok(preds)
}

/// The predicates of a source search; every filter is optional and an
/// absent one emits nothing.
pub fn source_search_predicates(filters: rpc::GetSourcesRequest) -> (r: Vec<Predicate<SourceQueryTable>>)
    ensures
        preds_view(r@) == source_search_spec(filters),
        all_supported(r@),
{
    let ghost f = filters;
    let mut preds: Vec<Predicate<SourceQueryTable>> = Vec::new();
    proof {
        assert(preds_view(preds@) =~= Seq::<(SourceQueryTable, Comparison, FilterValueView)>::empty());
    }
    if let Some(source_type) = filters.source_type {
        push_pred(&mut preds, SourceQueryTable::SourceType, Comparison::Equal, FilterValue::Number(source_type));
    }
    if let Some(name) = &filters.name {
        push_pred(&mut preds, SourceQueryTable::Name, Comparison::Like, FilterValue::Text(complete_like(name)));
    }
    if let Some(priority) = filters.priority {
        push_pred(&mut preds, SourceQueryTable::Priority, Comparison::Equal, FilterValue::Number((priority as u8) as u64));
    }
    proof {
        assert(preds_view(preds@) =~= source_search_spec(f));
    }
    preds
}

/// The comparisons the builder can render: a substring pattern, equality
/// with a flag or an integer, and either bound of a range of times.
pub open spec fn supported(c: Comparison, v: FilterValueView) -> bool {
    match v {
        FilterValueView::Text(_) => c == Comparison::Like,
        FilterValueView::Bool(_) => c == Comparison::Equal,
        FilterValueView::Number(_) => c == Comparison::Equal,
        FilterValueView::Time(t) => (c == Comparison::AtLeast || c == Comparison::AtMost)
            && valid_unix_time(t as int),
    }
}

pub open spec fn named_conditions<C: QueryColumn>(p: Seq<(C, Comparison, FilterValueView)>) -> Seq<
    (Seq<char>, Comparison, FilterValueView),
> {
    p.map_values(|x: (C, Comparison, FilterValueView)| (x.0.spec_name(), x.1, x.2))
}

pub open spec fn column_names<C: QueryColumn>(cols: Seq<C>) -> Seq<Seq<char>> {
    cols.map_values(|c: C| c.spec_name())
}

/// Renders a select of `columns` from `table` whose conditions are the
/// predicates, `AND`-combined in order. Every value goes to a placeholder:
/// the text depends on the columns and comparisons alone.
pub fn build_select<C: QueryColumn>(table: &C, columns: &Vec<C>, predicates: &Vec<Predicate<C>>) -> (r: (
    String,
    sea_query::Values,
))
    requires
        forall|i: int|
            0 <= i < predicates@.len() ==> supported(
                (#[trigger] predicates@[i]).comparison,
                predicates@[i].value@,
            ),
    ensures
        r.0@ == mysql_select_text(
            table.spec_name(),
            column_names(columns@),
            condition_shapes(named_conditions(preds_view(predicates@))),
        ),
        bound_values(r.1) == condition_values(named_conditions(preds_view(predicates@))),
{
    let mut q = select_from(table.unquoted());
    let mut i: usize = 0;
    while i < columns.len()
        invariant
            i <= columns@.len(),
            select_table(q) == table.spec_name(),
            select_columns(q) == column_names(columns@.subrange(0, i as int)),
            select_conditions(q) == Seq::<(Seq<char>, Comparison, FilterValueView)>::empty(),
        decreases columns@.len() - i,
    {
        select_column(&mut q, columns[i].unquoted());
        proof {
            assert(column_names(columns@.subrange(0, i + 1)) =~= column_names(
                columns@.subrange(0, i as int),
            ).push(columns@[i as int].spec_name()));
        }
        i = i + 1;
    }
    proof {
        assert(columns@.subrange(0, columns@.len() as int) == columns@);
    }
    let mut j: usize = 0;
    while j < predicates.len()
        invariant
            j <= predicates@.len(),
            forall|i: int|
                0 <= i < predicates@.len() ==> supported(
                    (#[trigger] predicates@[i]).comparison,
                    predicates@[i].value@,
                ),
            select_table(q) == table.spec_name(),
            select_columns(q) == column_names(columns@),
            select_conditions(q) == named_conditions(preds_view(predicates@.subrange(0, j as int))),
        decreases predicates@.len() - j,
    {
        let p = &predicates[j];
        let column = p.column.unquoted();
        assert(supported(predicates@[j as int].comparison, predicates@[j as int].value@));
        match &p.value {
            FilterValue::Text(pattern) => and_where_like(&mut q, column, pattern.as_str()),
            FilterValue::Bool(b) => and_where_eq_bool(&mut q, column, *b),
            FilterValue::Number(n) => and_where_eq_number(&mut q, column, *n),
            FilterValue::Time(t) => {
                if p.comparison == Comparison::AtLeast {
                    and_where_at_least_time(&mut q, column, *t);
                } else {
                    and_where_at_most_time(&mut q, column, *t);
                }
            },
        }
        proof {
            assert(named_conditions(preds_view(predicates@.subrange(0, j + 1))) =~= named_conditions(
                preds_view(predicates@.subrange(0, j as int)),
            ).push((p.column.spec_name(), p.comparison, p.value@)));
        }
        j = j + 1;
    }
    proof {
        assert(predicates@.subrange(0, predicates@.len() as int) == predicates@);
    }
    build_mysql(&q)
}

/// The columns a collection search returns.
pub open spec fn anime_select_columns() -> Seq<AnimeQueryTable> {
    seq![
        AnimeQueryTable::Id,
        AnimeQueryTable::Titles,
        AnimeQueryTable::TitleSearch,
        AnimeQueryTable::Synopsis,
        AnimeQueryTable::ThumbnailId,
        AnimeQueryTable::BannerId,
        AnimeQueryTable::IsHidden,
        AnimeQueryTable::IsNsfw,
        AnimeQueryTable::CreatedBy,
        AnimeQueryTable::CreatedAt,
        AnimeQueryTable::Genre,
        AnimeQueryTable::ReleaseDate,
        AnimeQueryTable::AnimeInLists,
    ]
}

/// The columns a source search returns.
pub open spec fn source_select_columns() -> Seq<SourceQueryTable> {
    seq![
        SourceQueryTable::Id,
        SourceQueryTable::Name,
        SourceQueryTable::SourceType,
        SourceQueryTable::Priority,
    ]
}

/// The parameterized query of a collection search: the text and the values
/// to bind. A date bound that is not a representable time fails with
/// `InvalidData`.
pub fn anime_search_query(filters: rpc::SearchAnimeRequest) -> (r: Result<
    (String, sea_query::Values),
    ApplicationError,
>)
    ensures
        r is Ok <==> opt_time_ok(filters.start_release_date) && opt_time_ok(filters.end_release_date),
        r matches Err(e) ==> e is InvalidData,
        r matches Ok(q) ==> q.0@ == mysql_select_text(
            "animes"@,
            column_names(anime_select_columns()),
            condition_shapes(named_conditions(anime_search_spec(filters))),
        ) && bound_values(q.1) == condition_values(named_conditions(anime_search_spec(filters))),
{
    let predicates = anime_search_predicates(filters)?;
    let columns = vec![
        AnimeQueryTable::Id,
        AnimeQueryTable::Titles,
        AnimeQueryTable::TitleSearch,
        AnimeQueryTable::Synopsis,
        AnimeQueryTable::ThumbnailId,
        AnimeQueryTable::BannerId,
        AnimeQueryTable::IsHidden,
        AnimeQueryTable::IsNsfw,
        AnimeQueryTable::CreatedBy,
        AnimeQueryTable::CreatedAt,
        AnimeQueryTable::Genre,
        AnimeQueryTable::ReleaseDate,
        AnimeQueryTable::AnimeInLists,
    ];
    proof {
        assert(columns@ =~= anime_select_columns());
    }
    Ok(build_select(&AnimeQueryTable::Table, &columns, &predicates))
}

/// The parameterized query of a source search: the text and the values to bind.
pub fn source_search_query(filters: rpc::GetSourcesRequest) -> (r: (String, sea_query::Values))
    ensures
        r.0@ == mysql_select_text(
            "sources"@,
            column_names(source_select_columns()),
            condition_shapes(named_conditions(source_search_spec(filters))),
        ),
        bound_values(r.1) == condition_values(named_conditions(source_search_spec(filters))),
{
    let predicates = source_search_predicates(filters);
    let columns = vec![
        SourceQueryTable::Id,
        SourceQueryTable::Name,
        SourceQueryTable::SourceType,
        SourceQueryTable::Priority,
    ];
    proof {
        assert(columns@ =~= source_select_columns());
    }
    build_select(&SourceQueryTable::Table, &columns, &predicates)
}

/// The search predicates follow the filters one for one: a title alone
/// gives one substring predicate on the search index, matching the title
/// anywhere; two date bounds alone give exactly the two range predicates;
/// no filter gives no predicate, which matches every row.
pub proof fn lemma_search_predicates(f: rpc::SearchAnimeRequest)
    ensures
        f.synopsis is None && f.is_nsfw is None && f.genre is None && f.start_release_date is None
            && f.end_release_date is None ==> anime_search_spec(f) == match f.title {
            Some(t) => seq![
                (AnimeQueryTable::TitleSearch, Comparison::Like, FilterValueView::Text(contains_pattern(t@))),
            ],
            None => Seq::empty(),
        },
        f.title is None && f.synopsis is None && f.is_nsfw is None && f.genre is None
            && f.start_release_date is Some && f.end_release_date is Some ==> anime_search_spec(f)
            == seq![
            (AnimeQueryTable::ReleaseDate, Comparison::AtLeast, FilterValueView::Time(f.start_release_date->Some_0)),
            (AnimeQueryTable::ReleaseDate, Comparison::AtMost, FilterValueView::Time(f.end_release_date->Some_0)),
        ],
{
    let e = Seq::<(AnimeQueryTable, Comparison, FilterValueView)>::empty();
    assert(e + e == e);
    if f.title is None && f.synopsis is None && f.is_nsfw is None && f.genre is None
        && f.start_release_date is Some && f.end_release_date is Some {
        assert(anime_search_spec(f) =~= seq![
            (AnimeQueryTable::ReleaseDate, Comparison::AtLeast, FilterValueView::Time(f.start_release_date->Some_0)),
            (AnimeQueryTable::ReleaseDate, Comparison::AtMost, FilterValueView::Time(f.end_release_date->Some_0)),
        ]);
    }
    if f.synopsis is None && f.is_nsfw is None && f.genre is None && f.start_release_date is None
        && f.end_release_date is None {
        assert(anime_search_spec(f) =~= optional(
            match f.title {
                Some(t) => Some((AnimeQueryTable::TitleSearch, Comparison::Like, FilterValueView::Text(contains_pattern(t@)))),
                None => None,
            },
        ));
    }
}

} // verus!
