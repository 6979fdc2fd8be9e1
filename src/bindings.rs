//! Contracts of the outside functions this library calls.
use std::collections::BTreeMap;

use hmac::Mac;
use jwt::{SignWithKey, VerifyWithKey};
use vstd::prelude::*;

use crate::query::{Comparison, FilterValueView};

verus! {

/// Seconds since the Unix epoch that `chrono` can represent as a `DateTime<Utc>`:
/// from -262143-01-01T00:00:00Z to 262142-12-31T23:59:59Z.
pub open spec fn valid_unix_time(secs: int) -> bool {
    -8334601228800 <= secs <= 8210266876799
}

/// The map that a list of claim pairs denotes; a later pair overrides an earlier one.
pub open spec fn pairs_map(s: Seq<(String, String)>) -> Map<Seq<char>, Seq<char>>
    decreases s.len(),
{
    if s.len() == 0 {
        Map::empty()
    } else {
        pairs_map(s.drop_last()).insert(s.last().0@, s.last().1@)
    }
}

/// The kana mnemonic that khash derives from the UTF-8 bytes of a string.
pub uninterp spec fn kana_digest(s: Seq<char>) -> Seq<char>;

/// The HS256 JSON web token that signs a claim map under a secret.
pub uninterp spec fn signed_token(secret: Seq<char>, claims: Map<Seq<char>, Seq<char>>) -> Seq<char>;

/// The claims of a token when it verifies under a secret, `None` otherwise.
pub uninterp spec fn token_claims(secret: Seq<char>, token: Seq<char>) -> Option<Map<Seq<char>, Seq<char>>>;

/// The first capture group of the leftmost match of a regular expression in
/// a text; `None` when the pattern does not compile or does not match, or
/// the group takes no part in the match.
pub uninterp spec fn regex_first_group(pattern: Seq<char>, text: Seq<char>) -> Option<Seq<char>>;

/// Relies on `regex::Regex::new` and `Regex::captures`, group 1: the result
/// depends on the pattern and the text alone.
#[verifier::external_body]
pub fn first_capture(pattern: &str, text: &str) -> (r: Option<String>)
    ensures
        r is Some <==> regex_first_group(pattern@, text@) is Some,
        r matches Some(g) ==> g@ == regex_first_group(pattern@, text@)->Some_0,
{
    let re = regex::Regex::new(pattern).ok()?;
    Some(re.captures(text)?.get(1)?.as_str().to_string())
}

/// Relies on `String::push`: appends one character.
#[verifier::external_body]
pub fn push_char(s: &mut String, c: char)
    ensures
        final(s)@ == old(s)@.push(c),
{
    s.push(c);
}

pub open spec fn is_lower_hex(c: char) -> bool {
    ('0' as u32 <= c as u32 <= '9' as u32) || ('a' as u32 <= c as u32 <= 'f' as u32)
}

pub open spec fn is_uuid_hyphen_position(k: int) -> bool {
    k == 8 || k == 13 || k == 18 || k == 23
}

/// The hyphenated form of a UUID: 36 characters, `-` at positions 8, 13, 18
/// and 23, lowercase hexadecimal digits elsewhere.
pub open spec fn hyphenated_uuid(s: Seq<char>) -> bool {
    &&& s.len() == 36
    &&& forall|k: int|
        0 <= k < 36 ==> if is_uuid_hyphen_position(k) {
            s[k] == '-'
        } else {
            is_lower_hex(#[trigger] s[k])
        }
}

/// Relies on `uuid::Uuid::new_v4` and its `Display` form, the lowercase
/// hyphenated one: a random version 4 UUID.
#[verifier::external_body]
pub fn new_uuid_string() -> (r: String)
    ensures
        hyphenated_uuid(r@),
{
    uuid::Uuid::new_v4().to_string()
}

/// Relies on `khash::Digest` read to its end and collected: the mnemonic
/// depends on the bytes of the input alone.
#[verifier::external_body]
pub fn kana_mnemonic(s: &str) -> (r: String)
    ensures
        r@ == kana_digest(s@),
{
    khash::Digest::new(&mut s.as_bytes()).collect()
}

/// Relies on `chrono::DateTime::from_timestamp` (and `timestamp`, with which it
/// round-trips): `None` exactly for seconds outside chrono's range.
#[verifier::external_body]
pub fn checked_unix_time(secs: i64) -> (r: Option<i64>)
    ensures
        r == (if valid_unix_time(secs as int) { Some(secs) } else { None::<i64> }),
{
    chrono::DateTime::from_timestamp(secs, 0).map(|d| d.timestamp())
}

/// Relies on `chrono::Utc::now`: the current time, a representable date.
#[verifier::external_body]
pub fn now_unix_time() -> (r: i64)
    ensures
        valid_unix_time(r as int),
{
    chrono::Utc::now().timestamp()
}

/// Relies on jwt's `SignWithKey::sign_with_key` for a `BTreeMap` of string
/// claims, with an `Hmac<Sha256>` key from `new_from_slice` (which takes a key
/// of any length): the header's algorithm comes from the key and a map of
/// strings always serializes, so signing succeeds, and the token depends on
/// the secret and the claims alone.
#[verifier::external_body]
pub fn sign_claims(secret: &str, claims: &Vec<(String, String)>) -> (r: Option<String>)
    ensures
        r is Some,
        r matches Some(t) ==> t@ == signed_token(secret@, pairs_map(claims@)),
{
    let key = hmac::Hmac::<sha2::Sha256>::new_from_slice(secret.as_bytes()).ok()?;
    let map: BTreeMap<String, String> = claims.iter().cloned().collect();
    map.sign_with_key(&key).ok()
}

/// Relies on jwt's `VerifyWithKey::verify_with_key` into a
/// `Token<Header, BTreeMap<String, String>, _>` with an `Hmac<Sha256>` key:
/// it succeeds when the token parses and its HS256 signature holds under the
/// secret, and a token that `sign_claims` made under the same secret verifies
/// to the claims it signed.
#[verifier::external_body]
pub fn verify_claims(secret: &str, token: &str) -> (r: Option<Vec<(String, String)>>)
    ensures
        r is Some <==> token_claims(secret@, token@) is Some,
        r matches Some(v) ==> pairs_map(v@) == token_claims(secret@, token@)->Some_0,
        r is Some || forall|c: Map<Seq<char>, Seq<char>>|
            c.dom().finite() ==> token@ != #[trigger] signed_token(secret@, c),
        r matches Some(v) ==> forall|c: Map<Seq<char>, Seq<char>>|
            c.dom().finite() && token@ == #[trigger] signed_token(secret@, c) ==> pairs_map(v@) == c,
{
    let key = hmac::Hmac::<sha2::Sha256>::new_from_slice(secret.as_bytes()).ok()?;
    let verified: jwt::Token<jwt::Header, BTreeMap<String, String>, _> =
        token.verify_with_key(&key).ok()?;
    Some(verified.claims().clone().into_iter().collect())
}

#[verifier::external_type_specification]
#[verifier::external_body]
pub struct ExSelectStatement(sea_query::SelectStatement);

#[verifier::external_type_specification]
#[verifier::external_body]
pub struct ExValues(sea_query::Values);

/// The table a select statement reads from.
pub uninterp spec fn select_table(q: sea_query::SelectStatement) -> Seq<char>;

/// The columns a select statement returns, in order.
pub uninterp spec fn select_columns(q: sea_query::SelectStatement) -> Seq<Seq<char>>;

/// The `AND`-combined conditions of a select statement, in order: the
/// column, how it is compared, and the value bound for its placeholder.
pub uninterp spec fn select_conditions(q: sea_query::SelectStatement) -> Seq<
    (Seq<char>, Comparison, FilterValueView),
>;

/// The values a built statement binds, in placeholder order.
pub uninterp spec fn bound_values(v: sea_query::Values) -> Seq<FilterValueView>;

/// The MySQL text that sea_query writes for a select of `columns` from
/// `table` whose conditions each compare a column with one placeholder.
pub uninterp spec fn mysql_select_text(
    table: Seq<char>,
    columns: Seq<Seq<char>>,
    conditions: Seq<(Seq<char>, Comparison)>,
) -> Seq<char>;

pub open spec fn condition_shapes(c: Seq<(Seq<char>, Comparison, FilterValueView)>) -> Seq<
    (Seq<char>, Comparison),
> {
    c.map_values(|x: (Seq<char>, Comparison, FilterValueView)| (x.0, x.1))
}

pub open spec fn condition_values(c: Seq<(Seq<char>, Comparison, FilterValueView)>) -> Seq<
    FilterValueView,
> {
    c.map_values(|x: (Seq<char>, Comparison, FilterValueView)| x.2)
}

/// Relies on `sea_query::Query::select` and `SelectStatement::from` with an
/// `Alias`: a select from `table` with no column and no condition yet.
#[verifier::external_body]
pub fn select_from(table: &str) -> (q: sea_query::SelectStatement)
    ensures
        select_table(q) == table@,
        select_columns(q) == Seq::<Seq<char>>::empty(),
        select_conditions(q) == Seq::<(Seq<char>, Comparison, FilterValueView)>::empty(),
{
    let mut q = sea_query::Query::select();
    q.from(sea_query::Alias::new(table));
    q
}

/// Relies on `SelectStatement::column` with an `Alias`: appends one column.
#[verifier::external_body]
pub fn select_column(q: &mut sea_query::SelectStatement, column: &str)
    ensures
        select_table(*final(q)) == select_table(*old(q)),
        select_columns(*final(q)) == select_columns(*old(q)).push(column@),
        select_conditions(*final(q)) == select_conditions(*old(q)),
{
    q.column(sea_query::Alias::new(column));
}

/// Relies on `SelectStatement::and_where` with `Expr::col(..).like(..)`:
/// appends `column LIKE ?`, the pattern bound to the placeholder.
#[verifier::external_body]
pub fn and_where_like(q: &mut sea_query::SelectStatement, column: &str, pattern: &str)
    ensures
        select_table(*final(q)) == select_table(*old(q)),
        select_columns(*final(q)) == select_columns(*old(q)),
        select_conditions(*final(q)) == select_conditions(*old(q)).push(
            (column@, Comparison::Like, FilterValueView::Text(pattern@)),
        ),
{
    q.and_where(sea_query::Expr::col(sea_query::Alias::new(column)).like(pattern));
}

/// Relies on `SelectStatement::and_where` with `Expr::col(..).eq(..)`:
/// appends `column = ?`, the boolean bound to the placeholder.
#[verifier::external_body]
pub fn and_where_eq_bool(q: &mut sea_query::SelectStatement, column: &str, value: bool)
    ensures
        select_table(*final(q)) == select_table(*old(q)),
        select_columns(*final(q)) == select_columns(*old(q)),
        select_conditions(*final(q)) == select_conditions(*old(q)).push(
            (column@, Comparison::Equal, FilterValueView::Bool(value)),
        ),
{
    q.and_where(sea_query::Expr::col(sea_query::Alias::new(column)).eq(value));
}

/// Relies on `SelectStatement::and_where` with `Expr::col(..).eq(..)`:
/// appends `column = ?`, the integer bound to the placeholder.
#[verifier::external_body]
pub fn and_where_eq_number(q: &mut sea_query::SelectStatement, column: &str, value: u64)
    ensures
        select_table(*final(q)) == select_table(*old(q)),
        select_columns(*final(q)) == select_columns(*old(q)),
        select_conditions(*final(q)) == select_conditions(*old(q)).push(
            (column@, Comparison::Equal, FilterValueView::Number(value)),
        ),
{
    q.and_where(sea_query::Expr::col(sea_query::Alias::new(column)).eq(value));
}

/// Relies on `SelectStatement::and_where` with `Expr::col(..).gte(..)` and
/// `chrono::DateTime::from_timestamp`, which gives a time for every second
/// in chrono's range: appends `column >= ?`, that UTC time bound to it.
#[verifier::external_body]
pub fn and_where_at_least_time(q: &mut sea_query::SelectStatement, column: &str, secs: i64)
    requires
        valid_unix_time(secs as int),
    ensures
        select_table(*final(q)) == select_table(*old(q)),
        select_columns(*final(q)) == select_columns(*old(q)),
        select_conditions(*final(q)) == select_conditions(*old(q)).push(
            (column@, Comparison::AtLeast, FilterValueView::Time(secs)),
        ),
{
    let time = chrono::DateTime::from_timestamp(secs, 0).expect("a time in chrono's range");
    q.and_where(sea_query::Expr::col(sea_query::Alias::new(column)).gte(time));
}

/// Relies on `SelectStatement::and_where` with `Expr::col(..).lte(..)` and
/// `chrono::DateTime::from_timestamp`, which gives a time for every second
/// in chrono's range: appends `column <= ?`, that UTC time bound to it.
#[verifier::external_body]
pub fn and_where_at_most_time(q: &mut sea_query::SelectStatement, column: &str, secs: i64)
    requires
        valid_unix_time(secs as int),
    ensures
        select_table(*final(q)) == select_table(*old(q)),
        select_columns(*final(q)) == select_columns(*old(q)),
        select_conditions(*final(q)) == select_conditions(*old(q)).push(
            (column@, Comparison::AtMost, FilterValueView::Time(secs)),
        ),
{
    let time = chrono::DateTime::from_timestamp(secs, 0).expect("a time in chrono's range");
    q.and_where(sea_query::Expr::col(sea_query::Alias::new(column)).lte(time));
}

/// Relies on `QueryStatementWriter::build` with `MysqlQueryBuilder`: the
/// statement's text, with a `?` placeholder for every value, and the values
/// in placeholder order.
#[verifier::external_body]
pub fn build_mysql(q: &sea_query::SelectStatement) -> (r: (String, sea_query::Values))
    ensures
        r.0@ == mysql_select_text(
            select_table(*q),
            select_columns(*q),
            condition_shapes(select_conditions(*q)),
        ),
        bound_values(r.1) == condition_values(select_conditions(*q)),
{
    q.build(sea_query::MysqlQueryBuilder)
}

} // verus!
