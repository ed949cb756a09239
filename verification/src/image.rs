//! Decisions of the global image library endpoints: which metadata a
//! failed metadata update is missing, and when a failed delete is a conflict.

use vstd::prelude::*;
use crate::text::{opt_str_view, first_index_in, lemma_first_index_in, lemma_first_index_in_at, find_char_in, str_equal};
use crate::ids::{uuid_parse, parse_uuid, uuid_hyphenated, lemma_uuid_hyphenated_plain, lemma_uuid_hyphenated_parses};
use crate::db_error::{postgres_error, postgres_detail, postgres_constraint, pg_error_of, pg_detail_of, pg_constraint_of};

verus! {

/// The kinds of image metadata.
#[derive(Clone, Copy, Debug, PartialEq, Eq, Structural)]
pub enum MetaKind {
    Affiliation,
    AgeRange,
    Style,
    Category,
}

/// An error of a metadata update: either a reference to metadata that does
/// not exist, or the database error as it came.
#[derive(Debug)]
pub enum MetaWrapperError {
    Sqlx(sqlx::Error),
    MissingMetadata { id: Option<u128>, kind: MetaKind },
}

/// The error of a delete: the row is still referenced, or the database failed.
#[derive(Debug)]
pub enum DeleteError {
    Conflict,
    InternalServerError(sqlx::Error),
}

/// The metadata kind whose foreign key a constraint name stands for.
pub open spec fn constraint_kind(c: Seq<char>) -> Option<MetaKind> {
    if c == "image_affiliation_affiliation_id_fkey"@ {
        Some(MetaKind::Affiliation)
    } else if c == "image_age_range_age_range_id_fkey"@ {
        Some(MetaKind::AgeRange)
    } else if c == "image_style_style_id_fkey"@ {
        Some(MetaKind::Style)
    } else if c == "image_category_category_id_fkey"@ {
        Some(MetaKind::Category)
    } else {
        None
    }
}

/// What a Postgres error with this detail and constraint says is missing:
/// the id read from the detail and the kind the constraint names, or `None`
/// where the constraint is none of the metadata foreign keys.
pub open spec fn missing_metadata(
    detail: Option<Seq<char>>,
    constraint: Option<Seq<char>>,
) -> Option<(Option<u128>, MetaKind)> {
    match constraint {
        Some(c) => match constraint_kind(c) {
            Some(kind) => Some(
                (
                    match detail {
                        Some(d) => detail_uuid(d),
                        None => None,
                    },
                    kind,
                ),
            ),
            None => None,
        },
        None => None,
    }
}

/// The metadata kind named by a constraint.
pub fn metadata_constraint_kind(constraint: &str) -> (r: Option<MetaKind>)
    ensures
        r == constraint_kind(constraint@),
{
    if str_equal(constraint, "image_affiliation_affiliation_id_fkey") {
        Some(MetaKind::Affiliation)
    } else if str_equal(constraint, "image_age_range_age_range_id_fkey") {
        Some(MetaKind::AgeRange)
    } else if str_equal(constraint, "image_style_style_id_fkey") {
        Some(MetaKind::Style)
    } else if str_equal(constraint, "image_category_category_id_fkey") {
        Some(MetaKind::Category)
    } else {
        None
    }
}

/// Reads a Postgres error's detail and constraint as a missing-metadata
/// report.
pub fn classify_metadata_error(detail: Option<&str>, constraint: Option<&str>) -> (r: Option<
    (Option<u128>, MetaKind),
>)
    ensures
        r == missing_metadata(opt_str_view(detail), opt_str_view(constraint)),
{
    let id = match detail {
        Some(d) => extract_uuid(d),
        None => None,
    };
    match constraint {
        Some(c) => match metadata_constraint_kind(c) {
            Some(kind) => Some((id, kind)),
            None => None,
        },
        None => None,
    }
}

/// The error a metadata update reports for the database error `err`: a
/// Postgres error whose constraint is a metadata foreign key becomes
/// `MissingMetadata` with the id read from its detail; any other error is
/// passed on.
pub open spec fn metadata_error(err: sqlx::Error) -> MetaWrapperError {
    match pg_error_of(err) {
        Some(e) => match missing_metadata(pg_detail_of(e), pg_constraint_of(e)) {
            Some((id, kind)) => MetaWrapperError::MissingMetadata { id, kind },
            None => MetaWrapperError::Sqlx(err),
        },
        None => MetaWrapperError::Sqlx(err),
    }
}

/// Maps the error of a metadata update: a violated metadata foreign key
/// becomes `MissingMetadata` with the id read from the detail; any other
/// error is passed on.
pub fn handle_metadata_err(err: sqlx::Error) -> (r: MetaWrapperError)
    ensures
        r == metadata_error(err),
{
    let decision = match postgres_error(&err) {
        Some(e) => classify_metadata_error(postgres_detail(e), postgres_constraint(e)),
        None => None,
    };
    match decision {
        Some((id, kind)) => MetaWrapperError::MissingMetadata { id, kind },
        None => MetaWrapperError::Sqlx(err),
    }
}

/// A metadata update error that is no Postgres error, names no violated
/// constraint, or names a constraint other than the four metadata foreign
/// keys is passed on as it came.
pub proof fn lemma_metadata_error_passes_on(err: sqlx::Error)
    ensures
        match pg_error_of(err) {
            None => metadata_error(err) == MetaWrapperError::Sqlx(err),
            Some(e) => match pg_constraint_of(e) {
                None => metadata_error(err) == MetaWrapperError::Sqlx(err),
                Some(c) => c != "image_affiliation_affiliation_id_fkey"@
                    && c != "image_age_range_age_range_id_fkey"@
                    && c != "image_style_style_id_fkey"@
                    && c != "image_category_category_id_fkey"@
                    ==> metadata_error(err) == MetaWrapperError::Sqlx(err),
            },
        },
{
}

/// A Postgres error that violates one of the four metadata foreign keys is
/// reported as missing metadata of the kind that key refers to, and never
/// passed on.
pub proof fn lemma_metadata_error_kind(
    err: sqlx::Error,
    e: sqlx::postgres::PgDatabaseError,
    c: Seq<char>,
)
    requires
        pg_error_of(err) == Some(e),
        pg_constraint_of(e) == Some(c),
    ensures
        c == "image_affiliation_affiliation_id_fkey"@ ==> (metadata_error(err) matches
            MetaWrapperError::MissingMetadata { kind: MetaKind::Affiliation, .. }),
        c == "image_age_range_age_range_id_fkey"@ ==> (metadata_error(err) matches
            MetaWrapperError::MissingMetadata { kind: MetaKind::AgeRange, .. }),
        c == "image_style_style_id_fkey"@ ==> (metadata_error(err) matches
            MetaWrapperError::MissingMetadata { kind: MetaKind::Style, .. }),
        c == "image_category_category_id_fkey"@ ==> (metadata_error(err) matches
            MetaWrapperError::MissingMetadata { kind: MetaKind::Category, .. }),
        (metadata_error(err) is MissingMetadata) <==> (c == "image_affiliation_affiliation_id_fkey"@
            || c == "image_age_range_age_range_id_fkey"@ || c == "image_style_style_id_fkey"@
            || c == "image_category_category_id_fkey"@),
{
    reveal_strlit("image_affiliation_affiliation_id_fkey");
    reveal_strlit("image_age_range_age_range_id_fkey");
    reveal_strlit("image_style_style_id_fkey");
    reveal_strlit("image_category_category_id_fkey");
    assert("image_affiliation_affiliation_id_fkey"@.len() == 37);
    assert("image_age_range_age_range_id_fkey"@.len() == 33);
    assert("image_style_style_id_fkey"@.len() == 25);
    assert("image_category_category_id_fkey"@.len() == 31);
}

/// Where a metadata foreign key is violated and the detail reads
/// `Key (<k>)=(<u>)<p>`, with `u` displayed as the `uuid` crate does, the
/// error reports exactly `u` as missing, with the kind of that key.
pub proof fn lemma_metadata_error_reports_id(
    err: sqlx::Error,
    e: sqlx::postgres::PgDatabaseError,
    c: Seq<char>,
    k: Seq<char>,
    u: u128,
    p: Seq<char>,
)
    requires
        pg_error_of(err) == Some(e),
        pg_constraint_of(e) == Some(c),
        pg_detail_of(e) == Some(key_detail(k, u, p)),
        !k.contains('('),
    ensures
        c == "image_affiliation_affiliation_id_fkey"@ ==> metadata_error(err)
            == (MetaWrapperError::MissingMetadata { id: Some(u), kind: MetaKind::Affiliation }),
        c == "image_age_range_age_range_id_fkey"@ ==> metadata_error(err)
            == (MetaWrapperError::MissingMetadata { id: Some(u), kind: MetaKind::AgeRange }),
        c == "image_style_style_id_fkey"@ ==> metadata_error(err)
            == (MetaWrapperError::MissingMetadata { id: Some(u), kind: MetaKind::Style }),
        c == "image_category_category_id_fkey"@ ==> metadata_error(err)
            == (MetaWrapperError::MissingMetadata { id: Some(u), kind: MetaKind::Category }),
{
    lemma_metadata_error_kind(err, e, c);
    lemma_key_detail_text(k, u, p);
    lemma_uuid_hyphenated_parses(u);
}

/// The error of a delete whose database error did (`constraint_present`)
/// or did not name a violated constraint.
pub open spec fn delete_error(err: sqlx::Error, constraint_present: bool) -> DeleteError {
    if constraint_present {
        DeleteError::Conflict
    } else {
        DeleteError::InternalServerError(err)
    }
}

/// Whether the database error `err` is a Postgres error naming a violated
/// constraint.
pub open spec fn names_constraint(err: sqlx::Error) -> bool {
    match pg_error_of(err) {
        Some(e) => pg_constraint_of(e) is Some,
        None => false,
    }
}

/// Decides the error of a delete from whether the Postgres error named a
/// violated constraint: then the image is still referenced, a conflict;
/// otherwise the error is an internal error.
pub fn delete_error_for(err: sqlx::Error, constraint_present: bool) -> (r: DeleteError)
    ensures
        r == delete_error(err, constraint_present),
{
    if constraint_present {
        DeleteError::Conflict
    } else {
        DeleteError::InternalServerError(err)
    }
}

/// Maps the error of a delete: a violated constraint is a conflict (the
/// image is still referenced); any other error is an internal error.
pub fn check_conflict_delete(err: sqlx::Error) -> (r: DeleteError)
    ensures
        r == delete_error(err, names_constraint(err)),
{
    let constraint_present = match postgres_error(&err) {
        Some(e) => postgres_constraint(e).is_some(),
        None => false,
    };
    delete_error_for(err, constraint_present)
}

/// A failed delete whose Postgres error names a violated constraint is a
/// conflict, the image being still referenced; any other failure is an
/// internal error that carries the database error as it came.
pub proof fn lemma_delete_error_cases(err: sqlx::Error)
    ensures
        match pg_error_of(err) {
            Some(e) => match pg_constraint_of(e) {
                Some(_) => delete_error(err, names_constraint(err)) == DeleteError::Conflict,
                None => delete_error(err, names_constraint(err))
                    == DeleteError::InternalServerError(err),
            },
            None => delete_error(err, names_constraint(err)) == DeleteError::InternalServerError(
                err,
            ),
        },
{
}

/// The text that stands between the second `(` of `detail` and the first
/// `)` after it, provided that `)` comes before any third `(`.
///
/// For a detail in the shape `Key (<key>)=(<uuid>)<postfix>` this is `<uuid>`.
pub open spec fn uuid_text_in_detail(s: Seq<char>) -> Option<Seq<char>> {
    match first_index_in(s, '(', 0, s.len() as int) {
        None => None,
        Some(a) => match first_index_in(s, '(', a + 1, s.len() as int) {
            None => None,
            Some(b) => {
                let end = match first_index_in(s, '(', b + 1, s.len() as int) {
                    Some(e) => e,
                    None => s.len() as int,
                };
                match first_index_in(s, ')', b + 1, end) {
                    Some(c) => Some(s.subrange(b + 1, c)),
                    None => None,
                }
            },
        },
    }
}

/// The UUID read from a database error detail, if any.
pub open spec fn detail_uuid(s: Seq<char>) -> Option<u128> {
    match uuid_text_in_detail(s) {
        Some(t) => uuid_parse(t),
        None => None,
    }
}

/// The detail Postgres writes for a missing foreign key:
/// `Key (<k>)=(<u>)<p>`, with the UUID `u` as the `uuid` crate displays it.
pub open spec fn key_detail(k: Seq<char>, u: u128, p: Seq<char>) -> Seq<char> {
    seq!['K', 'e', 'y', ' ', '('] + k + seq![')', '=', '('] + uuid_hyphenated(u) + seq![')'] + p
}

/// The text between the second `(` and the first `)` after it.
fn uuid_text_of(s: &str) -> (r: Option<&str>)
    ensures
        opt_str_view(r) == uuid_text_in_detail(s@),
{
    let n = s.unicode_len();
    proof {
        lemma_first_index_in(s@, '(', 0, n as int);
    }
    let a = find_char_in(s, '(', 0, n)?;
    proof {
        lemma_first_index_in(s@, '(', a + 1, n as int);
    }
    let b = find_char_in(s, '(', a + 1, n)?;
    proof {
        lemma_first_index_in(s@, '(', b + 1, n as int);
    }
    let end = match find_char_in(s, '(', b + 1, n) {
        Some(e) => e,
        None => n,
    };
    let c = find_char_in(s, ')', b + 1, end)?;
    proof {
        lemma_first_index_in(s@, ')', b + 1, end as int);
    }
    Some(s.substring_char(b + 1, c))
}

/// Attempts to grab a UUID out of a string in the shape
/// `Key (<key>)=(<uuid>)<postfix>`; for a key without `(` and a UUID in the
/// form the `uuid` crate displays it, that UUID is found.
pub fn extract_uuid(s: &str) -> (r: Option<u128>)
    ensures
        r == detail_uuid(s@),
        forall|k: Seq<char>, u: u128, p: Seq<char>|
            !k.contains('(') && s@ == #[trigger] key_detail(k, u, p) ==> r == Some(u),
{
    match uuid_text_of(s) {
        Some(text) => {
            let r = parse_uuid(text);
            proof {
                assert forall|k: Seq<char>, u: u128, p: Seq<char>|
                    !k.contains('(') && s@ == #[trigger] key_detail(k, u, p) implies r == Some(u) by {
                    lemma_key_detail_text(k, u, p);
                    lemma_uuid_hyphenated_parses(u);
                }
            }
            r
        },
        None => {
            proof {
                assert forall|k: Seq<char>, u: u128, p: Seq<char>|
                    !k.contains('(') && s@ == #[trigger] key_detail(k, u, p) implies None::<u128>
                    == Some(u) by {
                    lemma_key_detail_text(k, u, p);
                }
            }
            None
        },
    }
}

/// The text read from a `Key (<k>)=(<u>)<p>` detail is the UUID's text.
pub proof fn lemma_key_detail_text(k: Seq<char>, u: u128, p: Seq<char>)
    requires
        !k.contains('('),
    ensures
        uuid_text_in_detail(key_detail(k, u, p)) == Some(uuid_hyphenated(u)),
{
    let a = seq!['K', 'e', 'y', ' '];
    let b = k + seq![')', '='];
    let t = uuid_hyphenated(u);
    lemma_uuid_hyphenated_plain(u);
    assert(!a.contains('(')) by {
        if a.contains('(') {
            let i = choose|i: int| 0 <= i < a.len() && a[i] == '(';
        }
    }
    assert(!b.contains('(')) by {
        if b.contains('(') {
            let i = choose|i: int| 0 <= i < b.len() && b[i] == '(';
            if i < k.len() {
                assert(k[i] == '(');
            }
        }
    }
    lemma_detail_uuid_of_shape(a, b, t, p);
    assert(a + seq!['('] + b + seq!['('] + t + seq![')'] + p =~= key_detail(k, u, p));
}

/// Reading back a detail written as `<a>(<b>(<t>)<rest>`: where neither `a`,
/// `b` nor `t` holds a `(` and `t` holds no `)`, the UUID read is the one
/// that `t` denotes.
pub proof fn lemma_detail_uuid_of_shape(
    a: Seq<char>,
    b: Seq<char>,
    t: Seq<char>,
    rest: Seq<char>,
)
    requires
        !a.contains('('),
        !b.contains('('),
        !t.contains('('),
        !t.contains(')'),
    ensures
        uuid_text_in_detail(a + seq!['('] + b + seq!['('] + t + seq![')'] + rest) == Some(t),
        detail_uuid(a + seq!['('] + b + seq!['('] + t + seq![')'] + rest) == uuid_parse(t),
{
    let s = a + seq!['('] + b + seq!['('] + t + seq![')'] + rest;
    let n = s.len() as int;
    let ia = a.len() as int;
    let ib = ia + 1 + b.len();
    let ic = ib + 1 + t.len();
    assert forall|j: int| 0 <= j < ia implies s[j] != '(' by {
        assert(s[j] == a[j]);
    }
    lemma_first_index_in_at(s, '(', 0, n, ia);
    assert forall|j: int| ia + 1 <= j < ib implies s[j] != '(' by {
        assert(s[j] == b[j - ia - 1]);
    }
    lemma_first_index_in_at(s, '(', ia + 1, n, ib);
    lemma_first_index_in(s, '(', ib + 1, n);
    assert forall|j: int| ib + 1 <= j < ic implies s[j] != '(' && s[j] != ')' by {
        assert(s[j] == t[j - ib - 1]);
    }
    let end = match first_index_in(s, '(', ib + 1, n) {
        Some(e) => e,
        None => n,
    };
    assert(s[ic] == ')');
    assert(ic < end);
    lemma_first_index_in_at(s, ')', ib + 1, end, ic);
    assert(s.subrange(ib + 1, ic) =~= t);
}

} // verus!
