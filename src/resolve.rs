use vstd::prelude::*;
use crate::envelope::{http_status, status_code};
use crate::film::{CreateFilm, Film, new_row};
use crate::film_id::{film_id_from_text, uuid_value_of};
use crate::store::{
    FilmStore, bounded, find_row, holds_id, insert_outcome, rows_wf,
};

verus! {

/// Input that a client got wrong.
#[derive(Debug, PartialEq, Eq, Structural)]
pub enum ClientInputError {
    /// The text is not an identifier.
    InvalidId,
    /// A listing bound is negative.
    NegativeBound,
}

/// What `getFilm(id)` yields over the rows: a client error when the text is
/// not an identifier, else the film with that identifier or nothing.
pub open spec fn get_film_outcome(rows: Seq<Film>, id_text: Seq<char>) -> Result<Option<Film>, ClientInputError> {
    match uuid_value_of(id_text) {
        Some(id) => Ok(find_row(rows, id)),
        None => Err(ClientInputError::InvalidId),
    }
}

/// A listing bound as the store takes it, or an error when it is negative.
pub open spec fn bound_of(b: Option<i32>) -> Result<Option<u32>, ClientInputError> {
    match b {
        Some(v) => if v < 0 {
            Err(ClientInputError::NegativeBound)
        } else {
            Ok(Some(v as u32))
        },
        None => Ok(None),
    }
}

/// Whether a `getFilm` outcome lets execution complete: only an invalid
/// identifier fails it, before any field is resolved.
pub open spec fn get_film_completes(r: Result<Option<Film>, ClientInputError>) -> bool {
    r is Ok
}

fn check_bound(b: Option<i32>) -> (r: Result<Option<u32>, ClientInputError>)
    ensures
        r == bound_of(b),
{
    match b {
        Some(v) => if v < 0 {
            Err(ClientInputError::NegativeBound)
        } else {
            Ok(Some(v as u32))
        },
        None => Ok(None),
    }
}

/// `getFilms(first, offset)`: skip `offset` rows, then keep at most `first`;
/// a negative bound is a client error.
pub fn resolve_get_films(store: &FilmStore, first: Option<i32>, offset: Option<i32>) -> (r: Result<Vec<Film>, ClientInputError>)
    ensures
        (bound_of(first) is Err || bound_of(offset) is Err) <==> r is Err,
        r is Err ==> r == Err::<Vec<Film>, _>(ClientInputError::NegativeBound),
        r is Ok ==> r->Ok_0@ == bounded(store.films@, bound_of(first)->Ok_0, bound_of(offset)->Ok_0),
{
    let n = check_bound(first)?;
    let k = check_bound(offset)?;
    Ok(store.list_films(n, k))
}

/// `getFilm(id)`: the film whose identifier the text spells, or nothing when
/// no film has it; a text that spells no identifier is a client error.
pub fn resolve_get_film(store: &FilmStore, id_text: &str) -> (r: Result<Option<Film>, ClientInputError>)
    requires
        store.wf(),
    ensures
        r == get_film_outcome(store.films@, id_text@),
{
    match film_id_from_text(id_text) {
        Some(id) => Ok(store.get_film(id)),
        None => Err(ClientInputError::InvalidId),
    }
}

/// The HTTP status of a `getFilm` request with this outcome.
pub fn get_film_status(r: &Result<Option<Film>, ClientInputError>) -> (s: u16)
    ensures
        s == status_code(get_film_completes(*r)),
{
    http_status(r.is_ok())
}

/// `createFilm(input)`: the new film, with an identifier and a creation time
/// supplied by the caller.
pub fn resolve_create_film(store: &mut FilmStore, input: CreateFilm, id: u128, now: i64) -> (r: Result<Film, crate::store::StorageError>)
    requires
        old(store).wf(),
    ensures
        final(store).wf(),
        r == insert_outcome(old(store).films@, input, id, now),
        r is Ok ==> final(store).films@ == old(store).films@.push(r->Ok_0),
        r is Err ==> final(store).films@ == old(store).films@,
{
    store.create_film(input, id, now)
}

/// A film created from a valid input under a fresh identifier is then found
/// under that identifier; its chosen fields are those of the input, and it
/// was created and updated at the same time.
pub proof fn create_then_get(rows: Seq<Film>, input: CreateFilm, id: u128, now: i64)
    requires
        rows_wf(rows),
        input.title@.len() > 0,
        !holds_id(rows, id),
    ensures
        insert_outcome(rows, input, id, now) == Ok::<Film, crate::store::StorageError>(new_row(input, id, now)),
        rows_wf(rows.push(new_row(input, id, now))),
        find_row(rows.push(new_row(input, id, now)), id) == Some(new_row(input, id, now)),
        new_row(input, id, now).carries(input),
        new_row(input, id, now).id == id,
        new_row(input, id, now).created_at <= new_row(input, id, now).updated_at,
{
    let f = new_row(input, id, now);
    let r2 = rows.push(f);
    assert(r2[rows.len() as int] == f);
    assert(holds_id(r2, id));
    assert forall|i: int, j: int|
        0 <= i < r2.len() && 0 <= j < r2.len() && #[trigger] r2[i].id == #[trigger] r2[j].id implies i == j by {
        if i < rows.len() && j < rows.len() {
            assert(rows[i].id == rows[j].id);
        } else if i < rows.len() {
            assert(rows[i].id == id);
        } else if j < rows.len() {
            assert(rows[j].id == id);
        }
    }
    assert forall|i: int| 0 <= i < r2.len() implies (#[trigger] r2[i]).wf() by {
        if i < rows.len() {
            assert(rows[i].wf());
        }
    }
    let c = choose|i: int| 0 <= i < r2.len() && r2[i].id == id;
    assert(r2[c].id == r2[rows.len() as int].id);
}

/// A well-formed identifier that no film holds yields nothing, with status 200.
pub proof fn absent_id_is_null(rows: Seq<Film>, id_text: Seq<char>)
    requires
        uuid_value_of(id_text) is Some,
        !holds_id(rows, uuid_value_of(id_text)->Some_0),
    ensures
        get_film_outcome(rows, id_text) == Ok::<Option<Film>, ClientInputError>(None),
        status_code(get_film_completes(get_film_outcome(rows, id_text))) == 200,
{
}

/// A text that spells no identifier is a client error with status 400, never
/// the absent case.
pub proof fn malformed_id_is_client_error(rows: Seq<Film>, id_text: Seq<char>)
    requires
        uuid_value_of(id_text) is None,
    ensures
        get_film_outcome(rows, id_text) == Err::<Option<Film>, ClientInputError>(ClientInputError::InvalidId),
        get_film_outcome(rows, id_text) != Ok::<Option<Film>, ClientInputError>(None),
        status_code(get_film_completes(get_film_outcome(rows, id_text))) == 400,
{
}

/// Without bounds a listing returns every row; `first` caps it at `n` rows;
/// `offset` skips the first `k` rows; both together skip `k`, then cap at `n`.
pub proof fn listing_bounds(rows: Seq<Film>, n: u32, k: u32)
    ensures
        bounded(rows, None, None) == rows,
        bounded(rows, Some(n), None).len() <= n,
        bounded(rows, Some(n), None) == rows.take(if (n as int) < rows.len() { n as int } else { rows.len() as int }),
        (k as int) <= rows.len() ==> bounded(rows, None, Some(k)) == rows.skip(k as int),
        (k as int) > rows.len() ==> bounded(rows, None, Some(k)).len() == 0,
        bounded(rows, Some(n), Some(k)) == bounded(bounded(rows, None, Some(k)), Some(n), None),
{
    assert(rows.take(rows.len() as int) =~= rows);
    let rest = bounded(rows, None, Some(k));
    assert(rest.take(rest.len() as int) =~= rest);
}

} // verus!
