use vstd::prelude::*;
use crate::film::{CreateFilm, Film, new_row};

verus! {

/// Why the store refused to write a row.
#[derive(Debug, PartialEq, Eq, Structural)]
pub enum StorageError {
    /// A film already holds the identifier.
    DuplicateId,
    /// The title is empty.
    EmptyTitle,
}

/// The rows that a listing returns: skip `offset` rows in storage order,
/// then keep at most `first` of those that remain. An absent bound applies
/// no bound.
pub open spec fn bounded(rows: Seq<Film>, first: Option<u32>, offset: Option<u32>) -> Seq<Film> {
    let rest = match offset {
        Some(k) => if (k as int) <= rows.len() {
            rows.skip(k as int)
        } else {
            Seq::empty()
        },
        None => rows,
    };
    match first {
        Some(n) => if (n as int) < rest.len() {
            rest.take(n as int)
        } else {
            rest
        },
        None => rest,
    }
}

/// Whether a row holds the identifier.
pub open spec fn holds_id(rows: Seq<Film>, id: u128) -> bool {
    exists|i: int| 0 <= i < rows.len() && rows[i].id == id
}

/// The row with the identifier, if there is one.
pub open spec fn find_row(rows: Seq<Film>, id: u128) -> Option<Film> {
    if holds_id(rows, id) {
        Some(rows[choose|i: int| 0 <= i < rows.len() && rows[i].id == id])
    } else {
        None
    }
}

/// Every row is well formed and no two rows share an identifier.
pub open spec fn rows_wf(rows: Seq<Film>) -> bool {
    &&& forall|i: int| 0 <= i < rows.len() ==> (#[trigger] rows[i]).wf()
    &&& forall|i: int, j: int|
        0 <= i < rows.len() && 0 <= j < rows.len() && #[trigger] rows[i].id == #[trigger] rows[j].id
            ==> i == j
}

/// The outcome of writing `input` under `id` at time `now`.
pub open spec fn insert_outcome(rows: Seq<Film>, input: CreateFilm, id: u128, now: i64) -> Result<Film, StorageError> {
    if input.title@.len() == 0 {
        Err(StorageError::EmptyTitle)
    } else if holds_id(rows, id) {
        Err(StorageError::DuplicateId)
    } else {
        Ok(new_row(input, id, now))
    }
}

/// The rows of `rows` that a listing with these bounds returns, copied in order.
pub fn apply_bounds(rows: &Vec<Film>, first: Option<u32>, offset: Option<u32>) -> (r: Vec<Film>)
    ensures
        r@ == bounded(rows@, first, offset),
{
    let len = rows.len();
    let start: usize = match offset {
        Some(k) => if (k as usize) <= len {
            k as usize
        } else {
            len
        },
        None => 0,
    };
    let end: usize = match first {
        Some(n) => if (n as usize) < len - start {
            start + n as usize
        } else {
            len
        },
        None => len,
    };
    let mut out: Vec<Film> = Vec::new();
    let mut i: usize = start;
    while i < end
        invariant
            start <= i <= end <= len,
            len == rows@.len(),
            out@ == rows@.subrange(start as int, i as int),
        decreases end - i,
    {
        out.push(rows[i].duplicate());
        i = i + 1;
        assert(out@ =~= rows@.subrange(start as int, i as int));
    }
    assert(out@ =~= bounded(rows@, first, offset));
    out
}

/// An in-memory table of films, in insertion order.
pub struct FilmStore {
    pub films: Vec<Film>,
}

impl FilmStore {
    pub open spec fn wf(&self) -> bool {
        rows_wf(self.films@)
    }

    /// An empty table.
    pub fn new() -> (r: FilmStore)
        ensures
            r.wf(),
            r.films@.len() == 0,
    {
        FilmStore { films: Vec::new() }
    }

    /// The rows in storage order, bounded as `bounded` says.
    pub fn list_films(&self, first: Option<u32>, offset: Option<u32>) -> (r: Vec<Film>)
        ensures
            r@ == bounded(self.films@, first, offset),
    {
        apply_bounds(&self.films, first, offset)
    }

    /// The film with the identifier, or nothing when none has it.
    pub fn get_film(&self, id: u128) -> (r: Option<Film>)
        requires
            self.wf(),
        ensures
            r == find_row(self.films@, id),
    {
        let mut i: usize = 0;
        while i < self.films.len()
            invariant
                0 <= i <= self.films@.len(),
                self.wf(),
                forall|j: int| 0 <= j < i ==> (#[trigger] self.films@[j]).id != id,
            decreases self.films@.len() - i,
        {
            if self.films[i].id == id {
                let ghost rows = self.films@;
                assert(holds_id(rows, id));
                let ghost c = choose|j: int| 0 <= j < rows.len() && rows[j].id == id;
                assert(rows[c].id == rows[i as int].id);
                assert(c == i as int);
                return Some(self.films[i].duplicate());
            }
            i = i + 1;
        }
        None
    }

    /// Writes a new row for `input` under `id`, created and updated at `now`,
    /// and returns it; refuses an empty title and an identifier already held.
    pub fn create_film(&mut self, input: CreateFilm, id: u128, now: i64) -> (r: Result<Film, StorageError>)
        requires
            old(self).wf(),
        ensures
            final(self).wf(),
            r == insert_outcome(old(self).films@, input, id, now),
            r is Ok ==> final(self).films@ == old(self).films@.push(r->Ok_0),
            r is Err ==> final(self).films@ == old(self).films@,
    {
        if input.title.as_str().is_empty() {
            return Err(StorageError::EmptyTitle);
        }
        let mut i: usize = 0;
        while i < self.films.len()
            invariant
                0 <= i <= self.films@.len(),
                self.films@ == old(self).films@,
                self.wf(),
                input.title@.len() > 0,
                forall|j: int| 0 <= j < i ==> (#[trigger] self.films@[j]).id != id,
            decreases self.films@.len() - i,
        {
            if self.films[i].id == id {
                assert(holds_id(self.films@, id));
                return Err(StorageError::DuplicateId);
            }
            i = i + 1;
        }
        let row = Film {
            id,
            created_at: now,
            updated_at: now,
            title: input.title,
            release_year: input.release_year,
            summary: input.summary,
            runtime_mins: input.runtime_mins,
        };
        let ret = row.duplicate();
        self.films.push(row);
        Ok(ret)
    }
}

} // verus!
