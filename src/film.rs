use vstd::prelude::*;
use crate::film_id::{film_id_to_text, hyphenated_text};

verus! {

/// A stored film. Times are microseconds since the Unix epoch, in UTC.
#[derive(Debug)]
pub struct Film {
    pub id: u128,
    pub created_at: i64,
    pub updated_at: i64,
    pub title: String,
    pub release_year: i32,
    pub summary: String,
    pub runtime_mins: i32,
}

/// What a client supplies to create a film; the store assigns the identity
/// and the times.
#[derive(Debug)]
pub struct CreateFilm {
    pub title: String,
    pub release_year: i32,
    pub summary: String,
    pub runtime_mins: i32,
}

impl Film {
    /// A stored film has a title and was not updated before it was created.
    pub open spec fn wf(&self) -> bool {
        &&& self.title@.len() > 0
        &&& self.created_at <= self.updated_at
    }

    /// The fields that a client chose are those of `input`.
    pub open spec fn carries(&self, input: CreateFilm) -> bool {
        &&& self.title@ == input.title@
        &&& self.release_year == input.release_year
        &&& self.summary@ == input.summary@
        &&& self.runtime_mins == input.runtime_mins
    }

    /// The `id` field: the identifier's hyphenated text.
    pub fn field_id(&self) -> (r: String)
        ensures
            r@ == hyphenated_text(self.id),
    {
        film_id_to_text(self.id)
    }

    /// The `createdAt` field.
    pub fn field_created_at(&self) -> (r: i64)
        ensures
            r == self.created_at,
    {
        self.created_at
    }

    /// The `updatedAt` field.
    pub fn field_updated_at(&self) -> (r: i64)
        ensures
            r == self.updated_at,
    {
        self.updated_at
    }

    /// The `title` field.
    pub fn field_title(&self) -> (r: &String)
        ensures
            r@ == self.title@,
    {
        &self.title
    }

    /// The `releaseYear` field.
    pub fn field_release_year(&self) -> (r: i32)
        ensures
            r == self.release_year,
    {
        self.release_year
    }

    /// The `summary` field.
    pub fn field_summary(&self) -> (r: &String)
        ensures
            r@ == self.summary@,
    {
        &self.summary
    }

    /// The `runtimeMins` field.
    pub fn field_runtime_mins(&self) -> (r: i32)
        ensures
            r == self.runtime_mins,
    {
        self.runtime_mins
    }

    /// A field-by-field copy.
    pub fn duplicate(&self) -> (r: Film)
        ensures
            r == *self,
    {
        Film {
            id: self.id,
            created_at: self.created_at,
            updated_at: self.updated_at,
            title: self.title.clone(),
            release_year: self.release_year,
            summary: self.summary.clone(),
            runtime_mins: self.runtime_mins,
        }
    }
}

/// The row that the store writes for `input` under `id` at time `now`.
pub open spec fn new_row(input: CreateFilm, id: u128, now: i64) -> Film {
    Film {
        id,
        created_at: now,
        updated_at: now,
        title: input.title,
        release_year: input.release_year,
        summary: input.summary,
        runtime_mins: input.runtime_mins,
    }
}

} // verus!
