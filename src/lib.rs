//! A films catalogue behind a GraphQL façade: the data model, an in-memory
//! storage gateway, the resolution rules of the query fields, the HTTP
//! response envelope, and the search address and release-date
//! normalisation of the movie metadata client.

pub mod film;
pub mod film_id;
pub mod store;
pub mod envelope;
pub mod resolve;
pub mod release_date;
pub mod tmdb;
