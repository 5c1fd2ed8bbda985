use films_api::envelope::{decode_envelope, encode_envelope, http_status, respond, EnvelopeError};
use films_api::film::{CreateFilm, Film};
use films_api::film_id::{film_id_from_text, film_id_to_text};
use films_api::release_date::{decode_release_date, release_date_from, CalendarDate};
use films_api::resolve::{
    get_film_status, resolve_create_film, resolve_get_film, resolve_get_films, ClientInputError,
};
use films_api::store::{apply_bounds, FilmStore, StorageError};
use films_api::tmdb::{search_movie_url, TmdbClient};

fn input(title: &str, year: i32) -> CreateFilm {
    CreateFilm {
        title: title.to_string(),
        release_year: year,
        summary: format!("About {}", title),
        runtime_mins: 90 + year % 7,
    }
}

fn store_of(titles: &[&str]) -> FilmStore {
    let mut store = FilmStore::new();
    for (i, t) in titles.iter().enumerate() {
        let created = resolve_create_film(&mut store, input(t, 2000 + i as i32), 1000 + i as u128, 50 + i as i64);
        assert!(created.is_ok());
    }
    store
}

fn titles(films: &[Film]) -> Vec<String> {
    films.iter().map(|f| f.title.clone()).collect()
}

#[test]
fn create_then_get_returns_the_input() {
    let mut store = FilmStore::new();
    let id: u128 = 0x67e5_5044_10b1_426f_9247_bb68_0e5f_e0c8;
    let film = resolve_create_film(&mut store, input("Alien", 1979), id, 1_234_567).unwrap();
    assert_eq!(film.id, id);
    assert_eq!(film.created_at, 1_234_567);
    assert_eq!(film.updated_at, 1_234_567);
    let text = film.field_id();
    assert_eq!(text, "67e55044-10b1-426f-9247-bb680e5fe0c8");
    let found = resolve_get_film(&store, &text).unwrap().unwrap();
    assert_eq!(found.field_title(), "Alien");
    assert_eq!(found.field_release_year(), 1979);
    assert_eq!(found.field_summary(), "About Alien");
    assert_eq!(found.field_runtime_mins(), 90 + 1979 % 7);
    assert!(found.field_created_at() <= found.field_updated_at());
}

#[test]
fn create_refuses_duplicate_id_and_empty_title() {
    let mut store = store_of(&["A"]);
    let dup = resolve_create_film(&mut store, input("B", 2001), 1000, 7);
    assert!(matches!(dup, Err(StorageError::DuplicateId)));
    let empty = resolve_create_film(&mut store, input("", 2001), 5, 7);
    assert!(matches!(empty, Err(StorageError::EmptyTitle)));
    assert_eq!(store.films.len(), 1);
}

#[test]
fn absent_id_is_null_with_200() {
    let store = store_of(&["A", "B"]);
    let r = resolve_get_film(&store, "67e55044-10b1-426f-9247-bb680e5fe0c8");
    assert!(matches!(r, Ok(None)));
    assert_eq!(get_film_status(&r), 200);
}

#[test]
fn malformed_id_is_client_error_with_400() {
    let store = store_of(&["A"]);
    let r = resolve_get_film(&store, "not-a-uuid");
    assert!(matches!(r, Err(ClientInputError::InvalidId)));
    assert_eq!(get_film_status(&r), 400);
}

#[test]
fn listing_bounds_skip_then_cap() {
    let store = store_of(&["A", "B", "C", "D", "E"]);
    assert_eq!(titles(&store.list_films(None, None)), vec!["A", "B", "C", "D", "E"]);
    assert_eq!(titles(&store.list_films(Some(2), None)), vec!["A", "B"]);
    assert_eq!(titles(&store.list_films(None, Some(3))), vec!["D", "E"]);
    assert_eq!(titles(&store.list_films(Some(2), Some(1))), vec!["B", "C"]);
    assert_eq!(titles(&store.list_films(Some(10), Some(4))), vec!["E"]);
    assert!(store.list_films(None, Some(9)).is_empty());
    assert!(store.list_films(Some(0), None).is_empty());
    assert_eq!(titles(&apply_bounds(&store.films, Some(1), Some(2))), vec!["C"]);
}

#[test]
fn negative_bound_is_client_error() {
    let store = store_of(&["A", "B"]);
    assert!(matches!(resolve_get_films(&store, Some(-1), None), Err(ClientInputError::NegativeBound)));
    assert!(matches!(resolve_get_films(&store, None, Some(-3)), Err(ClientInputError::NegativeBound)));
    assert_eq!(titles(&resolve_get_films(&store, Some(1), Some(1)).unwrap()), vec!["B"]);
}

#[test]
fn envelope_round_trip_keeps_result_and_status() {
    let body = br#"{"data":{"getFilm":null},"errors":[{"message":"boom"}]}"#.to_vec();
    let ok = encode_envelope(&body, true).unwrap();
    assert_eq!(
        String::from_utf8(ok.clone()).unwrap(),
        r#"{"data":{"getFilm":null},"errors":[{"message":"boom"}],"status":200}"#
    );
    assert_eq!(decode_envelope(&ok), Some((body.clone(), 200)));
    let bad = encode_envelope(&body, false).unwrap();
    assert_eq!(decode_envelope(&bad), Some((body, 400)));
    let empty = encode_envelope(&b"{}".to_vec(), true).unwrap();
    assert_eq!(empty, br#"{"status":200}"#.to_vec());
    assert_eq!(decode_envelope(&empty), Some((b"{}".to_vec(), 200)));
}

#[test]
fn envelope_refuses_what_is_not_an_object() {
    assert_eq!(encode_envelope(&b"[1]".to_vec(), true), Err(EnvelopeError::NotAnObject));
    assert_eq!(encode_envelope(&b"{".to_vec(), true), Err(EnvelopeError::NotAnObject));
    assert_eq!(decode_envelope(&br#"{"data":1}"#.to_vec()), None);
    assert_eq!(decode_envelope(&br#"{"status":20x}"#.to_vec()), None);
    assert_eq!(http_status(true), 200);
    assert_eq!(http_status(false), 400);
}

#[test]
fn post_get_films_three_titles() {
    let store = store_of(&["A", "B", "C"]);
    let films = resolve_get_films(&store, None, None).unwrap();
    let rows: Vec<serde_json::Value> = films
        .iter()
        .map(|f| {
            let mut m = serde_json::Map::new();
            m.insert("title".to_string(), serde_json::Value::String(f.field_title().clone()));
            serde_json::Value::Object(m)
        })
        .collect();
    let mut data = serde_json::Map::new();
    data.insert("getFilms".to_string(), serde_json::Value::Array(rows));
    let mut result = serde_json::Map::new();
    result.insert("data".to_string(), serde_json::Value::Object(data));
    let body = serde_json::to_vec(&serde_json::Value::Object(result)).unwrap();
    let out = encode_envelope(&body, true).unwrap();
    assert_eq!(
        String::from_utf8(out).unwrap(),
        r#"{"data":{"getFilms":[{"title":"A"},{"title":"B"},{"title":"C"}]},"status":200}"#
    );
}

#[test]
fn get_film_with_malformed_id_gives_400_without_data() {
    let store = store_of(&["A"]);
    let r = resolve_get_film(&store, "not-a-uuid");
    let status = get_film_status(&r);
    assert_eq!(status, 400);
    let body = br#"{"errors":[{"message":"invalid identifier"}]}"#.to_vec();
    let out = encode_envelope(&body, r.is_ok()).unwrap();
    let text = String::from_utf8(out.clone()).unwrap();
    assert_eq!(text, r#"{"errors":[{"message":"invalid identifier"}],"status":400}"#);
    assert!(!text.contains("data"));
    assert_eq!(decode_envelope(&out).unwrap().1, 400);
}

#[test]
fn release_date_empty_valid_and_invalid() {
    assert!(matches!(decode_release_date(&Some(String::new())), Ok(None)));
    assert!(matches!(decode_release_date(&None), Ok(None)));
    let d = decode_release_date(&Some("2020-01-15".to_string())).unwrap().unwrap();
    assert_eq!(d, CalendarDate { year: 2020, month: 1, day: 15 });
    assert!(decode_release_date(&Some("not-a-date".to_string())).is_err());
    assert!(decode_release_date(&Some("2020-02-30".to_string())).is_err());
}

#[test]
fn release_date_from_a_parser_result() {
    let date = CalendarDate { year: 1999, month: 3, day: 31 };
    assert!(matches!(release_date_from(&Some(String::new()), Err("bad".to_string())), Ok(None)));
    assert_eq!(release_date_from(&Some("x".to_string()), Ok(date)).unwrap(), Some(date));
    let e = release_date_from(&Some("x".to_string()), Err("bad".to_string())).unwrap_err();
    assert_eq!(e.message, "bad");
}

#[test]
fn identifiers_round_trip_through_text() {
    let id: u128 = 0x0123_4567_89ab_cdef_0011_2233_4455_6677;
    let text = film_id_to_text(id);
    assert_eq!(text, "01234567-89ab-cdef-0011-223344556677");
    assert_eq!(film_id_from_text(&text), Some(id));
    assert_eq!(film_id_from_text("0123456789ABCDEF0011223344556677"), Some(id));
    assert_eq!(film_id_from_text("01234567-89ab"), None);
}

#[test]
fn search_url_encodes_the_query() {
    let url = search_movie_url("KEY", "The Matrix").unwrap();
    assert_eq!(url, "https://api.themoviedb.org/3/search/movie?api_key=KEY&query=The+Matrix");
    let client = TmdbClient::new("k2".to_string());
    assert_eq!(
        client.search_url("Amélie & co").unwrap(),
        "https://api.themoviedb.org/3/search/movie?api_key=k2&query=Am%C3%A9lie+%26+co"
    );
}

#[test]
fn respond_pairs_status_and_envelope() {
    let body = br#"{"data":{"getFilms":[]}}"#.to_vec();
    let ok = respond(&body, true).unwrap();
    assert_eq!(ok.status, 200);
    assert_eq!(ok.body, br#"{"data":{"getFilms":[]},"status":200}"#.to_vec());
    let failed = respond(&br#"{"errors":[]}"#.to_vec(), false).unwrap();
    assert_eq!(failed.status, 400);
    assert_eq!(failed.body, br#"{"errors":[],"status":400}"#.to_vec());
    assert!(matches!(respond(&b"null".to_vec(), true), Err(EnvelopeError::NotAnObject)));
}
