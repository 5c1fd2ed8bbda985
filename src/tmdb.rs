use vstd::prelude::*;

verus! {

/// What `reqwest::Url::parse` followed by `query_pairs_mut().extend_pairs`
/// makes of a base address and name/value pairs: the serialised address with
/// the pairs form-encoded into its query, or nothing when the base does not
/// parse.
pub uninterp spec fn url_with_pairs(base: Seq<char>, pairs: Seq<(Seq<char>, Seq<char>)>) -> Option<Seq<char>>;

/// The movie search endpoint of the metadata provider.
pub open spec fn search_endpoint() -> Seq<char> {
    "https://api.themoviedb.org/3/search/movie"@
}

/// The query of a movie search: the key, then the title.
pub open spec fn search_pairs(api_key: Seq<char>, title: Seq<char>) -> Seq<(Seq<char>, Seq<char>)> {
    seq![("api_key"@, api_key), ("query"@, title)]
}

pub open spec fn pairs_view(pairs: Seq<(String, String)>) -> Seq<(Seq<char>, Seq<char>)> {
    pairs.map_values(|p: (String, String)| (p.0@, p.1@))
}

/// Relies on `reqwest::Url::parse` (the `url` crate's parser) and on
/// `form_urlencoded::Serializer::extend_pairs`, which appends each pair in
/// order to the query.
#[verifier::external_body]
fn url_with_query(base: &str, pairs: &Vec<(String, String)>) -> (r: Option<String>)
    ensures
        r is Some <==> url_with_pairs(base@, pairs_view(pairs@)) is Some,
        r is Some ==> url_with_pairs(base@, pairs_view(pairs@)) == Some(r->Some_0@),
{
    let mut url = reqwest::Url::parse(base).ok()?;
    url.query_pairs_mut().extend_pairs(pairs.iter().map(|p| (p.0.as_str(), p.1.as_str())));
    Some(url.to_string())
}

/// The address of a movie search for `title`, authorised by `api_key`.
pub fn search_movie_url(api_key: &str, title: &str) -> (r: Option<String>)
    ensures
        r is Some <==> url_with_pairs(search_endpoint(), search_pairs(api_key@, title@)) is Some,
        r is Some ==> url_with_pairs(search_endpoint(), search_pairs(api_key@, title@)) == Some(r->Some_0@),
{
    let base: &str = "https://api.themoviedb.org/3/search/movie";
    let mut pairs: Vec<(String, String)> = Vec::new();
    pairs.push(("api_key".to_owned(), api_key.to_owned()));
    pairs.push(("query".to_owned(), title.to_owned()));
    proof {
        reveal_strlit("https://api.themoviedb.org/3/search/movie");
        reveal_strlit("api_key");
        reveal_strlit("query");
        assert(pairs_view(pairs@) =~= search_pairs(api_key@, title@));
    }
    url_with_query(base, &pairs)
}

/// A client of the metadata provider's movie search.
pub struct TmdbClient {
    api_key: String,
}

impl TmdbClient {
    pub closed spec fn key(&self) -> Seq<char> {
        self.api_key@
    }

    /// A client that authorises its requests with `api_key`.
    pub fn new(api_key: String) -> (r: TmdbClient)
        ensures
            r.key() == api_key@,
    {
        TmdbClient { api_key }
    }

    /// The address of this client's search for `title`.
    pub fn search_url(&self, title: &str) -> (r: Option<String>)
        ensures
            r is Some <==> url_with_pairs(search_endpoint(), search_pairs(self.key(), title@)) is Some,
            r is Some ==> url_with_pairs(search_endpoint(), search_pairs(self.key(), title@)) == Some(r->Some_0@),
    {
        search_movie_url(self.api_key.as_str(), title)
    }
}

} // verus!
