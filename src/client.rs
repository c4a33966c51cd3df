use crate::error::NewsApiError;
use crate::urls::{
    compose_url, composed_url, is_plain_url_text, opt_view, read_url_parts, url_parts,
};
use vstd::prelude::*;

verus! {

/// The API's address; the endpoint is appended to it as a path segment.
pub const BASE_URL: &'static str = "https://newsapi.org/v2";

/// The name under which requests identify this client.
pub const USER_AGENT: &'static str = "clinews";

/// A named resource of the API.
#[derive(Clone, Copy, Debug, PartialEq, Eq, Structural)]
pub enum Endpoint {
    TopHeadlines,
}

/// A country whose headlines can be asked for.
#[derive(Clone, Copy, Debug, PartialEq, Eq, Structural)]
pub enum Country {
    Us,
}

/// The path segment that names an endpoint.
pub open spec fn endpoint_text(e: Endpoint) -> Seq<char> {
    match e {
        Endpoint::TopHeadlines => "top-headlines"@,
    }
}

/// The code that names a country.
pub open spec fn country_text(c: Country) -> Seq<char> {
    match c {
        Country::Us => "us"@,
    }
}

/// The query string that asks for a country's headlines.
pub open spec fn country_query(c: Country) -> Seq<char> {
    "country="@ + country_text(c)
}

/// The endpoint that a path segment names, if any.
pub open spec fn endpoint_of_segment(s: Seq<char>) -> Option<Endpoint> {
    if s == endpoint_text(Endpoint::TopHeadlines) {
        Some(Endpoint::TopHeadlines)
    } else {
        None
    }
}

/// The country that a query string asks for, if any.
pub open spec fn country_of_query(q: Seq<char>) -> Option<Country> {
    if q == country_query(Country::Us) {
        Some(Country::Us)
    } else {
        None
    }
}

/// The endpoint and the country that a request URL asks for, read from the
/// last segment of its path and from its query.
pub open spec fn target_of_url(url: Seq<char>) -> Option<(Endpoint, Country)> {
    match url_parts(url) {
        Some((Some(segment), Some(query))) => match (
            endpoint_of_segment(segment),
            country_of_query(query),
        ) {
            (Some(e), Some(c)) => Some((e, c)),
            _ => None,
        },
        _ => None,
    }
}

impl Endpoint {
    /// The path segment that names this endpoint.
    pub fn to_string(&self) -> (r: String)
        ensures
            r@ == endpoint_text(*self),
    {
        match self {
            Endpoint::TopHeadlines => String::from_str("top-headlines"),
        }
    }
}

impl Country {
    /// The code that names this country.
    pub fn to_string(&self) -> (r: String)
        ensures
            r@ == country_text(*self),
    {
        match self {
            Country::Us => String::from_str("us"),
        }
    }
}

/// Names given to an endpoint or a country are plain URL text, and the name of
/// an endpoint or the query for a country is read back as the same endpoint or
/// country.
pub proof fn lemma_names_round_trip(e: Endpoint, c: Country)
    ensures
        is_plain_url_text(endpoint_text(e)),
        is_plain_url_text(country_query(c)),
        endpoint_of_segment(endpoint_text(e)) == Some(e),
        country_of_query(country_query(c)) == Some(c),
{
    reveal_strlit("top-headlines");
    reveal_strlit("country=");
    reveal_strlit("us");
    assert(is_plain_url_text(country_query(c)));
}

/// The query string that asks for a country's headlines.
pub fn country_query_string(c: Country) -> (r: String)
    ensures
        r@ == country_query(c),
{
    String::from_str("country=").concat(c.to_string().as_str())
}

/// The endpoint and the country that a request URL asks for; `None` when the
/// text is not a URL, or its last path segment names no endpoint, or its query
/// asks for no known country.
pub fn request_target(url: &str) -> (r: Option<(Endpoint, Country)>)
    ensures
        r == target_of_url(url@),
{
    let parts = read_url_parts(url);
    match parts {
        Some((Some(segment), Some(query))) => {
            let want_segment = Endpoint::TopHeadlines.to_string();
            let want_query = country_query_string(Country::Us);
            if segment == want_segment && query == want_query {
                Some((Endpoint::TopHeadlines, Country::Us))
            } else {
                None
            }
        },
        _ => None,
    }
}

/// An HTTP GET request, as it is to be sent.
#[derive(Debug)]
pub struct HttpRequest {
    pub url: String,
    /// The value of the `Authorization` header: the API key as it is.
    pub authorization: String,
    /// The value of the `User-Agent` header.
    pub user_agent: String,
}

/// What a client is configured with.
pub struct NewsApiView {
    pub api_key: Seq<char>,
    pub endpoint: Endpoint,
    pub country: Country,
}

/// A client of the API: an API key, and the endpoint and country to ask for.
pub struct NewsApi {
    api_key: String,
    endpoint: Endpoint,
    country: Country,
}

impl View for NewsApi {
    type V = NewsApiView;

    closed spec fn view(&self) -> NewsApiView {
        NewsApiView { api_key: self.api_key@, endpoint: self.endpoint, country: self.country }
    }
}

/// The URL that a client with configuration `v` requests, if it can be built.
pub open spec fn request_url(v: NewsApiView) -> Option<Seq<char>> {
    composed_url(BASE_URL@, endpoint_text(v.endpoint), country_query(v.country))
}

/// The URL and the header values of the request that a client with
/// configuration `v` sends, if its URL can be built.
pub open spec fn request_of(v: NewsApiView) -> Option<(Seq<char>, Seq<char>, Seq<char>)> {
    match request_url(v) {
        Some(u) => Some((u, v.api_key, USER_AGENT@)),
        None => None,
    }
}

/// The URL and the two header values of a request.
pub open spec fn http_request_view(q: HttpRequest) -> (Seq<char>, Seq<char>, Seq<char>) {
    (q.url@, q.authorization@, q.user_agent@)
}

/// Building a request does not depend on anything but the configuration:
/// two requests built for one configuration have the same URL and headers.
pub proof fn lemma_requests_repeat(v: NewsApiView, first: HttpRequest, second: HttpRequest)
    requires
        request_of(v) == Some(http_request_view(first)),
        request_of(v) == Some(http_request_view(second)),
    ensures
        first.url@ == second.url@,
        first.authorization@ == second.authorization@,
        first.user_agent@ == second.user_agent@,
        first.authorization@ == v.api_key,
{
}

impl NewsApi {
    /// A client with the given key, asking for the top headlines of the US.
    pub fn new(api_key: &str) -> (r: NewsApi)
        ensures
            r@ == (NewsApiView {
                api_key: api_key@,
                endpoint: Endpoint::TopHeadlines,
                country: Country::Us,
            }),
    {
        NewsApi {
            api_key: api_key.to_owned(),
            endpoint: Endpoint::TopHeadlines,
            country: Country::Us,
        }
    }

    /// The API key that requests carry.
    pub fn api_key(&self) -> (r: &str)
        ensures
            r@ == self@.api_key,
    {
        self.api_key.as_str()
    }

    /// Sets the endpoint to ask for; the rest is kept. The client itself is
    /// handed back, so that settings can be chained.
    pub fn endpoint(&mut self, endpoint: Endpoint) -> (r: &mut NewsApi)
        ensures
            r@ == (NewsApiView { endpoint, ..old(self)@ }),
            *final(self) == *final(r),
    {
        self.endpoint = endpoint;
        self
    }

    /// Sets the country to ask for; the rest is kept. The client itself is
    /// handed back, so that settings can be chained.
    pub fn country(&mut self, country: Country) -> (r: &mut NewsApi)
        ensures
            r@ == (NewsApiView { country, ..old(self)@ }),
            *final(self) == *final(r),
    {
        self.country = country;
        self
    }

    /// The URL of the request for the configured endpoint and country: the
    /// endpoint appended to the base address as a path segment, and the query
    /// set to the country's, in place of any other.
    pub fn prepare_url(&self) -> (r: Result<String, NewsApiError>)
        ensures
            r is Ok <==> request_url(self@) is Some,
            r matches Ok(u) ==> request_url(self@) == Some(u@),
            r matches Ok(u) ==> url_parts(u@) == Some(
                (Some(endpoint_text(self@.endpoint)), Some(country_query(self@.country))),
            ),
            r matches Ok(u) ==> target_of_url(u@) == Some((self@.endpoint, self@.country)),
            r matches Err(e) ==> e is UrlParsing,
    {
        let segment = self.endpoint.to_string();
        let query = country_query_string(self.country);
        proof {
            reveal_strlit("https://newsapi.org/v2");
            reveal_strlit("top-headlines");
            reveal_strlit("country=");
            reveal_strlit("us");
        }
        match compose_url(BASE_URL, segment.as_str(), query.as_str()) {
            Ok(u) => {
                proof {
                    lemma_names_round_trip(self.endpoint, self.country);
                }
                Ok(u)
            },
            Err(e) => Err(NewsApiError::UrlParsing(e)),
        }
    }

    /// The request that fetching the configured headlines sends: a GET of
    /// the prepared URL whose `Authorization` header is the API key as it is.
    pub fn request(&self) -> (r: Result<HttpRequest, NewsApiError>)
        ensures
            r is Ok <==> request_of(self@) is Some,
            r matches Ok(q) ==> request_of(self@) == Some(http_request_view(q)),
            r matches Err(e) ==> e is UrlParsing,
    {
        let url = self.prepare_url()?;
        Ok(
            HttpRequest {
                url,
                authorization: self.api_key.clone(),
                user_agent: String::from_str(USER_AGENT),
            },
        )
    }
}

} // verus!
