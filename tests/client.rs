use newsapi::client::{country_query_string, request_target, BASE_URL, USER_AGENT};
use newsapi::{Country, Endpoint, NewsApi, NewsApiError};

#[test]
fn prepare_url_appends_endpoint_and_sets_country_query() {
    let api = NewsApi::new("key");
    let url = api.prepare_url().unwrap();
    assert_eq!(url, "https://newsapi.org/v2/top-headlines?country=us");
    assert!(url.starts_with(BASE_URL));
}

#[test]
fn prepared_url_reads_back_as_the_configured_target() {
    let mut api = NewsApi::new("key");
    api.endpoint(Endpoint::TopHeadlines).country(Country::Us);
    let url = api.prepare_url().unwrap();
    assert_eq!(
        request_target(&url),
        Some((Endpoint::TopHeadlines, Country::Us))
    );
}

#[test]
fn request_target_rejects_other_urls() {
    assert_eq!(request_target("not a url"), None);
    assert_eq!(
        request_target("https://newsapi.org/v2/everything?country=us"),
        None
    );
    assert_eq!(
        request_target("https://newsapi.org/v2/top-headlines?country=de"),
        None
    );
    assert_eq!(request_target("https://newsapi.org/v2/top-headlines"), None);
    assert_eq!(
        request_target("https://example.com/a/top-headlines?country=us"),
        Some((Endpoint::TopHeadlines, Country::Us))
    );
}

#[test]
fn names_of_endpoint_and_country() {
    assert_eq!(Endpoint::TopHeadlines.to_string(), "top-headlines");
    assert_eq!(Country::Us.to_string(), "us");
    assert_eq!(country_query_string(Country::Us), "country=us");
}

#[test]
fn new_client_keeps_the_key() {
    let api = NewsApi::new("SECRET-REDACTED");
    assert_eq!(api.api_key(), "SECRET-REDACTED");
}

#[test]
fn request_carries_raw_key_and_user_agent() {
    let api = NewsApi::new("abc123");
    let req = api.request().unwrap();
    assert_eq!(req.url, "https://newsapi.org/v2/top-headlines?country=us");
    assert_eq!(req.authorization, "abc123");
    assert_eq!(req.user_agent, USER_AGENT);
    assert_eq!(req.user_agent, "clinews");
}

#[test]
fn two_requests_from_one_configuration_are_the_same() {
    let mut api = NewsApi::new("abc123");
    api.country(Country::Us);
    let first = api.request().unwrap();
    let second = api.request().unwrap();
    assert_eq!(first.url, second.url);
    assert_eq!(first.authorization, second.authorization);
    assert_eq!(first.user_agent, second.user_agent);
}

#[test]
fn error_messages() {
    let e = newsapi::error::map_response_err(Some("apiKeyDisabled".to_string()));
    assert_eq!(e.message(), "Request failed: Your API key has been disabled..");
    let e = newsapi::error::map_response_err(None);
    assert!(matches!(e, NewsApiError::BadRequest("Unknown error")));
    assert_eq!(e.message(), "Request failed: Unknown error.");
    let e = newsapi::error::map_response_err(Some("rateLimited".to_string()));
    assert!(matches!(e, NewsApiError::BadRequest("Unknown error")));
}
