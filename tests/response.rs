use newsapi::article::check_status;
use newsapi::{map_response, render_articles, render_date, Article, NewsApiError, NewsApiResponse};

#[test]
fn ok_envelope_gives_its_article() {
    let body = r#"{"status":"ok","articles":[{"title":"T","url":"U","publishedAt":"2023-05-01T10:00:00Z"}]}"#;
    let resp = map_response(body).unwrap();
    assert_eq!(resp.get_status(), "ok");
    let articles = resp.get_articles();
    assert_eq!(articles.len(), 1);
    assert_eq!(articles[0].get_title(), "T");
    assert_eq!(articles[0].gert_url(), "U");
    assert_eq!(articles[0].get_published_at(), "2023-05-01T10:00:00Z");
}

#[test]
fn ok_envelope_keeps_every_article_in_order() {
    let body = r#"{"status":"ok","code":null,"articles":[
        {"title":"A","url":"a","publishedAt":"2023-01-01T00:00:00Z","source":{"id":null}},
        {"title":"B","url":"b","publishedAt":"2023-01-02T00:00:00Z"}]}"#;
    let resp = map_response(body).unwrap();
    let titles: Vec<&str> = resp.get_articles().iter().map(|a| a.get_title()).collect();
    assert_eq!(titles, vec!["A", "B"]);
    assert_eq!(resp.get_code(), None);
}

#[test]
fn ok_envelope_with_no_articles() {
    let resp = map_response(r#"{"status":"ok","articles":[]}"#).unwrap();
    assert!(resp.get_articles().is_empty());
}

#[test]
fn disabled_key_is_reported() {
    let err = map_response(r#"{"status":"error","code":"apiKeyDisabled"}"#).unwrap_err();
    assert!(matches!(err, NewsApiError::BadRequest("Your API key has been disabled.")));
    assert!(err.message().contains("disabled"));
}

#[test]
fn other_code_is_unknown_error() {
    let err = map_response(r#"{"status":"error","code":"somethingElse"}"#).unwrap_err();
    assert!(matches!(err, NewsApiError::BadRequest("Unknown error")));
}

#[test]
fn missing_code_is_unknown_error() {
    let err = map_response(r#"{"status":"error"}"#).unwrap_err();
    assert!(matches!(err, NewsApiError::BadRequest("Unknown error")));
}

#[test]
fn malformed_json_is_a_parse_error() {
    let err = map_response(r#"{"status":"ok","articles":["#).unwrap_err();
    assert!(matches!(err, NewsApiError::ArticleParseFailed(_)));
    let err = map_response("").unwrap_err();
    assert!(matches!(err, NewsApiError::ArticleParseFailed(_)));
}

#[test]
fn article_missing_a_field_is_a_parse_error() {
    for body in [
        r#"{"status":"ok","articles":[{"url":"U","publishedAt":"2023-05-01T10:00:00Z"}]}"#,
        r#"{"status":"ok","articles":[{"title":"T","publishedAt":"2023-05-01T10:00:00Z"}]}"#,
        r#"{"status":"ok","articles":[{"title":"T","url":"U"}]}"#,
        r#"{"status":"ok","articles":[{"title":"T","url":"U","publishedAt":"2023-05-01T10:00:00Z"},{"title":"T2","url":"U2"}]}"#,
    ] {
        let err = map_response(body).unwrap_err();
        assert!(matches!(err, NewsApiError::ArticleParseFailed(_)), "{}", body);
    }
}

#[test]
fn wrong_types_are_parse_errors() {
    for body in [
        r#"{"articles":[]}"#,
        r#"{"status":1,"articles":[]}"#,
        r#"{"status":"error","code":7}"#,
        r#"{"status":"ok","articles":{}}"#,
        r#"{"status":"ok","articles":[{"title":1,"url":"U","publishedAt":"P"}]}"#,
        r#"[1,2]"#,
    ] {
        let err = map_response(body).unwrap_err();
        assert!(matches!(err, NewsApiError::ArticleParseFailed(_)), "{}", body);
    }
}

#[test]
fn check_status_passes_ok_and_maps_others() {
    let a = Article::new("T".to_string(), "U".to_string(), "2023-05-01T10:00:00Z".to_string());
    let ok = NewsApiResponse::new("ok".to_string(), vec![a], None);
    let kept = check_status(ok).unwrap();
    assert_eq!(kept.get_articles()[0].get_title(), "T");
    let bad = NewsApiResponse::new("error".to_string(), vec![], Some("apiKeyDisabled".to_string()));
    assert!(matches!(
        check_status(bad),
        Err(NewsApiError::BadRequest("Your API key has been disabled."))
    ));
}

#[test]
fn date_is_rendered_day_month_year() {
    assert_eq!(render_date("2023-05-01T10:00:00Z").unwrap(), "01/05/2023");
    assert_eq!(render_date("1999-12-31").unwrap(), "31/12/1999");
    assert_eq!(render_date("2023-05-0"), None);
    assert_eq!(render_date(""), None);
}

#[test]
fn articles_are_rendered_under_the_heading() {
    let articles = vec![
        Article::new("T".to_string(), "U".to_string(), "2023-05-01T10:00:00Z".to_string()),
        Article::new("S".to_string(), "V".to_string(), "2021-11-30T08:00:00Z".to_string()),
    ];
    assert_eq!(
        render_articles(&articles),
        "# Top Headlines\n01/05/2023\n`T`\n*U* \n--- \n\n30/11/2021\n`S`\n*V* \n--- \n\n"
    );
    assert_eq!(render_articles(&Vec::new()), "# Top Headlines\n");
}

#[test]
fn ok_envelope_without_articles_is_a_parse_error() {
    let err = map_response(r#"{"status":"ok"}"#).unwrap_err();
    assert!(matches!(err, NewsApiError::ArticleParseFailed(_)));
    let err = map_response(r#"{"status":"error","code":"apiKeyDisabled","articles":[{"title":"T"}]}"#).unwrap_err();
    assert!(matches!(err, NewsApiError::ArticleParseFailed(_)));
}
