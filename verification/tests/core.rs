use rusty_harbor::client::HarborClient;
use rusty_harbor::client::dispatch::{decode_payload, evaluate_response};
use rusty_harbor::client::error::ClientError;
use rusty_harbor::errors::{DefinitionError, RenderError};
use rusty_harbor::fields::{BoundField, FieldMeta, FieldRole, classify, check_definition};
use rusty_harbor::headers::render_headers;
use rusty_harbor::render::render_url;
use rusty_harbor::request::HarborRequest;
use rusty_harbor::request::v2::health::get::GetHealth;
use rusty_harbor::request::v2::project::head::HeadProjects;
use rusty_harbor::request::v2::search::get::GetSearch;
use rusty_harbor::request::v2::statistics::get::GetStatistics;
use rusty_harbor::template::extract_placeholders;
use rusty_harbor::text::{bool_to_string, hyphenate, i32_to_string, opt_i32_to_string};
use rusty_harbor::encode::urlencode_pairs;

#[test]
fn path_substitution_single_placeholder() {
    let fields = vec![BoundField::required("id", "abc".to_string())];
    let url = render_url("widgets/{id}", &fields).unwrap();
    assert_eq!(url, "widgets/abc");
}

#[test]
fn query_emits_present_options_only() {
    let fields = vec![
        BoundField::optional("page", opt_i32_to_string(&Some(10))),
        BoundField::optional("name", None),
    ];
    let url = render_url("widgets", &fields).unwrap();
    assert_eq!(url, "widgets?page=10");
}

#[test]
fn missing_path_parameter_fails_loudly() {
    let fields = vec![BoundField::optional("id", None)];
    let res = render_url("widgets/{id}", &fields);
    assert_eq!(
        res,
        Err(RenderError::MissingPathParameter("id".to_string()))
    );
}

#[test]
fn renamed_header_contributes_no_query() {
    let fields = vec![BoundField::header_renamed(
        "request_id",
        "X-Request-Id",
        Some("abc".to_string()),
    )];
    let headers = render_headers(&fields).unwrap();
    assert_eq!(headers, vec![("X-Request-Id".to_string(), "abc".to_string())]);
    let url = render_url("widgets", &fields).unwrap();
    assert_eq!(url, "widgets");
}

#[test]
fn status_error_carries_status_and_body() {
    let res = evaluate_response(404, "not found".to_string());
    assert_eq!(
        res,
        Err(ClientError::Response {
            status: 404,
            message: "not found".to_string(),
        })
    );
}

#[test]
fn success_statuses_keep_the_body() {
    assert_eq!(evaluate_response(200, "ok".to_string()), Ok("ok".to_string()));
    assert_eq!(evaluate_response(299, "ok".to_string()), Ok("ok".to_string()));
    assert!(evaluate_response(199, String::new()).is_err());
    assert!(evaluate_response(300, String::new()).is_err());
}

#[test]
fn bodyless_responses_decode_a_placeholder() {
    assert_eq!(decode_payload(true, "ignored".to_string()), "null");
    assert_eq!(decode_payload(false, "body".to_string()), "body");
}

#[test]
fn substitution_is_order_independent() {
    let ab_first = vec![
        BoundField::required("ab", "2".to_string()),
        BoundField::required("a", "1".to_string()),
    ];
    let a_first = vec![
        BoundField::required("a", "1".to_string()),
        BoundField::required("ab", "2".to_string()),
    ];
    let u1 = render_url("{ab}/{a}", &ab_first).unwrap();
    let u2 = render_url("{ab}/{a}", &a_first).unwrap();
    assert_eq!(u1, "2/1");
    assert_eq!(u1, u2);
}

#[test]
fn short_name_never_matches_inside_longer_token() {
    // a binding for "a" alone must not rewrite part of "{ab}"
    let fields = vec![
        BoundField::required("a", "1".to_string()),
        BoundField::required("ab", "2".to_string()),
    ];
    let url = render_url("x/{a}/{ab}", &fields).unwrap();
    assert_eq!(url, "x/1/2");
}

#[test]
fn rendering_is_idempotent() {
    let request = GetSearch::builder("alpine").build().unwrap();
    assert_eq!(request.to_url(), request.to_url());
    assert_eq!(request.headers().unwrap(), request.headers().unwrap());
}

#[test]
fn classifier_priority_is_header_then_path_then_query() {
    let placeholders = extract_placeholders("projects/{name}");
    assert_eq!(placeholders, vec!["name".to_string()]);

    let marked = FieldMeta {
        name: "name".to_string(),
        header: true,
        header_rename: None,
        query_rename: None,
    };
    assert_eq!(classify(&marked, &placeholders), FieldRole::Header("name".to_string()));

    let matching = FieldMeta {
        name: "name".to_string(),
        header: false,
        header_rename: None,
        query_rename: None,
    };
    assert_eq!(classify(&matching, &placeholders), FieldRole::PathPlaceholder);

    let other = FieldMeta {
        name: "page".to_string(),
        header: false,
        header_rename: None,
        query_rename: Some("p".to_string()),
    };
    assert_eq!(classify(&other, &placeholders), FieldRole::Query("p".to_string()));
}

#[test]
fn header_wire_name_hyphenates_by_default() {
    assert_eq!(hyphenate("project_name"), "project-name");
    let request = HeadProjects::builder("library").build().unwrap();
    let headers = request.headers().unwrap();
    assert_eq!(headers, vec![("project-name".to_string(), "library".to_string())]);
    assert_eq!(request.to_url(), "projects");
}

#[test]
fn definition_with_unresolved_placeholder_is_rejected() {
    let fields = vec![BoundField::optional("page", None)];
    let res = check_definition("widgets/{id}", &fields);
    assert_eq!(res, Err(DefinitionError::UnresolvedPlaceholder("id".to_string())));
}

#[test]
fn definition_with_only_a_header_for_a_placeholder_is_rejected() {
    // the header marker wins, so the placeholder stays unresolved
    let fields = vec![BoundField::header("id", Some("abc".to_string()))];
    let res = check_definition("widgets/{id}", &fields);
    assert_eq!(res, Err(DefinitionError::UnresolvedPlaceholder("id".to_string())));
}

#[test]
fn definition_with_two_fields_for_one_placeholder_is_rejected() {
    let fields = vec![
        BoundField::required("id", "a".to_string()),
        BoundField::optional("id", None),
    ];
    let res = check_definition("widgets/{id}", &fields);
    assert_eq!(res, Err(DefinitionError::AmbiguousPlaceholder("id".to_string())));
}

#[test]
fn well_formed_definition_is_accepted() {
    let fields = vec![
        BoundField::required("id", "a".to_string()),
        BoundField::optional("page", None),
    ];
    assert_eq!(check_definition("widgets/{id}", &fields), Ok(()));
}

#[test]
fn placeholder_extraction_scans_whole_tokens() {
    assert_eq!(
        extract_placeholders("projects/{a}/{b}"),
        vec!["a".to_string(), "b".to_string()]
    );
    assert_eq!(extract_placeholders("plain/path"), Vec::<String>::new());
    assert_eq!(extract_placeholders("{unclosed"), Vec::<String>::new());
    assert_eq!(extract_placeholders("{}"), Vec::<String>::new());
    assert_eq!(extract_placeholders("a{x}b{x}c"), vec!["x".to_string(), "x".to_string()]);
}

#[test]
fn query_values_are_escaped() {
    let pairs = vec![("q".to_string(), "a b/c".to_string())];
    assert_eq!(urlencode_pairs(&pairs), "q=a+b%2Fc");

    let fields = vec![BoundField::optional("q", Some("tag=latest&x".to_string()))];
    let url = render_url("widgets", &fields).unwrap();
    assert_eq!(url, "widgets?q=tag%3Dlatest%26x");
}

#[test]
fn invalid_header_bytes_are_errors_not_panics() {
    let bad_name = vec![BoundField::header_renamed(
        "request_id",
        "Bad Name",
        Some("v".to_string()),
    )];
    assert_eq!(
        render_headers(&bad_name),
        Err(RenderError::InvalidHeaderName("request_id".to_string()))
    );

    let bad_value = vec![BoundField::header("id", Some("line\nbreak".to_string()))];
    assert_eq!(
        render_headers(&bad_value),
        Err(RenderError::InvalidHeaderValue("id".to_string()))
    );
}

#[test]
fn numbers_and_booleans_render_in_decimal() {
    assert_eq!(i32_to_string(0), "0");
    assert_eq!(i32_to_string(10), "10");
    assert_eq!(i32_to_string(-5), "-5");
    assert_eq!(i32_to_string(i32::MAX), "2147483647");
    assert_eq!(i32_to_string(i32::MIN), "-2147483648");
    assert_eq!(bool_to_string(true), "true");
    assert_eq!(bool_to_string(false), "false");
}

#[test]
fn api_url_joins_base_and_request() {
    let client = HarborClient::new(
        "https://registry.example".to_string(),
        "robot".to_string(),
        "secret".to_string(),
    )
    .unwrap();
    assert_eq!(client.base_url, "https://registry.example");
    assert_eq!(client.username, "robot");
    assert_eq!(client.password, "secret");
    assert_eq!(
        client.api_url("projects?page=1"),
        "https://registry.example/api/v2.0/projects?page=1"
    );
}

#[test]
fn bare_requests_render_their_paths() {
    assert_eq!(GetHealth::builder().build().unwrap().to_url(), "health");
    assert_eq!(GetStatistics::builder().build().unwrap().to_url(), "statistics");
    let search = GetSearch::builder("alpine").build().unwrap();
    assert_eq!(search.to_url(), "health?q=alpine");
}

#[test]
fn request_id_header_is_carried() {
    let request = GetHealth::builder().request_id("SomeID").build().unwrap();
    let headers = request.headers().unwrap();
    assert_eq!(headers, vec![("X-Request-Id".to_string(), "SomeID".to_string())]);
}
