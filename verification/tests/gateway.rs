use resy::resy_api_gateway::{HttpBody, HttpMethod, ResyAPIGateway};

fn gateway() -> ResyAPIGateway {
    ResyAPIGateway::new(String::from("test-api-key"), String::from("test-auth-token"))
}

fn assert_headers(headers: &[(String, String)]) {
    assert_eq!(headers.len(), 2);
    assert_eq!(headers[0].0, "Authorization");
    assert_eq!(headers[0].1, "ResyAPI api_key=\"test-api-key\"");
    assert_eq!(headers[1].0, "x-resy-auth-token");
    assert_eq!(headers[1].1, "test-auth-token");
}

#[test]
fn setup_headers_builds_both_required_headers() {
    let g = gateway();
    let h = g.setup_headers();
    assert_headers(&h);
}

#[test]
fn every_operation_carries_both_headers() {
    let g = gateway();
    assert_headers(&g.get_user().headers);
    assert_headers(&g.get_venue("abc-bistro", "new-york-ny").headers);
    assert_headers(&g.find_reservation("123", "2024-01-01", 2, 0, 0).headers);
    assert_headers(&g.get_reservation_details(0, "cfg", 2, "2024-01-01").headers);
    assert_headers(&g.book_reservation("token", 1).headers);
}

#[test]
fn get_user_request() {
    let r = gateway().get_user();
    assert_eq!(r.method, HttpMethod::Get);
    assert_eq!(r.url, "https://api.resy.com/2/user");
    assert!(matches!(r.body, HttpBody::Empty));
}

#[test]
fn get_venue_request() {
    let r = gateway().get_venue("abc-bistro", "new-york-ny");
    assert_eq!(r.method, HttpMethod::Get);
    assert_eq!(
        r.url,
        "https://api.resy.com/3/venue?url_slug=abc-bistro&location=new-york-ny"
    );
    assert!(matches!(r.body, HttpBody::Empty));
}

#[test]
fn find_reservation_request() {
    let r = gateway().find_reservation("7524", "2024-01-01", 2, 0, 0);
    assert_eq!(r.method, HttpMethod::Get);
    assert_eq!(
        r.url,
        "https://api.resy.com/4/find?lat=0&long=0&day=2024-01-01&party_size=2&venue_id=7524"
    );
    assert!(matches!(r.body, HttpBody::Empty));
}

#[test]
fn find_reservation_negative_coordinates() {
    let r = gateway().find_reservation("7524", "2024-01-01", 255, -74, i64::MIN);
    assert_eq!(
        r.url,
        "https://api.resy.com/4/find?lat=-74&long=-9223372036854775808&day=2024-01-01&party_size=255&venue_id=7524"
    );
}

#[test]
fn details_request_builds_json_body() {
    let r = gateway().get_reservation_details(1, "cfg-99", 4, "2024-01-01");
    assert_eq!(r.method, HttpMethod::Post);
    assert_eq!(r.url, "https://api.resy.com/3/details");
    match r.body {
        HttpBody::Json(b) => assert_eq!(
            b,
            "{\"commit\":1,\"config_id\":\"cfg-99\",\"day\":\"2024-01-01\",\"party_size\":4}"
        ),
        _ => panic!("expected a JSON body"),
    }
}

#[test]
fn details_body_escapes_json_characters() {
    let r = gateway().get_reservation_details(0, "a\"b\\c", 2, "d\ne\u{1}f");
    match r.body {
        HttpBody::Json(b) => assert_eq!(
            b,
            "{\"commit\":0,\"config_id\":\"a\\\"b\\\\c\",\"day\":\"d\\ne\\u0001f\",\"party_size\":2}"
        ),
        _ => panic!("expected a JSON body"),
    }
}

#[test]
fn details_body_round_trips_through_a_json_parser() {
    let config_id = "quote \" backslash \\ newline \n tab \t end";
    let day = "2024-01-01";
    let r = gateway().get_reservation_details(1, config_id, 6, day);
    let b = match r.body {
        HttpBody::Json(b) => b,
        _ => panic!("expected a JSON body"),
    };
    let v: serde_json::Value = serde_json::from_str(&b).expect("the framed body is valid JSON");
    assert_eq!(v.get("commit").and_then(|x| x.as_u64()), Some(1));
    assert_eq!(v.get("config_id").and_then(|x| x.as_str()), Some(config_id));
    assert_eq!(v.get("day").and_then(|x| x.as_str()), Some(day));
    assert_eq!(v.get("party_size").and_then(|x| x.as_u64()), Some(6));
}

#[test]
fn book_request_url_encodes_the_token() {
    let r = gateway().book_reservation("tok en+/=", 42);
    assert_eq!(r.method, HttpMethod::Post);
    assert_eq!(r.url, "https://api.resy.com/3/book");
    match r.body {
        HttpBody::Form(b) => assert_eq!(
            b,
            "book_token=tok%20en%2B%2F%3D&struct_payment_method={\"id\":42}"
        ),
        _ => panic!("expected a form body"),
    }
}

#[test]
fn book_request_keeps_safe_characters_and_negative_id() {
    let r = gateway().book_reservation("AZaz09-._~", -7);
    match r.body {
        HttpBody::Form(b) => assert_eq!(
            b,
            "book_token=AZaz09-._~&struct_payment_method={\"id\":-7}"
        ),
        _ => panic!("expected a form body"),
    }
}

#[test]
fn book_request_with_empty_token() {
    let r = gateway().book_reservation("", 0);
    match r.body {
        HttpBody::Form(b) => assert_eq!(b, "book_token=&struct_payment_method={\"id\":0}"),
        _ => panic!("expected a form body"),
    }
}

#[test]
fn book_request_encodes_every_utf8_byte_of_the_token() {
    let r = gateway().book_reservation("é", 1);
    match r.body {
        HttpBody::Form(b) => assert_eq!(
            b,
            "book_token=%C3%A9&struct_payment_method={\"id\":1}"
        ),
        _ => panic!("expected a form body"),
    }
}

#[test]
fn process_response_returns_valid_json_unchanged() {
    let body = "{\"venue\":{\"id\":7524},\"results\":[1,2,3]}";
    let r = ResyAPIGateway::process_response(200, body).expect("2xx with valid JSON is Ok");
    let expected: serde_json::Value = serde_json::from_str(body).unwrap();
    assert_eq!(r, expected);
}

#[test]
fn process_response_accepts_any_2xx_status() {
    let r = ResyAPIGateway::process_response(299, "[1,2,3]").expect("299 counts as success");
    assert_eq!(r.as_array().map(|a| a.len()), Some(3));
}

#[test]
fn process_response_reports_the_status_code_on_failure() {
    let e = ResyAPIGateway::process_response(404, "{\"ok\":true}")
        .expect_err("a non-2xx status is an error");
    assert_eq!(e.message, "API request failed: 404");
    assert!(e.message.contains("404"));
    let e = ResyAPIGateway::process_response(500, "").expect_err("500 is an error");
    assert!(e.message.contains("500"));
    let e = ResyAPIGateway::process_response(199, "{}").expect_err("199 is not success");
    assert!(e.message.contains("199"));
}

#[test]
fn process_response_reports_a_parse_error_on_malformed_body() {
    let e = ResyAPIGateway::process_response(200, "not json at all")
        .expect_err("a malformed body on success is a parse error");
    assert!(!e.message.is_empty());
    assert!(!e.message.contains("API request failed"));
}
