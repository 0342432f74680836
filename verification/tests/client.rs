use resy::resy_client::{extract_venue_slug, ResyClient};

#[test]
fn slug_with_query() {
    assert_eq!(
        extract_venue_slug("https://resy.com/cities/ny/venues/abc-bistro?date=2024-01-01"),
        "abc-bistro"
    );
}

#[test]
fn slug_without_query() {
    assert_eq!(
        extract_venue_slug("https://resy.com/cities/ny/venues/abc-bistro"),
        "abc-bistro"
    );
}

#[test]
fn slug_absent_marker() {
    assert_eq!(
        extract_venue_slug("https://resy.com/cities/ny/restaurants/abc-bistro"),
        ""
    );
}

#[test]
fn slug_empty_url() {
    assert_eq!(extract_venue_slug(""), "");
}

#[test]
fn slug_marker_at_start() {
    assert_eq!(extract_venue_slug("venues/x?y=1"), "x");
}

#[test]
fn slug_empty_between_marker_and_query() {
    assert_eq!(extract_venue_slug("https://resy.com/venues/?date=1"), "");
}

#[test]
fn slug_takes_first_marker() {
    assert_eq!(
        extract_venue_slug("https://resy.com/venues/a/venues/b?x=1"),
        "a/venues/b"
    );
}

#[test]
fn new_client_is_empty() {
    let c = ResyClient::new();
    assert_eq!(c.venue_id, "");
    assert_eq!(c.user_auth.api_key, "");
    assert_eq!(c.user_auth.auth_token, "");
}

#[test]
fn get_venue_id_stores_the_stand_in() {
    let mut c = ResyClient::new();
    c.get_venue_id("https://resy.com/cities/ny/venues/abc-bistro");
    assert_eq!(c.venue_id, "Extracted ID based on URL");
}
