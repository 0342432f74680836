//! The API gateway: builds the HTTP request for each remote operation of the
//! reservation service and normalizes responses into a parsed JSON value or an
//! error.
//!
//! Sending a request over the network is left to the embedding application: a
//! builder returns a plain [`HttpRequest`], and [`ResyAPIGateway::process_response`]
//! takes the status code and body text that came back.

use vstd::prelude::*;

use crate::text::{
    json_escaped, spec_dec, spec_dec_signed, json_escape, u64_to_string, i64_to_string,
};

verus! {

/// The one error kind of the library: a message-carrying error.
#[derive(Debug)]
pub struct ResyAPIError {
    pub message: String,
}

/// The HTTP method of a request.
#[derive(Debug, Clone, Copy, PartialEq, Eq, Structural)]
pub enum HttpMethod {
    Get,
    Post,
}

/// The payload of a request: none, a JSON document, or a URL-encoded form.
#[derive(Debug)]
pub enum HttpBody {
    Empty,
    Json(String),
    Form(String),
}

/// A fully built HTTP request: everything the transport needs to perform the
/// call.
#[derive(Debug)]
pub struct HttpRequest {
    pub method: HttpMethod,
    pub url: String,
    pub headers: Vec<(String, String)>,
    pub body: HttpBody,
}

/// The gateway: the immutable credential pair. Each method builds the request
/// for one remote operation.
#[derive(Debug)]
pub struct ResyAPIGateway {
    pub api_key: String,
    pub auth_token: String,
}

/// The base URL of the remote service.
pub open spec fn spec_base_url() -> Seq<char> {
    "https://api.resy.com"@
}

fn base_url() -> (r: &'static str)
    ensures
        r@ == spec_base_url(),
{
    "https://api.resy.com"
}

/// The value of the Authorization header: the service API key inside the
/// `ResyAPI api_key="..."` scheme.
pub open spec fn spec_auth_header_value(api_key: Seq<char>) -> Seq<char> {
    "ResyAPI api_key=\""@ + api_key + "\""@
}

/// The two required headers, in order: `Authorization` with the API key, and
/// `x-resy-auth-token` with the user's session auth token.
pub open spec fn headers_match(h: Seq<(String, String)>, g: ResyAPIGateway) -> bool {
    &&& h.len() == 2
    &&& h[0].0@ == "Authorization"@
    &&& h[0].1@ == spec_auth_header_value(g.api_key@)
    &&& h[1].0@ == "x-resy-auth-token"@
    &&& h[1].1@ == g.auth_token@
}

/// Every header list built by the gateway carries both required headers,
/// whichever operation it was built for.
pub proof fn lemma_required_headers(h: Seq<(String, String)>, g: ResyAPIGateway)
    requires
        headers_match(h, g),
    ensures
        exists|i: int|
            0 <= i < h.len() && (#[trigger] h[i]).0@ == "Authorization"@ && h[i].1@
                == spec_auth_header_value(g.api_key@),
        exists|i: int|
            0 <= i < h.len() && (#[trigger] h[i]).0@ == "x-resy-auth-token"@ && h[i].1@
                == g.auth_token@,
{
    assert(h[0].0@ == "Authorization"@ && h[0].1@ == spec_auth_header_value(g.api_key@));
    assert(h[1].0@ == "x-resy-auth-token"@ && h[1].1@ == g.auth_token@);
}

/// Whether an HTTP status code counts as success.
pub open spec fn spec_is_success(status: u16) -> bool {
    200 <= status < 300
}

/// The message of the error produced for a non-success status code.
pub open spec fn spec_status_error_message(status: u16) -> Seq<char> {
    "API request failed: "@ + spec_dec(status as nat)
}

/// The error message for a failed status carries the decimal digits of the
/// status code.
pub proof fn lemma_status_message_contains_code(status: u16)
    ensures
        exists|i: int|
            0 <= i && i + spec_dec(status as nat).len() <= spec_status_error_message(status).len()
                && #[trigger] spec_status_error_message(status).subrange(
                i,
                i + spec_dec(status as nat).len(),
            ) == spec_dec(status as nat),
{
    let prefix = "API request failed: "@;
    let d = spec_dec(status as nat);
    let msg = spec_status_error_message(status);
    assert(msg.subrange(prefix.len() as int, (prefix.len() + d.len()) as int) =~= d);
}

/// What `urlencoding::encode` returns for a given text. The encoding is a
/// function of the text alone.
pub uninterp spec fn url_encoded(s: Seq<char>) -> Seq<char>;

/// A character that percent-encoding passes through unchanged.
pub open spec fn url_safe_char(c: char) -> bool {
    ('0' <= c && c <= '9') || ('A' <= c && c <= 'Z') || ('a' <= c && c <= 'z') || c == '-' || c
        == '.' || c == '_' || c == '~'
}

/// The uppercase hexadecimal character for a value below 16.
pub open spec fn upper_hex_digit_char(d: int) -> char {
    if d < 10 {
        crate::text::digit_char(d)
    } else if d == 10 {
        'A'
    } else if d == 11 {
        'B'
    } else if d == 12 {
        'C'
    } else if d == 13 {
        'D'
    } else if d == 14 {
        'E'
    } else {
        'F'
    }
}

/// How percent-encoding renders one ASCII character: safe characters stand for
/// themselves, every other byte becomes '%' and two uppercase hex digits.
pub open spec fn percent_encoded_char(c: char) -> Seq<char> {
    if url_safe_char(c) {
        seq![c]
    } else {
        seq!['%', upper_hex_digit_char(c as int / 16), upper_hex_digit_char(c as int % 16)]
    }
}

/// Percent-encoding of an ASCII text, character by character.
pub open spec fn percent_encoded_ascii(s: Seq<char>) -> Seq<char>
    decreases s.len(),
{
    if s.len() == 0 {
        Seq::empty()
    } else {
        percent_encoded_char(s[0]) + percent_encoded_ascii(s.drop_first())
    }
}

/// A text whose characters are all ASCII.
pub open spec fn is_ascii_seq(s: Seq<char>) -> bool {
    forall|i: int| 0 <= i < s.len() ==> (#[trigger] s[i] as int) < 128
}

/// Relies on `urlencoding::encode`: it percent-encodes every byte of the UTF-8
/// form of the text except ASCII alphanumerics and '-', '.', '_', '~', using
/// '%' and two uppercase hexadecimal digits; the result depends on the text
/// alone, so on ASCII text it is exactly the character-wise encoding.
#[verifier::external_body]
fn url_encode(s: &str) -> (r: String)
    ensures
        r@ == url_encoded(s@),
        s@.len() == 0 ==> r@.len() == 0,
        is_ascii_seq(s@) ==> r@ == percent_encoded_ascii(s@),
{
    urlencoding::encode(s).into_owned()
}

#[verifier::external_type_specification]
#[verifier::external_body]
pub struct ExValue(serde_json::Value);

#[verifier::external_type_specification]
#[verifier::external_body]
pub struct ExJsonError(serde_json::Error);

/// What `serde_json::from_str` makes of a given text: the parsed JSON value,
/// or nothing where the text is not valid JSON. Parsing is a function of the
/// text alone.
pub uninterp spec fn parsed_json(s: Seq<char>) -> Option<serde_json::Value>;

/// Relies on `serde_json::from_str`: it returns Ok exactly on valid JSON
/// text, and what it parses depends on the text alone.
#[verifier::external_body]
fn parse_json(s: &str) -> (r: Result<serde_json::Value, serde_json::Error>)
    ensures
        r is Ok <==> parsed_json(s@) is Some,
        r is Ok ==> r->Ok_0 == parsed_json(s@)->Some_0,
{
    serde_json::from_str(s)
}

/// Relies on the `Display` form of `serde_json::Error` for the text of a
/// parse error.
#[verifier::external_body]
fn json_error_message(e: &serde_json::Error) -> String {
    e.to_string()
}

/// The URL of the user-profile operation.
pub open spec fn spec_user_url() -> Seq<char> {
    spec_base_url() + "/2/user"@
}

/// The URL of the venue-lookup operation.
pub open spec fn spec_venue_url(venue_slug: Seq<char>, location: Seq<char>) -> Seq<char> {
    spec_base_url() + "/3/venue?url_slug="@ + venue_slug + "&location="@ + location
}

/// The URL of the availability-search operation.
pub open spec fn spec_find_url(
    venue_id: Seq<char>,
    day: Seq<char>,
    party_size: u8,
    lat: i64,
    long: i64,
) -> Seq<char> {
    spec_base_url() + "/4/find?lat="@ + spec_dec_signed(lat as int) + "&long="@ + spec_dec_signed(
        long as int,
    ) + "&day="@ + day + "&party_size="@ + spec_dec(party_size as nat) + "&venue_id="@ + venue_id
}

/// The URL of the reservation-details operation.
pub open spec fn spec_details_url() -> Seq<char> {
    spec_base_url() + "/3/details"@
}

/// The URL of the booking operation.
pub open spec fn spec_book_url() -> Seq<char> {
    spec_base_url() + "/3/book"@
}

/// The JSON body of the reservation-details operation: the commit flag and
/// party size as decimal numbers, the config id and day as escaped JSON
/// string literals, under the four fixed keys.
pub open spec fn spec_details_body(
    commit: u8,
    config_id: Seq<char>,
    day: Seq<char>,
    party_size: u8,
) -> Seq<char> {
    "{\"commit\":"@ + spec_dec(commit as nat) + ",\"config_id\":\""@ + json_escaped(config_id)
        + "\",\"day\":\""@ + json_escaped(day) + "\",\"party_size\":"@ + spec_dec(party_size as nat)
        + "}"@
}

/// The form body of the booking operation: the book token URL-encoded, and the
/// payment method id verbatim inside the embedded JSON fragment.
pub open spec fn spec_book_body(book_token: Seq<char>, payment_id: i32) -> Seq<char> {
    "book_token="@ + url_encoded(book_token) + "&struct_payment_method={\"id\":"@ + spec_dec_signed(
        payment_id as int,
    ) + "}"@
}

/// The booking form body carries the URL-encoded book token right after the
/// `book_token=` key, and the decimal payment method id verbatim inside the
/// embedded JSON fragment.
pub proof fn lemma_book_body_structure(book_token: Seq<char>, payment_id: i32)
    ensures
        spec_book_body(book_token, payment_id).subrange(
            "book_token="@.len() as int,
            ("book_token="@.len() + url_encoded(book_token).len()) as int,
        ) == url_encoded(book_token),
        exists|i: int|
            0 <= i && i + spec_dec_signed(payment_id as int).len() <= spec_book_body(
                book_token,
                payment_id,
            ).len() && #[trigger] spec_book_body(book_token, payment_id).subrange(
                i,
                i + spec_dec_signed(payment_id as int).len(),
            ) == spec_dec_signed(payment_id as int),
{
    let pre = "book_token="@;
    let enc = url_encoded(book_token);
    let mid = "&struct_payment_method={\"id\":"@;
    let d = spec_dec_signed(payment_id as int);
    let body = spec_book_body(book_token, payment_id);
    assert(body.subrange(pre.len() as int, (pre.len() + enc.len()) as int) =~= enc);
    let i = (pre.len() + enc.len() + mid.len()) as int;
    assert(body.subrange(i, i + d.len() as int) =~= d);
}

impl ResyAPIGateway {
    /// A gateway holding the credential pair.
    pub fn new(api_key: String, auth_token: String) -> (r: Self)
        ensures
            r.api_key@ == api_key@,
            r.auth_token@ == auth_token@,
    {
        ResyAPIGateway { api_key, auth_token }
    }

    /// Builds the two headers that every outgoing call carries.
    pub fn setup_headers(&self) -> (h: Vec<(String, String)>)
        ensures
            headers_match(h@, *self),
    {
        let mut value = String::from_str("ResyAPI api_key=\"");
        value.append(self.api_key.as_str());
        value.append("\"");
        let mut h: Vec<(String, String)> = Vec::new();
        h.push((String::from_str("Authorization"), value));
        h.push((String::from_str("x-resy-auth-token"), self.auth_token.clone()));
        h
    }

    /// The request that fetches the current user profile.
    pub fn get_user(&self) -> (r: HttpRequest)
        ensures
            r.method is Get,
            r.url@ == spec_user_url(),
            headers_match(r.headers@, *self),
            r.body is Empty,
    {
        let mut url = String::from_str(base_url());
        url.append("/2/user");
        HttpRequest {
            method: HttpMethod::Get,
            url,
            headers: self.setup_headers(),
            body: HttpBody::Empty,
        }
    }

    /// The request that fetches venue metadata by slug, within a location
    /// filter.
    pub fn get_venue(&self, venue_slug: &str, location: &str) -> (r: HttpRequest)
        ensures
            r.method is Get,
            r.url@ == spec_venue_url(venue_slug@, location@),
            headers_match(r.headers@, *self),
            r.body is Empty,
    {
        let mut url = String::from_str(base_url());
        url.append("/3/venue?url_slug=");
        url.append(venue_slug);
        url.append("&location=");
        url.append(location);
        HttpRequest {
            method: HttpMethod::Get,
            url,
            headers: self.setup_headers(),
            body: HttpBody::Empty,
        }
    }

    /// The request that searches reservation availability by venue id, date,
    /// and party size, around the given coordinates.
    pub fn find_reservation(
        &self,
        venue_id: &str,
        day: &str,
        party_size: u8,
        lat: i64,
        long: i64,
    ) -> (r: HttpRequest)
        ensures
            r.method is Get,
            r.url@ == spec_find_url(venue_id@, day@, party_size, lat, long),
            headers_match(r.headers@, *self),
            r.body is Empty,
    {
        let mut url = String::from_str(base_url());
        url.append("/4/find?lat=");
        url.append(i64_to_string(lat).as_str());
        url.append("&long=");
        url.append(i64_to_string(long).as_str());
        url.append("&day=");
        url.append(day);
        url.append("&party_size=");
        url.append(u64_to_string(party_size as u64).as_str());
        url.append("&venue_id=");
        url.append(venue_id);
        HttpRequest {
            method: HttpMethod::Get,
            url,
            headers: self.setup_headers(),
            body: HttpBody::Empty,
        }
    }

    /// The request that fetches booking details for a reservation
    /// configuration. A commit flag of 0 is a dry run; 1 asks the service for
    /// a book token.
    pub fn get_reservation_details(
        &self,
        commit: u8,
        config_id: &str,
        party_size: u8,
        day: &str,
    ) -> (r: HttpRequest)
        ensures
            r.method is Post,
            r.url@ == spec_details_url(),
            headers_match(r.headers@, *self),
            r.body matches HttpBody::Json(b) && b@ == spec_details_body(
                commit,
                config_id@,
                day@,
                party_size,
            ),
    {
        let mut url = String::from_str(base_url());
        url.append("/3/details");
        let mut body = String::from_str("{\"commit\":");
        body.append(u64_to_string(commit as u64).as_str());
        body.append(",\"config_id\":\"");
        body.append(json_escape(config_id).as_str());
        body.append("\",\"day\":\"");
        body.append(json_escape(day).as_str());
        body.append("\",\"party_size\":");
        body.append(u64_to_string(party_size as u64).as_str());
        body.append("}");
        proof {
            assert(body@ =~= spec_details_body(commit, config_id@, day@, party_size));
        }
        HttpRequest {
            method: HttpMethod::Post,
            url,
            headers: self.setup_headers(),
            body: HttpBody::Json(body),
        }
    }

    /// The request that commits a booking with a previously obtained book
    /// token and a payment method id, as a URL-encoded form.
    pub fn book_reservation(&self, book_token: &str, payment_id: i32) -> (r: HttpRequest)
        ensures
            r.method is Post,
            r.url@ == spec_book_url(),
            headers_match(r.headers@, *self),
            r.body matches HttpBody::Form(b) && b@ == spec_book_body(book_token@, payment_id),
    {
        let mut url = String::from_str(base_url());
        url.append("/3/book");
        let mut body = String::from_str("book_token=");
        body.append(url_encode(book_token).as_str());
        body.append("&struct_payment_method={\"id\":");
        body.append(i64_to_string(payment_id as i64).as_str());
        body.append("}");
        proof {
            assert(body@ =~= spec_book_body(book_token@, payment_id));
        }
        HttpRequest {
            method: HttpMethod::Post,
            url,
            headers: self.setup_headers(),
            body: HttpBody::Form(body),
        }
    }

    /// Normalizes a response: a success status with a valid JSON body gives
    /// the parsed value unchanged; a success status with a malformed body
    /// gives the parse error; any other status gives an error carrying the
    /// status code.
    pub fn process_response(status: u16, body: &str) -> (r: Result<serde_json::Value, ResyAPIError>)
        ensures
            r is Ok <==> spec_is_success(status) && parsed_json(body@) is Some,
            spec_is_success(status) && parsed_json(body@) is Some ==> r->Ok_0 == parsed_json(
                body@,
            )->Some_0,
            !spec_is_success(status) ==> (r matches Err(e) && e.message@
                == spec_status_error_message(status)),
    {
        if 200 <= status && status < 300 {
            match parse_json(body) {
                Ok(v) => Ok(v),
                Err(e) => Err(ResyAPIError { message: json_error_message(&e) }),
            }
        } else {
            let mut message = String::from_str("API request failed: ");
            message.append(u64_to_string(status as u64).as_str());
            Err(ResyAPIError { message })
        }
    }
}

} // verus!
