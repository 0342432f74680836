//! The client facade: holds a venue identifier and the user's credentials,
//! and derives a venue slug from a reservation page URL.
//!
//! Resolving the slug to a remote venue id and checking reservations are not
//! implemented by the facade; only the slug derivation is real logic.

use vstd::prelude::*;

verus! {

/// The user's credential pair held by the client facade.
pub struct UserAuth {
    pub api_key: String,
    pub auth_token: String,
}

/// The client facade: a venue identifier and the user's credentials.
pub struct ResyClient {
    pub venue_id: String,
    pub user_auth: UserAuth,
}

/// The marker that precedes a venue slug in a reservation page URL.
pub open spec fn spec_marker() -> Seq<char> {
    "venues/"@
}

/// Whether the marker occurs in `s` at position `i`.
pub open spec fn marker_at(s: Seq<char>, i: int) -> bool {
    0 <= i && i + spec_marker().len() <= s.len() && s.subrange(i, i + spec_marker().len() as int)
        == spec_marker()
}

/// The first position at or after `from` where the marker occurs.
pub open spec fn spec_find_marker_from(s: Seq<char>, from: int) -> Option<int>
    decreases s.len() - from,
    when 0 <= from <= s.len()
{
    if from >= s.len() {
        None
    } else if marker_at(s, from) {
        Some(from)
    } else {
        spec_find_marker_from(s, from + 1)
    }
}

/// The first position at or after `from` holding a '?'.
pub open spec fn spec_find_qmark_from(s: Seq<char>, from: int) -> Option<int>
    decreases s.len() - from,
    when 0 <= from <= s.len()
{
    if from >= s.len() {
        None
    } else if s[from] == '?' {
        Some(from)
    } else {
        spec_find_qmark_from(s, from + 1)
    }
}

/// What slug extraction returns: the text after the first marker, up to but
/// not including the next '?' (or the end), and the empty text where the URL
/// holds no marker.
pub open spec fn spec_extract_venue_slug(url: Seq<char>) -> Seq<char> {
    match spec_find_marker_from(url, 0) {
        None => Seq::empty(),
        Some(i) => {
            let start = i + spec_marker().len() as int;
            let end = match spec_find_qmark_from(url, start) {
                None => url.len() as int,
                Some(q) => q,
            };
            url.subrange(start, end)
        },
    }
}

/// Whether the marker stands at position `i`, by comparing its characters.
fn marker_matches_at(url: &str, i: usize) -> (r: bool)
    requires
        i + spec_marker().len() <= url@.len(),
        url@.len() <= usize::MAX,
    ensures
        r == marker_at(url@, i as int),
{
    proof {
        reveal_strlit("venues/");
    }
    let r = url.get_char(i) == 'v' && url.get_char(i + 1) == 'e' && url.get_char(i + 2) == 'n'
        && url.get_char(i + 3) == 'u' && url.get_char(i + 4) == 'e' && url.get_char(i + 5) == 's'
        && url.get_char(i + 6) == '/';
    proof {
        let sub = url@.subrange(i as int, i as int + 7);
        assert(sub[0] == url@[i as int]);
        assert(sub[1] == url@[i as int + 1]);
        assert(sub[2] == url@[i as int + 2]);
        assert(sub[3] == url@[i as int + 3]);
        assert(sub[4] == url@[i as int + 4]);
        assert(sub[5] == url@[i as int + 5]);
        assert(sub[6] == url@[i as int + 6]);
        if r {
            assert(sub =~= spec_marker());
        }
    }
    r
}

/// The position of the first marker in the URL, if any.
fn find_marker(url: &str) -> (r: Option<usize>)
    ensures
        r matches Some(i) ==> spec_find_marker_from(url@, 0) == Some(i as int) && i + 7 <= url@.len(),
        r is None ==> spec_find_marker_from(url@, 0) is None,
{
    proof {
        reveal_strlit("venues/");
    }
    let n = url.unicode_len();
    let mut i: usize = 0;
    loop
        invariant
            n == url@.len(),
            i <= n,
            spec_marker().len() == 7,
            spec_find_marker_from(url@, 0) == spec_find_marker_from(url@, i as int),
        decreases n - i,
    {
        if i >= n {
            return None;
        }
        let matches = if n - i < 7 {
            false
        } else {
            marker_matches_at(url, i)
        };
        proof {
            assert(matches == marker_at(url@, i as int));
        }
        if matches {
            return Some(i);
        }
        i = i + 1;
    }
}

/// The position of the first '?' at or after `from`, if any.
fn find_qmark_from(url: &str, from: usize) -> (r: Option<usize>)
    requires
        from <= url@.len(),
    ensures
        r matches Some(q) ==> spec_find_qmark_from(url@, from as int) == Some(q as int) && from <= q
            < url@.len(),
        r is None ==> spec_find_qmark_from(url@, from as int) is None,
{
    let n = url.unicode_len();
    let mut i: usize = from;
    loop
        invariant
            n == url@.len(),
            from <= i <= n,
            spec_find_qmark_from(url@, from as int) == spec_find_qmark_from(url@, i as int),
        decreases n - i,
    {
        if i >= n {
            return None;
        }
        if url.get_char(i) == '?' {
            return Some(i);
        }
        i = i + 1;
    }
}

/// Extracts the venue slug from a reservation page URL: the text after the
/// first "venues/" marker, up to but not including the next '?' or the end of
/// the URL; the empty string where the marker is absent.
pub fn extract_venue_slug(url: &str) -> (r: String)
    ensures
        r@ == spec_extract_venue_slug(url@),
{
    proof {
        reveal_strlit("venues/");
    }
    let n = url.unicode_len();
    match find_marker(url) {
        Some(i) => {
            let start = i + 7;
            let end = match find_qmark_from(url, start) {
                Some(q) => q,
                None => n,
            };
            url.substring_char(start, end).to_owned()
        },
        None => String::new(),
    }
}

/// Where the marker occurs at `p` and nowhere earlier at or after `from`, the
/// scan from `from` finds `p`.
proof fn lemma_find_marker_first(s: Seq<char>, from: int, p: int)
    requires
        0 <= from <= p,
        marker_at(s, p),
        forall|i: int| from <= i < p ==> !marker_at(s, i),
    ensures
        spec_find_marker_from(s, from) == Some(p),
    decreases p - from,
{
    reveal_strlit("venues/");
    if from < p {
        lemma_find_marker_first(s, from + 1, p);
    }
}

/// Where the marker occurs nowhere at or after `from`, the scan finds nothing.
proof fn lemma_find_marker_none(s: Seq<char>, from: int)
    requires
        0 <= from <= s.len(),
        forall|i: int| from <= i ==> !marker_at(s, i),
    ensures
        spec_find_marker_from(s, from) is None,
    decreases s.len() - from,
{
    if from < s.len() {
        lemma_find_marker_none(s, from + 1);
    }
}

/// Where a '?' stands at `p` and nowhere earlier at or after `from`, the scan
/// from `from` finds `p`.
proof fn lemma_find_qmark_first(s: Seq<char>, from: int, p: int)
    requires
        0 <= from <= p < s.len(),
        s[p] == '?',
        forall|i: int| from <= i < p ==> s[i] != '?',
    ensures
        spec_find_qmark_from(s, from) == Some(p),
    decreases p - from,
{
    if from < p {
        lemma_find_qmark_first(s, from + 1, p);
    }
}

/// Where no '?' stands at or after `from`, the scan finds nothing.
proof fn lemma_find_qmark_none(s: Seq<char>, from: int)
    requires
        0 <= from <= s.len(),
        forall|i: int| from <= i < s.len() ==> s[i] != '?',
    ensures
        spec_find_qmark_from(s, from) is None,
    decreases s.len() - from,
{
    if from < s.len() {
        lemma_find_qmark_none(s, from + 1);
    }
}

/// Law: on a URL of the form `prefix + "venues/" + slug + query`, where the
/// marker does not occur before the shown occurrence, the slug holds no '?',
/// and the query is empty or starts with '?', slug extraction returns exactly
/// the slug.
pub proof fn lemma_extract_venue_slug_found(prefix: Seq<char>, slug: Seq<char>, query: Seq<char>)
    requires
        forall|i: int|
            0 <= i < prefix.len() ==> !marker_at(prefix + spec_marker() + slug + query, i),
        forall|i: int| 0 <= i < slug.len() ==> slug[i] != '?',
        query.len() == 0 || query[0] == '?',
    ensures
        spec_extract_venue_slug(prefix + spec_marker() + slug + query) == slug,
{
    reveal_strlit("venues/");
    let url = prefix + spec_marker() + slug + query;
    let p = prefix.len() as int;
    let start = p + 7;
    assert(url.subrange(p, p + 7) =~= spec_marker());
    assert(marker_at(url, p));
    lemma_find_marker_first(url, 0, p);
    if query.len() == 0 {
        assert forall|i: int| start <= i < url.len() implies url[i] != '?' by {
            assert(url[i] == slug[i - start]);
        }
        lemma_find_qmark_none(url, start);
        assert(url.subrange(start, url.len() as int) =~= slug);
    } else {
        let q = start + slug.len() as int;
        assert(url[q] == query[0]);
        assert forall|i: int| start <= i < q implies url[i] != '?' by {
            assert(url[i] == slug[i - start]);
        }
        lemma_find_qmark_first(url, start, q);
        assert(url.subrange(start, q) =~= slug);
    }
}

/// Law: on a URL in which the marker occurs nowhere, slug extraction returns
/// the empty string.
pub proof fn lemma_extract_venue_slug_absent(url: Seq<char>)
    requires
        forall|i: int| !marker_at(url, i),
    ensures
        spec_extract_venue_slug(url) == Seq::<char>::empty(),
{
    lemma_find_marker_none(url, 0);
}

/// The fixed stand-in text stored as the venue id: resolving a slug to a
/// remote venue id is not implemented.
pub open spec fn spec_placeholder_venue_id() -> Seq<char> {
    "Extracted ID based on URL"@
}

impl ResyClient {
    /// A client with no venue resolved and empty credentials.
    pub fn new() -> (r: Self)
        ensures
            r.venue_id@ == Seq::<char>::empty(),
            r.user_auth.api_key@ == Seq::<char>::empty(),
            r.user_auth.auth_token@ == Seq::<char>::empty(),
    {
        ResyClient {
            venue_id: String::new(),
            user_auth: UserAuth { api_key: String::new(), auth_token: String::new() },
        }
    }

    /// Derives the venue slug from a reservation page URL and stores the
    /// stand-in venue id; the credentials are untouched.
    pub fn get_venue_id(&mut self, url: &str)
        ensures
            final(self).venue_id@ == spec_placeholder_venue_id(),
            final(self).user_auth == old(self).user_auth,
    {
        let _venue_slug = extract_venue_slug(url);
        self.venue_id = String::from_str("Extracted ID based on URL");
    }
}

} // verus!
