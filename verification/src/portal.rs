//! Locating the captive portal's login form.
//!
//! When the client is offline, a request for a plain HTTP page comes back as
//! the portal's interception page. A page is recognised by a domain marker
//! substring; the login form's submission URL is the first well-formed
//! `action="..."` attribute whose URL starts with the portal's URL prefix.
//! Discovery fetches the neutral page up to five times and yields the first
//! URL extracted from any of those pages.

use vstd::prelude::*;
use vstd::slice::slice_index_get;

verus! {

/// How many times the neutral page is fetched before discovery gives up.
pub const DISCOVERY_FETCHES: usize = 5;

/// Identifies one captive portal: `marker` is the domain substring whose
/// presence in a page body means the portal intercepted the request, and
/// `prefix` is what the login form's submission URL must start with.
pub struct PortalMatcher {
    pub marker: Vec<u8>,
    pub prefix: Vec<u8>,
}

/// `needle` occurs in `hay` starting at index `i`.
pub open spec fn matches_at(hay: Seq<u8>, needle: Seq<u8>, i: int) -> bool {
    &&& 0 <= i
    &&& i + needle.len() <= hay.len()
    &&& forall|k: int| 0 <= k < needle.len() ==> hay[i + k] == needle[k]
}

/// `needle` occurs somewhere in `hay`.
pub open spec fn contains_seq(hay: Seq<u8>, needle: Seq<u8>) -> bool {
    exists|i: int| matches_at(hay, needle, i)
}

fn matches_at_exec(hay: &[u8], needle: &[u8], i: usize) -> (b: bool)
    requires
        i + needle@.len() <= hay@.len(),
    ensures
        b == matches_at(hay@, needle@, i as int),
{
    let n = needle.len();
    let hn = hay.len();
    let mut k: usize = 0;
    while k < n
        invariant
            n == needle@.len(),
            hn == hay@.len(),
            i + n <= hay@.len(),
            k <= n,
            forall|k2: int| 0 <= k2 < k ==> hay@[i + k2] == needle@[k2],
        decreases n - k,
    {
        if *slice_index_get(hay, i + k) != *slice_index_get(needle, k) {
            assert(hay@[i + k] != needle@[k as int]);
            return false;
        }
        k += 1;
    }
    true
}

/// Whether `hay` holds `needle` as a substring; used for the domain marker.
pub fn contains_bytes(hay: &[u8], needle: &[u8]) -> (b: bool)
    ensures
        b == contains_seq(hay@, needle@),
{
    let n = hay.len();
    let m = needle.len();
    if m > n {
        assert(forall|i: int| !matches_at(hay@, needle@, i));
        return false;
    }
    let mut i: usize = 0;
    while i <= n - m
        invariant
            m <= n,
            n == hay@.len(),
            m == needle@.len(),
            i <= n - m + 1,
            forall|i2: int| 0 <= i2 < i ==> !matches_at(hay@, needle@, i2),
        decreases n - m - i + 1,
    {
        if matches_at_exec(hay, needle, i) {
            return true;
        }
        i += 1;
    }
    assert forall|i2: int| !matches_at(hay@, needle@, i2) by {
        if 0 <= i2 < i as int {
        } else {
        }
    }
    false
}

/// The characters accepted inside the login URL after its fixed prefix:
/// ASCII letters, digits, `.`, `/` and `_`.
pub open spec fn is_url_byte(b: u8) -> bool {
    ||| (97u8 <= b && b <= 122u8)
    ||| (65u8 <= b && b <= 90u8)
    ||| (48u8 <= b && b <= 57u8)
    ||| b == 46u8
    ||| b == 47u8
    ||| b == 95u8
}

fn is_url_byte_exec(b: u8) -> (r: bool)
    ensures
        r == is_url_byte(b),
{
    (97u8 <= b && b <= 122u8) || (65u8 <= b && b <= 90u8) || (48u8 <= b && b <= 57u8) || b == 46u8
        || b == 47u8 || b == 95u8
}

/// Where the maximal run of URL characters starting at `j` ends.
pub open spec fn run_end(hay: Seq<u8>, j: int) -> int
    decreases hay.len() - j,
{
    if 0 <= j && j < hay.len() && is_url_byte(hay[j]) {
        run_end(hay, j + 1)
    } else {
        j
    }
}

proof fn lemma_run_end_unique(hay: Seq<u8>, j: int, e: int)
    requires
        0 <= j <= e <= hay.len(),
        forall|k: int| j <= k < e ==> is_url_byte(hay[k]),
        e < hay.len() ==> !is_url_byte(hay[e]),
    ensures
        run_end(hay, j) == e,
    decreases e - j,
{
    if j < e {
        lemma_run_end_unique(hay, j + 1, e);
    }
}

/// The fixed lead-in of the pattern: the text `action="` followed by the
/// portal's URL prefix.
pub open spec fn action_pat(prefix: Seq<u8>) -> Seq<u8> {
    seq![97u8, 99u8, 116u8, 105u8, 111u8, 110u8, 61u8, 34u8] + prefix
}

/// The full pattern matches at `i`: `action="`, the prefix, then at least one
/// URL character, then a closing quote. The run of URL characters is maximal,
/// so the quote must stand directly after it.
pub open spec fn action_match_at(hay: Seq<u8>, prefix: Seq<u8>, i: int) -> bool {
    let pat = action_pat(prefix);
    let j = i + pat.len();
    &&& matches_at(hay, pat, i)
    &&& run_end(hay, j) > j
    &&& run_end(hay, j) < hay.len()
    &&& hay[run_end(hay, j)] == 34u8
}

/// The URL captured by a match at `i`: the prefix together with the run of
/// URL characters that follows it.
pub open spec fn url_at(hay: Seq<u8>, prefix: Seq<u8>, i: int) -> Seq<u8> {
    let j = i + action_pat(prefix).len();
    prefix + hay.subrange(j, run_end(hay, j))
}

/// The position of the leftmost pattern match at or after `i`.
pub open spec fn first_action_match_from(hay: Seq<u8>, prefix: Seq<u8>, i: int) -> Option<int>
    decreases hay.len() - i,
{
    if i < 0 || i >= hay.len() {
        None
    } else if action_match_at(hay, prefix, i) {
        Some(i)
    } else {
        first_action_match_from(hay, prefix, i + 1)
    }
}

/// What extraction from one page body yields: the URL of the leftmost
/// pattern match, if any.
pub open spec fn spec_find_action_url(hay: Seq<u8>, prefix: Seq<u8>) -> Option<Seq<u8>> {
    match first_action_match_from(hay, prefix, 0) {
        Some(i) => Some(url_at(hay, prefix, i)),
        None => None,
    }
}

proof fn lemma_no_match_tail(hay: Seq<u8>, prefix: Seq<u8>, i: int)
    requires
        forall|i2: int| i <= i2 ==> !action_match_at(hay, prefix, i2),
    ensures
        first_action_match_from(hay, prefix, i) is None,
    decreases hay.len() - i,
{
    if 0 <= i && i < hay.len() {
        lemma_no_match_tail(hay, prefix, i + 1);
    }
}

/// Extracts from `body` the login URL of the leftmost `action="..."`
/// attribute whose URL starts with `prefix`: the prefix must be followed by
/// at least one URL character and then a closing quote, and the returned URL
/// is the prefix plus that maximal character run.
pub fn find_action_url(body: &[u8], prefix: &[u8]) -> (r: Option<Vec<u8>>)
    ensures
        r matches Some(u) ==> spec_find_action_url(body@, prefix@) == Some(u@),
        r is None ==> spec_find_action_url(body@, prefix@) is None,
{
    let ghost hay = body@;
    let ghost p = prefix@;

    // Build the executable pattern and relate it to `action_pat`.
    let mut pat: Vec<u8> = Vec::new();
    pat.push(97u8);
    pat.push(99u8);
    pat.push(116u8);
    pat.push(105u8);
    pat.push(111u8);
    pat.push(110u8);
    pat.push(61u8);
    pat.push(34u8);
    assert(pat@ =~= seq![97u8, 99u8, 116u8, 105u8, 111u8, 110u8, 61u8, 34u8]);
    let mut t: usize = 0;
    while t < prefix.len()
        invariant
            t <= p.len(),
            p == prefix@,
            pat@ == seq![97u8, 99u8, 116u8, 105u8, 111u8, 110u8, 61u8, 34u8] + p.subrange(0, t as int),
        decreases p.len() - t,
    {
        let b = *slice_index_get(prefix, t);
        pat.push(b);
        assert((seq![97u8, 99u8, 116u8, 105u8, 111u8, 110u8, 61u8, 34u8] + p.subrange(0, t as int)).push(
            p[t as int],
        ) =~= seq![97u8, 99u8, 116u8, 105u8, 111u8, 110u8, 61u8, 34u8] + p.subrange(0, t as int + 1));
        t += 1;
    }
    assert(p.subrange(0, p.len() as int) =~= p);
    assert(pat@ == action_pat(p));

    let n = body.len();
    let plen = pat.len();
    if plen > n {
        proof {
            assert forall|i2: int| 0 <= i2 implies !action_match_at(hay, p, i2) by {
                assert(!matches_at(hay, action_pat(p), i2));
            }
            lemma_no_match_tail(hay, p, 0);
        }
        return None;
    }

    let mut i: usize = 0;
    while i <= n - plen
        invariant
            plen == action_pat(p).len(),
            plen <= n,
            n == hay.len(),
            hay == body@,
            p == prefix@,
            pat@ == action_pat(p),
            i <= n - plen + 1,
            first_action_match_from(hay, p, 0) == first_action_match_from(hay, p, i as int),
        decreases n - plen - i + 1,
    {
        if matches_at_exec(body, pat.as_slice(), i) {
            let j = i + plen;
            let mut e = j;
            while e < n && is_url_byte_exec(*slice_index_get(body, e))
                invariant
                    j <= e <= n,
                    n == hay.len(),
                    hay == body@,
                    forall|k: int| j <= k < e ==> is_url_byte(hay[k]),
                decreases n - e,
            {
                e += 1;
            }
            proof {
                lemma_run_end_unique(hay, j as int, e as int);
            }
            if e > j && e < n && *slice_index_get(body, e) == 34u8 {
                // A full match at i: build the URL, prefix plus the run.
                assert(action_match_at(hay, p, i as int));
                let mut url: Vec<u8> = Vec::new();
                let mut t2: usize = 0;
                while t2 < prefix.len()
                    invariant
                        t2 <= p.len(),
                        p == prefix@,
                        url@ == p.subrange(0, t2 as int),
                    decreases p.len() - t2,
                {
                    url.push(*slice_index_get(prefix, t2));
                    assert(p.subrange(0, t2 as int).push(p[t2 as int]) =~= p.subrange(
                        0,
                        t2 as int + 1,
                    ));
                    t2 += 1;
                }
                assert(p.subrange(0, p.len() as int) =~= p);
                let mut t3: usize = j;
                while t3 < e
                    invariant
                        j <= t3 <= e <= n,
                        n == hay.len(),
                        hay == body@,
                        url@ == p + hay.subrange(j as int, t3 as int),
                    decreases e - t3,
                {
                    url.push(*slice_index_get(body, t3));
                    assert((p + hay.subrange(j as int, t3 as int)).push(hay[t3 as int]) =~= p
                        + hay.subrange(j as int, t3 as int + 1));
                    t3 += 1;
                }
                proof {
                    assert(p + hay.subrange(j as int, e as int) =~= url_at(hay, p, i as int));
                    assert(first_action_match_from(hay, p, i as int) == Some(i as int));
                }
                return Some(url);
            }
            // The lead-in matched at i but no quoted run follows: no match at i.
            assert(!action_match_at(hay, p, i as int));
        } else {
            assert(!action_match_at(hay, p, i as int));
        }
        assert(first_action_match_from(hay, p, i as int) == first_action_match_from(
            hay,
            p,
            i as int + 1,
        ));
        i += 1;
    }
    proof {
        assert forall|i2: int| i as int <= i2 implies !action_match_at(hay, p, i2) by {
            assert(!matches_at(hay, action_pat(p), i2));
        }
        lemma_no_match_tail(hay, p, i as int);
    }
    None
}

/// What one fetched page yields: a login URL only if the page carries the
/// portal's domain marker and holds a matching `action` attribute.
pub open spec fn spec_extract_login_url(
    marker: Seq<u8>,
    prefix: Seq<u8>,
    body: Seq<u8>,
) -> Option<Seq<u8>> {
    if contains_seq(body, marker) {
        spec_find_action_url(body, prefix)
    } else {
        None
    }
}

/// Scans one fetched page: if the portal's domain marker occurs in the body,
/// extracts the first matching login URL; a page without the marker, or a
/// marked page without a matching attribute, yields nothing.
pub fn extract_login_url(m: &PortalMatcher, body: &[u8]) -> (r: Option<Vec<u8>>)
    ensures
        r matches Some(u) ==> spec_extract_login_url(m.marker@, m.prefix@, body@) == Some(u@),
        r is None ==> spec_extract_login_url(m.marker@, m.prefix@, body@) is None,
{
    if contains_bytes(body, m.marker.as_slice()) {
        find_action_url(body, m.prefix.as_slice())
    } else {
        None
    }
}

/// The discovery result over the fetched pages, examining pages `i` and
/// onward within the budget of five.
pub open spec fn spec_discover_from(
    marker: Seq<u8>,
    prefix: Seq<u8>,
    bodies: Seq<Seq<u8>>,
    i: int,
) -> Option<Seq<u8>>
    decreases 5 - i,
{
    if i < 0 || i >= 5 || i >= bodies.len() {
        None
    } else {
        match spec_extract_login_url(marker, prefix, bodies[i]) {
            Some(u) => Some(u),
            None => spec_discover_from(marker, prefix, bodies, i + 1),
        }
    }
}

/// Discovery over a transcript of fetched pages: the first of the five
/// pages that yields a login URL decides the result, and the result is
/// `None` exactly when none of the five pages yields one.
pub fn discover_login_url(m: &PortalMatcher, bodies: &Vec<Vec<u8>>) -> (r: Option<Vec<u8>>)
    requires
        bodies@.len() >= DISCOVERY_FETCHES,
    ensures
        r matches Some(u) ==> spec_discover_from(m.marker@, m.prefix@, bodies.deep_view(), 0)
            == Some(u@),
        r is None ==> spec_discover_from(m.marker@, m.prefix@, bodies.deep_view(), 0) is None,
{
    let ghost bs = bodies.deep_view();
    assert(bs.len() == bodies@.len());
    let mut i: usize = 0;
    while i < DISCOVERY_FETCHES
        invariant
            bs == bodies.deep_view(),
            bs.len() >= DISCOVERY_FETCHES,
            i <= DISCOVERY_FETCHES,
            spec_discover_from(m.marker@, m.prefix@, bs, 0) == spec_discover_from(
                m.marker@,
                m.prefix@,
                bs,
                i as int,
            ),
        decreases DISCOVERY_FETCHES - i,
    {
        assert(bs[i as int] == bodies@[i as int]@);
        match extract_login_url(m, bodies[i].as_slice()) {
            Some(u) => {
                return Some(u);
            },
            None => {
                i += 1;
            },
        }
    }
    None
}

/// One page that yields a URL decides discovery: if the pages before `i`
/// yield nothing and page `i` yields `u`, discovery yields `u`.
pub proof fn lemma_discovery_first_match(
    marker: Seq<u8>,
    prefix: Seq<u8>,
    bodies: Seq<Seq<u8>>,
    i: int,
)
    requires
        bodies.len() >= 5,
        0 <= i < 5,
        spec_extract_login_url(marker, prefix, bodies[i]) is Some,
        forall|i2: int| 0 <= i2 < i ==> spec_extract_login_url(marker, prefix, bodies[i2]) is None,
    ensures
        spec_discover_from(marker, prefix, bodies, 0) == spec_extract_login_url(
            marker,
            prefix,
            bodies[i],
        ),
{
    lemma_discovery_first_match_from(marker, prefix, bodies, 0, i);
}

proof fn lemma_discovery_first_match_from(
    marker: Seq<u8>,
    prefix: Seq<u8>,
    bodies: Seq<Seq<u8>>,
    lo: int,
    i: int,
)
    requires
        bodies.len() >= 5,
        0 <= lo <= i < 5,
        spec_extract_login_url(marker, prefix, bodies[i]) is Some,
        forall|i2: int| lo <= i2 < i ==> spec_extract_login_url(marker, prefix, bodies[i2]) is None,
    ensures
        spec_discover_from(marker, prefix, bodies, lo) == spec_extract_login_url(
            marker,
            prefix,
            bodies[i],
        ),
    decreases i - lo,
{
    if lo < i {
        lemma_discovery_first_match_from(marker, prefix, bodies, lo + 1, i);
    }
}

/// Discovery fails exactly when every one of the five fetched pages yields
/// nothing.
pub proof fn lemma_discovery_not_found(marker: Seq<u8>, prefix: Seq<u8>, bodies: Seq<Seq<u8>>)
    requires
        bodies.len() >= 5,
    ensures
        (spec_discover_from(marker, prefix, bodies, 0) is None) <==> (forall|i: int|
            0 <= i < 5 ==> spec_extract_login_url(marker, prefix, bodies[i]) is None),
{
    lemma_discovery_not_found_from(marker, prefix, bodies, 0);
}

proof fn lemma_discovery_not_found_from(
    marker: Seq<u8>,
    prefix: Seq<u8>,
    bodies: Seq<Seq<u8>>,
    lo: int,
)
    requires
        bodies.len() >= 5,
        0 <= lo <= 5,
    ensures
        (spec_discover_from(marker, prefix, bodies, lo) is None) <==> (forall|i: int|
            lo <= i < 5 ==> spec_extract_login_url(marker, prefix, bodies[i]) is None),
    decreases 5 - lo,
{
    if lo < 5 {
        lemma_discovery_not_found_from(marker, prefix, bodies, lo + 1);
    }
}

} // verus!
