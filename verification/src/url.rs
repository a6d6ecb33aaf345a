//! Build-code links: percent-decoding, redirect unwrapping and the mapping
//! from a share-site page to its raw download address.

use vstd::prelude::*;
use vstd::utf8::*;
use crate::share::export_site_spec;
use crate::text::{
    chars_of, contains, contains_seq, has_prefix, hex_byte_value, parse_hex_byte, starts_with,
    str_from_utf8, string_from_utf8_lossy, string_of, strip_char_ends, strip_ends, sub_chars, trim,
    trimmed, utf8_lossy, trim_start, trim_end, is_white_space, strip_char_start, strip_char_end,
};

verus! {


const PLUS: u8 = 43;
const PERCENT: u8 = 37;
const SPACE: u8 = 32;

/// The byte spelled by the hexadecimal pair `b1 b2`, read as the text they
/// encode (empty where they are not UTF-8).
pub open spec fn pair_value(b1: u8, b2: u8) -> Option<u8> {
    let pair = seq![b1, b2];
    hex_byte_value(
        if valid_utf8(pair) {
            decode_utf8(pair)
        } else {
            seq![]
        },
    )
}

/// Percent-decoding of a query value: `+` becomes a space and `%XX` the byte
/// `XX`; a `%` not followed by two more bytes forming a hexadecimal byte stays.
pub open spec fn percent_decode(b: Seq<u8>) -> Seq<u8>
    decreases b.len(),
{
    if b.len() == 0 {
        seq![]
    } else if b[0] == '+' as u8 {
        seq![' ' as u8] + percent_decode(b.skip(1))
    } else if b[0] == '%' as u8 && b.len() > 2 && pair_value(b[1], b[2]) is Some {
        seq![pair_value(b[1], b[2])->Some_0] + percent_decode(b.skip(3))
    } else {
        seq![b[0]] + percent_decode(b.skip(1))
    }
}

/// Bytes read back as text: UTF-8 is decoded as it is; other bytes are read
/// as `String::from_utf8_lossy` reads them.
pub open spec fn lossy_text(b: Seq<u8>) -> Seq<char> {
    if valid_utf8(b) {
        decode_utf8(b)
    } else {
        utf8_lossy(b)
    }
}

/// `s` percent-decoded and read back as text.
pub open spec fn url_decoded(s: Seq<char>) -> Seq<char> {
    lossy_text(percent_decode(encode_utf8(s)))
}

proof fn lemma_decode_step(b: Seq<u8>, i: int)
    requires
        0 <= i < b.len(),
    ensures
        b[i] == '+' as u8 ==> percent_decode(b.skip(i)) == seq![' ' as u8] + percent_decode(
            b.skip(i + 1),
        ),
        b[i] != '+' as u8 && b[i] == '%' as u8 && b.len() - i > 2 && pair_value(b[i + 1], b[i + 2])
            is Some ==> percent_decode(b.skip(i)) == seq![pair_value(b[i + 1], b[i + 2])->Some_0]
            + percent_decode(b.skip(i + 3)),
        b[i] != '+' as u8 && !(b[i] == '%' as u8 && b.len() - i > 2 && pair_value(
            b[i + 1],
            b[i + 2],
        ) is Some) ==> percent_decode(b.skip(i)) == seq![b[i]] + percent_decode(b.skip(i + 1)),
{
    let rest = b.skip(i);
    assert(rest.skip(1) == b.skip(i + 1));
    if b.len() - i > 2 {
        assert(rest.skip(3) == b.skip(i + 3));
        assert(rest[1] == b[i + 1] && rest[2] == b[i + 2]);
    }
}

fn percent_decode_bytes(bytes: &[u8]) -> (out: Vec<u8>)
    ensures
        out@ == percent_decode(bytes@),
{
    let n = bytes.len();
    let mut out: Vec<u8> = Vec::new();
    let mut i: usize = 0;
    assert(bytes@.skip(0) == bytes@);
    while i < n
        invariant
            i <= n == bytes@.len(),
            percent_decode(bytes@) == out@ + percent_decode(bytes@.skip(i as int)),
        decreases n - i,
    {
        proof {
            lemma_decode_step(bytes@, i as int);
        }
        if bytes[i] == PLUS {
            out.push(SPACE);
            i = i + 1;
        } else if bytes[i] == PERCENT && n - i > 2 {
            let pair = &bytes[i + 1..i + 3];
            assert(pair@ == seq![bytes@[i + 1], bytes@[i + 2]]);
            let value = match str_from_utf8(pair) {
                Some(t) => parse_hex_byte(t),
                None => None,
            };
            match value {
                Some(byte) => {
                    out.push(byte);
                    i = i + 3;
                },
                None => {
                    out.push(PERCENT);
                    i = i + 1;
                },
            }
        } else {
            out.push(bytes[i]);
            i = i + 1;
        }
    }
    assert(bytes@.skip(n as int) == Seq::<u8>::empty());
    out
}

/// Percent-decode a URL query value ('+' becomes space, %XX becomes a byte).
pub fn url_decode(s: &str) -> (r: String)
    ensures
        r@ == url_decoded(s@),
{
    let decoded = percent_decode_bytes(s.as_bytes());
    string_from_utf8_lossy(decoded.as_slice())
}

/// A separator of query parts.
pub open spec fn is_query_sep(c: char) -> bool {
    c == '?' || c == '&'
}

/// The position of the first query separator in `s`, or its length.
pub open spec fn query_sep_index(s: Seq<char>) -> nat
    decreases s.len(),
{
    if s.len() == 0 || is_query_sep(s[0]) {
        0
    } else {
        1 + query_sep_index(s.skip(1))
    }
}

/// The value of the first `?`/`&`-separated part of `s` that begins `q=`.
pub open spec fn q_value(s: Seq<char>) -> Option<Seq<char>>
    decreases s.len(),
{
    let k = query_sep_index(s);
    let part = s.take(k as int);
    if has_prefix(part, "q="@) {
        Some(part.skip("q="@.len() as int))
    } else if k >= s.len() {
        None
    } else {
        q_value(s.skip(k as int + 1))
    }
}

/// What `unwrap_redirect_url` makes of `input`.
pub open spec fn unwrapped(input: Seq<char>) -> Seq<char> {
    let t = strip_char_ends(trimmed(input), '?');
    if (contains_seq(t, "youtube.com/redirect?"@) || contains_seq(t, "google.com/url?"@)) && q_value(
        t,
    ) is Some {
        url_decoded(q_value(t)->Some_0)
    } else {
        t
    }
}

proof fn lemma_query_sep_index(s: Seq<char>, j: int)
    requires
        0 <= j <= s.len(),
        forall|k: int| 0 <= k < j ==> !is_query_sep(#[trigger] s[k]),
        j == s.len() || is_query_sep(s[j]),
    ensures
        query_sep_index(s) == j,
    decreases j,
{
    if j > 0 {
        assert forall|k: int| 0 <= k < j - 1 implies !is_query_sep(#[trigger] s.skip(1)[k]) by {
            assert(s.skip(1)[k] == s[k + 1]);
        }
        if j < s.len() {
            assert(s.skip(1)[j - 1] == s[j]);
        }
        lemma_query_sep_index(s.skip(1), j - 1);
    }
}

fn is_query_separator(c: char) -> (b: bool)
    ensures
        b == is_query_sep(c),
{
    c == '?' || c == '&'
}

/// The value of the first query part of `s` that begins `q=`.
fn find_q_value(s: &[char]) -> (r: Option<Vec<char>>)
    ensures
        r is Some <==> q_value(s@) is Some,
        r matches Some(v) ==> v@ == q_value(s@)->Some_0,
{
    let n = s.len();
    let q = chars_of("q=");
    let mut st: usize = 0;
    assert(s@.skip(0) == s@);
    loop
        invariant
            st <= n == s@.len(),
            q@ == "q="@,
            q_value(s@) == q_value(s@.skip(st as int)),
        decreases n - st,
    {
        let ghost rest = s@.skip(st as int);
        let mut j = st;
        while j < n && !is_query_separator(s[j])
            invariant
                st <= j <= n == s@.len(),
                forall|k: int| st <= k < j ==> !is_query_sep(#[trigger] s@[k]),
            decreases n - j,
        {
            j = j + 1;
        }
        proof {
            assert forall|k: int| 0 <= k < j - st implies !is_query_sep(#[trigger] rest[k]) by {
                assert(rest[k] == s@[st + k]);
            }
            if j < n {
                assert(rest[j - st] == s@[j as int]);
            }
            lemma_query_sep_index(rest, j - st);
        }
        let part = sub_chars(s, st, j);
        assert(part@ == rest.take(j - st));
        if starts_with(&part, &q) {
            let v = sub_chars(&part, q.len(), part.len());
            return Some(v);
        }
        if j >= n {
            return None;
        }
        assert(rest.skip(j - st + 1) == s@.skip(j + 1));
        st = j + 1;
    }
}

/// Unwrap youtube.com/redirect and google.com/url indirection to the q=
/// target (a textual unwrap; no HTTP involved).
pub fn unwrap_redirect_url(input: &str) -> (r: String)
    ensures
        r@ == unwrapped(input@),
{
    let chars = chars_of(input);
    let t0 = trim(&chars);
    let t = strip_ends(&t0, '?');
    let yt = chars_of("youtube.com/redirect?");
    let gg = chars_of("google.com/url?");
    if contains(&t, &yt) || contains(&t, &gg) {
        if let Some(q) = find_q_value(&t) {
            let qs = string_of(&q);
            return url_decode(qs.as_str());
        }
    }
    string_of(&t)
}

/// The number of build share sites whose pages `resolve_download_url` knows.
pub const BUILD_SITE_COUNT: usize = 9;

/// The page address (after the protocol) that identifies share site `i`.
pub open spec fn site_pattern(i: int) -> Seq<char> {
    if i == 0 {
        "pobb.in/"@
    } else if i == 1 {
        "poe.ninja/poe1/pob/"@
    } else if i == 2 {
        "poe.ninja/pob/"@
    } else if i == 3 {
        "pastebin.com/"@
    } else if i == 4 {
        "pastebinp.com/"@
    } else if i == 5 {
        "rentry.co/"@
    } else if i == 6 {
        "maxroll.gg/poe/pob/"@
    } else if i == 7 {
        "poedb.tw/pob/"@
    } else {
        "pob.codes/b/"@
    }
}

/// The raw-download address of share site `i`, before the build's id.
pub open spec fn site_download_prefix(i: int) -> Seq<char> {
    if i == 0 {
        "https://pobb.in/pob/"@
    } else if i == 1 || i == 2 {
        "https://poe.ninja/poe1/pob/raw/"@
    } else if i == 3 {
        "https://pastebin.com/raw/"@
    } else if i == 4 {
        "https://pastebinp.com/raw/"@
    } else if i == 5 {
        "https://rentry.co/paste/"@
    } else if i == 6 {
        "https://maxroll.gg/poe/api/pob/"@
    } else if i == 7 {
        "https://poedb.tw/pob/"@
    } else {
        "https://api.pob.codes/"@
    }
}

/// Whether share site `i` serves the raw build code under `/raw` after the id
/// (rentry.co, poedb.tw and pob.codes do).
pub open spec fn site_raw_suffix(i: int) -> bool {
    i == 5 || i == 7 || i == 8
}

/// A build share site: how its pages are recognised and where the raw build
/// code is downloaded from.
pub struct BuildSite {
    pub pattern: &'static str,
    pub download_prefix: &'static str,
    pub raw_suffix: bool,
}

/// Share site `i`, in the order in which page addresses are matched.
pub fn build_site(i: usize) -> (s: BuildSite)
    requires
        i < BUILD_SITE_COUNT,
    ensures
        s.pattern@ == site_pattern(i as int),
        s.download_prefix@ == site_download_prefix(i as int),
        s.raw_suffix == site_raw_suffix(i as int),
{
    if i == 0 {
        BuildSite { pattern: "pobb.in/", download_prefix: "https://pobb.in/pob/", raw_suffix: false }
    } else if i == 1 {
        BuildSite {
            pattern: "poe.ninja/poe1/pob/",
            download_prefix: "https://poe.ninja/poe1/pob/raw/",
            raw_suffix: false,
        }
    } else if i == 2 {
        BuildSite {
            pattern: "poe.ninja/pob/",
            download_prefix: "https://poe.ninja/poe1/pob/raw/",
            raw_suffix: false,
        }
    } else if i == 3 {
        BuildSite {
            pattern: "pastebin.com/",
            download_prefix: "https://pastebin.com/raw/",
            raw_suffix: false,
        }
    } else if i == 4 {
        BuildSite {
            pattern: "pastebinp.com/",
            download_prefix: "https://pastebinp.com/raw/",
            raw_suffix: false,
        }
    } else if i == 5 {
        BuildSite {
            pattern: "rentry.co/",
            download_prefix: "https://rentry.co/paste/",
            raw_suffix: true,
        }
    } else if i == 6 {
        BuildSite {
            pattern: "maxroll.gg/poe/pob/",
            download_prefix: "https://maxroll.gg/poe/api/pob/",
            raw_suffix: false,
        }
    } else if i == 7 {
        BuildSite {
            pattern: "poedb.tw/pob/",
            download_prefix: "https://poedb.tw/pob/",
            raw_suffix: true,
        }
    } else {
        BuildSite {
            pattern: "pob.codes/b/",
            download_prefix: "https://api.pob.codes/",
            raw_suffix: true,
        }
    }
}

/// Why a link could not be turned into a download address.
#[derive(Clone, Copy, PartialEq, Eq, Structural, Debug)]
pub enum ResolveError {
    /// The page address names a known site but no build id.
    NoBuildId,
    /// The page address belongs to no known share site.
    UnrecognizedUrl,
}

impl ResolveError {
    /// The message shown to the user.
    pub fn message(&self) -> (m: String)
        ensures
            m@ == match self {
                ResolveError::NoBuildId => "No build ID found in URL"@,
                ResolveError::UnrecognizedUrl =>
                    "Unrecognized URL. Supported sites: pobb.in, pastebin.com, poe.ninja, maxroll.gg, rentry.co, poedb.tw, pob.codes"@,
            },
    {
        let mut m = String::new();
        match self {
            ResolveError::NoBuildId => m.push_str("No build ID found in URL"),
            ResolveError::UnrecognizedUrl => m.push_str(
                "Unrecognized URL. Supported sites: pobb.in, pastebin.com, poe.ninja, maxroll.gg, rentry.co, poedb.tw, pob.codes",
            ),
        }
        m
    }
}

/// The first share site, from `i` on, whose pattern begins `path`.
pub open spec fn first_site_from(path: Seq<char>, i: int) -> Option<int>
    decreases BUILD_SITE_COUNT - i,
{
    if i < 0 || i >= BUILD_SITE_COUNT {
        None
    } else if has_prefix(path, site_pattern(i)) {
        Some(i)
    } else {
        first_site_from(path, i + 1)
    }
}

/// A separator that ends the id in a share-site address.
pub open spec fn is_id_end(c: char) -> bool {
    c == '/' || c == '?' || c == '#'
}

/// The position of the first id separator in `s`, or its length.
pub open spec fn id_end_index(s: Seq<char>) -> nat
    decreases s.len(),
{
    if s.len() == 0 || is_id_end(s[0]) {
        0
    } else {
        1 + id_end_index(s.skip(1))
    }
}

/// The part of `url` that is matched against the share-site patterns: the
/// trimmed link after `https://`, else the link after `http://`, else the link.
pub open spec fn download_path(url: Seq<char>) -> Seq<char> {
    let t = trimmed(url);
    if has_prefix(t, "https://"@) {
        t.skip("https://"@.len() as int)
    } else if has_prefix(url, "http://"@) {
        url.skip("http://"@.len() as int)
    } else {
        url
    }
}

/// The raw download address of the build a share-site link points to.
pub open spec fn resolved(url: Seq<char>) -> Result<Seq<char>, ResolveError> {
    let path = download_path(url);
    match first_site_from(path, 0) {
        None => Err(ResolveError::UnrecognizedUrl),
        Some(i) => {
            let rest = path.skip(site_pattern(i).len() as int);
            let id = trimmed(rest.take(id_end_index(rest) as int));
            if id.len() == 0 {
                Err(ResolveError::NoBuildId)
            } else {
                Ok(
                    site_download_prefix(i) + id + if site_raw_suffix(i) {
                        "/raw"@
                    } else {
                        seq![]
                    },
                )
            }
        },
    }
}

proof fn lemma_id_end_index(s: Seq<char>, j: int)
    requires
        0 <= j <= s.len(),
        forall|k: int| 0 <= k < j ==> !is_id_end(#[trigger] s[k]),
        j == s.len() || is_id_end(s[j]),
    ensures
        id_end_index(s) == j,
    decreases j,
{
    if j > 0 {
        assert forall|k: int| 0 <= k < j - 1 implies !is_id_end(#[trigger] s.skip(1)[k]) by {
            assert(s.skip(1)[k] == s[k + 1]);
        }
        if j < s.len() {
            assert(s.skip(1)[j - 1] == s[j]);
        }
        lemma_id_end_index(s.skip(1), j - 1);
    }
}

fn is_id_separator(c: char) -> (b: bool)
    ensures
        b == is_id_end(c),
{
    c == '/' || c == '?' || c == '#'
}

/// Resolve a user-provided URL to the raw download URL for the build code.
pub fn resolve_download_url(url: &str) -> (r: Result<String, ResolveError>)
    ensures
        match r {
            Ok(s) => resolved(url@) == Ok::<Seq<char>, ResolveError>(s@),
            Err(e) => resolved(url@) == Err::<Seq<char>, ResolveError>(e),
        },
{
    let chars = chars_of(url);
    let t = trim(&chars);
    let https = chars_of("https://");
    let http = chars_of("http://");
    let path = if starts_with(&t, &https) {
        sub_chars(&t, https.len(), t.len())
    } else if starts_with(&chars, &http) {
        sub_chars(&chars, http.len(), chars.len())
    } else {
        sub_chars(&chars, 0, chars.len())
    };
    assert(path@ == download_path(url@));
    let mut i: usize = 0;
    while i < BUILD_SITE_COUNT
        invariant
            i <= BUILD_SITE_COUNT,
            path@ == download_path(url@),
            first_site_from(path@, 0) == first_site_from(path@, i as int),
        decreases BUILD_SITE_COUNT - i,
    {
        let site = build_site(i);
        let pattern = chars_of(site.pattern);
        if starts_with(&path, &pattern) {
            let rest = sub_chars(&path, pattern.len(), path.len());
            let n = rest.len();
            let mut j: usize = 0;
            while j < n && !is_id_separator(rest[j])
                invariant
                    j <= n == rest@.len(),
                    forall|k: int| 0 <= k < j ==> !is_id_end(#[trigger] rest@[k]),
                decreases n - j,
            {
                j = j + 1;
            }
            proof {
                lemma_id_end_index(rest@, j as int);
            }
            let segment = sub_chars(&rest, 0, j);
            assert(segment@ == rest@.take(j as int));
            let id = trim(&segment);
            if id.len() == 0 {
                return Err(ResolveError::NoBuildId);
            }
            let mut out = String::new();
            out.push_str(site.download_prefix);
            let ids = string_of(&id);
            out.push_str(ids.as_str());
            if site.raw_suffix {
                out.push_str("/raw");
            } else {
                assert(out@ + Seq::<char>::empty() == out@);
            }
            return Ok(out);
        }
        i = i + 1;
    }
    Err(ResolveError::UnrecognizedUrl)
}

/// Whether `input` reads as a link rather than a raw build code.
pub open spec fn looks_like_link(input: Seq<char>) -> bool {
    let t = trimmed(input);
    has_prefix(t, "http://"@) || has_prefix(t, "https://"@) || exists|i: int|
        0 <= i < BUILD_SITE_COUNT && has_prefix(t, #[trigger] site_pattern(i))
}

/// Check if input looks like a URL rather than a raw build code.
pub fn looks_like_url(input: &str) -> (b: bool)
    ensures
        b == looks_like_link(input@),
{
    let chars = chars_of(input);
    let t = trim(&chars);
    if starts_with(&t, &chars_of("http://")) || starts_with(&t, &chars_of("https://")) {
        return true;
    }
    let mut i: usize = 0;
    while i < BUILD_SITE_COUNT
        invariant
            i <= BUILD_SITE_COUNT,
            t@ == trimmed(input@),
            forall|k: int| 0 <= k < i ==> !has_prefix(t@, #[trigger] site_pattern(k)),
        decreases BUILD_SITE_COUNT - i,
    {
        let site = build_site(i);
        if starts_with(&t, &chars_of(site.pattern)) {
            return true;
        }
        i = i + 1;
    }
    false
}

proof fn lemma_trim_end_keeps(s: Seq<char>, k: int)
    requires
        0 <= k < s.len(),
        !is_white_space(s[k]),
    ensures
        k < trim_end(s).len() <= s.len(),
        trim_end(s) == s.take(trim_end(s).len() as int),
    decreases s.len(),
{
    if is_white_space(s.last()) {
        assert(s.drop_last()[k] == s[k]);
        lemma_trim_end_keeps(s.drop_last(), k);
        let m = trim_end(s.drop_last()).len() as int;
        assert(s.drop_last().take(m) =~= s.take(m));
    } else {
        assert(s.take(s.len() as int) == s);
    }
}

proof fn lemma_prefix_survives_trim(s: Seq<char>, p: Seq<char>)
    requires
        has_prefix(s, p),
        p.len() > 0,
        forall|k: int| 0 <= k < p.len() ==> !is_white_space(#[trigger] p[k]),
    ensures
        has_prefix(trimmed(s), p),
{
    assert(s[0] == p[0]);
    assert(trim_start(s) == s);
    let k = p.len() - 1;
    assert(s[k] == p[k]);
    lemma_trim_end_keeps(s, k);
    let m = trim_end(s).len() as int;
    assert(trimmed(s) == s.take(m));
    assert(trimmed(s).subrange(0, p.len() as int) =~= s.subrange(0, p.len() as int));
}

proof fn lemma_first_site(path: Seq<char>, i: int)
    requires
        0 <= i,
        first_site_from(path, i) is Some,
    ensures
        0 <= first_site_from(path, i)->Some_0 < BUILD_SITE_COUNT,
        has_prefix(path, site_pattern(first_site_from(path, i)->Some_0)),
    decreases BUILD_SITE_COUNT - i,
{
    if i < BUILD_SITE_COUNT && !has_prefix(path, site_pattern(i)) {
        lemma_first_site(path, i + 1);
    }
}

proof fn lemma_patterns_not_white(i: int)
    requires
        0 <= i < BUILD_SITE_COUNT,
    ensures
        site_pattern(i).len() > 0,
        forall|k: int| 0 <= k < site_pattern(i).len() ==> !is_white_space(#[trigger] site_pattern(i)[k]),
{
    reveal_strlit("pobb.in/");
    reveal_strlit("poe.ninja/poe1/pob/");
    reveal_strlit("poe.ninja/pob/");
    reveal_strlit("pastebin.com/");
    reveal_strlit("pastebinp.com/");
    reveal_strlit("rentry.co/");
    reveal_strlit("maxroll.gg/poe/pob/");
    reveal_strlit("poedb.tw/pob/");
    reveal_strlit("pob.codes/b/");
}

/// Every link that `resolve_download_url` resolves is one that
/// `looks_like_url` recognises as a link.
pub proof fn lemma_resolvable_looks_like_url(url: Seq<char>)
    requires
        resolved(url) is Ok,
    ensures
        looks_like_link(url),
{
    let t = trimmed(url);
    let path = download_path(url);
    if has_prefix(t, "https://"@) {
    } else if has_prefix(url, "http://"@) {
        reveal_strlit("http://");
        lemma_prefix_survives_trim(url, "http://"@);
    } else {
        lemma_first_site(path, 0);
        let i = first_site_from(path, 0)->Some_0;
        lemma_patterns_not_white(i);
        lemma_prefix_survives_trim(url, site_pattern(i));
        assert(has_prefix(t, site_pattern(i)));
    }
}

/// Links that are not redirects pass through untouched: one that holds
/// neither redirect marker and has no white space or `?` at its ends comes
/// back as it is.
pub proof fn lemma_plain_links_pass_through(s: Seq<char>)
    requires
        !contains_seq(s, "youtube.com/redirect?"@),
        !contains_seq(s, "google.com/url?"@),
        s.len() > 0 ==> !is_white_space(s[0]) && !is_white_space(s.last()) && s[0] != '?'
            && s.last() != '?',
    ensures
        unwrapped(s) == s,
{
    assert(trim_start(s) == s);
    assert(trim_end(s) == s);
    assert(strip_char_start(s, '?') == s);
    assert(strip_char_end(s, '?') == s);
}

proof fn lemma_download_prefixes_https(i: int)
    requires
        0 <= i < BUILD_SITE_COUNT,
    ensures
        has_prefix(site_download_prefix(i), "https://"@),
{
    reveal_strlit("https://");
    reveal_strlit("https://pobb.in/pob/");
    reveal_strlit("https://poe.ninja/poe1/pob/raw/");
    reveal_strlit("https://pastebin.com/raw/");
    reveal_strlit("https://pastebinp.com/raw/");
    reveal_strlit("https://rentry.co/paste/");
    reveal_strlit("https://maxroll.gg/poe/api/pob/");
    reveal_strlit("https://poedb.tw/pob/");
    reveal_strlit("https://api.pob.codes/");
    let p = site_download_prefix(i);
    assert(p.subrange(0, 8) =~= "https://"@);
}

/// Every download address that a link resolves to is an `https://` address.
pub proof fn lemma_download_is_https(url: Seq<char>)
    ensures
        resolved(url) matches Ok(d) ==> has_prefix(d, "https://"@),
{
    let path = download_path(url);
    if first_site_from(path, 0) is Some {
        lemma_first_site(path, 0);
        let i = first_site_from(path, 0)->Some_0;
        lemma_download_prefixes_https(i);
        if let Ok(d) = resolved(url) {
            let p = site_download_prefix(i);
            let n = "https://"@.len() as int;
            assert(d.subrange(0, n) =~= p.subrange(0, n));
        }
    }
}

proof fn lemma_trimmed_keeps(s: Seq<char>)
    requires
        s.len() > 0,
        !is_white_space(s[0]),
        !is_white_space(s.last()),
    ensures
        trimmed(s) == s,
{
    assert(trim_start(s) == s);
    assert(trim_end(s) == s);
}

/// The raw download address for build `id` on the share site that export
/// site `site` (Maxroll, pob.codes or pobb.in) is.
pub open spec fn export_download(site: int, id: Seq<char>) -> Seq<char> {
    if site == 0 {
        "https://maxroll.gg/poe/api/pob/"@ + id
    } else if site == 1 {
        "https://api.pob.codes/"@ + id + "/raw"@
    } else {
        "https://pobb.in/pob/"@ + id
    }
}

/// What is shared can be imported again: the link made from Maxroll's,
/// pob.codes' or pobb.in's answer to an upload resolves to that site's raw
/// download address for the same build id.
pub proof fn lemma_share_link_resolves(site: int, id: Seq<char>)
    requires
        0 <= site < 3,
        id.len() > 0,
        forall|k: int| 0 <= k < id.len() ==> !is_id_end(#[trigger] id[k]) && !is_white_space(id[k]),
    ensures
        resolved(export_site_spec(site).3 + trimmed(id)) == Ok::<Seq<char>, ResolveError>(
            export_download(site, id),
        ),
{
    reveal_strlit("https://");
    reveal_strlit("https://maxroll.gg/poe/pob/");
    reveal_strlit("https://pob.codes/b/");
    reveal_strlit("https://pobb.in/");
    reveal_strlit("pobb.in/");
    reveal_strlit("poe.ninja/poe1/pob/");
    reveal_strlit("poe.ninja/pob/");
    reveal_strlit("pastebin.com/");
    reveal_strlit("pastebinp.com/");
    reveal_strlit("rentry.co/");
    reveal_strlit("maxroll.gg/poe/pob/");
    reveal_strlit("poedb.tw/pob/");
    reveal_strlit("pob.codes/b/");
    lemma_trimmed_keeps(id);
    let prefix = export_site_spec(site).3;
    let link = prefix + id;
    assert(link[0] == 'h');
    assert(link.last() == id.last());
    lemma_trimmed_keeps(link);
    assert(link.subrange(0, 8) =~= "https://"@);
    let path = download_path(link);
    assert(path =~= prefix.skip(8) + id);
    let i: int = if site == 0 {
        6
    } else if site == 1 {
        8
    } else {
        0
    };
    assert(path.subrange(0, site_pattern(i).len() as int) =~= site_pattern(i));
    assert forall|j: int| 0 <= j < i implies !has_prefix(path, #[trigger] site_pattern(j)) by {
        let p = site_pattern(j);
        if has_prefix(path, p) {
            assert(path.subrange(0, p.len() as int) == p);
            if site == 0 {
                assert(path[0] == 'm');
                assert(p[0] != 'm' || (j == 6));
            } else {
                assert(path[0] == 'p' && path[1] == 'o' && path[2] == 'b' && path[3] == '.');
                assert(path[4] == 'c');
                assert(p[0] != path[0] || p[1] != path[1] || p[2] != path[2] || p[3] != path[3]
                    || p[4] != path[4]);
            }
        }
    }
    assert(first_site_from(path, i) == Some(i));
    lemma_first_site_skips(path, 0, i);
    let rest = path.skip(site_pattern(i).len() as int);
    assert(rest =~= id);
    lemma_id_end_index(rest, rest.len() as int);
    assert(rest.take(rest.len() as int) =~= id);
}

proof fn lemma_first_site_skips(path: Seq<char>, from: int, i: int)
    requires
        0 <= from <= i < BUILD_SITE_COUNT,
        forall|j: int| from <= j < i ==> !has_prefix(path, #[trigger] site_pattern(j)),
    ensures
        first_site_from(path, from) == first_site_from(path, i),
    decreases i - from,
{
    if from < i {
        lemma_first_site_skips(path, from + 1, i);
    }
}

/// Two different share sites' patterns part within the shorter one, so a
/// page address matches at most one of them.
proof fn lemma_patterns_part(i: int, j: int)
    requires
        0 <= i < BUILD_SITE_COUNT,
        0 <= j < BUILD_SITE_COUNT,
        i != j,
    ensures
        exists|k: int|
            0 <= k < site_pattern(i).len() && k < site_pattern(j).len() && #[trigger] site_pattern(
                i,
            )[k] != site_pattern(j)[k],
{
    reveal_strlit("pobb.in/");
    reveal_strlit("poe.ninja/poe1/pob/");
    reveal_strlit("poe.ninja/pob/");
    reveal_strlit("pastebin.com/");
    reveal_strlit("pastebinp.com/");
    reveal_strlit("rentry.co/");
    reveal_strlit("maxroll.gg/poe/pob/");
    reveal_strlit("poedb.tw/pob/");
    reveal_strlit("pob.codes/b/");
    let p = site_pattern(i);
    let q = site_pattern(j);
    if (i == 1 && j == 2) || (i == 2 && j == 1) {
        assert(p[12] != q[12]);
    } else if (i == 3 && j == 4) || (i == 4 && j == 3) {
        assert(p[8] != q[8]);
    } else if p[0] != q[0] {
        assert(p[0] != q[0]);
    } else if p[1] != q[1] {
        assert(p[1] != q[1]);
    } else if p[2] != q[2] {
        assert(p[2] != q[2]);
    } else {
        assert(p[3] != q[3]);
    }
}

/// A build id is every character after the site's pattern up to the first
/// `/`, `?` or `#` (or the end): a link to site `i` with an id free of those
/// and of white space, followed by nothing or by a part that begins with one
/// of them, resolves to the site's download address with exactly that id.
pub proof fn lemma_link_keeps_id(i: int, id: Seq<char>, tail: Seq<char>)
    requires
        0 <= i < BUILD_SITE_COUNT,
        id.len() > 0,
        forall|k: int|
            0 <= k < id.len() ==> #[trigger] id[k] != '/' && id[k] != '?' && id[k] != '#'
                && !is_white_space(id[k]),
        tail.len() == 0 || tail[0] == '/' || tail[0] == '?' || tail[0] == '#',
        tail.len() == 0 || !is_white_space(tail.last()),
    ensures
        resolved("https://"@ + site_pattern(i) + id + tail) == Ok::<Seq<char>, ResolveError>(
            site_download_prefix(i) + id + if site_raw_suffix(i) {
                "/raw"@
            } else {
                seq![]
            },
        ),
{
    reveal_strlit("https://");
    let pat = site_pattern(i);
    let link = "https://"@ + pat + id + tail;
    assert(link[0] == 'h');
    if tail.len() == 0 {
        assert(link.last() == id.last());
    } else {
        assert(link.last() == tail.last());
    }
    lemma_trimmed_keeps(link);
    assert(link.subrange(0, 8) =~= "https://"@);
    let path = download_path(link);
    assert(path =~= pat + id + tail);
    assert(has_prefix(path, pat)) by {
        assert(path.subrange(0, pat.len() as int) =~= pat);
    }
    assert forall|j: int| 0 <= j < i implies !has_prefix(path, #[trigger] site_pattern(j)) by {
        lemma_patterns_part(i, j);
        let q = site_pattern(j);
        let k = choose|k: int|
            0 <= k < pat.len() && k < q.len() && #[trigger] site_pattern(i)[k] != site_pattern(j)[k];
        if has_prefix(path, q) {
            assert(path.subrange(0, q.len() as int)[k] == q[k]);
            assert(path[k] == pat[k]);
        }
    }
    assert(first_site_from(path, i) == Some(i));
    lemma_first_site_skips(path, 0, i);
    let rest = path.skip(pat.len() as int);
    assert(rest =~= id + tail);
    assert forall|k: int| 0 <= k < id.len() implies !is_id_end(#[trigger] rest[k]) by {
        assert(rest[k] == id[k]);
    }
    if tail.len() > 0 {
        assert(rest[id.len() as int] == tail[0]);
    }
    lemma_id_end_index(rest, id.len() as int);
    assert(rest.take(id.len() as int) =~= id);
    lemma_trimmed_keeps(id);
}

/// A byte with `+` read as a space.
pub open spec fn plus_as_space(x: u8) -> u8 {
    if x == 43u8 {
        32u8
    } else {
        x
    }
}

proof fn lemma_percent_decode_plain(b: Seq<u8>)
    requires
        forall|k: int| 0 <= k < b.len() ==> #[trigger] b[k] != 37u8,
    ensures
        percent_decode(b) == b.map_values(|x: u8| plus_as_space(x)),
    decreases b.len(),
{
    if b.len() > 0 {
        assert forall|k: int| 0 <= k < b.skip(1).len() implies #[trigger] b.skip(1)[k] != 37u8 by {
            assert(b.skip(1)[k] == b[k + 1]);
        }
        lemma_percent_decode_plain(b.skip(1));
        assert(b.map_values(|x: u8| plus_as_space(x)) =~= seq![plus_as_space(b[0])] + b.skip(
            1,
        ).map_values(|x: u8| plus_as_space(x)));
    }
}

/// Percent-decoding text that holds no `%` only turns each `+` into a space:
/// ASCII text without `%` decodes to itself with its `+`s made spaces.
pub proof fn lemma_plain_text_decodes_to_itself(s: Seq<char>)
    requires
        is_ascii_chars(s),
        forall|k: int| 0 <= k < s.len() ==> #[trigger] s[k] != '%',
    ensures
        url_decoded(s) == s.map_values(|c: char| if c == '+' {
            ' '
        } else {
            c
        }),
{
    let t = s.map_values(|c: char| if c == '+' {
        ' '
    } else {
        c
    });
    assert(is_ascii_chars(t)) by {
        assert forall|k: int| 0 <= k < t.len() implies '\0' <= #[trigger] t[k] <= '\u{7f}' by {
            assert('\0' <= s[k] <= '\u{7f}');
        }
    }
    is_ascii_chars_encode_utf8(s);
    is_ascii_chars_encode_utf8(t);
    let b = encode_utf8(s);
    assert forall|k: int| 0 <= k < b.len() implies #[trigger] b[k] != 37u8 by {
        assert(s[k] as u8 == b[k]);
        assert('\0' <= s[k] <= '\u{7f}');
    }
    lemma_percent_decode_plain(b);
    assert(percent_decode(b) =~= encode_utf8(t)) by {
        assert forall|k: int| 0 <= k < b.len() implies percent_decode(b)[k] == encode_utf8(t)[k] by {
            assert(s[k] as u8 == b[k]);
            assert(t[k] as u8 == encode_utf8(t)[k]);
            assert('\0' <= s[k] <= '\u{7f}');
        }
    }
    encode_utf8_valid_utf8(t);
    encode_utf8_decode_utf8(t);
}

} // verus!
