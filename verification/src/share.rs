//! Sharing a build: the sites a build code can be uploaded to, the request
//! body, the resulting link, and quoting a build name for the scripts.

use vstd::prelude::*;
use crate::text::{chars_of, has_prefix, starts_with, string_of, sub_chars, trim, trimmed};

verus! {

/// The number of sites a build can be shared on.
pub const EXPORT_SITE_COUNT: usize = 5;

/// A site a build code can be uploaded to.
pub struct ExportSite {
    pub label: &'static str,
    pub post_url: &'static str,
    /// Raw body prefix put before the build code.
    pub post_fields: &'static str,
    /// Prefix turning the response into a share link (empty where the site
    /// answers with a full link).
    pub code_out: &'static str,
}

/// Share site `i`: its label, upload address, body prefix and link prefix.
pub open spec fn export_site_spec(i: int) -> (Seq<char>, Seq<char>, Seq<char>, Seq<char>) {
    if i == 0 {
        ("Maxroll"@, "https://maxroll.gg/poe/api/pob"@, "pobCode="@, "https://maxroll.gg/poe/pob/"@)
    } else if i == 1 {
        ("pob.codes"@, "https://api.pob.codes/pob/plain"@, ""@, "https://pob.codes/b/"@)
    } else if i == 2 {
        ("pobb.in"@, "https://pobb.in/pob/"@, ""@, "https://pobb.in/"@)
    } else if i == 3 {
        ("PoeNinja"@, "https://poe.ninja/poe1/pob/api/upload"@, "code="@, ""@)
    } else {
        ("poedb.tw"@, "https://poedb.tw/pob/api/gen"@, ""@, ""@)
    }
}

/// Share site `i`, in the order the site list shows them.
pub fn export_site(i: usize) -> (s: ExportSite)
    requires
        i < EXPORT_SITE_COUNT,
    ensures
        (s.label@, s.post_url@, s.post_fields@, s.code_out@) == export_site_spec(i as int),
{
    if i == 0 {
        ExportSite {
            label: "Maxroll",
            post_url: "https://maxroll.gg/poe/api/pob",
            post_fields: "pobCode=",
            code_out: "https://maxroll.gg/poe/pob/",
        }
    } else if i == 1 {
        ExportSite {
            label: "pob.codes",
            post_url: "https://api.pob.codes/pob/plain",
            post_fields: "",
            code_out: "https://pob.codes/b/",
        }
    } else if i == 2 {
        ExportSite {
            label: "pobb.in",
            post_url: "https://pobb.in/pob/",
            post_fields: "",
            code_out: "https://pobb.in/",
        }
    } else if i == 3 {
        ExportSite {
            label: "PoeNinja",
            post_url: "https://poe.ninja/poe1/pob/api/upload",
            post_fields: "code=",
            code_out: "",
        }
    } else {
        ExportSite {
            label: "poedb.tw",
            post_url: "https://poedb.tw/pob/api/gen",
            post_fields: "",
            code_out: "",
        }
    }
}

/// The share site selected by `index`, kept within the site list.
pub fn export_site_choice(index: usize) -> (r: usize)
    ensures
        r == if index < EXPORT_SITE_COUNT - 1 {
            index
        } else {
            (EXPORT_SITE_COUNT - 1) as usize
        },
{
    if index < EXPORT_SITE_COUNT - 1 {
        index
    } else {
        EXPORT_SITE_COUNT - 1
    }
}

/// The form body uploaded to share site `site`: its body prefix and the code.
pub fn upload_body(code: &str, site: usize) -> (r: String)
    requires
        site < EXPORT_SITE_COUNT,
    ensures
        r@ == export_site_spec(site as int).2 + code@,
{
    let s = export_site(site);
    let mut r = String::new();
    r.push_str(s.post_fields);
    r.push_str(code);
    r
}

/// The share link made from share site `site`'s answer `body`: its link prefix
/// and the trimmed answer.
pub fn share_link(site: usize, body: &str) -> (r: String)
    requires
        site < EXPORT_SITE_COUNT,
    ensures
        r@ == export_site_spec(site as int).3 + trimmed(body@),
{
    let s = export_site(site);
    let mut r = String::new();
    r.push_str(s.code_out);
    let t = string_of(&trim(&chars_of(body)));
    r.push_str(t.as_str());
    r
}

/// The first 200 characters of a failed upload's answer, for the message.
pub fn failure_excerpt(body: &str) -> (r: String)
    ensures
        r@ == if body@.len() <= 200 {
            body@
        } else {
            body@.take(200)
        },
{
    let b = chars_of(body);
    let end = if b.len() <= 200 {
        b.len()
    } else {
        200
    };
    string_of(&sub_chars(&b, 0, end))
}

/// Whether the export box already holds a share link rather than a code.
pub fn is_share_link(export_code: &str) -> (r: bool)
    ensures
        r == has_prefix(trimmed(export_code@), "http"@),
{
    starts_with(&trim(&chars_of(export_code)), &chars_of("http"))
}

/// The characters that stand for `c` inside a double-quoted script string.
pub open spec fn quoted_char(c: char) -> Seq<char> {
    if c == '\\' {
        seq!['\\', '\\']
    } else if c == '"' {
        seq!['\\', '"']
    } else {
        seq![c]
    }
}

/// `s` with backslashes doubled and double quotes escaped, so that it can
/// stand inside a double-quoted script string.
pub open spec fn quoted_text(s: Seq<char>) -> Seq<char>
    decreases s.len(),
{
    if s.len() == 0 {
        seq![]
    } else {
        quoted_text(s.drop_last()) + quoted_char(s.last())
    }
}

/// Escape a build name for a double-quoted script string.
pub fn escape_script_string(name: &str) -> (r: String)
    ensures
        r@ == quoted_text(name@),
{
    let n = chars_of(name);
    let mut out: Vec<char> = Vec::new();
    let mut k: usize = 0;
    while k < n.len()
        invariant
            k <= n@.len(),
            out@ == quoted_text(n@.take(k as int)),
        decreases n@.len() - k,
    {
        let c = n[k];
        if c == '\\' {
            out.push('\\');
            out.push('\\');
        } else if c == '"' {
            out.push('\\');
            out.push('"');
        } else {
            out.push(c);
        }
        k = k + 1;
        assert(n@.take(k as int).drop_last() == n@.take(k - 1));
        assert(out@ == quoted_text(n@.take(k - 1)) + quoted_char(n@[k - 1]));
    }
    assert(n@.take(n@.len() as int) == n@);
    string_of(&out)
}

/// What the scripts read from the body of a double-quoted string: `\\` and
/// `\"` stand for `\` and `"`, every other character for itself.
pub open spec fn unquoted_text(s: Seq<char>) -> Seq<char>
    decreases s.len(),
{
    if s.len() == 0 {
        seq![]
    } else if s.len() >= 2 && s[0] == '\\' && (s[1] == '\\' || s[1] == '"') {
        seq![s[1]] + unquoted_text(s.skip(2))
    } else {
        seq![s[0]] + unquoted_text(s.skip(1))
    }
}

proof fn lemma_quoted_text_concat(a: Seq<char>, b: Seq<char>)
    ensures
        quoted_text(a + b) == quoted_text(a) + quoted_text(b),
    decreases b.len(),
{
    if b.len() == 0 {
        assert(a + b =~= a);
        assert(quoted_text(a) + quoted_text(b) =~= quoted_text(a));
    } else {
        assert((a + b).drop_last() =~= a + b.drop_last());
        assert((a + b).last() == b.last());
        lemma_quoted_text_concat(a, b.drop_last());
        assert(quoted_text(a) + quoted_text(b) =~= quoted_text(a) + quoted_text(b.drop_last())
            + quoted_char(b.last()));
    }
}

proof fn lemma_unquote_char(c: char, rest: Seq<char>)
    ensures
        unquoted_text(quoted_char(c) + rest) == seq![c] + unquoted_text(rest),
{
    let q = quoted_char(c) + rest;
    if c == '\\' || c == '"' {
        assert(q.skip(2) =~= rest);
    } else {
        assert(q.skip(1) =~= rest);
    }
}

/// A quoted build name reads back as the name: the scripts see exactly the
/// characters that were escaped.
pub proof fn lemma_quoted_name_reads_back(s: Seq<char>)
    ensures
        unquoted_text(quoted_text(s)) == s,
    decreases s.len(),
{
    if s.len() > 0 {
        let head = seq![s[0]];
        let tail = s.skip(1);
        assert(s =~= head + tail);
        lemma_quoted_text_concat(head, tail);
        assert(head.drop_last() =~= Seq::<char>::empty());
        assert(head.last() == s[0]);
        assert(quoted_text(Seq::<char>::empty()) =~= Seq::<char>::empty());
        assert(quoted_text(head) =~= quoted_char(s[0]));
        lemma_unquote_char(s[0], quoted_text(tail));
        lemma_quoted_name_reads_back(tail);
    }
}

} // verus!
