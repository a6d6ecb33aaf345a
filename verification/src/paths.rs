//! Build-folder navigation and the small path rules of the script host.
//!
//! A folder's sub path is relative to the build root and, when not empty,
//! ends with `/`.

use vstd::prelude::*;
use crate::text::{
    chars_of, ends_with, has_prefix, has_suffix, starts_with, string_of, strip_char_end, sub_chars,
};

verus! {

/// The position of the last `/` in `s`.
pub open spec fn last_slash(s: Seq<char>) -> Option<int>
    decreases s.len(),
{
    if s.len() == 0 {
        None
    } else if s.last() == '/' {
        Some(s.len() - 1)
    } else {
        last_slash(s.drop_last())
    }
}

/// The sub path one level above `sub_path`, or `None` at the build root.
pub open spec fn parent_path(sub_path: Seq<char>) -> Option<Seq<char>> {
    let t = strip_char_end(sub_path, '/');
    if t.len() == 0 {
        None
    } else {
        match last_slash(t) {
            Some(p) => Some(t.take(p).push('/')),
            None => Some(seq![]),
        }
    }
}

/// Where going up from `sub_path` leads: its parent, or the root.
pub open spec fn up_path(sub_path: Seq<char>) -> Seq<char> {
    match parent_path(sub_path) {
        Some(p) => p,
        None => seq![],
    }
}

proof fn lemma_last_slash_bounds(s: Seq<char>)
    ensures
        last_slash(s) matches Some(p) ==> 0 <= p < s.len() && s[p] == '/',
        last_slash(s) is None ==> forall|k: int| 0 <= k < s.len() ==> s[k] != '/',
    decreases s.len(),
{
    if s.len() > 0 && s.last() != '/' {
        lemma_last_slash_bounds(s.drop_last());
        assert forall|k: int| 0 <= k < s.len() - 1 implies s.drop_last()[k] == s[k] by {}
    }
}

/// Trailing `/` characters of `s` end at `j`.
fn trailing_slashes_start(s: &[char]) -> (j: usize)
    ensures
        j <= s@.len(),
        s@.take(j as int) == strip_char_end(s@, '/'),
{
    let mut j = s.len();
    assert(s@.take(j as int) == s@);
    while j > 0 && s[j - 1] == '/'
        invariant
            j <= s@.len(),
            strip_char_end(s@, '/') == strip_char_end(s@.take(j as int), '/'),
        decreases j,
    {
        assert(s@.take(j as int).drop_last() == s@.take(j - 1));
        j = j - 1;
    }
    j
}

/// The last `/` in `s[..n]`.
fn find_last_slash(s: &[char], n: usize) -> (r: Option<usize>)
    requires
        n <= s@.len(),
    ensures
        r matches Some(p) ==> last_slash(s@.take(n as int)) == Some(p as int),
        r is None ==> last_slash(s@.take(n as int)) is None,
{
    let mut k = n;
    while k > 0
        invariant
            k <= n <= s@.len(),
            last_slash(s@.take(n as int)) == last_slash(s@.take(k as int)),
        decreases k,
    {
        if s[k - 1] == '/' {
            return Some(k - 1);
        }
        assert(s@.take(k as int).drop_last() == s@.take(k - 1));
        k = k - 1;
    }
    None
}

/// The sub path one level above `sub_path`, or `None` at the build root.
pub fn parent_of(sub_path: &str) -> (r: Option<String>)
    ensures
        match r {
            Some(p) => parent_path(sub_path@) == Some(p@),
            None => parent_path(sub_path@) is None,
        },
{
    let s = chars_of(sub_path);
    let j = trailing_slashes_start(&s);
    if j == 0 {
        return None;
    }
    match find_last_slash(&s, j) {
        Some(p) => {
            proof {
                lemma_last_slash_bounds(s@.take(j as int));
            }
            let mut v = sub_chars(&s, 0, p);
            v.push('/');
            assert(v@ == s@.take(j as int).take(p as int).push('/'));
            Some(string_of(&v))
        },
        None => Some(String::new()),
    }
}

/// The sub path after navigating up one folder level from `sub_path`.
pub fn go_up_path(sub_path: &str) -> (r: String)
    ensures
        r@ == up_path(sub_path@),
{
    match parent_of(sub_path) {
        Some(p) => p,
        None => String::new(),
    }
}

/// The sub path of folder `folder_name` inside `sub_path`.
pub fn enter_folder_path(sub_path: &str, folder_name: &str) -> (r: String)
    ensures
        r@ == sub_path@ + folder_name@ + seq!['/'],
{
    let mut r = String::new();
    r.push_str(sub_path);
    r.push_str(folder_name);
    r.push('/');
    r
}

/// Going up undoes entering a folder: from a folder's sub path (the root or a
/// path ending in `/`), entering a subfolder whose name is not empty and holds
/// no `/` and then going up leads back.
pub proof fn lemma_up_undoes_enter(sub_path: Seq<char>, folder: Seq<char>)
    requires
        sub_path.len() == 0 || sub_path.last() == '/',
        folder.len() > 0,
        forall|k: int| 0 <= k < folder.len() ==> folder[k] != '/',
    ensures
        up_path(sub_path + folder + seq!['/']) == sub_path,
{
    let e = sub_path + folder + seq!['/'];
    let t = sub_path + folder;
    assert(e.drop_last() == t);
    assert(t.last() == folder.last());
    assert(strip_char_end(t, '/') == t);
    assert(strip_char_end(e, '/') == t);
    lemma_last_slash_in_prefix(sub_path, folder);
    if sub_path.len() > 0 {
        assert(t.take(sub_path.len() - 1).push('/') =~= sub_path);
    }
}

proof fn lemma_last_slash_in_prefix(p: Seq<char>, f: Seq<char>)
    requires
        p.len() == 0 || p.last() == '/',
        forall|k: int| 0 <= k < f.len() ==> f[k] != '/',
    ensures
        p.len() == 0 ==> last_slash(p + f) is None,
        p.len() > 0 ==> last_slash(p + f) == Some(p.len() - 1),
    decreases f.len(),
{
    if f.len() == 0 {
        assert(p + f == p);
        if p.len() == 0 {
        }
    } else {
        assert((p + f).drop_last() == p + f.drop_last());
        assert((p + f).last() == f.last());
        lemma_last_slash_in_prefix(p, f.drop_last());
    }
}

/// The part of an entry's location that lies below the folder on screen:
/// empty for entries in that folder (or outside it).
pub open spec fn relative_prefix_of(entry_sub_path: Seq<char>, here: Seq<char>) -> Seq<char> {
    if has_prefix(entry_sub_path, here) {
        entry_sub_path.skip(here.len() as int)
    } else {
        seq![]
    }
}

/// The part of an entry's location that lies below the folder on screen.
///
/// Empty for entries in that folder, so ordinary browsing looks unchanged;
/// search results reaching into subfolders show where they came from.
pub fn relative_prefix(entry_sub_path: &str, here: &str) -> (r: String)
    ensures
        r@ == relative_prefix_of(entry_sub_path@, here@),
{
    let e = chars_of(entry_sub_path);
    let h = chars_of(here);
    if starts_with(&e, &h) {
        string_of(&sub_chars(&e, h.len(), e.len()))
    } else {
        String::new()
    }
}

/// The file a script module name refers to: the name itself when it already
/// ends in `.lua`, else the name with `.lua` appended.
pub open spec fn module_file(name: Seq<char>) -> Seq<char> {
    if has_suffix(name, ".lua"@) {
        name
    } else {
        name + ".lua"@
    }
}

/// The file a script module name refers to.
pub fn module_file_path(name: &str) -> (r: String)
    ensures
        r@ == module_file(name@),
{
    let n = chars_of(name);
    let mut r = String::new();
    r.push_str(name);
    if !ends_with(&n, &chars_of(".lua")) {
        r.push_str(".lua");
    }
    r
}

/// The directory a folder search pattern lists: the pattern without a
/// trailing `/*`, else without a trailing `*`, else the pattern itself.
pub open spec fn search_dir(pattern: Seq<char>) -> Seq<char> {
    if has_suffix(pattern, "/*"@) {
        pattern.take(pattern.len() - "/*"@.len())
    } else if has_suffix(pattern, "*"@) {
        pattern.take(pattern.len() - "*"@.len())
    } else {
        pattern
    }
}

/// The directory a folder search pattern lists.
pub fn folder_search_dir(pattern: &str) -> (r: String)
    ensures
        r@ == search_dir(pattern@),
{
    let p = chars_of(pattern);
    let slash_star = chars_of("/*");
    let star = chars_of("*");
    if ends_with(&p, &slash_star) {
        string_of(&sub_chars(&p, 0, p.len() - slash_star.len()))
    } else if ends_with(&p, &star) {
        string_of(&sub_chars(&p, 0, p.len() - star.len()))
    } else {
        string_of(&p)
    }
}

/// A directory path in the form the scripts expect: ending with `/`.
pub open spec fn dir_with_slash(dir: Seq<char>) -> Seq<char> {
    if dir.len() > 0 && dir.last() == '/' {
        dir
    } else {
        dir.push('/')
    }
}

/// `dir` with a `/` appended unless it already ends with one.
pub fn user_dir_path(dir: &str) -> (r: String)
    ensures
        r@ == dir_with_slash(dir@),
{
    let d = chars_of(dir);
    let mut r = String::new();
    r.push_str(dir);
    if !(d.len() > 0 && d[d.len() - 1] == '/') {
        r.push('/');
    }
    r
}

/// What the relative prefix leaves out is the folder on screen: for an entry
/// below it, the folder followed by the prefix is the entry's location.
pub proof fn lemma_prefix_completes_here(here: Seq<char>, tail: Seq<char>)
    ensures
        relative_prefix_of(here + tail, here) == tail,
{
    let e = here + tail;
    assert(e.subrange(0, here.len() as int) =~= here);
    assert(e.skip(here.len() as int) =~= tail);
}

/// A module's file always ends in `.lua` and begins with the module's name,
/// and naming the file again changes nothing.
pub proof fn lemma_module_file_is_lua(name: Seq<char>)
    ensures
        has_suffix(module_file(name), ".lua"@),
        has_prefix(module_file(name), name),
        module_file(module_file(name)) == module_file(name),
{
    let f = module_file(name);
    let l = ".lua"@;
    if !has_suffix(name, l) {
        assert(f.subrange(f.len() - l.len(), f.len() as int) =~= l);
    }
    assert(f.subrange(0, name.len() as int) =~= name);
}

/// A user directory ends with exactly the `/`s it had, or one when it had
/// none: the result ends in `/`, keeps the directory in front, and adding the
/// slash again changes nothing.
pub proof fn lemma_dir_ends_with_slash(dir: Seq<char>)
    ensures
        dir_with_slash(dir).len() > 0 && dir_with_slash(dir).last() == '/',
        has_prefix(dir_with_slash(dir), dir),
        dir_with_slash(dir).len() <= dir.len() + 1,
        dir_with_slash(dir_with_slash(dir)) == dir_with_slash(dir),
{
    let d = dir_with_slash(dir);
    assert(d.subrange(0, dir.len() as int) =~= dir);
}

/// The listed directory is the pattern with its trailing `/*` or `*` taken
/// off; a pattern without a `*` at its end is listed as it is.
pub proof fn lemma_search_dir_drops_star(dir: Seq<char>)
    requires
        dir.len() == 0 || dir.last() != '*',
    ensures
        search_dir(dir) == dir,
        search_dir(dir + "/*"@) == dir,
        (dir.len() == 0 || dir.last() != '/') ==> search_dir(dir + "*"@) == dir,
{
    reveal_strlit("/*");
    reveal_strlit("*");
    let ss = "/*"@;
    let st = "*"@;
    assert(ss.len() == 2 && ss[0] == '/' && ss[1] == '*');
    assert(st.len() == 1 && st[0] == '*');
    if dir.len() >= 2 {
        assert(dir.subrange(dir.len() - 2, dir.len() as int)[1] == dir.last());
    }
    if dir.len() >= 1 {
        assert(dir.subrange(dir.len() - 1, dir.len() as int)[0] == dir.last());
    }
    let a = dir + ss;
    assert(a.subrange(a.len() - 2, a.len() as int) =~= ss);
    assert(a.take(a.len() - 2) =~= dir);
    let b = dir + st;
    assert(b.subrange(b.len() - 1, b.len() as int) =~= st);
    assert(b.take(b.len() - 1) =~= dir);
    if dir.len() >= 1 {
        assert(b.subrange(b.len() - 2, b.len() as int)[0] == dir.last());
    }
}

} // verus!
