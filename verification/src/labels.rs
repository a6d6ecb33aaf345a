//! Display labels: grouped numbers, shortened labels, set and group titles
//! and the one-line build summary.

use vstd::prelude::*;
use crate::text::{
    append_chars, chars_of, contains, contains_seq, decimal, decimal_chars, owned, same_chars, string_of,
    sub_chars,
};
use crate::paths::{relative_prefix, relative_prefix_of};
use crate::colors::Rgb;
use crate::theme::Theme;

verus! {

/// The decimal digits `d` with a `,` between each group of three, counted
/// from the right.
pub open spec fn group_thousands(d: Seq<char>) -> Seq<char>
    decreases d.len(),
{
    if d.len() <= 3 {
        d
    } else {
        group_thousands(d.take(d.len() - 3)) + seq![','] + d.skip(d.len() - 3)
    }
}

/// `n` in decimal with thousands separators, e.g. `-1,234,567`.
pub open spec fn grouped_number(n: int) -> Seq<char> {
    if n < 0 {
        seq!['-'] + group_thousands(decimal((-n) as nat))
    } else {
        group_thousands(decimal(n as nat))
    }
}

fn group_prefix(d: &[char], end: usize) -> (r: Vec<char>)
    requires
        end <= d@.len(),
    ensures
        r@ == group_thousands(d@.take(end as int)),
    decreases end,
{
    if end <= 3 {
        sub_chars(d, 0, end)
    } else {
        let mut v = group_prefix(d, end - 3);
        v.push(',');
        let tail = sub_chars(d, end - 3, end);
        append_chars(&mut v, &tail);
        assert(d@.take(end as int).take(end - 3) == d@.take(end - 3));
        assert(d@.take(end as int).skip(end - 3) == d@.subrange(end - 3, end as int));
        v
    }
}

/// Format an integer with thousands separators.
pub fn format_number(n: i64) -> (s: String)
    requires
        n != i64::MIN,
    ensures
        s@ == grouped_number(n as int),
{
    let magnitude: u64 = if n < 0 {
        (-n) as u64
    } else {
        n as u64
    };
    let digits = decimal_chars(magnitude);
    let grouped = group_prefix(&digits, digits.len());
    assert(digits@.take(digits@.len() as int) == digits@);
    let mut out: Vec<char> = Vec::new();
    if n < 0 {
        out.push('-');
    }
    append_chars(&mut out, &grouped);
    string_of(&out)
}

/// `label` shortened to `max_chars` characters followed by `…` when it is
/// longer than that.
pub open spec fn truncated(label: Seq<char>, max_chars: nat) -> Seq<char> {
    if label.len() <= max_chars {
        label
    } else {
        label.take(max_chars as int).push('…')
    }
}

/// A shortened label keeps its beginning: a label of at most `max_chars`
/// characters is kept whole; a longer one keeps exactly its first
/// `max_chars` characters and gets `…` after them.
pub proof fn lemma_truncation_keeps_start(label: Seq<char>, max_chars: nat)
    ensures
        label.len() <= max_chars ==> truncated(label, max_chars) == label,
        label.len() > max_chars ==> truncated(label, max_chars).len() == max_chars + 1
            && truncated(label, max_chars).last() == '…' && truncated(label, max_chars).take(
            max_chars as int,
        ) == label.take(max_chars as int),
{
    if label.len() > max_chars {
        let t = truncated(label, max_chars);
        assert(t.take(max_chars as int) =~= label.take(max_chars as int));
    }
}

/// Shorten a long label for a closed combo box.
pub fn truncate_label(label: &str, max_chars: usize) -> (r: String)
    ensures
        r@ == truncated(label@, max_chars as nat),
{
    let chars = chars_of(label);
    if chars.len() <= max_chars {
        string_of(&chars)
    } else {
        let mut v = sub_chars(&chars, 0, max_chars);
        v.push('…');
        string_of(&v)
    }
}

/// The label of an item, skill or config set: its title, or `Default` for an
/// untitled set.
pub open spec fn set_label_of(title: Seq<char>) -> Seq<char> {
    if title.len() == 0 {
        "Default"@
    } else {
        title
    }
}

/// The label of an item, skill or config set with the given title.
pub fn set_label(title: &str) -> (r: String)
    ensures
        r@ == set_label_of(title@),
{
    let t = chars_of(title);
    let mut r = String::new();
    if t.len() == 0 {
        r.push_str("Default");
    } else {
        r.push_str(title);
    }
    r
}

/// `s` with every `_` replaced by `.`.
pub open spec fn underscores_to_dots(s: Seq<char>) -> Seq<char> {
    s.map_values(|c: char| if c == '_' { '.' } else { c })
}

/// The label of a passive tree spec: its title, prefixed with its tree
/// version (`_` shown as `.`) in brackets when that is not the latest one.
pub open spec fn spec_label_of(tree_version: Seq<char>, title: Seq<char>, is_latest: bool) -> Seq<
    char,
> {
    if is_latest {
        title
    } else {
        seq!['['] + underscores_to_dots(tree_version) + seq![']', ' '] + title
    }
}

/// A spec's label always ends with its title; an older tree version is
/// shown first, in brackets and with a `.` for every `_`, each other
/// character kept.
pub proof fn lemma_spec_label_shows_version(tree_version: Seq<char>, title: Seq<char>, k: int)
    requires
        0 <= k < tree_version.len(),
    ensures
        spec_label_of(tree_version, title, true) == title,
        ({
            let l = spec_label_of(tree_version, title, false);
            &&& l.len() == tree_version.len() + 3 + title.len()
            &&& l[0] == '['
            &&& l[tree_version.len() as int + 1] == ']'
            &&& l.skip(tree_version.len() as int + 3) == title
            &&& l[k + 1] == if tree_version[k] == '_' {
                '.'
            } else {
                tree_version[k]
            }
        }),
{
    let l = spec_label_of(tree_version, title, false);
    let n = tree_version.len() as int;
    assert(l.skip(n + 3) =~= title);
    assert(l[k + 1] == underscores_to_dots(tree_version)[k]);
}

/// Display label for a spec: "[3.25] Title" for non-latest tree versions.
pub fn spec_label(tree_version: &str, title: &str, is_latest_version: bool) -> (r: String)
    ensures
        r@ == spec_label_of(tree_version@, title@, is_latest_version),
{
    let mut r = String::new();
    if is_latest_version {
        r.push_str(title);
        return r;
    }
    let v = chars_of(tree_version);
    let mut out: Vec<char> = Vec::new();
    out.push('[');
    let mut k: usize = 0;
    while k < v.len()
        invariant
            k <= v@.len(),
            out@ == seq!['['] + underscores_to_dots(v@.take(k as int)),
        decreases v@.len() - k,
    {
        let c = v[k];
        out.push(if c == '_' { '.' } else { c });
        k = k + 1;
        assert(underscores_to_dots(v@.take(k as int)) == underscores_to_dots(v@.take(k - 1)).push(
            if v@[k - 1] == '_' { '.' } else { v@[k - 1] },
        ));
    }
    assert(v@.take(v@.len() as int) == v@);
    out.push(']');
    out.push(' ');
    let head = string_of(&out);
    r.push_str(head.as_str());
    r.push_str(title);
    r
}

/// A gem in a socket group.
pub struct Gem {
    pub name: String,
    pub enabled: bool,
    pub is_support: bool,
}

/// A socket group: its label, its 1-based index and its gems.
pub struct SocketGroup {
    pub label: String,
    pub index: usize,
    pub gems: Vec<Gem>,
}

/// The first gem, from `k` on, that is enabled, active and named.
pub open spec fn first_active_gem(gems: Seq<Gem>, k: int) -> Option<int>
    decreases gems.len() - k,
{
    if k < 0 || k >= gems.len() {
        None
    } else if gems[k].enabled && !gems[k].is_support && gems[k].name@.len() > 0 {
        Some(k)
    } else {
        first_active_gem(gems, k + 1)
    }
}

/// The title of a socket group: its label; else the name of its first
/// enabled, named active gem; else its first gem's name; else `Group N`.
pub open spec fn group_title(group: SocketGroup) -> Seq<char> {
    if group.label@.len() > 0 {
        group.label@
    } else if first_active_gem(group.gems@, 0) is Some {
        group.gems@[first_active_gem(group.gems@, 0)->Some_0].name@
    } else if group.gems@.len() > 0 {
        group.gems@[0].name@
    } else {
        "Group "@ + decimal(group.index as nat)
    }
}

/// The title of a socket group.
pub fn socket_group_title(group: &SocketGroup) -> (r: String)
    ensures
        r@ == group_title(*group),
{
    if !group.label.as_str().is_empty() {
        return group.label.clone();
    }
    let mut k: usize = 0;
    while k < group.gems.len()
        invariant
            k <= group.gems@.len(),
            group.label@.len() == 0,
            first_active_gem(group.gems@, 0) == first_active_gem(group.gems@, k as int),
        decreases group.gems@.len() - k,
    {
        let gem = &group.gems[k];
        if gem.enabled && !gem.is_support && !gem.name.as_str().is_empty() {
            assert(first_active_gem(group.gems@, k as int) == Some(k as int));
            return gem.name.clone();
        }
        k = k + 1;
    }
    if group.gems.len() > 0 {
        return group.gems[0].name.clone();
    }
    let mut r = String::new();
    r.push_str("Group ");
    let digits = decimal_chars(group.index as u64);
    let ds = string_of(&digits);
    r.push_str(ds.as_str());
    r
}

/// How a socket group's heading is drawn.
#[derive(Clone, Copy, PartialEq, Eq, Structural, Debug)]
pub enum GroupStyle {
    /// The main skill's group, in the highlight colour.
    MainSkill,
    /// A disabled group, dimmed.
    Dim,
    /// Any other group, in the ordinary text colour.
    Normal,
}

/// The heading of a socket group: its title, marked `* ` when it holds the
/// main skill, and its style.
pub open spec fn group_heading_of(group: SocketGroup, is_main: bool, enabled: bool) -> (Seq<char>, GroupStyle) {
    if is_main {
        (seq!['*', ' '] + group_title(group), GroupStyle::MainSkill)
    } else if !enabled {
        (group_title(group), GroupStyle::Dim)
    } else {
        (group_title(group), GroupStyle::Normal)
    }
}

/// The heading of socket group `group`, which holds the main skill when
/// `is_main` and is switched on when `enabled`.
pub fn group_heading(group: &SocketGroup, is_main: bool, enabled: bool) -> (r: (String, GroupStyle))
    ensures
        (r.0@, r.1) == group_heading_of(*group, is_main, enabled),
{
    let title = socket_group_title(group);
    if is_main {
        let mut r = String::new();
        r.push_str("* ");
        proof {
            reveal_strlit("* ");
        }
        r.push_str(title.as_str());
        (r, GroupStyle::MainSkill)
    } else if !enabled {
        (title, GroupStyle::Dim)
    } else {
        (title, GroupStyle::Normal)
    }
}

/// The colour of a gem's socket letter: red, green and blue sockets in
/// their colours, any other letter grey.
pub open spec fn gem_letter_colour_of(letter: Seq<char>) -> Rgb {
    if letter == seq!['R'] {
        Rgb { r: 223, g: 90, b: 75 }
    } else if letter == seq!['G'] {
        Rgb { r: 80, g: 190, b: 80 }
    } else if letter == seq!['B'] {
        Rgb { r: 100, g: 130, b: 255 }
    } else {
        Rgb { r: 200, g: 200, b: 200 }
    }
}

/// The colour of socket letter `letter` in a group heading.
pub fn gem_letter_colour(letter: &str) -> (r: Rgb)
    ensures
        r == gem_letter_colour_of(letter@),
{
    let l = chars_of(letter);
    if l.len() == 1 && l[0] == 'R' {
        assert(l@ =~= seq!['R']);
        Rgb { r: 223, g: 90, b: 75 }
    } else if l.len() == 1 && l[0] == 'G' {
        assert(l@ =~= seq!['G']);
        Rgb { r: 80, g: 190, b: 80 }
    } else if l.len() == 1 && l[0] == 'B' {
        assert(l@ =~= seq!['B']);
        Rgb { r: 100, g: 130, b: 255 }
    } else {
        Rgb { r: 200, g: 200, b: 200 }
    }
}

/// The colour of a gem's name: dimmed when disabled, else the support or
/// active gem colour of the theme.
pub fn gem_name_colour(enabled: bool, is_support: bool) -> (r: Rgb)
    ensures
        r == if !enabled {
            Rgb { r: 100, g: 100, b: 100 }
        } else if is_support {
            Rgb { r: 120, g: 160, b: 255 }
        } else {
            Rgb { r: 200, g: 50, b: 50 }
        },
{
    if !enabled {
        Theme::text_dim()
    } else if is_support {
        Theme::gem_support()
    } else {
        Theme::gem_active()
    }
}

/// A saved build as the build list shows it.
pub struct BuildInfo {
    /// The folder holding the build, relative to the build root.
    pub sub_path: String,
    pub build_name: String,
    pub class_name: Option<String>,
    pub ascend_class_name: Option<String>,
    pub level: Option<u32>,
}

/// The class shown for a build: its ascendancy unless that is missing, empty
/// or `None`, else its base class.
pub open spec fn display_class(ascend: Option<String>, class: Option<String>) -> Option<Seq<char>> {
    match ascend {
        Some(a) if a@ != "None"@ && a@.len() > 0 => Some(a@),
        _ => match class {
            Some(c) => Some(c@),
            None => None,
        },
    }
}

fn shown_class(ascend: &Option<String>, class: &Option<String>) -> (r: Option<String>)
    ensures
        match r {
            Some(s) => display_class(*ascend, *class) == Some(s@),
            None => display_class(*ascend, *class) is None,
        },
{
    if let Some(a) = ascend {
        let ac = chars_of(a.as_str());
        let none = chars_of("None");
        if !same_chars(&ac, &none) && ac.len() > 0 {
            return Some(a.clone());
        }
    }
    match class {
        Some(c) => Some(c.clone()),
        None => None,
    }
}

/// One line describing a build: where it lies below `here`, its name, class
/// and level, joined by ` - `.
pub open spec fn summary_of(build: BuildInfo, here: Seq<char>) -> Seq<char> {
    relative_prefix_of(build.sub_path@, here) + build.build_name@ + match display_class(
        build.ascend_class_name,
        build.class_name,
    ) {
        Some(c) => " - "@ + c,
        None => seq![],
    } + match build.level {
        Some(l) => " - Lv"@ + decimal(l as nat),
        None => seq![],
    }
}

/// The one-line summary of a build in the build list.
pub fn build_summary(build: &BuildInfo, here: &str) -> (r: String)
    ensures
        r@ == summary_of(*build, here@),
{
    let mut r = relative_prefix(build.sub_path.as_str(), here);
    r.push_str(build.build_name.as_str());
    match shown_class(&build.ascend_class_name, &build.class_name) {
        Some(c) => {
            r.push_str(" - ");
            r.push_str(c.as_str());
        },
        None => {},
    }
    match build.level {
        Some(l) => {
            r.push_str(" - Lv");
            let digits = string_of(&decimal_chars(l as u64));
            r.push_str(digits.as_str());
        },
        None => {},
    }
    r
}

/// The heading of a build's preview: `Level L Class`, or whichever of the two
/// is known.
pub open spec fn preview_heading_of(class: Option<Seq<char>>, level: Option<u32>) -> Option<
    Seq<char>,
> {
    match (class, level) {
        (Some(c), Some(l)) => Some("Level "@ + decimal(l as nat) + " "@ + c),
        (Some(c), None) => Some(c),
        (None, Some(l)) => Some("Level "@ + decimal(l as nat)),
        (None, None) => None,
    }
}

/// The heading of a build's preview tooltip.
pub fn preview_heading(
    ascend_class_name: &Option<String>,
    class_name: &Option<String>,
    level: Option<u32>,
) -> (r: Option<String>)
    ensures
        match r {
            Some(s) => preview_heading_of(display_class(*ascend_class_name, *class_name), level)
                == Some(s@),
            None => preview_heading_of(display_class(*ascend_class_name, *class_name), level) is None,
        },
{
    let class = shown_class(ascend_class_name, class_name);
    match (class, level) {
        (Some(c), Some(l)) => {
            let mut r = owned("Level ");
            r.push_str(string_of(&decimal_chars(l as u64)).as_str());
            r.push_str(" ");
            r.push_str(c.as_str());
            Some(r)
        },
        (Some(c), None) => Some(c),
        (None, Some(l)) => {
            let mut r = owned("Level ");
            r.push_str(string_of(&decimal_chars(l as u64)).as_str());
            Some(r)
        },
        (None, None) => None,
    }
}

/// `s` with its `,` characters removed.
pub open spec fn without_commas(s: Seq<char>) -> Seq<char>
    decreases s.len(),
{
    if s.len() == 0 {
        seq![]
    } else if s.last() == ',' {
        without_commas(s.drop_last())
    } else {
        without_commas(s.drop_last()).push(s.last())
    }
}

proof fn lemma_without_commas_concat(a: Seq<char>, b: Seq<char>)
    ensures
        without_commas(a + b) == without_commas(a) + without_commas(b),
    decreases b.len(),
{
    if b.len() == 0 {
        assert(a + b =~= a);
        assert(without_commas(a) + without_commas(b) =~= without_commas(a));
    } else {
        assert((a + b).drop_last() =~= a + b.drop_last());
        assert((a + b).last() == b.last());
        lemma_without_commas_concat(a, b.drop_last());
        if b.last() != ',' {
            assert(without_commas(a) + without_commas(b) =~= (without_commas(a) + without_commas(
                b.drop_last(),
            )).push(b.last()));
        }
    }
}

proof fn lemma_without_commas_plain(s: Seq<char>)
    requires
        forall|k: int| 0 <= k < s.len() ==> s[k] != ',',
    ensures
        without_commas(s) == s,
    decreases s.len(),
{
    if s.len() > 0 {
        assert forall|k: int| 0 <= k < s.drop_last().len() implies s.drop_last()[k] != ',' by {
            assert(s.drop_last()[k] == s[k]);
        }
        lemma_without_commas_plain(s.drop_last());
        assert(s.drop_last().push(s.last()) =~= s);
    }
}

proof fn lemma_decimal_has_no_comma(n: nat)
    ensures
        forall|k: int| 0 <= k < decimal(n).len() ==> decimal(n)[k] != ',',
    decreases n,
{
    if n >= 10 {
        lemma_decimal_has_no_comma(n / 10);
        let d = decimal(n);
        assert forall|k: int| 0 <= k < d.len() implies d[k] != ',' by {
            if k < d.len() - 1 {
                assert(d[k] == decimal(n / 10)[k]);
            }
        }
    }
}

proof fn lemma_group_thousands_keeps_digits(d: Seq<char>)
    requires
        forall|k: int| 0 <= k < d.len() ==> d[k] != ',',
    ensures
        without_commas(group_thousands(d)) == d,
    decreases d.len(),
{
    if d.len() <= 3 {
        lemma_without_commas_plain(d);
    } else {
        let head = d.take(d.len() - 3);
        let tail = d.skip(d.len() - 3);
        assert forall|k: int| 0 <= k < head.len() implies head[k] != ',' by {
            assert(head[k] == d[k]);
        }
        assert forall|k: int| 0 <= k < tail.len() implies tail[k] != ',' by {
            assert(tail[k] == d[k + d.len() - 3]);
        }
        lemma_group_thousands_keeps_digits(head);
        lemma_without_commas_plain(tail);
        let g = group_thousands(head);
        lemma_without_commas_concat(g + seq![','], tail);
        lemma_without_commas_concat(g, seq![',']);
        assert(seq![','].drop_last() =~= Seq::<char>::empty());
        assert(seq![','].last() == ',');
        reveal_with_fuel(without_commas, 2);
        assert(without_commas(seq![',']) =~= Seq::<char>::empty());
        assert(head + tail =~= d);
    }
}

/// Thousands separators change only the look of a number: the formatted
/// number without its commas is its plain decimal form, sign included.
pub proof fn lemma_grouping_keeps_digits(n: int)
    ensures
        without_commas(grouped_number(n)) == if n < 0 {
            seq!['-'] + decimal((-n) as nat)
        } else {
            decimal(n as nat)
        },
{
    let m: nat = if n < 0 {
        (-n) as nat
    } else {
        n as nat
    };
    lemma_decimal_has_no_comma(m);
    lemma_group_thousands_keeps_digits(decimal(m));
    if n < 0 {
        lemma_without_commas_concat(seq!['-'], group_thousands(decimal(m)));
        assert(seq!['-'].drop_last() =~= Seq::<char>::empty());
        assert(seq!['-'].last() == '-');
        reveal_with_fuel(without_commas, 2);
        assert(without_commas(seq!['-']) =~= seq!['-']);
    }
}

/// How a stat's value is written in the stat table.
#[derive(Clone, Copy, PartialEq, Eq, Structural, Debug)]
pub enum StatStyle {
    /// One decimal and a percent sign.
    Percent,
    /// Two decimals.
    TwoDecimals,
    /// A whole number with thousands separators.
    WholeNumber,
    /// Decided by the value: whole numbers as such, else one decimal.
    ByValue,
}

/// The style of stat `stat`: resistances, chances, percentages and the
/// critical multiplier as percentages; speed and rates with two decimals;
/// the pools, defences and attributes as whole numbers; any other by value.
pub open spec fn stat_style_of(stat: Seq<char>) -> StatStyle {
    if contains_seq(stat, "Resist"@) || contains_seq(stat, "Chance"@) || contains_seq(
        stat,
        "Percent"@,
    ) || stat == "CritMultiplier"@ {
        StatStyle::Percent
    } else if stat == "Speed"@ || contains_seq(stat, "Rate"@) {
        StatStyle::TwoDecimals
    } else if stat == "Life"@ || stat == "Mana"@ || stat == "EnergyShield"@ || stat == "Armour"@
        || stat == "Evasion"@ || stat == "Str"@ || stat == "Dex"@ || stat == "Int"@ {
        StatStyle::WholeNumber
    } else {
        StatStyle::ByValue
    }
}

/// How the value of stat `stat` is written.
pub fn stat_style(stat: &str) -> (r: StatStyle)
    ensures
        r == stat_style_of(stat@),
{
    let s = chars_of(stat);
    if contains(&s, &chars_of("Resist")) || contains(&s, &chars_of("Chance")) || contains(
        &s,
        &chars_of("Percent"),
    ) || same_chars(&s, &chars_of("CritMultiplier")) {
        StatStyle::Percent
    } else if same_chars(&s, &chars_of("Speed")) || contains(&s, &chars_of("Rate")) {
        StatStyle::TwoDecimals
    } else if same_chars(&s, &chars_of("Life")) || same_chars(&s, &chars_of("Mana")) || same_chars(
        &s,
        &chars_of("EnergyShield"),
    ) || same_chars(&s, &chars_of("Armour")) || same_chars(&s, &chars_of("Evasion"))
        || same_chars(&s, &chars_of("Str")) || same_chars(&s, &chars_of("Dex")) || same_chars(
        &s,
        &chars_of("Int"),
    ) {
        StatStyle::WholeNumber
    } else {
        StatStyle::ByValue
    }
}

} // verus!
