//! Parsers for `pyvenv.cfg`, `.dist-info/METADATA` and `Requires-Dist` entries.
//!
//! Reading the files is left to the caller; these functions take the text.
use vstd::prelude::*;
use crate::text::{
    chars_eq, chars_of, contains_chars, contains_seq, find_char, find_class, find_from, find_in,
    in_class, is_in_class, lemma_find_class_facts, lemma_trim_idempotent,
    lemma_trim_is_subrange, lemma_trim_lacks, lines, lowercase, next_line, occurs_at,
    occurs_at_chars, push_char, skip_whitespace, slice, starts_with_chars, str_eq, string_of,
    strip_leading, strip_leading_chars, strip_trailing, strip_trailing_chars, to_lowercase,
    trim, trim_chars, trim_start, CharClass,
};

verus! {

broadcast use vstd::string::group_string_axioms;

/// Parsed contents of a pyvenv.cfg file.
pub struct PyvenvConfig {
    pub version: String,
    pub executable: String,
    pub home: String,
    pub include_system_site_packages: bool,
}

/// Parsed package metadata from a .dist-info/METADATA file.
pub struct PackageInfo {
    pub name: String,
    pub version: String,
    pub summary: Option<String>,
    pub requires_dist: Vec<String>,
}

/// Parsed Requires-Dist entry.
pub struct ParsedRequirement {
    pub name: String,
    pub version_spec: Option<String>,
    pub extra: Option<String>,
}

/// The contents of a `PyvenvConfig`.
pub ghost struct PyvenvConfigSpec {
    pub version: Seq<char>,
    pub executable: Seq<char>,
    pub home: Seq<char>,
    pub include_system_site_packages: bool,
}

/// The contents of a `PackageInfo`.
pub ghost struct PackageInfoSpec {
    pub name: Seq<char>,
    pub version: Seq<char>,
    pub summary: Option<Seq<char>>,
    pub requires_dist: Seq<Seq<char>>,
}

/// The contents of a `ParsedRequirement`.
pub ghost struct RequirementSpec {
    pub name: Seq<char>,
    pub version_spec: Option<Seq<char>>,
    pub extra: Option<Seq<char>>,
}

impl View for PyvenvConfig {
    type V = PyvenvConfigSpec;

    open spec fn view(&self) -> PyvenvConfigSpec {
        PyvenvConfigSpec {
            version: self.version@,
            executable: self.executable@,
            home: self.home@,
            include_system_site_packages: self.include_system_site_packages,
        }
    }
}

impl View for PackageInfo {
    type V = PackageInfoSpec;

    open spec fn view(&self) -> PackageInfoSpec {
        PackageInfoSpec {
            name: self.name@,
            version: self.version@,
            summary: self.summary.deep_view(),
            requires_dist: self.requires_dist.deep_view(),
        }
    }
}

impl View for ParsedRequirement {
    type V = RequirementSpec;

    open spec fn view(&self) -> RequirementSpec {
        RequirementSpec {
            name: self.name@,
            version_spec: self.version_spec.deep_view(),
            extra: self.extra.deep_view(),
        }
    }
}

// ── Requires-Dist ──────────────────────────────────────────────────────────

pub open spec fn extra_word() -> Seq<char> {
    seq!['e', 'x', 't', 'r', 'a']
}

/// The quoted text that a comparison at the start of `s` compares with: after
/// optional whitespace, `==`, optional whitespace, then a text between two
/// copies of the same quote (`"` or `'`).
pub open spec fn compared_value(s: Seq<char>) -> Option<Seq<char>> {
    let a = trim_start(s);
    if a.len() >= 2 && a[0] == '=' && a[1] == '=' {
        let b = trim_start(a.subrange(2, a.len() as int));
        if b.len() > 0 && in_class(b[0], CharClass::Quote) {
            let rest = b.subrange(1, b.len() as int);
            match find_char(rest, b[0]) {
                Some(e) => Some(rest.subrange(0, e)),
                None => None,
            }
        } else {
            None
        }
    } else {
        None
    }
}

/// The extra that a marker compares with at position `i`, where the word
/// `extra` stands there.
pub open spec fn extra_at(cond: Seq<char>, i: int) -> Option<Seq<char>> {
    if occurs_at(cond, extra_word(), i) {
        compared_value(cond.subrange(i + extra_word().len(), cond.len() as int))
    } else {
        None
    }
}

/// The first extra that a marker compares with at or after position `i`.
pub open spec fn extra_from(cond: Seq<char>, i: nat) -> Option<Seq<char>>
    decreases cond.len() - i,
{
    if i < cond.len() {
        match extra_at(cond, i as int) {
            Some(v) => Some(v),
            None => extra_from(cond, i + 1),
        }
    } else {
        None
    }
}

/// The text between the first quote (`"` or `'`) in `cond` and the next copy
/// of that quote.
pub open spec fn first_quoted(cond: Seq<char>) -> Option<Seq<char>> {
    match find_class(cond, CharClass::Quote) {
        Some(st) => {
            let rest = cond.subrange(st + 1, cond.len() as int);
            match find_char(rest, cond[st]) {
                Some(e) => Some(rest.subrange(0, e)),
                None => None,
            }
        },
        None => None,
    }
}

/// The extra named by a marker such as `extra == "aiohttp"`: the quoted value
/// of the first `extra == ...` comparison in it, wherever it stands among
/// other clauses (`python_version >= "3.8" and extra == "test"` names `test`).
/// A marker that mentions `extra` without such a comparison names its first
/// quoted text; one that does not mention `extra` names none.
pub open spec fn extra_of(cond: Seq<char>) -> Option<Seq<char>> {
    match extra_from(cond, 0) {
        Some(v) => Some(v),
        None => if contains_seq(cond, extra_word()) {
            first_quoted(cond)
        } else {
            None
        },
    }
}

/// The name and the version constraint written in the part before `;`.
pub open spec fn name_and_constraint(main: Seq<char>) -> (Seq<char>, Option<Seq<char>>) {
    match find_char(main, '(') {
        Some(i) => (
            trim(main.subrange(0, i)),
            Some(
                trim(
                    strip_trailing(strip_leading(trim(main.subrange(i, main.len() as int)), '('), ')'),
                ),
            ),
        ),
        None => match find_class(main, CharClass::Comparison) {
            Some(i) => (trim(main.subrange(0, i)), Some(trim(main.subrange(i, main.len() as int)))),
            None => (trim(main), None),
        },
    }
}

/// The requirement a `Requires-Dist` value describes.
pub open spec fn requirement_of(raw: Seq<char>) -> RequirementSpec {
    let r = trim(raw);
    let (main, extra) = match find_char(r, ';') {
        Some(i) => (trim(r.subrange(0, i)), extra_of(trim(r.subrange(i + 1, r.len() as int)))),
        None => (r, None),
    };
    let (name, constraint) = name_and_constraint(main);
    RequirementSpec {
        name,
        version_spec: match constraint {
            Some(v) => if v.len() > 0 {
                Some(v)
            } else {
                None
            },
            None => None,
        },
        extra,
    }
}

fn extra_word_chars() -> (r: Vec<char>)
    ensures
        r@ == extra_word(),
{
    let mut r: Vec<char> = Vec::new();
    r.push('e');
    r.push('x');
    r.push('t');
    r.push('r');
    r.push('a');
    assert(r@ =~= extra_word());
    r
}

/// The quoted value compared with by a comparison that starts at `from`.
fn compared_value_chars(v: &Vec<char>, from: usize) -> (r: Option<Vec<char>>)
    requires
        from <= v.len(),
    ensures
        match r {
            Some(x) => compared_value(v@.subrange(from as int, v.len() as int)) == Some(x@),
            None => compared_value(v@.subrange(from as int, v.len() as int)) is None,
        },
{
    let n = v.len();
    let i = skip_whitespace(v, from);
    let ghost a = v@.subrange(i as int, n as int);
    if i < n && n - i >= 2 && v[i] == '=' && v[i + 1] == '=' {
        let j = skip_whitespace(v, i + 2);
        assert(a.subrange(2, a.len() as int) =~= v@.subrange(i + 2, n as int));
        if j < n && is_in_class(v[j], CharClass::Quote) {
            let q = v[j];
            let rest = slice(v, j + 1, n);
            assert(rest@ =~= v@.subrange(j as int, n as int).subrange(1, n - j));
            match find_in(&rest, q) {
                Some(e) => Some(slice(&rest, 0, e)),
                None => None,
            }
        } else {
            None
        }
    } else {
        None
    }
}

fn extra_from_chars(cond: &Vec<char>) -> (r: Option<Vec<char>>)
    ensures
        match r {
            Some(v) => extra_of(cond@) == Some(v@),
            None => extra_of(cond@) is None,
        },
{
    let word = extra_word_chars();
    let n = cond.len();
    let mut i: usize = 0;
    while i < n
        invariant
            i <= n == cond.len(),
            word@ == extra_word(),
            extra_from(cond@, 0) == extra_from(cond@, i as nat),
        decreases n - i,
    {
        if occurs_at_chars(cond, &word, i) {
            if let Some(v) = compared_value_chars(cond, i + 5) {
                return Some(v);
            }
        }
        i += 1;
    }
    if !contains_chars(cond, &word) {
        return None;
    }
    assert(cond@.subrange(0, n as int) =~= cond@);
    match find_from(cond, 0, CharClass::Quote) {
        Some(st) => {
            let quote = cond[st];
            let rest = slice(cond, st + 1, n);
            match find_in(&rest, quote) {
                Some(e) => Some(slice(&rest, 0, e)),
                None => None,
            }
        },
        None => None,
    }
}

/// Extracts the extra name from a condition like `extra == "aiohttp"` or
/// `extra == 'aiohttp'`: the value that `extra` is compared with, also where
/// other clauses come first.
pub fn extract_extra(condition: &str) -> (r: Option<String>)
    ensures
        r.deep_view() == extra_of(condition@),
{
    let cond = chars_of(condition);
    match extra_from_chars(&cond) {
        Some(v) => Some(string_of(&v)),
        None => None,
    }
}

fn name_and_constraint_chars(main: &Vec<char>) -> (r: (Vec<char>, Option<Vec<char>>))
    ensures
        r.0@ == name_and_constraint(main@).0,
        match r.1 {
            Some(v) => name_and_constraint(main@).1 == Some(v@),
            None => name_and_constraint(main@).1 is None,
        },
{
    let n = main.len();
    match find_in(main, '(') {
        Some(i) => {
            let before = slice(main, 0, i);
            let name = trim_chars(&before);
            let after = slice(main, i, n);
            let t = trim_chars(&after);
            let a = strip_leading_chars(&t, '(');
            let b = strip_trailing_chars(&a, ')');
            let constraint = trim_chars(&b);
            (name, Some(constraint))
        },
        None => {
            assert(main@.subrange(0, n as int) =~= main@);
            match find_from(main, 0, CharClass::Comparison) {
                Some(i) => {
                    let before = slice(main, 0, i);
                    let name = trim_chars(&before);
                    let after = slice(main, i, n);
                    let constraint = trim_chars(&after);
                    (name, Some(constraint))
                },
                None => (trim_chars(main), None),
            }
        },
    }
}

/// Parses a `Requires-Dist` value into name, version constraint and extra.
///
/// Examples: `anyio >=3.5.0,<5`, `aiohttp ; extra == "aiohttp"`,
/// `numpy (>=1.21) ; extra == "datalib"`.
pub fn parse_requires_dist(raw: &str) -> (r: ParsedRequirement)
    ensures
        r@ == requirement_of(raw@),
        r@.name == trim(r@.name),
        r@.version_spec matches Some(v) ==> v.len() > 0 && v == trim(v),
{
    let all = chars_of(raw);
    let r = trim_chars(&all);
    let n = r.len();
    let (main, extra) = match find_in(&r, ';') {
        Some(i) => {
            let before = slice(&r, 0, i);
            let main = trim_chars(&before);
            let after = slice(&r, i + 1, n);
            let cond = trim_chars(&after);
            (main, extra_from_chars(&cond))
        },
        None => (r, None),
    };
    let (name_chars, constraint) = name_and_constraint_chars(&main);
    let version_spec = match constraint {
        Some(v) => if v.len() > 0 {
            Some(string_of(&v))
        } else {
            None
        },
        None => None,
    };
    let extra_text = match extra {
        Some(v) => Some(string_of(&v)),
        None => None,
    };
    proof {
        lemma_requirement_laws(raw@);
    }
    ParsedRequirement { name: string_of(&name_chars), version_spec, extra: extra_text }
}

/// An extra is only ever read where the marker names `extra`.
proof fn lemma_extra_mentions_word(cond: Seq<char>, i: nat)
    requires
        extra_from(cond, i) is Some,
    ensures
        contains_seq(cond, extra_word()),
    decreases cond.len() - i,
{
    if i < cond.len() {
        if extra_at(cond, i as int) is Some {
            assert(occurs_at(cond, extra_word(), i as int));
        } else {
            lemma_extra_mentions_word(cond, i + 1);
        }
    }
}

/// A part of a text lacks every character that the text lacks.
proof fn lemma_subrange_lacks(s: Seq<char>, lo: int, hi: int, c: char)
    requires
        0 <= lo <= hi <= s.len(),
        !s.contains(c),
    ensures
        !s.subrange(lo, hi).contains(c),
{
    if s.subrange(lo, hi).contains(c) {
        let k = choose|k: int| 0 <= k < hi - lo && s.subrange(lo, hi)[k] == c;
        assert(s[lo + k] == c);
    }
}

/// What every parsed requirement satisfies: trimming the input first changes
/// nothing; the name is trimmed and holds no `;` or `(`; a version constraint,
/// when there is one, is non-empty and trimmed; and an extra is only read from
/// a marker after the first `;` that names `extra`.
pub proof fn lemma_requirement_laws(raw: Seq<char>)
    ensures
        requirement_of(trim(raw)) == requirement_of(raw),
        requirement_of(raw).name == trim(requirement_of(raw).name),
        !requirement_of(raw).name.contains(';'),
        !requirement_of(raw).name.contains('('),
        requirement_of(raw).version_spec matches Some(v) ==> v.len() > 0 && v == trim(v),
        requirement_of(raw).extra is Some ==> (find_char(trim(raw), ';') matches Some(i)
            && contains_seq(trim(raw).subrange(i + 1, trim(raw).len() as int), extra_word())),
{
    lemma_trim_idempotent(raw);
    let r = trim(raw);
    lemma_find_class_facts(r, CharClass::Exactly(';'));
    let main = match find_char(r, ';') {
        Some(i) => trim(r.subrange(0, i)),
        None => r,
    };
    match find_char(r, ';') {
        Some(i) => {
            assert(!r.subrange(0, i).contains(';')) by {
                if r.subrange(0, i).contains(';') {
                    let k = choose|k: int| 0 <= k < i && r.subrange(0, i)[k] == ';';
                    assert(in_class(r[k], CharClass::Exactly(';')));
                }
            }
            lemma_trim_lacks(r.subrange(0, i), ';');
            let tail = r.subrange(i + 1, r.len() as int);
            let cond = trim(tail);
            if extra_from(cond, 0) is Some {
                lemma_extra_mentions_word(cond, 0);
            }
            if extra_of(cond) is Some {
                let (lo, hi) = lemma_trim_is_subrange(tail);
                let j = choose|j: int| occurs_at(cond, extra_word(), j);
                assert(tail.subrange(lo + j, lo + j + 5) =~= cond.subrange(j, j + 5));
                assert(occurs_at(tail, extra_word(), lo + j));
            }
        },
        None => {
            assert(!r.contains(';')) by {
                if r.contains(';') {
                    let k = choose|k: int| 0 <= k < r.len() && r[k] == ';';
                    assert(in_class(r[k], CharClass::Exactly(';')));
                }
            }
        },
    }
    assert(!main.contains(';'));
    lemma_find_class_facts(main, CharClass::Exactly('('));
    match find_char(main, '(') {
        Some(i) => {
            let before = main.subrange(0, i);
            assert(!before.contains('(')) by {
                if before.contains('(') {
                    let k = choose|k: int| 0 <= k < i && before[k] == '(';
                    assert(in_class(main[k], CharClass::Exactly('(')));
                }
            }
            lemma_subrange_lacks(main, 0, i, ';');
            lemma_trim_lacks(before, ';');
            lemma_trim_lacks(before, '(');
            lemma_trim_idempotent(before);
            lemma_trim_idempotent(
                strip_trailing(strip_leading(trim(main.subrange(i, main.len() as int)), '('), ')'),
            );
        },
        None => {
            assert(!main.contains('(')) by {
                if main.contains('(') {
                    let k = choose|k: int| 0 <= k < main.len() && main[k] == '(';
                    assert(in_class(main[k], CharClass::Exactly('(')));
                }
            }
            match find_class(main, CharClass::Comparison) {
                Some(i) => {
                    lemma_find_class_facts(main, CharClass::Comparison);
                    lemma_subrange_lacks(main, 0, i, ';');
                    lemma_subrange_lacks(main, 0, i, '(');
                    lemma_trim_lacks(main.subrange(0, i), ';');
                    lemma_trim_lacks(main.subrange(0, i), '(');
                    lemma_trim_idempotent(main.subrange(0, i));
                    lemma_trim_idempotent(main.subrange(i, main.len() as int));
                },
                None => {
                    lemma_trim_lacks(main, ';');
                    lemma_trim_lacks(main, '(');
                    lemma_trim_idempotent(main);
                },
            }
        },
    }
}

// ── METADATA ───────────────────────────────────────────────────────────────

pub open spec fn name_prefix() -> Seq<char> {
    seq!['N', 'a', 'm', 'e', ':', ' ']
}

pub open spec fn version_prefix() -> Seq<char> {
    seq!['V', 'e', 'r', 's', 'i', 'o', 'n', ':', ' ']
}

pub open spec fn summary_prefix() -> Seq<char> {
    seq!['S', 'u', 'm', 'm', 'a', 'r', 'y', ':', ' ']
}

pub open spec fn requires_prefix() -> Seq<char> {
    seq!['R', 'e', 'q', 'u', 'i', 'r', 'e', 's', '-', 'D', 'i', 's', 't', ':', ' ']
}

pub open spec fn unknown_version() -> Seq<char> {
    seq!['u', 'n', 'k', 'n', 'o', 'w', 'n']
}

pub open spec fn has_prefix(l: Seq<char>, p: Seq<char>) -> bool {
    p.len() <= l.len() && l.subrange(0, p.len() as int) == p
}

/// The header fields gathered so far while reading METADATA.
pub ghost struct MetadataFields {
    pub name: Option<Seq<char>>,
    pub version: Option<Seq<char>>,
    pub summary: Option<Seq<char>>,
    pub requires_dist: Seq<Seq<char>>,
}

pub open spec fn no_fields() -> MetadataFields {
    MetadataFields { name: None, version: None, summary: None, requires_dist: seq![] }
}

/// What one header line adds: a later `Name`, `Version` or `Summary` replaces
/// an earlier one; every `Requires-Dist` is kept, in order.
pub open spec fn read_header(acc: MetadataFields, l: Seq<char>) -> MetadataFields {
    if has_prefix(l, name_prefix()) {
        MetadataFields {
            name: Some(trim(l.skip(name_prefix().len() as int))),
            version: acc.version,
            summary: acc.summary,
            requires_dist: acc.requires_dist,
        }
    } else if has_prefix(l, version_prefix()) {
        MetadataFields {
            name: acc.name,
            version: Some(trim(l.skip(version_prefix().len() as int))),
            summary: acc.summary,
            requires_dist: acc.requires_dist,
        }
    } else if has_prefix(l, summary_prefix()) {
        MetadataFields {
            name: acc.name,
            version: acc.version,
            summary: Some(trim(l.skip(summary_prefix().len() as int))),
            requires_dist: acc.requires_dist,
        }
    } else if has_prefix(l, requires_prefix()) {
        MetadataFields {
            name: acc.name,
            version: acc.version,
            summary: acc.summary,
            requires_dist: acc.requires_dist.push(trim(l.skip(requires_prefix().len() as int))),
        }
    } else {
        acc
    }
}

/// Reads header lines up to the first empty line (where the body starts).
pub open spec fn read_headers(ls: Seq<Seq<char>>, acc: MetadataFields) -> MetadataFields
    decreases ls.len(),
{
    if ls.len() == 0 || ls[0].len() == 0 {
        acc
    } else {
        read_headers(ls.drop_first(), read_header(acc, ls[0]))
    }
}

/// Headers end at the first empty line: whatever follows it (the description
/// body) never changes what is read.
pub proof fn lemma_body_is_ignored(ls: Seq<Seq<char>>, acc: MetadataFields, k: int)
    requires
        0 <= k < ls.len(),
        ls[k].len() == 0,
    ensures
        read_headers(ls, acc) == read_headers(ls.take(k), acc),
    decreases k,
{
    if k > 0 {
        if ls[0].len() != 0 {
            assert(ls.drop_first()[k - 1] == ls[k]);
            lemma_body_is_ignored(ls.drop_first(), read_header(acc, ls[0]), k - 1);
            assert(ls.take(k).drop_first() =~= ls.drop_first().take(k - 1));
            assert(ls.take(k)[0] == ls[0]);
        }
    }
}

/// The package a METADATA text describes; none without a `Name` header.
pub open spec fn metadata_of(content: Seq<char>) -> Option<PackageInfoSpec> {
    let m = read_headers(lines(content), no_fields());
    match m.name {
        Some(name) => Some(
            PackageInfoSpec {
                name,
                version: match m.version {
                    Some(v) => v,
                    None => unknown_version(),
                },
                summary: m.summary,
                requires_dist: m.requires_dist,
            },
        ),
        None => None,
    }
}

/// The four header prefixes begin with different letters, so a line starts
/// with at most one of them.
proof fn lemma_header_prefixes_exclusive(l: Seq<char>)
    ensures
        has_prefix(l, name_prefix()) ==> !has_prefix(l, version_prefix()) && !has_prefix(
            l,
            summary_prefix(),
        ) && !has_prefix(l, requires_prefix()),
        has_prefix(l, version_prefix()) ==> !has_prefix(l, summary_prefix()) && !has_prefix(
            l,
            requires_prefix(),
        ),
        has_prefix(l, summary_prefix()) ==> !has_prefix(l, requires_prefix()),
{
    if has_prefix(l, name_prefix()) {
        assert(l.subrange(0, name_prefix().len() as int)[0] == l[0]);
    }
    if has_prefix(l, version_prefix()) {
        assert(l.subrange(0, version_prefix().len() as int)[0] == l[0]);
    }
    if has_prefix(l, summary_prefix()) {
        assert(l.subrange(0, summary_prefix().len() as int)[0] == l[0]);
    }
    if has_prefix(l, requires_prefix()) {
        assert(l.subrange(0, requires_prefix().len() as int)[0] == l[0]);
    }
}

/// Reading header lines appends, in order, the entry of every `Requires-Dist`
/// line among them and nothing else.
proof fn lemma_read_requires(
    t: Seq<Seq<char>>,
    acc: MetadataFields,
    is_entry: spec_fn(Seq<char>) -> bool,
    entry: spec_fn(Seq<char>) -> Seq<char>,
)
    requires
        forall|j: int| 0 <= j < t.len() ==> #[trigger] t[j].len() > 0,
        forall|l: Seq<char>| #[trigger] is_entry(l) == has_prefix(l, requires_prefix()),
        forall|l: Seq<char>| #[trigger] entry(l) == trim(l.skip(requires_prefix().len() as int)),
    ensures
        read_headers(t, acc).requires_dist == acc.requires_dist + t.filter(is_entry).map_values(
            entry,
        ),
    decreases t.len(),
{
    reveal(Seq::filter);
    if t.len() == 0 {
        assert(t.filter(is_entry) =~= t);
        assert(acc.requires_dist + t.filter(is_entry).map_values(entry) =~= acc.requires_dist);
    } else {
        let x = t[0];
        let rest = t.drop_first();
        assert(t =~= seq![x] + rest);
        Seq::filter_distributes_over_add(seq![x], rest, is_entry);
        let one = seq![x];
        assert(one.drop_last() =~= Seq::<Seq<char>>::empty());
        assert(one.last() == x);
        assert(one.drop_last().filter(is_entry) =~= Seq::<Seq<char>>::empty());
        let fx = one.filter(is_entry);
        assert(fx == if is_entry(x) {
            one.drop_last().filter(is_entry).push(x)
        } else {
            one.drop_last().filter(is_entry)
        });
        let fr = rest.filter(is_entry);
        assert forall|j: int| 0 <= j < rest.len() implies #[trigger] rest[j].len() > 0 by {
            assert(rest[j] == t[j + 1]);
        }
        let next = read_header(acc, x);
        lemma_read_requires(rest, next, is_entry, entry);
        assert((fx + fr).map_values(entry) =~= fx.map_values(entry) + fr.map_values(entry));
        if is_entry(x) {
            lemma_header_prefixes_exclusive(x);
            assert(fx =~= seq![x]);
            assert(next.requires_dist == acc.requires_dist.push(entry(x)));
            assert(acc.requires_dist + (fx.map_values(entry) + fr.map_values(entry)) =~= next.requires_dist
                + fr.map_values(entry));
        } else {
            assert(fx =~= Seq::<Seq<char>>::empty());
            assert(next.requires_dist == acc.requires_dist);
            assert(acc.requires_dist + (fx.map_values(entry) + fr.map_values(entry)) =~= next.requires_dist
                + fr.map_values(entry));
        }
    }
}

/// Every `Requires-Dist` header is kept: given the position `k` of the first
/// empty line (or the number of lines, when there is none), the package's
/// `requires_dist` lists, in order, the text after `Requires-Dist: ` (trimmed)
/// of each line before it that starts with that prefix, whatever the text
/// holds (a `;` marker included). In particular there are exactly as many
/// entries as such header lines.
pub proof fn lemma_metadata_keeps_every_requires_dist(content: Seq<char>, k: int)
    requires
        0 <= k <= lines(content).len(),
        forall|j: int| 0 <= j < k ==> #[trigger] lines(content)[j].len() > 0,
        k < lines(content).len() ==> lines(content)[k].len() == 0,
    ensures
        metadata_of(content) matches Some(p) ==> p.requires_dist == lines_with_prefix(
            lines(content).take(k),
            "Requires-Dist: "@,
        ).map_values(|l: Seq<char>| trim(l.skip(15))),
{
    reveal_strlit("Requires-Dist: ");
    assert("Requires-Dist: "@ =~= requires_prefix());
    let ls = lines(content);
    let t = ls.take(k);
    if k < ls.len() {
        lemma_body_is_ignored(ls, no_fields(), k);
    } else {
        assert(t =~= ls);
    }
    let is_entry = starts_with_text("Requires-Dist: "@);
    let entry = |l: Seq<char>| trim(l.skip(15));
    assert forall|l: Seq<char>| #[trigger] is_entry(l) == has_prefix(l, requires_prefix()) by {
        if l.len() >= 15 {
            assert(l.take(15) =~= l.subrange(0, 15));
        }
    }
    assert forall|j: int| 0 <= j < t.len() implies #[trigger] t[j].len() > 0 by {
        assert(t[j] == ls[j]);
    }
    lemma_read_requires(t, no_fields(), is_entry, entry);
    assert(no_fields().requires_dist + t.filter(is_entry).map_values(entry) =~= t.filter(
        is_entry,
    ).map_values(entry));
}

/// Whether a line starts with `p`.
pub open spec fn starts_with_text(p: Seq<char>) -> spec_fn(Seq<char>) -> bool {
    |l: Seq<char>| l.len() >= p.len() && l.take(p.len() as int) == p
}

/// The lines of `t` that start with `p`, in order.
pub open spec fn lines_with_prefix(t: Seq<Seq<char>>, p: Seq<char>) -> Seq<Seq<char>> {
    t.filter(starts_with_text(p))
}

spec fn single_field(m: MetadataFields, which: int) -> Option<Seq<char>> {
    if which == 0 {
        m.name
    } else if which == 1 {
        m.version
    } else {
        m.summary
    }
}

spec fn single_prefix(which: int) -> Seq<char> {
    if which == 0 {
        name_prefix()
    } else if which == 1 {
        version_prefix()
    } else {
        summary_prefix()
    }
}

/// Reading header lines leaves `Name`, `Version` or `Summary` at the value of
/// the last line with that prefix, or as it was when there is none.
proof fn lemma_read_last(t: Seq<Seq<char>>, acc: MetadataFields, which: int)
    requires
        0 <= which < 3,
        forall|j: int| 0 <= j < t.len() ==> #[trigger] t[j].len() > 0,
    ensures
        single_field(read_headers(t, acc), which) == if lines_with_prefix(t, single_prefix(which)).len()
            > 0 {
            Some(
                trim(
                    lines_with_prefix(t, single_prefix(which)).last().skip(
                        single_prefix(which).len() as int,
                    ),
                ),
            )
        } else {
            single_field(acc, which)
        },
    decreases t.len(),
{
    reveal(Seq::filter);
    let p = single_prefix(which);
    let is_header = starts_with_text(p);
    if t.len() > 0 {
        let x = t[0];
        let rest = t.drop_first();
        assert(t =~= seq![x] + rest);
        Seq::filter_distributes_over_add(seq![x], rest, is_header);
        let one = seq![x];
        assert(one.drop_last() =~= Seq::<Seq<char>>::empty());
        assert(one.last() == x);
        assert(one.drop_last().filter(is_header) =~= Seq::<Seq<char>>::empty());
        let fx = one.filter(is_header);
        let fr = rest.filter(is_header);
        assert forall|j: int| 0 <= j < rest.len() implies #[trigger] rest[j].len() > 0 by {
            assert(rest[j] == t[j + 1]);
        }
        let next = read_header(acc, x);
        lemma_read_last(rest, next, which);
        lemma_header_prefixes_exclusive(x);
        if x.len() >= p.len() {
            assert(x.take(p.len() as int) =~= x.subrange(0, p.len() as int));
        }
        if is_header(x) {
            assert(fx =~= seq![x]);
        } else {
            assert(fx =~= Seq::<Seq<char>>::empty());
        }
        if fr.len() > 0 {
            assert((fx + fr).last() == fr.last());
        } else {
            assert(fx + fr =~= fx);
        }
    }
}

/// The `Name`, `Version` and `Summary` of a METADATA text come from its header
/// lines (those before the first empty line, at `k`): a package is read
/// exactly when some header starts with `Name: `; its name is the trimmed rest
/// of the last such line; its version that of the last `Version: ` line, or
/// `unknown` without one; its summary that of the last `Summary: ` line, or
/// none.
pub proof fn lemma_metadata_header_fields(content: Seq<char>, k: int)
    requires
        0 <= k <= lines(content).len(),
        forall|j: int| 0 <= j < k ==> #[trigger] lines(content)[j].len() > 0,
        k < lines(content).len() ==> lines(content)[k].len() == 0,
    ensures
        metadata_of(content) is Some <==> lines_with_prefix(lines(content).take(k), "Name: "@).len()
            > 0,
        metadata_of(content) matches Some(p) ==> p.name == trim(
            lines_with_prefix(lines(content).take(k), "Name: "@).last().skip(6),
        ),
        metadata_of(content) matches Some(p) ==> p.version == if lines_with_prefix(
            lines(content).take(k),
            "Version: "@,
        ).len() > 0 {
            trim(lines_with_prefix(lines(content).take(k), "Version: "@).last().skip(9))
        } else {
            "unknown"@
        },
        metadata_of(content) matches Some(p) ==> p.summary == if lines_with_prefix(
            lines(content).take(k),
            "Summary: "@,
        ).len() > 0 {
            Some(trim(lines_with_prefix(lines(content).take(k), "Summary: "@).last().skip(9)))
        } else {
            None
        },
{
    reveal_strlit("Name: ");
    reveal_strlit("Version: ");
    reveal_strlit("Summary: ");
    reveal_strlit("unknown");
    assert("Name: "@ =~= name_prefix());
    assert("Version: "@ =~= version_prefix());
    assert("Summary: "@ =~= summary_prefix());
    assert("unknown"@ =~= unknown_version());
    let ls = lines(content);
    let t = ls.take(k);
    if k < ls.len() {
        lemma_body_is_ignored(ls, no_fields(), k);
    } else {
        assert(t =~= ls);
    }
    assert forall|j: int| 0 <= j < t.len() implies #[trigger] t[j].len() > 0 by {
        assert(t[j] == ls[j]);
    }
    lemma_read_last(t, no_fields(), 0);
    lemma_read_last(t, no_fields(), 1);
    lemma_read_last(t, no_fields(), 2);
}

spec fn opt_chars(o: Option<Vec<char>>) -> Option<Seq<char>> {
    match o {
        Some(x) => Some(x@),
        None => None,
    }
}

spec fn fields_of(
    name: Option<Vec<char>>,
    version: Option<Vec<char>>,
    summary: Option<Vec<char>>,
    reqs: Seq<Seq<char>>,
) -> MetadataFields {
    MetadataFields {
        name: opt_chars(name),
        version: opt_chars(version),
        summary: opt_chars(summary),
        requires_dist: reqs,
    }
}

fn prefix_chars(which: u8) -> (r: Vec<char>)
    requires
        which < 4,
    ensures
        which == 0 ==> r@ == name_prefix(),
        which == 1 ==> r@ == version_prefix(),
        which == 2 ==> r@ == summary_prefix(),
        which == 3 ==> r@ == requires_prefix(),
{
    let mut r: Vec<char> = Vec::new();
    if which == 0 {
        r.push('N');
        r.push('a');
        r.push('m');
        r.push('e');
    } else if which == 1 || which == 2 {
        if which == 1 {
            r.push('V');
            r.push('e');
            r.push('r');
            r.push('s');
            r.push('i');
            r.push('o');
            r.push('n');
        } else {
            r.push('S');
            r.push('u');
            r.push('m');
            r.push('m');
            r.push('a');
            r.push('r');
            r.push('y');
        }
    } else {
        r.push('R');
        r.push('e');
        r.push('q');
        r.push('u');
        r.push('i');
        r.push('r');
        r.push('e');
        r.push('s');
        r.push('-');
        r.push('D');
        r.push('i');
        r.push('s');
        r.push('t');
    }
    r.push(':');
    r.push(' ');
    assert(which == 0 ==> r@ =~= name_prefix());
    assert(which == 1 ==> r@ =~= version_prefix());
    assert(which == 2 ==> r@ =~= summary_prefix());
    assert(which == 3 ==> r@ =~= requires_prefix());
    r
}

/// The trimmed rest of `l` after its first `k` characters.
fn trimmed_rest(l: &Vec<char>, k: usize) -> (r: Vec<char>)
    requires
        k <= l.len(),
    ensures
        r@ == trim(l@.skip(k as int)),
{
    let rest = slice(l, k, l.len());
    assert(rest@ =~= l@.skip(k as int));
    trim_chars(&rest)
}

fn opt_string(v: &Option<Vec<char>>) -> (r: Option<String>)
    ensures
        r.deep_view() == match v {
            Some(x) => Some(x@),
            None => None::<Seq<char>>,
        },
{
    match v {
        Some(x) => Some(string_of(x)),
        None => None,
    }
}

/// Parses the text of a METADATA file: header lines up to the first empty
/// line; `Name` is required, `Version` defaults to `unknown`.
pub fn parse_metadata_text(content: &str) -> (r: Option<PackageInfo>)
    ensures
        match r {
            Some(p) => metadata_of(content@) == Some(p@),
            None => metadata_of(content@) is None,
        },
{
    let v = chars_of(content);
    let n = v.len();
    let name_p = prefix_chars(0);
    let version_p = prefix_chars(1);
    let summary_p = prefix_chars(2);
    let requires_p = prefix_chars(3);
    let mut name: Option<Vec<char>> = None;
    let mut version: Option<Vec<char>> = None;
    let mut summary: Option<Vec<char>> = None;
    let mut reqs: Vec<String> = Vec::new();
    let mut pos: usize = 0;
    let ghost whole = v@;
    assert(v@.subrange(0, n as int) =~= v@);
    assert(fields_of(name, version, summary, reqs.deep_view()) == no_fields()) by {
        assert(reqs.deep_view() =~= Seq::<Seq<char>>::empty());
    }
    while pos < n
        invariant_except_break
            pos <= n == v.len(),
            v@ == whole,
            name_p@ == name_prefix(),
            version_p@ == version_prefix(),
            summary_p@ == summary_prefix(),
            requires_p@ == requires_prefix(),
            read_headers(lines(whole), no_fields()) == read_headers(
                lines(whole.subrange(pos as int, n as int)),
                fields_of(name, version, summary, reqs.deep_view()),
            ),
        ensures
            read_headers(lines(whole), no_fields()) == fields_of(name, version, summary, reqs.deep_view()),
        decreases n - pos,
    {
        let (line, next) = next_line(&v, pos);
        if line.len() == 0 {
            break;
        }
        let ghost before = fields_of(name, version, summary, reqs.deep_view());
        if starts_with_chars(&line, &name_p) {
            name = Some(trimmed_rest(&line, name_p.len()));
        } else if starts_with_chars(&line, &version_p) {
            version = Some(trimmed_rest(&line, version_p.len()));
        } else if starts_with_chars(&line, &summary_p) {
            summary = Some(trimmed_rest(&line, summary_p.len()));
        } else if starts_with_chars(&line, &requires_p) {
            let t = trimmed_rest(&line, requires_p.len());
            reqs.push(string_of(&t));
        }
        proof {
            let ls = lines(whole.subrange(pos as int, n as int));
            assert(ls[0] == line@);
            assert(ls.drop_first() =~= lines(whole.subrange(next as int, n as int)));
            assert(reqs.deep_view() =~= read_header(before, line@).requires_dist);
        }
        pos = next;
    }
    proof {
        if pos == n {
            assert(lines(whole.subrange(n as int, n as int)) =~= Seq::<Seq<char>>::empty());
        }
    }
    match name {
        Some(nm) => {
            let version_text = match version {
                Some(x) => string_of(&x),
                None => {
                    let mut u = String::new();
                    push_char(&mut u, 'u');
                    push_char(&mut u, 'n');
                    push_char(&mut u, 'k');
                    push_char(&mut u, 'n');
                    push_char(&mut u, 'o');
                    push_char(&mut u, 'w');
                    push_char(&mut u, 'n');
                    assert(u@ =~= unknown_version());
                    u
                },
            };
            Some(
                PackageInfo {
                    name: string_of(&nm),
                    version: version_text,
                    summary: opt_string(&summary),
                    requires_dist: reqs,
                },
            )
        },
        None => None,
    }
}

// ── pyvenv.cfg ─────────────────────────────────────────────────────────────

/// The key/value pair a `pyvenv.cfg` line gives: split at the first `=`, both
/// sides trimmed, the key lowercased. Lines without `=` give nothing.
pub open spec fn cfg_entry(l: Seq<char>) -> Option<(Seq<char>, Seq<char>)> {
    match find_char(l, '=') {
        Some(i) => Some((lowercase(trim(l.subrange(0, i))), trim(l.subrange(i + 1, l.len() as int)))),
        None => None,
    }
}

/// The entries of all lines, in order.
pub open spec fn cfg_entries(ls: Seq<Seq<char>>) -> Seq<(Seq<char>, Seq<char>)>
    decreases ls.len(),
{
    if ls.len() == 0 {
        seq![]
    } else {
        match cfg_entry(ls[0]) {
            Some(e) => seq![e] + cfg_entries(ls.drop_first()),
            None => cfg_entries(ls.drop_first()),
        }
    }
}

/// The value of the last entry with `key` (a later line overrides an earlier one).
pub open spec fn lookup_last(es: Seq<(Seq<char>, Seq<char>)>, key: Seq<char>) -> Option<Seq<char>>
    decreases es.len(),
{
    if es.len() == 0 {
        None
    } else if es.last().0 == key {
        Some(es.last().1)
    } else {
        lookup_last(es.drop_last(), key)
    }
}

pub open spec fn or_empty(o: Option<Seq<char>>) -> Seq<char> {
    match o {
        Some(v) => v,
        None => seq![],
    }
}

/// The configuration a list of entries describes: `executable` falls back to
/// `home`; `include-system-site-packages` holds only when its value is `true`.
pub open spec fn config_of(es: Seq<(Seq<char>, Seq<char>)>) -> PyvenvConfigSpec {
    PyvenvConfigSpec {
        version: or_empty(lookup_last(es, "version"@)),
        executable: match lookup_last(es, "executable"@) {
            Some(v) => v,
            None => or_empty(lookup_last(es, "home"@)),
        },
        home: or_empty(lookup_last(es, "home"@)),
        include_system_site_packages: lookup_last(es, "include-system-site-packages"@) == Some(
            "true"@,
        ),
    }
}

/// `lookup_last` gives the value of the last entry with the key, and nothing
/// when no entry has it.
proof fn lemma_lookup_last_facts(es: Seq<(Seq<char>, Seq<char>)>, key: Seq<char>)
    ensures
        forall|i: int|
            0 <= i < es.len() && es[i].0 == key && (forall|j: int|
                i < j < es.len() ==> es[j].0 != key) ==> lookup_last(es, key) == Some(es[i].1),
        (forall|i: int| 0 <= i < es.len() ==> es[i].0 != key) ==> lookup_last(es, key) is None,
    decreases es.len(),
{
    if es.len() > 0 {
        let d = es.drop_last();
        lemma_lookup_last_facts(d, key);
        assert forall|i: int|
            0 <= i < es.len() && es[i].0 == key && (forall|j: int|
                i < j < es.len() ==> es[j].0 != key) implies lookup_last(es, key) == Some(es[i].1) by {
            if i < es.len() - 1 {
                assert(es[es.len() - 1].0 != key);
                assert(d[i] == es[i]);
                assert forall|j: int| i < j < d.len() implies d[j].0 != key by {
                    assert(d[j] == es[j]);
                }
            }
        }
        if forall|i: int| 0 <= i < es.len() ==> es[i].0 != key {
            assert(es[es.len() - 1].0 != key);
            assert forall|i: int| 0 <= i < d.len() implies d[i].0 != key by {
                assert(d[i] == es[i]);
            }
        }
    }
}

/// What a `pyvenv.cfg` configuration takes from its entries: each field is the
/// value of the last entry whose key names it (`version`, `home`,
/// `executable`), empty when there is none, except that `executable` falls
/// back to `home`; system site packages are included exactly when the last
/// `include-system-site-packages` entry is `true`.
pub proof fn lemma_pyvenv_config_fields(es: Seq<(Seq<char>, Seq<char>)>, key: Seq<char>, i: int)
    requires
        0 <= i < es.len(),
        es[i].0 == key,
        forall|j: int| i < j < es.len() ==> es[j].0 != key,
    ensures
        key == "version"@ ==> config_of(es).version == es[i].1,
        key == "home"@ ==> config_of(es).home == es[i].1,
        key == "executable"@ ==> config_of(es).executable == es[i].1,
        key == "include-system-site-packages"@ ==> config_of(es).include_system_site_packages == (
        es[i].1 == "true"@),
{
    lemma_lookup_last_facts(es, key);
}

/// Without an entry for a field, `version` and `home` are empty, `executable`
/// is `home`, and system site packages are not included.
pub proof fn lemma_pyvenv_config_defaults(es: Seq<(Seq<char>, Seq<char>)>, key: Seq<char>)
    requires
        forall|j: int| 0 <= j < es.len() ==> es[j].0 != key,
    ensures
        key == "version"@ ==> config_of(es).version == Seq::<char>::empty(),
        key == "home"@ ==> config_of(es).home == Seq::<char>::empty(),
        key == "executable"@ ==> config_of(es).executable == config_of(es).home,
        key == "include-system-site-packages"@ ==> !config_of(es).include_system_site_packages,
{
    lemma_lookup_last_facts(es, key);
}

/// The entries as character sequences.
pub open spec fn entries_view(es: Seq<(String, String)>) -> Seq<(Seq<char>, Seq<char>)> {
    es.map_values(|e: (String, String)| (e.0@, e.1@))
}

/// The key/value entries of a `pyvenv.cfg` text, one per line holding `=`.
pub fn pyvenv_entries(content: &str) -> (r: Vec<(String, String)>)
    ensures
        entries_view(r@) == cfg_entries(lines(content@)),
{
    let v = chars_of(content);
    let n = v.len();
    let mut out: Vec<(String, String)> = Vec::new();
    let mut pos: usize = 0;
    let ghost whole = v@;
    assert(v@.subrange(0, n as int) =~= v@);
    assert(entries_view(out@) =~= Seq::<(Seq<char>, Seq<char>)>::empty());
    while pos < n
        invariant
            pos <= n == v.len(),
            v@ == whole,
            cfg_entries(lines(whole)) == entries_view(out@) + cfg_entries(
                lines(whole.subrange(pos as int, n as int)),
            ),
        decreases n - pos,
    {
        let (line, next) = next_line(&v, pos);
        let ghost before = out@;
        match find_in(&line, '=') {
            Some(i) => {
                let k = slice(&line, 0, i);
                let key = trim_chars(&k);
                let val = slice(&line, i + 1, line.len());
                let value = trim_chars(&val);
                let key_text = string_of(&key);
                let lower = to_lowercase(key_text.as_str());
                out.push((lower, string_of(&value)));
                proof {
                    assert(entries_view(out@) =~= entries_view(before).push(cfg_entry(line@)->0));
                }
            },
            None => {},
        }
        proof {
            let ls = lines(whole.subrange(pos as int, n as int));
            assert(ls[0] == line@);
            assert(ls.drop_first() =~= lines(whole.subrange(next as int, n as int)));
            let rest = cfg_entries(ls.drop_first());
            match cfg_entry(line@) {
                Some(e) => {
                    assert(entries_view(before) + (seq![e] + rest) =~= entries_view(out@) + rest);
                },
                None => {},
            }
        }
        pos = next;
    }
    proof {
        assert(lines(whole.subrange(n as int, n as int)) =~= Seq::<Seq<char>>::empty());
        assert(entries_view(out@) + Seq::<(Seq<char>, Seq<char>)>::empty() =~= entries_view(
            out@,
        ));
    }
    out
}

/// Builds the configuration from `pyvenv.cfg` entries whose keys are already
/// lowercased.
pub fn pyvenv_config_from_entries(entries: &Vec<(String, String)>) -> (r: PyvenvConfig)
    ensures
        r@ == config_of(entries_view(entries@)),
{
    let n = entries.len();
    let mut version: Option<usize> = None;
    let mut executable: Option<usize> = None;
    let mut home: Option<usize> = None;
    let mut system_site: Option<usize> = None;
    let ghost es = entries_view(entries@);
    let mut i: usize = 0;
    while i < n
        invariant
            i <= n == entries.len(),
            es == entries_view(entries@),
            version matches Some(j) ==> j < i,
            executable matches Some(j) ==> j < i,
            home matches Some(j) ==> j < i,
            system_site matches Some(j) ==> j < i,
            lookup_last(es.subrange(0, i as int), "version"@) == match version {
                Some(j) => Some(entries@[j as int].1@),
                None => None,
            },
            lookup_last(es.subrange(0, i as int), "executable"@) == match executable {
                Some(j) => Some(entries@[j as int].1@),
                None => None,
            },
            lookup_last(es.subrange(0, i as int), "home"@) == match home {
                Some(j) => Some(entries@[j as int].1@),
                None => None,
            },
            lookup_last(es.subrange(0, i as int), "include-system-site-packages"@) == match system_site {
                Some(j) => Some(entries@[j as int].1@),
                None => None,
            },
        decreases n - i,
    {
        let key = entries[i].0.as_str();
        if str_eq(key, "version") {
            version = Some(i);
        }
        if str_eq(key, "executable") {
            executable = Some(i);
        }
        if str_eq(key, "home") {
            home = Some(i);
        }
        if str_eq(key, "include-system-site-packages") {
            system_site = Some(i);
        }
        assert(es.subrange(0, i + 1).drop_last() =~= es.subrange(0, i as int));
        i += 1;
    }
    assert(es.subrange(0, n as int) =~= es);
    let version_text = match version {
        Some(j) => entries[j].1.clone(),
        None => String::new(),
    };
    let home_text = match home {
        Some(j) => entries[j].1.clone(),
        None => String::new(),
    };
    let executable_text = match executable {
        Some(j) => entries[j].1.clone(),
        None => match home {
            Some(j) => entries[j].1.clone(),
            None => String::new(),
        },
    };
    let include_flag = match system_site {
        Some(j) => str_eq(entries[j].1.as_str(), "true"),
        None => false,
    };
    PyvenvConfig {
        version: version_text,
        executable: executable_text,
        home: home_text,
        include_system_site_packages: include_flag,
    }
}

/// Parses the text of a `pyvenv.cfg` file.
pub fn parse_pyvenv_cfg_text(content: &str) -> (r: PyvenvConfig)
    ensures
        r@ == config_of(cfg_entries(lines(content@))),
{
    let entries = pyvenv_entries(content);
    pyvenv_config_from_entries(&entries)
}

// ── Locating package metadata ──────────────────────────────────────────────

/// Whether a directory under `lib/` holds an interpreter's packages
/// (its name starts with `python`, as in `python3.12`).
pub fn is_python_lib_dir(name: &str) -> (r: bool)
    ensures
        r == has_prefix(name@, "python"@),
{
    let v = chars_of(name);
    let p = chars_of("python");
    starts_with_chars(&v, &p)
}

/// Whether an entry of `site-packages` is a `.dist-info` directory, which holds
/// one installed package's METADATA.
pub fn is_dist_info_dir(name: &str, is_dir: bool) -> (r: bool)
    ensures
        r == (is_dir && ".dist-info"@.len() <= name@.len() && name@.subrange(
            name@.len() - ".dist-info"@.len(),
            name@.len() as int,
        ) == ".dist-info"@),
{
    let v = chars_of(name);
    let suffix = chars_of(".dist-info");
    if !is_dir || suffix.len() > v.len() {
        return false;
    }
    let tail = slice(&v, v.len() - suffix.len(), v.len());
    chars_eq(&tail, &suffix)
}

} // verus!
