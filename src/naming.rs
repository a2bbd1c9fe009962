use vstd::prelude::*;

use crate::links::{has_at, has_at_exec};
use crate::models::ParsedAlbumMeta;
use crate::text::{decimal, decimal_string};

verus! {

/// Characters that common file systems refuse in a file name.
pub open spec fn is_illegal(c: char) -> bool {
    c == '\\' || c == '/' || c == ':' || c == '*' || c == '?' || c == '"' || c == '<' || c == '>'
        || c == '|'
}

/// The Unicode `White_Space` property.
pub open spec fn is_white_space(c: char) -> bool {
    let u = c as u32;
    (0x09 <= u && u <= 0x0d) || u == 0x20 || u == 0x85 || u == 0xa0 || u == 0x1680 || (0x2000 <= u
        && u <= 0x200a) || u == 0x2028 || u == 0x2029 || u == 0x202f || u == 0x205f || u == 0x3000
}

pub open spec fn is_dot(c: char) -> bool {
    c == '.'
}

/// Each illegal character replaced by `_`.
pub open spec fn replace_illegal(s: Seq<char>) -> Seq<char> {
    s.map_values(|c: char| if is_illegal(c) { '_' } else { c })
}

/// `s` without its leading characters that satisfy `p`.
pub open spec fn drop_first_while(s: Seq<char>, p: spec_fn(char) -> bool) -> Seq<char>
    decreases s.len(),
{
    if s.len() > 0 && p(s[0]) {
        drop_first_while(s.drop_first(), p)
    } else {
        s
    }
}

/// `s` without its trailing characters that satisfy `p`.
pub open spec fn drop_last_while(s: Seq<char>, p: spec_fn(char) -> bool) -> Seq<char>
    decreases s.len(),
{
    if s.len() > 0 && p(s.last()) {
        drop_last_while(s.drop_last(), p)
    } else {
        s
    }
}

/// `s` without leading and trailing white space.
pub open spec fn trimmed(s: Seq<char>) -> Seq<char> {
    drop_last_while(drop_first_while(s, |c: char| is_white_space(c)), |c: char| is_white_space(c))
}

/// The name used when nothing is left of a sanitized string.
pub open spec fn fallback_name() -> Seq<char> {
    "noname"@
}

/// White space or a dot: what is stripped from the end of a name.
pub open spec fn is_trailing_junk(c: char) -> bool {
    is_white_space(c) || is_dot(c)
}

/// A string made safe as a file name: illegal characters replaced, leading
/// white space trimmed, trailing white space and dots stripped until the name
/// ends in neither, and `noname` if nothing is left.
pub open spec fn sanitized(s: Seq<char>) -> Seq<char> {
    let t = drop_last_while(
        drop_first_while(replace_illegal(s), |c: char| is_white_space(c)),
        |c: char| is_trailing_junk(c),
    );
    if t.len() == 0 {
        fallback_name()
    } else {
        t
    }
}

pub proof fn lemma_drop_first_while(s: Seq<char>, p: spec_fn(char) -> bool, k: int)
    requires
        0 <= k <= s.len(),
        forall|i: int| 0 <= i < k ==> p(#[trigger] s[i]),
        k == s.len() || !p(s[k]),
    ensures
        drop_first_while(s, p) == s.subrange(k, s.len() as int),
    decreases k,
{
    if k == 0 {
        assert(s.subrange(0, s.len() as int) =~= s);
    } else {
        let t = s.drop_first();
        assert forall|i: int| 0 <= i < k - 1 implies p(#[trigger] t[i]) by {
            assert(t[i] == s[i + 1]);
        }
        lemma_drop_first_while(t, p, k - 1);
        assert(t.subrange(k - 1, t.len() as int) =~= s.subrange(k, s.len() as int));
    }
}

pub proof fn lemma_drop_last_while(s: Seq<char>, p: spec_fn(char) -> bool, e: int)
    requires
        0 <= e <= s.len(),
        forall|i: int| e <= i < s.len() ==> p(#[trigger] s[i]),
        e == 0 || !p(s[e - 1]),
    ensures
        drop_last_while(s, p) == s.subrange(0, e),
    decreases s.len() - e,
{
    if e == s.len() {
        assert(s.subrange(0, e) =~= s);
    } else {
        let t = s.drop_last();
        assert forall|i: int| e <= i < t.len() implies p(#[trigger] t[i]) by {
            assert(t[i] == s[i]);
        }
        lemma_drop_last_while(t, p, e);
        assert(t.subrange(0, e) =~= s.subrange(0, e));
    }
}

/// Where `drop_first_while` starts cutting `s`.
pub proof fn first_kept(s: Seq<char>, p: spec_fn(char) -> bool) -> (k: int)
    ensures
        0 <= k <= s.len(),
        drop_first_while(s, p) == s.subrange(k, s.len() as int),
        forall|i: int| 0 <= i < k ==> p(#[trigger] s[i]),
        k == s.len() || !p(s[k]),
    decreases s.len(),
{
    if s.len() > 0 && p(s[0]) {
        let t = s.drop_first();
        let j = first_kept(t, p);
        assert(t.subrange(j, t.len() as int) =~= s.subrange(j + 1, s.len() as int));
        assert forall|i: int| 0 <= i < j + 1 implies p(#[trigger] s[i]) by {
            if i > 0 {
                assert(s[i] == t[i - 1]);
            }
        }
        j + 1
    } else {
        assert(s.subrange(0, s.len() as int) =~= s);
        0
    }
}

/// Where `drop_last_while` stops keeping `s`.
pub proof fn last_kept(s: Seq<char>, p: spec_fn(char) -> bool) -> (e: int)
    ensures
        0 <= e <= s.len(),
        drop_last_while(s, p) == s.subrange(0, e),
        forall|i: int| e <= i < s.len() ==> p(#[trigger] s[i]),
        e == 0 || !p(s[e - 1]),
    decreases s.len(),
{
    if s.len() > 0 && p(s.last()) {
        let t = s.drop_last();
        let e = last_kept(t, p);
        assert(t.subrange(0, e) =~= s.subrange(0, e));
        assert forall|i: int| e <= i < s.len() implies p(#[trigger] s[i]) by {
            if i < s.len() - 1 {
                assert(s[i] == t[i]);
            }
        }
        e
    } else {
        assert(s.subrange(0, s.len() as int) =~= s);
        s.len() as int
    }
}

/// A string that holds no illegal character, does not start or end with white
/// space and does not end with a dot is its own sanitized form.
pub proof fn lemma_sanitized_fixed_point(t: Seq<char>)
    requires
        t.len() > 0,
        forall|i: int| 0 <= i < t.len() ==> !is_illegal(#[trigger] t[i]),
        !is_white_space(t[0]),
        !is_white_space(t.last()),
        !is_dot(t.last()),
    ensures
        sanitized(t) == t,
{
    assert(replace_illegal(t) =~= t);
    lemma_drop_first_while(t, |c: char| is_white_space(c), 0);
    assert(t.subrange(0, t.len() as int) =~= t);
    lemma_drop_last_while(t, |c: char| is_trailing_junk(c), t.len() as int);
}

/// What a sanitized name looks like: not empty, no illegal character, no
/// white space at either end, no dot at the end.
pub proof fn lemma_sanitized_shape(s: Seq<char>)
    ensures
        sanitized(s).len() > 0,
        forall|i: int| 0 <= i < sanitized(s).len() ==> !is_illegal(#[trigger] sanitized(s)[i]),
        !is_white_space(sanitized(s)[0]),
        !is_white_space(sanitized(s).last()),
        !is_dot(sanitized(s).last()),
{
    let ws = |c: char| is_white_space(c);
    let junk = |c: char| is_trailing_junk(c);
    let r = replace_illegal(s);
    let k = first_kept(r, ws);
    let a = drop_first_while(r, ws);
    let e = last_kept(a, junk);
    let t = drop_last_while(a, junk);
    reveal_strlit("noname");
    if t.len() > 0 {
        assert forall|i: int| 0 <= i < t.len() implies !is_illegal(#[trigger] t[i]) by {
            assert(t[i] == r[i + k]);
        }
        assert(t[0] == r[k]);
        assert(t.last() == a[e - 1]);
    }
}

/// Sanitizing is idempotent: a sanitized name sanitizes to itself.
pub proof fn lemma_sanitise_idempotent(s: Seq<char>)
    ensures
        sanitized(sanitized(s)) == sanitized(s),
{
    lemma_sanitized_shape(s);
    lemma_sanitized_fixed_point(sanitized(s));
}

/// A name made of dots alone (the empty name included) sanitizes to `noname`.
pub proof fn lemma_sanitise_dots(s: Seq<char>)
    requires
        forall|i: int| 0 <= i < s.len() ==> is_dot(#[trigger] s[i]),
    ensures
        sanitized(s) == fallback_name(),
{
    let ws = |c: char| is_white_space(c);
    let r = replace_illegal(s);
    assert(r =~= s);
    if s.len() > 0 {
        assert(!ws(s[0]));
        assert(!ws(s.last()));
    }
    lemma_drop_first_while(s, ws, 0);
    assert(s.subrange(0, s.len() as int) =~= s);
    lemma_drop_last_while(s, |c: char| is_trailing_junk(c), 0);
}

fn is_illegal_char(c: char) -> (r: bool)
    ensures
        r == is_illegal(c),
{
    c == '\\' || c == '/' || c == ':' || c == '*' || c == '?' || c == '"' || c == '<' || c == '>'
        || c == '|'
}

fn is_white_space_char(c: char) -> (r: bool)
    ensures
        r == is_white_space(c),
{
    let u = c as u32;
    (0x09 <= u && u <= 0x0d) || u == 0x20 || u == 0x85 || u == 0xa0 || u == 0x1680 || (0x2000 <= u
        && u <= 0x200a) || u == 0x2028 || u == 0x2029 || u == 0x202f || u == 0x205f || u == 0x3000
}

/// `s` without leading and trailing white space.
pub fn trim_str(s: &str) -> (r: String)
    ensures
        r@ == trimmed(s@),
{
    let n = s.unicode_len();
    let mut start: usize = 0;
    while start < n && is_white_space_char(s.get_char(start))
        invariant
            n == s@.len(),
            start <= n,
            forall|i: int| 0 <= i < start ==> is_white_space(#[trigger] s@[i]),
        decreases n - start,
    {
        start = start + 1;
    }
    let mut end: usize = n;
    while end > start && is_white_space_char(s.get_char(end - 1))
        invariant
            n == s@.len(),
            start <= end <= n,
            forall|i: int| end <= i < n ==> is_white_space(#[trigger] s@[i]),
        decreases end,
    {
        end = end - 1;
    }
    proof {
        let ws = |c: char| is_white_space(c);
        lemma_drop_first_while(s@, ws, start as int);
        let a = s@.subrange(start as int, n as int);
        assert forall|i: int| end - start <= i < a.len() implies ws(#[trigger] a[i]) by {
            assert(a[i] == s@[i + start]);
        }
        if end > start {
            assert(a[end - start - 1] == s@[end - 1]);
        }
        lemma_drop_last_while(a, ws, end - start);
        assert(a.subrange(0, end - start) =~= s@.subrange(start as int, end as int));
    }
    s.substring_char(start, end).to_string()
}

/// Each illegal character of `s` replaced by `_`.
fn replace_illegal_chars(s: &str) -> (r: String)
    ensures
        r@ == replace_illegal(s@),
{
    let n = s.unicode_len();
    let mut out = String::new();
    let mut i: usize = 0;
    while i < n
        invariant
            n == s@.len(),
            i <= n,
            out@ =~= replace_illegal(s@.subrange(0, i as int)),
        decreases n - i,
    {
        let c = s.get_char(i);
        if is_illegal_char(c) {
            out.append("_");
        } else {
            out.append(s.substring_char(i, i + 1));
        }
        proof {
            reveal_strlit("_");
            assert(s@.subrange(0, i + 1) =~= s@.subrange(0, i as int).push(c));
        }
        i = i + 1;
    }
    proof {
        assert(s@.subrange(0, n as int) =~= s@);
    }
    out
}

/// A string made safe as a file name (see `sanitized`).
pub fn sanitise(filename: &str) -> (r: String)
    ensures
        r@ == sanitized(filename@),
{
    let replaced = replace_illegal_chars(filename);
    let t = replaced.as_str();
    let n = t.unicode_len();
    let mut start: usize = 0;
    while start < n && is_white_space_char(t.get_char(start))
        invariant
            n == t@.len(),
            start <= n,
            forall|i: int| 0 <= i < start ==> is_white_space(#[trigger] t@[i]),
        decreases n - start,
    {
        start = start + 1;
    }
    let mut stop: usize = n;
    while stop > start && (is_white_space_char(t.get_char(stop - 1)) || t.get_char(stop - 1)
        == '.')
        invariant
            n == t@.len(),
            start <= stop <= n,
            forall|i: int| stop <= i < n ==> is_trailing_junk(#[trigger] t@[i]),
        decreases stop,
    {
        stop = stop - 1;
    }
    proof {
        let ws = |c: char| is_white_space(c);
        let junk = |c: char| is_trailing_junk(c);
        lemma_drop_first_while(t@, ws, start as int);
        let a = t@.subrange(start as int, n as int);
        assert forall|i: int| stop - start <= i < a.len() implies junk(#[trigger] a[i]) by {
            assert(a[i] == t@[i + start]);
        }
        if stop > start {
            assert(a[stop - start - 1] == t@[stop - 1]);
        }
        lemma_drop_last_while(a, junk, stop - start);
        assert(a.subrange(0, stop - start) =~= t@.subrange(start as int, stop as int));
    }
    if stop == start {
        proof {
            reveal_strlit("noname");
        }
        String::from_str("noname")
    } else {
        t.substring_char(start, stop).to_string()
    }
}

/// `s` with every non-overlapping occurrence of `pat`, taken from the left,
/// replaced by `rep`.
pub open spec fn replaced(s: Seq<char>, pat: Seq<char>, rep: Seq<char>) -> Seq<char>
    decreases s.len(),
{
    if pat.len() == 0 || s.len() < pat.len() {
        s
    } else if s.subrange(0, pat.len() as int) == pat {
        rep + replaced(s.subrange(pat.len() as int, s.len() as int), pat, rep)
    } else {
        seq![s[0]] + replaced(s.drop_first(), pat, rep)
    }
}

/// Relies on `str::replace`: all matches of a non-empty pattern, found left to
/// right without overlap, replaced by the given text.
#[verifier::external_body]
pub(crate) fn replace_str(s: &str, pat: &str, rep: &str) -> (r: String)
    requires
        pat@.len() > 0,
    ensures
        r@ == replaced(s@, pat@, rep@),
{
    s.replace(pat, rep)
}

/// The placeholder written for a key: the key in braces.
pub open spec fn placeholder(key: Seq<char>) -> Seq<char> {
    seq!['{'] + key + seq!['}']
}

/// The characters of key-value pairs.
pub open spec fn pairs_view(pairs: Seq<(String, String)>) -> Seq<(Seq<char>, Seq<char>)> {
    pairs.map_values(|p: (String, String)| (p.0@, p.1@))
}

/// The first pair, from index `j` on, whose placeholder stands in `t` at position `i`.
pub open spec fn key_at(
    t: Seq<char>,
    i: int,
    pairs: Seq<(Seq<char>, Seq<char>)>,
    j: int,
) -> Option<(Seq<char>, Seq<char>)>
    decreases pairs.len() - j,
{
    if j < 0 || j >= pairs.len() {
        None
    } else if has_at(t, i, placeholder(pairs[j].0)) {
        Some(pairs[j])
    } else {
        key_at(t, i, pairs, j + 1)
    }
}

/// The template from position `i` on, read once from left to right: where the
/// placeholder of a key stands, the key's value (the first pair wins); any
/// other character as it is. Values are never searched for placeholders.
pub open spec fn rendered_from(t: Seq<char>, i: int, pairs: Seq<(Seq<char>, Seq<char>)>) -> Seq<
    char,
>
    decreases if 0 <= i < t.len() {
        t.len() - i
    } else {
        0
    },
{
    if i < 0 || i >= t.len() {
        Seq::empty()
    } else {
        match key_at(t, i, pairs, 0) {
            Some(p) => p.1 + rendered_from(t, i + p.0.len() + 2, pairs),
            None => seq![t[i]] + rendered_from(t, i + 1, pairs),
        }
    }
}

/// The template with each placeholder that stands in it replaced by its value.
pub open spec fn substituted(template: Seq<char>, pairs: Seq<(Seq<char>, Seq<char>)>) -> Seq<
    char,
> {
    rendered_from(template, 0, pairs)
}

/// The first pair whose placeholder stands at position `i`.
fn find_key(
    t: &str,
    n: usize,
    i: usize,
    holders: &Vec<String>,
    Ghost(pairs): Ghost<Seq<(Seq<char>, Seq<char>)>>,
) -> (r: Option<usize>)
    requires
        n == t@.len(),
        i < n,
        holders@.len() == pairs.len(),
        forall|j: int| 0 <= j < pairs.len() ==> #[trigger] holders@[j]@ == placeholder(pairs[j].0),
    ensures
        match r {
            Some(j) => j < pairs.len() && key_at(t@, i as int, pairs, 0) == Some(pairs[j as int])
                && has_at(t@, i as int, placeholder(pairs[j as int].0)),
            None => key_at(t@, i as int, pairs, 0) is None,
        },
{
    let mut j: usize = 0;
    while j < holders.len()
        invariant
            n == t@.len(),
            i < n,
            holders@.len() == pairs.len(),
            forall|k: int| 0 <= k < pairs.len() ==> #[trigger] holders@[k]@ == placeholder(pairs[k].0),
            j <= holders@.len(),
            key_at(t@, i as int, pairs, 0) == key_at(t@, i as int, pairs, j as int),
        decreases holders@.len() - j,
    {
        if has_at_exec(t, n, i, holders[j].as_str()) {
            return Some(j);
        }
        j = j + 1;
    }
    None
}

/// A template rendered with the given pairs, then sanitized.
pub fn parse_template(template: &str, replacements: Vec<(String, String)>) -> (r: String)
    ensures
        r@ == sanitized(substituted(template@, pairs_view(replacements@))),
{
    let ghost pv = pairs_view(replacements@);
    let mut holders: Vec<String> = Vec::new();
    let mut k: usize = 0;
    while k < replacements.len()
        invariant
            pv == pairs_view(replacements@),
            k <= replacements@.len(),
            holders@.len() == k,
            forall|j: int| 0 <= j < k ==> #[trigger] holders@[j]@ == placeholder(pv[j].0),
        decreases replacements@.len() - k,
    {
        let mut ph = String::from_str("{");
        ph.append(replacements[k].0.as_str());
        ph.append("}");
        proof {
            reveal_strlit("{");
            reveal_strlit("}");
            assert(ph@ =~= placeholder(pv[k as int].0));
        }
        holders.push(ph);
        k = k + 1;
    }
    let n = template.unicode_len();
    let mut out = String::new();
    let mut i: usize = 0;
    while i < n
        invariant
            pv == pairs_view(replacements@),
            n == template@.len(),
            i <= n,
            holders@.len() == pv.len(),
            forall|j: int| 0 <= j < pv.len() ==> #[trigger] holders@[j]@ == placeholder(pv[j].0),
            out@ + rendered_from(template@, i as int, pv) == rendered_from(template@, 0, pv),
        decreases n - i,
    {
        let ghost before = out@;
        match find_key(template, n, i, &holders, Ghost(pv)) {
            Some(j) => {
                let m = holders[j].unicode_len();
                out.append(replacements[j].1.as_str());
                proof {
                    assert(pv[j as int].1 == replacements@[j as int].1@);
                    assert(m == placeholder(pv[j as int].0).len());
                    assert(m == pv[j as int].0.len() + 2);
                    assert(before + rendered_from(template@, i as int, pv) =~= out@
                        + rendered_from(template@, i + m, pv));
                }
                i = i + m;
            },
            None => {
                out.append(template.substring_char(i, i + 1));
                proof {
                    assert(before + rendered_from(template@, i as int, pv) =~= out@
                        + rendered_from(template@, i + 1, pv));
                }
                i = i + 1;
            },
        }
    }
    proof {
        assert(out@ =~= out@ + rendered_from(template@, n as int, pv));
    }
    sanitise(out.as_str())
}

/// The decimal year, or nothing when the year is unknown.
pub open spec fn year_text(year: Option<u16>) -> Seq<char> {
    match year {
        Some(y) => decimal(y as nat),
        None => Seq::empty(),
    }
}

/// The album-scope keys and their values.
pub open spec fn album_pairs(meta: ParsedAlbumMeta) -> Seq<(Seq<char>, Seq<char>)> {
    seq![
        ("album_artist"@, meta.album_artist@),
        ("album_title"@, meta.album_title@),
        ("label"@, meta.label@),
        ("year"@, year_text(meta.year)),
    ]
}

/// The track-scope keys and their values.
pub open spec fn track_pairs(meta: ParsedAlbumMeta, padding: Seq<char>) -> Seq<(Seq<char>, Seq<char>)> {
    seq![
        ("track_num"@, decimal(meta.track_num as nat)),
        ("track_num_pad"@, padding),
        ("title"@, meta.title@),
        ("artist"@, meta.artist@),
    ]
}

/// The album folder name: the template rendered with the album-scope keys.
pub fn parse_album_template(template: &str, meta: &ParsedAlbumMeta) -> (r: String)
    ensures
        r@ == sanitized(substituted(template@, album_pairs(*meta))),
{
    let year = match meta.year {
        Some(y) => decimal_string(y as u64),
        None => String::new(),
    };
    let m: Vec<(String, String)> = vec![
        (String::from_str("album_artist"), meta.album_artist.clone()),
        (String::from_str("album_title"), meta.album_title.clone()),
        (String::from_str("label"), meta.label.clone()),
        (String::from_str("year"), year),
    ];
    proof {
        assert(pairs_view(m@) =~= album_pairs(*meta));
    }
    parse_template(template, m)
}

/// The track file name: the template rendered with the track-scope keys.
pub fn parse_track_template(template: &str, meta: &ParsedAlbumMeta, padding: &str) -> (r: String)
    ensures
        r@ == sanitized(substituted(template@, track_pairs(*meta, padding@))),
{
    let m: Vec<(String, String)> = vec![
        (String::from_str("track_num"), decimal_string(meta.track_num as u64)),
        (String::from_str("track_num_pad"), padding.to_string()),
        (String::from_str("title"), meta.title.clone()),
        (String::from_str("artist"), meta.artist.clone()),
    ];
    proof {
        assert(pairs_view(m@) =~= track_pairs(*meta, padding@));
    }
    parse_template(template, m)
}

} // verus!
