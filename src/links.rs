use vstd::prelude::*;

use crate::metadata::str_eq;
use crate::models::MediaLink;

verus! {

pub open spec fn is_ascii_digit(c: char) -> bool {
    '0' <= c && c <= '9'
}

/// Letters, digits, `_`, `.` and `-`, as playlist ids use them.
pub open spec fn is_id_char(c: char) -> bool {
    ('0' <= c && c <= '9') || ('a' <= c && c <= 'z') || ('A' <= c && c <= 'Z') || c == '_' || c
        == '.' || c == '-'
}

/// The characters that may follow a path prefix.
#[derive(Debug, Clone, Copy, PartialEq, Eq, Structural)]
pub enum RunKind {
    Digits,
    IdChars,
}

pub open spec fn in_run(kind: RunKind, c: char) -> bool {
    match kind {
        RunKind::Digits => is_ascii_digit(c),
        RunKind::IdChars => is_id_char(c),
    }
}

/// The number of characters of `kind` from position `i` on.
pub open spec fn run_len(s: Seq<char>, i: int, kind: RunKind) -> int
    decreases s.len() - i,
{
    if 0 <= i < s.len() && in_run(kind, s[i]) {
        1 + run_len(s, i + 1, kind)
    } else {
        0
    }
}

/// Whether `lit` stands in `s` at position `i`.
pub open spec fn has_at(s: Seq<char>, i: int, lit: Seq<char>) -> bool {
    0 <= i && i + lit.len() <= s.len() && s.subrange(i, i + lit.len()) == lit
}

/// Whether `lit` followed by at least one character of `kind` stands at `i`.
pub open spec fn match_at(s: Seq<char>, i: int, lit: Seq<char>, kind: RunKind) -> bool {
    has_at(s, i, lit) && run_len(s, i + lit.len(), kind) > 0
}

/// The first position from `i` on where `match_at` holds.
pub open spec fn find_from(s: Seq<char>, i: int, lit: Seq<char>, kind: RunKind) -> Option<int>
    decreases s.len() + 1 - i,
{
    if i < 0 || i > s.len() {
        None
    } else if match_at(s, i, lit, kind) {
        Some(i)
    } else {
        find_from(s, i + 1, lit, kind)
    }
}

/// The run of `kind` that follows `lit` at position `p`.
pub open spec fn run_after(s: Seq<char>, p: int, lit: Seq<char>, kind: RunKind) -> Seq<char> {
    let a = p + lit.len();
    s.subrange(a, a + run_len(s, a, kind))
}

/// What a link names, as plain values.
pub enum LinkView {
    Album(Seq<char>),
    Track(Seq<char>, Seq<char>),
    Playlist(Seq<char>),
    Artist(Seq<char>),
}

pub open spec fn link_view(l: MediaLink) -> LinkView {
    match l {
        MediaLink::Album { album_id } => LinkView::Album(album_id@),
        MediaLink::Track { album_id, track_id } => LinkView::Track(album_id@, track_id@),
        MediaLink::Playlist { uuid_or_login } => LinkView::Playlist(uuid_or_login@),
        MediaLink::Artist { artist_id } => LinkView::Artist(artist_id@),
    }
}

/// What a URL names: the first `album/<digits>`, with `/track/<digits>` right
/// after it if present; else the first `playlists/<id>`; else the first
/// `artist/<digits>`; else nothing.
pub open spec fn link_of(s: Seq<char>) -> Option<LinkView> {
    match find_from(s, 0, "album/"@, RunKind::Digits) {
        Some(p) => {
            let album = run_after(s, p, "album/"@, RunKind::Digits);
            let q = p + 6 + album.len();
            if match_at(s, q, "/track/"@, RunKind::Digits) {
                Some(LinkView::Track(album, run_after(s, q, "/track/"@, RunKind::Digits)))
            } else {
                Some(LinkView::Album(album))
            }
        },
        None => match find_from(s, 0, "playlists/"@, RunKind::IdChars) {
            Some(p) => Some(LinkView::Playlist(run_after(s, p, "playlists/"@, RunKind::IdChars))),
            None => match find_from(s, 0, "artist/"@, RunKind::Digits) {
                Some(p) => Some(LinkView::Artist(run_after(s, p, "artist/"@, RunKind::Digits))),
                None => None,
            },
        },
    }
}

fn in_run_char(kind: RunKind, c: char) -> (r: bool)
    ensures
        r == in_run(kind, c),
{
    match kind {
        RunKind::Digits => '0' <= c && c <= '9',
        RunKind::IdChars => ('0' <= c && c <= '9') || ('a' <= c && c <= 'z') || ('A' <= c && c
            <= 'Z') || c == '_' || c == '.' || c == '-',
    }
}

proof fn lemma_run_len_bounds(s: Seq<char>, i: int, kind: RunKind)
    requires
        0 <= i <= s.len(),
    ensures
        0 <= run_len(s, i, kind) <= s.len() - i,
    decreases s.len() - i,
{
    if i < s.len() && in_run(kind, s[i]) {
        lemma_run_len_bounds(s, i + 1, kind);
    }
}

/// The number of characters of `kind` from position `i` on.
fn run_length(s: &str, n: usize, i: usize, kind: RunKind) -> (r: usize)
    requires
        n == s@.len(),
        i <= n,
    ensures
        r == run_len(s@, i as int, kind),
        i + r <= n,
{
    let mut j = i;
    while j < n && in_run_char(kind, s.get_char(j))
        invariant
            n == s@.len(),
            i <= j <= n,
            run_len(s@, i as int, kind) == (j - i) + run_len(s@, j as int, kind),
        decreases n - j,
    {
        j = j + 1;
    }
    j - i
}

pub(crate) fn has_at_exec(s: &str, n: usize, i: usize, lit: &str) -> (r: bool)
    requires
        n == s@.len(),
        i <= n,
    ensures
        r == has_at(s@, i as int, lit@),
{
    let m = lit.unicode_len();
    if m > n - i {
        return false;
    }
    str_eq(s.substring_char(i, i + m), lit)
}

/// The first position where `lit` and a run of `kind` stand.
fn find_match(s: &str, n: usize, lit: &str, kind: RunKind) -> (r: Option<usize>)
    requires
        n == s@.len(),
    ensures
        match r {
            Some(p) => find_from(s@, 0, lit@, kind) == Some(p as int) && match_at(
                s@,
                p as int,
                lit@,
                kind,
            ),
            None => find_from(s@, 0, lit@, kind) is None,
        },
{
    let m = lit.unicode_len();
    let mut i: usize = 0;
    while i < n
        invariant
            n == s@.len(),
            m == lit@.len(),
            i <= n,
            find_from(s@, 0, lit@, kind) == find_from(s@, i as int, lit@, kind),
        decreases n + 1 - i,
    {
        if has_at_exec(s, n, i, lit) {
            let k = run_length(s, n, i + m, kind);
            if k > 0 {
                return Some(i);
            }
        }
        i = i + 1;
    }
    proof {
        assert(!match_at(s@, n as int, lit@, kind));
        assert(find_from(s@, n + 1, lit@, kind) is None);
    }
    None
}

/// The run of `kind` that follows `lit` at position `p`.
fn take_run(s: &str, n: usize, p: usize, m: usize, kind: RunKind) -> (r: String)
    requires
        n == s@.len(),
        p + m <= n,
    ensures
        r@ == s@.subrange(p + m, p + m + run_len(s@, p + m, kind)),
        p + m + r@.len() <= n,
{
    let k = run_length(s, n, p + m, kind);
    s.substring_char(p + m, p + m + k).to_string()
}

/// What a URL names (see `link_of`). Ids are read with ASCII classes only:
/// digits `0-9`, and for playlists ASCII letters, digits, `_`, `.` and `-`.
/// Other Unicode digits and word characters end an id.
pub fn parse_url(url: &str) -> (r: Option<MediaLink>)
    ensures
        match r {
            Some(l) => link_of(url@) == Some(link_view(l)),
            None => link_of(url@) is None,
        },
{
    proof {
        reveal_strlit("album/");
        reveal_strlit("/track/");
        reveal_strlit("playlists/");
        reveal_strlit("artist/");
    }
    let n = url.unicode_len();
    match find_match(url, n, "album/", RunKind::Digits) {
        Some(p) => {
            let album_id = take_run(url, n, p, 6, RunKind::Digits);
            let q = p + 6 + album_id.unicode_len();
            if has_at_exec(url, n, q, "/track/") && run_length(url, n, q + 7, RunKind::Digits) > 0 {
                let track_id = take_run(url, n, q, 7, RunKind::Digits);
                Some(MediaLink::Track { album_id, track_id })
            } else {
                Some(MediaLink::Album { album_id })
            }
        },
        None => match find_match(url, n, "playlists/", RunKind::IdChars) {
            Some(p) => {
                let uuid_or_login = take_run(url, n, p, 10, RunKind::IdChars);
                Some(MediaLink::Playlist { uuid_or_login })
            },
            None => match find_match(url, n, "artist/", RunKind::Digits) {
                Some(p) => {
                    let artist_id = take_run(url, n, p, 7, RunKind::Digits);
                    Some(MediaLink::Artist { artist_id })
                },
                None => None,
            },
        },
    }
}

} // verus!
