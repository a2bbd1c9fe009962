use vstd::prelude::*;

use crate::metadata::str_eq;
use crate::naming::{replace_str, replaced, trim_str};
use crate::text::{cleaned_url, lower_of, lowercase};

verus! {

/// `url` with white space trimmed at both ends and one trailing `/` removed.
pub fn clean_url(url: &str) -> (r: String)
    ensures
        r@ == cleaned_url(url@),
{
    let t = trim_str(url);
    let n = t.unicode_len();
    if n > 0 && t.as_str().get_char(n - 1) == '/' {
        t.as_str().substring_char(0, n - 1).to_string()
    } else {
        t
    }
}

/// The characters of each string.
pub open spec fn strings_view(v: Seq<String>) -> Seq<Seq<char>> {
    v.map_values(|s: String| s@)
}

/// Whether the list holds the value, ignoring case.
pub open spec fn contains_ci(list: Seq<Seq<char>>, value: Seq<char>) -> bool {
    exists|i: int| 0 <= i < list.len() && lower_of(#[trigger] list[i]) == lower_of(value)
}

/// Whether the list holds the value, ignoring case.
pub fn contains(lines: &[String], value: &str) -> (r: bool)
    ensures
        r == contains_ci(strings_view(lines@), value@),
{
    let v = lowercase(value);
    let mut i: usize = 0;
    while i < lines.len()
        invariant
            i <= lines@.len(),
            v@ == lower_of(value@),
            forall|j: int| 0 <= j < i ==> lower_of(#[trigger] lines@[j]@) != lower_of(value@),
        decreases lines@.len() - i,
    {
        let l = lowercase(lines[i].as_str());
        if str_eq(l.as_str(), v.as_str()) {
            proof {
                assert(strings_view(lines@)[i as int] == lines@[i as int]@);
            }
            return true;
        }
        i = i + 1;
    }
    proof {
        if contains_ci(strings_view(lines@), value@) {
            let j = choose|j: int|
                0 <= j < strings_view(lines@).len() && lower_of(#[trigger] strings_view(lines@)[j])
                    == lower_of(value@);
            assert(strings_view(lines@)[j] == lines@[j]@);
        }
    }
    false
}

/// The list with the value appended, unless it already holds it in some case.
pub open spec fn add_unique(list: Seq<Seq<char>>, value: Seq<char>) -> Seq<Seq<char>> {
    if contains_ci(list, value) {
        list
    } else {
        list.push(value)
    }
}

/// The list with each line of a URL list file added in turn, cleaned.
pub open spec fn add_lines(list: Seq<Seq<char>>, lines: Seq<Seq<char>>) -> Seq<Seq<char>>
    decreases lines.len(),
{
    if lines.len() == 0 {
        list
    } else {
        add_unique(add_lines(list, lines.drop_last()), cleaned_url(lines.last()))
    }
}

/// No two entries are equal ignoring case.
pub open spec fn distinct_ci(list: Seq<Seq<char>>) -> bool {
    forall|i: int, j: int|
        0 <= i < j < list.len() ==> lower_of(#[trigger] list[i]) != lower_of(#[trigger] list[j])
}

proof fn lemma_add_unique_distinct(list: Seq<Seq<char>>, value: Seq<char>)
    requires
        distinct_ci(list),
    ensures
        distinct_ci(add_unique(list, value)),
{
    if !contains_ci(list, value) {
        let l2 = list.push(value);
        assert forall|i: int, j: int| 0 <= i < j < l2.len() implies lower_of(#[trigger] l2[i])
            != lower_of(#[trigger] l2[j]) by {
            if j == list.len() {
                assert(l2[i] == list[i]);
                if lower_of(list[i]) == lower_of(value) {
                    assert(contains_ci(list, value));
                }
            } else {
                assert(l2[i] == list[i] && l2[j] == list[j]);
            }
        }
    }
}

proof fn lemma_add_lines_distinct(list: Seq<Seq<char>>, lines: Seq<Seq<char>>)
    requires
        distinct_ci(list),
    ensures
        distinct_ci(add_lines(list, lines)),
    decreases lines.len(),
{
    if lines.len() > 0 {
        lemma_add_lines_distinct(list, lines.drop_last());
        lemma_add_unique_distinct(add_lines(list, lines.drop_last()), cleaned_url(lines.last()));
    }
}

/// Whether an input names a file that lists URLs, one per line.
pub open spec fn is_url_list(url: Seq<char>) -> bool {
    url.len() >= 4 && url.subrange(url.len() - 4, url.len() as int) == ".txt"@
}

pub fn is_text_list(url: &str) -> (r: bool)
    ensures
        r == is_url_list(url@),
{
    let n = url.unicode_len();
    if n < 4 {
        return false;
    }
    str_eq(url.substring_char(n - 4, n), ".txt")
}

/// The URLs gathered from the command line and from URL list files: each
/// cleaned, each kept once whatever its case, in the order first seen; a list
/// file named twice is read once.
pub struct UrlCollector {
    pub processed: Vec<String>,
    pub text_paths: Vec<String>,
}

impl UrlCollector {
    /// The URLs kept so far are distinct ignoring case.
    pub open spec fn wf(&self) -> bool {
        distinct_ci(strings_view(self.processed@))
    }

    pub fn new() -> (r: UrlCollector)
        ensures
            r.wf(),
            r.processed@.len() == 0,
            r.text_paths@.len() == 0,
    {
        UrlCollector { processed: Vec::new(), text_paths: Vec::new() }
    }

    /// Whether a list file has yet to be read.
    pub fn wants_file(&self, path: &str) -> (r: bool)
        ensures
            r == !contains_ci(strings_view(self.text_paths@), path@),
    {
        !contains(self.text_paths.as_slice(), path)
    }

    fn add_cleaned(&mut self, url: &str)
        ensures
            strings_view(final(self).processed@) == add_unique(
                strings_view(old(self).processed@),
                cleaned_url(url@),
            ),
            final(self).text_paths == old(self).text_paths,
    {
        let cleaned = clean_url(url);
        if !contains(self.processed.as_slice(), cleaned.as_str()) {
            self.processed.push(cleaned);
            proof {
                assert(strings_view(self.processed@) =~= strings_view(old(self).processed@).push(
                    cleaned@,
                ));
            }
        }
    }

    /// Adds one URL given directly.
    pub fn add_link(&mut self, url: &str)
        requires
            old(self).wf(),
        ensures
            final(self).wf(),
            strings_view(final(self).processed@) == add_unique(
                strings_view(old(self).processed@),
                cleaned_url(url@),
            ),
            final(self).text_paths == old(self).text_paths,
    {
        self.add_cleaned(url);
        proof {
            lemma_add_unique_distinct(strings_view(old(self).processed@), cleaned_url(url@));
        }
    }

    /// Adds the lines of a list file, unless that file was added before.
    pub fn add_file(&mut self, path: &str, lines: &Vec<String>)
        requires
            old(self).wf(),
        ensures
            final(self).wf(),
            contains_ci(strings_view(old(self).text_paths@), path@) ==> *final(self) == *old(
                self,
            ),
            !contains_ci(strings_view(old(self).text_paths@), path@) ==> {
                &&& strings_view(final(self).processed@) == add_lines(
                    strings_view(old(self).processed@),
                    strings_view(lines@),
                )
                &&& strings_view(final(self).text_paths@) == strings_view(
                    old(self).text_paths@,
                ).push(path@)
            },
    {
        if contains(self.text_paths.as_slice(), path) {
            return;
        }
        let ghost start = strings_view(self.processed@);
        let mut i: usize = 0;
        while i < lines.len()
            invariant
                i <= lines@.len(),
                self.text_paths == old(self).text_paths,
                strings_view(self.processed@) == add_lines(
                    start,
                    strings_view(lines@).subrange(0, i as int),
                ),
            decreases lines@.len() - i,
        {
            self.add_cleaned(lines[i].as_str());
            proof {
                let sub = strings_view(lines@).subrange(0, i + 1);
                assert(sub.drop_last() =~= strings_view(lines@).subrange(0, i as int));
                assert(sub.last() == lines@[i as int]@);
            }
            i = i + 1;
        }
        proof {
            assert(strings_view(lines@).subrange(0, lines@.len() as int) =~= strings_view(
                lines@,
            ));
        }
        self.text_paths.push(path.to_string());
        proof {
            lemma_add_lines_distinct(start, strings_view(lines@));
            assert(strings_view(self.text_paths@) =~= strings_view(old(self).text_paths@).push(
                path@,
            ));
        }
    }
}

/// The ffmpeg to run: the one beside the executable if it exists, else the
/// configured one if it exists, else `ffmpeg` from the search path.
pub fn resolve_ffmpeg_path(
    local_path: String,
    local_exists: bool,
    cfg_path: Option<String>,
    cfg_exists: bool,
) -> (r: String)
    ensures
        local_exists ==> r@ == local_path@,
        !local_exists && cfg_path is Some && cfg_exists ==> r@ == cfg_path->Some_0@,
        !local_exists && !(cfg_path is Some && cfg_exists) ==> r@ == "ffmpeg"@,
{
    if local_exists {
        return local_path;
    }
    match cfg_path {
        Some(p) => {
            if cfg_exists {
                return p;
            }
        },
        None => {},
    }
    String::from_str("ffmpeg")
}

/// The download URL of a cover: the size placeholder `/%%` replaced by the
/// original size or by 1000x1000, behind `https://`.
pub open spec fn cover_url_of(uri: Seq<char>, original: bool) -> Seq<char> {
    "https://"@ + replaced(uri, "/%%"@, if original {
        "/orig"@
    } else {
        "/1000x1000"@
    })
}

/// The download URL of a cover.
pub fn cover_url(uri: &str, original: bool) -> (r: String)
    ensures
        r@ == cover_url_of(uri@, original),
{
    let size = if original {
        "/orig"
    } else {
        "/1000x1000"
    };
    proof {
        reveal_strlit("/%%");
    }
    let replaced_uri = replace_str(uri, "/%%", size);
    let mut out = String::from_str("https://");
    out.append(replaced_uri.as_str());
    out
}

} // verus!
