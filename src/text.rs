use vstd::prelude::*;

verus! {

/// The digit character for `d < 10`.
pub open spec fn digit_char(d: nat) -> char {
    "0123456789"@[d as int]
}

/// The decimal digits of `n`, without leading zeros.
pub open spec fn decimal(n: nat) -> Seq<char>
    decreases n,
{
    if n < 10 {
        seq![digit_char(n)]
    } else {
        decimal(n / 10).push(digit_char(n % 10))
    }
}

/// `s` padded on the left with `0` up to `width` characters.
pub open spec fn zero_padded(s: Seq<char>, width: nat) -> Seq<char> {
    if s.len() >= width {
        s
    } else {
        Seq::new((width - s.len()) as nat, |i: int| '0') + s
    }
}

/// The names joined with `, ` between each two.
pub open spec fn joined(names: Seq<Seq<char>>) -> Seq<char>
    decreases names.len(),
{
    if names.len() == 0 {
        Seq::empty()
    } else if names.len() == 1 {
        names[0]
    } else {
        joined(names.drop_last()) + ", "@ + names.last()
    }
}

/// A title followed by its version in parentheses, if it has one.
pub open spec fn titled(title: Seq<char>, version: Option<Seq<char>>) -> Seq<char> {
    match version {
        Some(v) => title + " ("@ + v + ")"@,
        None => title,
    }
}

/// The characters of an optional string.
pub open spec fn opt_view(o: Option<String>) -> Option<Seq<char>> {
    match o {
        Some(s) => Some(s@),
        None => None,
    }
}

/// The lowercase form of a string, as Unicode defines it.
pub uninterp spec fn lower_of(s: Seq<char>) -> Seq<char>;

/// Relies on `str::to_lowercase`: the result depends on the characters alone.
#[verifier::external_body]
pub(crate) fn lowercase(s: &str) -> (r: String)
    ensures
        r@ == lower_of(s@),
{
    s.to_lowercase()
}

/// The decimal form of `n`.
pub fn decimal_string(n: u64) -> (r: String)
    ensures
        r@ == decimal(n as nat),
    decreases n,
{
    let digits = "0123456789";
    proof {
        reveal_strlit("0123456789");
    }
    let d = (n % 10) as usize;
    let last = digits.substring_char(d, d + 1);
    proof {
        assert(last@ =~= seq![digit_char(n as nat % 10)]);
    }
    if n < 10 {
        last.to_string()
    } else {
        let mut s = decimal_string(n / 10);
        s.append(last);
        s
    }
}

/// `s` padded on the left with `0` up to `width` characters.
fn pad_with_zeros(s: String, width: usize) -> (r: String)
    ensures
        r@ == zero_padded(s@, width as nat),
{
    let n = s.unicode_len();
    if n >= width {
        return s;
    }
    let mut zeros = String::new();
    let mut i: usize = 0;
    while i < width - n
        invariant
            n == s@.len(),
            n < width,
            i <= width - n,
            zeros@ =~= Seq::new(i as nat, |j: int| '0'),
        decreases width - n - i,
    {
        zeros.append("0");
        proof {
            reveal_strlit("0");
        }
        i = i + 1;
    }
    zeros.append(s.as_str());
    zeros
}

/// `track_num` in decimal, padded with zeros to as many digits as `track_total` has.
pub fn format_track_number(track_num: u16, track_total: u16) -> (r: String)
    ensures
        r@ == zero_padded(decimal(track_num as nat), decimal(track_total as nat).len()),
{
    let width = decimal_string(track_total as u64).unicode_len();
    pad_with_zeros(decimal_string(track_num as u64), width)
}

/// The names joined with `, `.
pub fn join_names(names: &Vec<String>) -> (r: String)
    ensures
        r@ == joined(names@.map_values(|s: String| s@)),
{
    let ghost view = names@.map_values(|s: String| s@);
    let mut out = String::new();
    let mut i: usize = 0;
    while i < names.len()
        invariant
            view == names@.map_values(|s: String| s@),
            i <= names.len(),
            out@ == joined(view.subrange(0, i as int)),
        decreases names.len() - i,
    {
        if i > 0 {
            out.append(", ");
        }
        out.append(names[i].as_str());
        proof {
            reveal_strlit(", ");
            let v = view.subrange(0, i + 1);
            assert(v.drop_last() =~= view.subrange(0, i as int));
            if i == 0 {
                assert(out@ =~= joined(v));
            }
        }
        i = i + 1;
    }
    proof {
        assert(view.subrange(0, names.len() as int) =~= view);
    }
    out
}

/// A title followed by its version in parentheses, if it has one.
pub fn parse_title(title: &str, version: Option<String>) -> (r: String)
    ensures
        r@ == titled(title@, opt_view(version)),
{
    let mut out = title.to_string();
    match version {
        Some(v) => {
            out.append(" (");
            out.append(v.as_str());
            out.append(")");
        },
        None => {},
    }
    out
}

/// `url` with white space trimmed at both ends and one trailing `/` removed.
pub open spec fn cleaned_url(url: Seq<char>) -> Seq<char> {
    let t = crate::naming::trimmed(url);
    if t.len() > 0 && t.last() == '/' {
        t.drop_last()
    } else {
        t
    }
}

} // verus!
