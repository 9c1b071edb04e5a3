//! Character-level text operations: what callsign matching and spoken
//! messages are built from.
//!
//! Texts are modelled as `Seq<char>`; the executable functions work on
//! `Vec<char>` and convert from and to `str` at their edges.

use vstd::prelude::*;
use vstd::string::*;

verus! {

// ---------------------------------------------------------------------------
// Reading and comparing
// ---------------------------------------------------------------------------

/// The characters of a text, in order.
pub fn chars_of(s: &str) -> (r: Vec<char>)
    ensures
        r@ == s@,
{
    let mut out: Vec<char> = Vec::new();
    for c in it: s.chars()
        invariant
            out@ == it.seq().take(it.index()),
            it.seq() == s@,
    {
        out.push(c);
    }
    out
}

/// Whether two character vectors are equal.
pub fn same_chars(a: &Vec<char>, b: &Vec<char>) -> (r: bool)
    ensures
        r == (a@ == b@),
{
    if a.len() != b.len() {
        return false;
    }
    let mut i: usize = 0;
    while i < a.len()
        invariant
            i <= a.len(),
            a.len() == b.len(),
            a@.take(i as int) == b@.take(i as int),
        decreases a.len() - i,
    {
        if a[i] != b[i] {
            return false;
        }
        proof {
            assert(a@.take(i + 1) =~= a@.take(i as int).push(a@[i as int]));
            assert(b@.take(i + 1) =~= b@.take(i as int).push(b@[i as int]));
        }
        i += 1;
    }
    proof {
        assert(a@.take(a.len() as int) =~= a@);
        assert(b@.take(b.len() as int) =~= b@);
    }
    true
}

/// Whether two texts hold the same characters.
pub fn same_text(a: &str, b: &str) -> (r: bool)
    ensures
        r == (a@ == b@),
{
    let left = chars_of(a);
    let right = chars_of(b);
    same_chars(&left, &right)
}

// ---------------------------------------------------------------------------
// Lower case
// ---------------------------------------------------------------------------

/// The lower-case form of a text, as `str::to_lowercase` computes it from the
/// Unicode case tables.
pub uninterp spec fn lowercase(s: Seq<char>) -> Seq<char>;

/// Lower-cases a text.
///
/// Trusted: collects the characters into a `String`, calls
/// `str::to_lowercase` on it and hands the characters of the result back. The
/// contract only gives that result its name.
#[verifier::external_body]
pub(crate) fn lowercase_chars(chars: &Vec<char>) -> (r: Vec<char>)
    ensures
        r@ == lowercase(chars@),
{
    chars.iter().collect::<String>().to_lowercase().chars().collect()
}

/// The lower-case form of a text.
pub fn to_lowercase(s: &str) -> (r: Vec<char>)
    ensures
        r@ == lowercase(s@),
{
    let chars = chars_of(s);
    lowercase_chars(&chars)
}

// ---------------------------------------------------------------------------
// White space
// ---------------------------------------------------------------------------

/// Whether `c` has the Unicode property `White_Space`.
pub open spec fn is_white_space(c: char) -> bool {
    let u = c as u32;
    ||| 0x09 <= u <= 0x0D
    ||| u == 0x20
    ||| u == 0x85
    ||| u == 0xA0
    ||| u == 0x1680
    ||| 0x2000 <= u <= 0x200A
    ||| u == 0x2028
    ||| u == 0x2029
    ||| u == 0x202F
    ||| u == 0x205F
    ||| u == 0x3000
}

/// Decides [`is_white_space`].
pub fn is_whitespace(c: char) -> (r: bool)
    ensures
        r == is_white_space(c),
{
    let u: u32 = c as u32;
    (0x09 <= u && u <= 0x0D) || u == 0x20 || u == 0x85 || u == 0xA0 || u == 0x1680 || (0x2000 <= u
        && u <= 0x200A) || u == 0x2028 || u == 0x2029 || u == 0x202F || u == 0x205F || u == 0x3000
}

/// `s` without its leading white space.
pub open spec fn trim_start(s: Seq<char>) -> Seq<char>
    decreases s.len(),
{
    if s.len() > 0 && is_white_space(s.first()) {
        trim_start(s.drop_first())
    } else {
        s
    }
}

/// `s` without its trailing white space.
pub open spec fn trim_end(s: Seq<char>) -> Seq<char>
    decreases s.len(),
{
    if s.len() > 0 && is_white_space(s.last()) {
        trim_end(s.drop_last())
    } else {
        s
    }
}

/// `s` without leading and trailing white space.
pub open spec fn trimmed(s: Seq<char>) -> Seq<char> {
    trim_end(trim_start(s))
}

/// Removes leading and trailing white space.
pub fn trim(s: &Vec<char>) -> (r: Vec<char>)
    ensures
        r@ == trimmed(s@),
{
    let n = s.len();
    let mut start: usize = 0;
    proof {
        assert(s@.subrange(0, n as int) =~= s@);
    }
    while start < n && is_whitespace(s[start])
        invariant
            start <= n,
            n == s.len(),
            trim_start(s@) == trim_start(s@.subrange(start as int, n as int)),
        decreases n - start,
    {
        proof {
            let rest = s@.subrange(start as int, n as int);
            assert(rest.first() == s@[start as int]);
            assert(rest.drop_first() =~= s@.subrange(start + 1, n as int));
        }
        start += 1;
    }
    proof {
        let rest = s@.subrange(start as int, n as int);
        if start < n {
            assert(rest.first() == s@[start as int]);
        }
        assert(trim_start(s@) == rest);
    }
    let mut end: usize = n;
    while end > start && is_whitespace(s[end - 1])
        invariant
            start <= end <= n,
            n == s.len(),
            trimmed(s@) == trim_end(s@.subrange(start as int, end as int)),
        decreases end,
    {
        proof {
            let part = s@.subrange(start as int, end as int);
            assert(part.last() == s@[end - 1]);
            assert(part.drop_last() =~= s@.subrange(start as int, end - 1));
        }
        end -= 1;
    }
    proof {
        let part = s@.subrange(start as int, end as int);
        if end > start {
            assert(part.last() == s@[end - 1]);
        }
        assert(trimmed(s@) == part);
    }
    let mut out: Vec<char> = Vec::new();
    let mut i: usize = start;
    while i < end
        invariant
            start <= i <= end <= n,
            n == s.len(),
            out@ == s@.subrange(start as int, i as int),
        decreases end - i,
    {
        out.push(s[i]);
        proof {
            assert(out@ =~= s@.subrange(start as int, i + 1));
        }
        i += 1;
    }
    out
}

// ---------------------------------------------------------------------------
// Callsign normalisation
// ---------------------------------------------------------------------------

/// Hyphens and spaces carry no meaning inside a callsign.
pub open spec fn is_separator(c: char) -> bool {
    c == '-' || c == ' '
}

/// `s` without hyphens and spaces.
pub open spec fn without_separators(s: Seq<char>) -> Seq<char> {
    s.filter(|c: char| !is_separator(c))
}

/// Removes every hyphen and space.
pub fn strip_separators(s: &Vec<char>) -> (r: Vec<char>)
    ensures
        r@ == without_separators(s@),
{
    let ghost keep = |c: char| !is_separator(c);
    let mut out: Vec<char> = Vec::new();
    let mut i: usize = 0;
    proof {
        reveal(Seq::filter);
        assert(s@.take(0) =~= Seq::<char>::empty());
    }
    while i < s.len()
        invariant
            i <= s.len(),
            keep == (|c: char| !is_separator(c)),
            out@ == s@.take(i as int).filter(keep),
        decreases s.len() - i,
    {
        let c = s[i];
        proof {
            reveal(Seq::filter);
            let next = s@.take(i + 1);
            assert(next.drop_last() =~= s@.take(i as int));
            assert(next.last() == c);
        }
        if c != '-' && c != ' ' {
            out.push(c);
        }
        i += 1;
    }
    proof {
        assert(s@.take(s.len() as int) =~= s@);
    }
    out
}

/// The form in which callsigns are compared: trimmed, lower-cased, and with
/// hyphens and spaces removed.
pub open spec fn normalized(s: Seq<char>) -> Seq<char> {
    without_separators(lowercase(trimmed(s)))
}

/// Brings a callsign into the form in which callsigns are compared.
pub fn normalize_callsign(s: &str) -> (r: Vec<char>)
    ensures
        r@ == normalized(s@),
{
    let chars = chars_of(s);
    let cut = trim(&chars);
    let lower = lowercase_chars(&cut);
    strip_separators(&lower)
}

// ---------------------------------------------------------------------------
// Substring search
// ---------------------------------------------------------------------------

/// `needle` stands in `hay` at position `at`.
pub open spec fn occurs_at(hay: Seq<char>, needle: Seq<char>, at: int) -> bool {
    &&& 0 <= at
    &&& at + needle.len() <= hay.len()
    &&& hay.subrange(at, at + needle.len()) == needle
}

/// `needle` stands somewhere in `hay`. The empty text stands in every text.
pub open spec fn occurs_in(hay: Seq<char>, needle: Seq<char>) -> bool {
    exists|at: int| occurs_at(hay, needle, at)
}

/// Whether `needle` stands in `hay` at position `at`.
fn matches_at(hay: &Vec<char>, needle: &Vec<char>, at: usize) -> (r: bool)
    requires
        at + needle.len() <= hay.len(),
    ensures
        r == occurs_at(hay@, needle@, at as int),
{
    let mut j: usize = 0;
    while j < needle.len()
        invariant
            j <= needle.len(),
            at + needle.len() <= hay.len(),
            hay@.subrange(at as int, at + j) == needle@.take(j as int),
        decreases needle.len() - j,
    {
        if hay[at + j] != needle[j] {
            proof {
                let window = hay@.subrange(at as int, at + needle.len());
                assert(window[j as int] == hay@[at + j]);
            }
            return false;
        }
        proof {
            assert(hay@.subrange(at as int, at + j + 1) =~= hay@.subrange(at as int, at + j).push(
                hay@[at + j],
            ));
            assert(needle@.take(j + 1) =~= needle@.take(j as int).push(needle@[j as int]));
        }
        j += 1;
    }
    proof {
        assert(needle@.take(needle.len() as int) =~= needle@);
    }
    true
}

/// Whether `needle` stands somewhere in `hay`.
pub fn contains(hay: &Vec<char>, needle: &Vec<char>) -> (r: bool)
    ensures
        r == occurs_in(hay@, needle@),
{
    if needle.len() > hay.len() {
        return false;
    }
    let last: usize = hay.len() - needle.len();
    let mut at: usize = 0;
    loop
        invariant
            at <= last,
            last == hay.len() - needle.len(),
            needle.len() <= hay.len(),
            forall|k: int| 0 <= k < at ==> !occurs_at(hay@, needle@, k),
        decreases last - at,
    {
        if matches_at(hay, needle, at) {
            return true;
        }
        if at == last {
            return false;
        }
        at += 1;
    }
}

// ---------------------------------------------------------------------------
// Splitting
// ---------------------------------------------------------------------------

/// The pieces of `s` between occurrences of `sep`. A text without `sep` is
/// one piece; two adjacent separators enclose an empty piece.
pub open spec fn split_on(s: Seq<char>, sep: char) -> Seq<Seq<char>>
    decreases s.len(),
{
    if s.len() == 0 {
        seq![Seq::<char>::empty()]
    } else {
        let before = split_on(s.drop_last(), sep);
        if s.last() == sep {
            before.push(Seq::<char>::empty())
        } else {
            before.drop_last().push(before.last().push(s.last()))
        }
    }
}

/// The views of a list of character vectors.
pub open spec fn pieces_view(pieces: Seq<Vec<char>>) -> Seq<Seq<char>> {
    pieces.map_values(|p: Vec<char>| p@)
}

/// Splits `s` at every occurrence of `sep`.
pub fn split(s: &Vec<char>, sep: char) -> (r: Vec<Vec<char>>)
    ensures
        pieces_view(r@) == split_on(s@, sep),
{
    let mut done: Vec<Vec<char>> = Vec::new();
    let mut current: Vec<char> = Vec::new();
    let mut i: usize = 0;
    proof {
        assert(s@.take(0) =~= Seq::<char>::empty());
        assert(pieces_view(done@).push(current@) =~= seq![Seq::<char>::empty()]);
    }
    while i < s.len()
        invariant
            i <= s.len(),
            pieces_view(done@).push(current@) == split_on(s@.take(i as int), sep),
        decreases s.len() - i,
    {
        let c = s[i];
        proof {
            let next = s@.take(i + 1);
            assert(next.drop_last() =~= s@.take(i as int));
            assert(next.last() == c);
        }
        let ghost before = pieces_view(done@).push(current@);
        if c == sep {
            done.push(current);
            current = Vec::new();
            proof {
                assert(pieces_view(done@) =~= before);
            }
        } else {
            current.push(c);
            proof {
                assert(pieces_view(done@).push(current@) =~= before.drop_last().push(
                    before.last().push(c),
                ));
            }
        }
        i += 1;
    }
    proof {
        assert(s@.take(s.len() as int) =~= s@);
    }
    let ghost before = pieces_view(done@).push(current@);
    done.push(current);
    proof {
        assert(pieces_view(done@) =~= before);
    }
    done
}

} // verus!
