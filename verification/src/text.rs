//! Text building blocks: decimal numbers, substring search, and the renderings
//! of strings, paths and bytes that the messages of this library quote.
use vstd::prelude::*;
use vstd::string::*;

verus! {

/// The decimal digit character for `d` in `0..10`.
pub open spec fn digit_char(d: int) -> char {
    if d == 0 { '0' } else if d == 1 { '1' } else if d == 2 { '2' } else if d == 3 { '3' }
    else if d == 4 { '4' } else if d == 5 { '5' } else if d == 6 { '6' } else if d == 7 { '7' }
    else if d == 8 { '8' } else { '9' }
}

/// The decimal notation of a natural number, without leading zeros.
pub open spec fn nat_text(n: nat) -> Seq<char>
    decreases n,
{
    if n < 10 {
        seq![digit_char(n as int)]
    } else {
        nat_text(n / 10) + seq![digit_char((n % 10) as int)]
    }
}

/// The decimal notation of an integer, with a leading `-` when it is negative.
pub open spec fn int_text(i: int) -> Seq<char> {
    if i < 0 { seq!['-'] + nat_text((-i) as nat) } else { nat_text(i as nat) }
}

fn digit(d: u64) -> (s: &'static str)
    requires
        d < 10,
    ensures
        s@ == seq![digit_char(d as int)],
{
    if d == 0 {
        proof { reveal_strlit("0"); }
        "0"
    } else if d == 1 {
        proof { reveal_strlit("1"); }
        "1"
    } else if d == 2 {
        proof { reveal_strlit("2"); }
        "2"
    } else if d == 3 {
        proof { reveal_strlit("3"); }
        "3"
    } else if d == 4 {
        proof { reveal_strlit("4"); }
        "4"
    } else if d == 5 {
        proof { reveal_strlit("5"); }
        "5"
    } else if d == 6 {
        proof { reveal_strlit("6"); }
        "6"
    } else if d == 7 {
        proof { reveal_strlit("7"); }
        "7"
    } else if d == 8 {
        proof { reveal_strlit("8"); }
        "8"
    } else {
        proof { reveal_strlit("9"); }
        "9"
    }
}

/// Writes a natural number in decimal.
pub fn u64_text(n: u64) -> (s: String)
    ensures
        s@ == nat_text(n as nat),
    decreases n,
{
    if n < 10 {
        String::from_str(digit(n))
    } else {
        let mut s = u64_text(n / 10);
        s.append(digit(n % 10));
        s
    }
}

/// Writes an `i32` in decimal, as `Display` does.
pub fn i32_text(i: i32) -> (s: String)
    ensures
        s@ == int_text(i as int),
{
    if i < 0 {
        let wide: i64 = i as i64;
        let magnitude: u64 = (-wide) as u64;
        let s = String::from_str("-");
        proof { reveal_strlit("-"); }
        s.concat(u64_text(magnitude).as_str())
    } else {
        u64_text(i as u64)
    }
}

/// `needle` stands in `hay` from position `i` on.
pub open spec fn occurs_at(hay: Seq<char>, needle: Seq<char>, i: int) -> bool {
    &&& 0 <= i
    &&& i + needle.len() <= hay.len()
    &&& hay.subrange(i, i + needle.len()) == needle
}

/// `needle` is a substring of `hay` (the empty string is a substring of every string).
pub open spec fn contains_text(hay: Seq<char>, needle: Seq<char>) -> bool {
    exists|i: int| occurs_at(hay, needle, i)
}

/// The characters of a string, in order.
pub fn chars_of(s: &str) -> (v: Vec<char>)
    ensures
        v@ == s@,
{
    let n = s.unicode_len();
    let mut v: Vec<char> = Vec::new();
    let mut i: usize = 0;
    while i < n
        invariant
            n == s@.len(),
            i <= n,
            v@ == s@.subrange(0, i as int),
        decreases n - i,
    {
        v.push(s.get_char(i));
        i = i + 1;
    }
    v
}

/// Whether `needle` occurs in `hay`, as `str::contains` answers it.
pub fn str_contains(hay: &str, needle: &str) -> (r: bool)
    ensures
        r == contains_text(hay@, needle@),
{
    let h = chars_of(hay);
    let nd = chars_of(needle);
    let hl = h.len();
    let nl = nd.len();
    if nl > hl {
        assert forall|i: int| !occurs_at(hay@, needle@, i) by {}
        return false;
    }
    let mut i: usize = 0;
    while i <= hl - nl
        invariant
            h@ == hay@,
            nd@ == needle@,
            hl == h@.len(),
            nl == nd@.len(),
            nl <= hl,
            i <= hl - nl + 1,
            forall|k: int| 0 <= k < i ==> !occurs_at(hay@, needle@, k),
        decreases hl - nl + 1 - i,
    {
        let mut j: usize = 0;
        let mut same = true;
        while j < nl
            invariant
                h@ == hay@,
                nd@ == needle@,
                hl == h@.len(),
                nl == nd@.len(),
                i + nl <= hl,
                j <= nl,
                same ==> forall|k: int| 0 <= k < j ==> h@[i + k] == nd@[k],
                !same ==> exists|k: int| 0 <= k < nl && h@[i + k] != nd@[k],
            decreases nl - j,
        {
            if h[i + j] != nd[j] {
                same = false;
            }
            j = j + 1;
        }
        if same {
            assert(hay@.subrange(i as int, i + nl) =~= needle@);
            assert(occurs_at(hay@, needle@, i as int));
            return true;
        }
        assert(!occurs_at(hay@, needle@, i as int)) by {
            let k = choose|k: int| 0 <= k < nl && h@[i + k] != nd@[k];
            if hay@.subrange(i as int, i + nl) == needle@ {
                assert(hay@.subrange(i as int, i + nl)[k] == h@[i + k]);
            }
        }
        i = i + 1;
    }
    assert forall|k: int| !occurs_at(hay@, needle@, k) by {
        if 0 <= k < i {
        }
    }
    false
}

/// A copy of a byte string.
pub fn copy_bytes(a: &Vec<u8>) -> (r: Vec<u8>)
    ensures
        r@ == a@,
{
    let mut r: Vec<u8> = Vec::new();
    let mut i: usize = 0;
    while i < a.len()
        invariant
            i <= a@.len(),
            r@ == a@.subrange(0, i as int),
        decreases a@.len() - i,
    {
        r.push(a[i]);
        i = i + 1;
    }
    assert(a@.subrange(0, i as int) =~= a@);
    r
}

/// Whether two byte strings are equal.
pub fn bytes_equal(a: &Vec<u8>, b: &Vec<u8>) -> (r: bool)
    ensures
        r == (a@ == b@),
{
    if a.len() != b.len() {
        return false;
    }
    let mut i: usize = 0;
    while i < a.len()
        invariant
            a@.len() == b@.len(),
            i <= a@.len(),
            forall|k: int| 0 <= k < i ==> a@[k] == b@[k],
        decreases a@.len() - i,
    {
        if a[i] != b[i] {
            return false;
        }
        i = i + 1;
    }
    assert(a@ =~= b@);
    true
}

/// Whether two strings are equal.
pub fn text_equal(a: &str, b: &str) -> (r: bool)
    ensures
        r == (a@ == b@),
{
    let x = chars_of(a);
    let y = chars_of(b);
    if x.len() != y.len() {
        return false;
    }
    let mut i: usize = 0;
    while i < x.len()
        invariant
            x@ == a@,
            y@ == b@,
            x@.len() == y@.len(),
            i <= x@.len(),
            forall|k: int| 0 <= k < i ==> x@[k] == y@[k],
        decreases x@.len() - i,
    {
        if x[i] != y[i] {
            return false;
        }
        i = i + 1;
    }
    assert(a@ =~= b@);
    true
}

/// `m` is what `Display` writes for `e`.
pub open spec fn displays<T: core::fmt::Display>(e: &T, m: Seq<char>) -> bool {
    exists|s: String| #[trigger] to_string_from_display_ensures::<T>(e, s) && m == s@
}

/// What `{:?}` writes for a string: the text in double quotes, escaped.
pub uninterp spec fn str_debug_text(s: Seq<char>) -> Seq<char>;

/// What `{:?}` writes for a path: the path in double quotes, escaped.
pub uninterp spec fn path_debug_text(p: Seq<char>) -> Seq<char>;

/// The text that `String::from_utf8_lossy` decodes from bytes: valid UTF-8
/// sequences as they are, each invalid one as U+FFFD.
pub uninterp spec fn utf8_lossy_text(b: Seq<u8>) -> Seq<char>;

/// Renders a string with `Debug` (`format!("{:?}", s)`), a function of the string alone.
#[verifier::external_body]
pub(crate) fn str_debug(s: &str) -> (r: String)
    ensures
        r@ == str_debug_text(s@),
{
    format!("{:?}", s)
}

/// Renders a path with `Debug` (`format!("{:?}", Path::new(p))`), a function of the path alone.
#[verifier::external_body]
pub(crate) fn path_debug(p: &str) -> (r: String)
    ensures
        r@ == path_debug_text(p@),
{
    format!("{:?}", std::path::Path::new(p))
}

/// Decodes bytes with `String::from_utf8_lossy`, a function of the bytes alone; valid
/// UTF-8, and so plain ASCII, comes back as it is.
#[verifier::external_body]
pub(crate) fn utf8_lossy(b: &[u8]) -> (r: String)
    ensures
        r@ == utf8_lossy_text(b@),
        (forall|i: int| 0 <= i < b@.len() ==> b@[i] < 128) ==> r@ == b@.map_values(|c: u8| c as char),
{
    String::from_utf8_lossy(b).into_owned()
}

} // verus!
