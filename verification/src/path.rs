//! Paths as text, joined by the Unix rules of `Path::join`.
use vstd::prelude::*;
use vstd::string::*;

verus! {

/// A path is absolute when it starts with the root `/`.
pub open spec fn is_absolute(p: Seq<char>) -> bool {
    p.len() > 0 && p[0] == '/'
}

/// `base` joined with `part`: an absolute `part` replaces `base`; otherwise `part` is
/// appended, with a `/` between the two unless `base` is empty or already ends in `/`.
pub open spec fn joined(base: Seq<char>, part: Seq<char>) -> Seq<char> {
    if is_absolute(part) {
        part
    } else if base.len() == 0 || base.last() == '/' {
        base + part
    } else {
        base + seq!['/'] + part
    }
}

/// Whether a path is absolute.
pub fn path_is_absolute(p: &str) -> (r: bool)
    ensures
        r == is_absolute(p@),
{
    p.unicode_len() > 0 && p.get_char(0) == '/'
}

/// Joins `part` onto `base`.
pub fn join(base: &str, part: &str) -> (r: String)
    ensures
        r@ == joined(base@, part@),
{
    if path_is_absolute(part) {
        return String::from_str(part);
    }
    let n = base.unicode_len();
    let mut s = String::from_str(base);
    if n > 0 && base.get_char(n - 1) != '/' {
        s.append("/");
        proof { reveal_strlit("/"); }
    }
    s.append(part);
    s
}

/// The part of `p` after its last `/` (all of `p` when it has none).
pub open spec fn last_segment(p: Seq<char>) -> Seq<char>
    decreases p.len(),
{
    if p.len() == 0 || p.last() == '/' {
        Seq::empty()
    } else {
        last_segment(p.drop_last()).push(p.last())
    }
}

/// The last component of a path, as `Path::file_name` gives it on Unix: trailing `/` and
/// trailing `/.` are passed over; the part after the last `/` is the name, unless it is
/// empty, `.` or `..` (so the empty path, the root, `.` and a path ending in `..` have none).
pub open spec fn file_name_of(p: Seq<char>) -> Option<Seq<char>>
    decreases p.len(),
{
    if p.len() == 0 {
        None
    } else if p.last() == '/' {
        file_name_of(p.drop_last())
    } else if p.len() >= 2 && p.last() == '.' && p[p.len() - 2] == '/' {
        file_name_of(p.drop_last())
    } else {
        let name = last_segment(p);
        if name == "."@ || name == ".."@ {
            None
        } else {
            Some(name)
        }
    }
}

/// After a `/`, the last segment is everything that follows, when that has no `/`.
pub proof fn lemma_last_segment_after_slash(q: Seq<char>, s: Seq<char>)
    requires
        forall|i: int| 0 <= i < s.len() ==> s[i] != '/',
    ensures
        last_segment(q.push('/') + s) == s,
    decreases s.len(),
{
    let t = q.push('/') + s;
    if s.len() == 0 {
        assert(t =~= q.push('/'));
    } else {
        assert(t.drop_last() =~= q.push('/') + s.drop_last());
        lemma_last_segment_after_slash(q, s.drop_last());
        assert(s.drop_last().push(s.last()) =~= s);
    }
}

/// The view of an optional string.
pub open spec fn opt_text(o: Option<String>) -> Option<Seq<char>> {
    match o {
        Some(s) => Some(s@),
        None => None,
    }
}

/// The last component of a path, by `Path::file_name`; the name of a valid UTF-8 path is
/// a part of it, so `to_string_lossy` does not change it.
#[verifier::external_body]
pub(crate) fn file_name(p: &str) -> (r: Option<String>)
    ensures
        opt_text(r) == file_name_of(p@),
{
    match std::path::Path::new(p).file_name() {
        Some(name) => Some(name.to_string_lossy().into_owned()),
        None => None,
    }
}

} // verus!
