//! Pure path-string manipulation: deriving the default destination path of a
//! conversion from its source path. The path model is the one the converter
//! uses throughout: components are separated by `/`, the file name is the
//! part after the last separator, and the stem is the file name without its
//! extension, where a dot in the leading position does not start an
//! extension. No filesystem access happens here.

use vstd::prelude::*;

verus! {

/// One past the last occurrence of `c` in `s`, or `0` if `c` does not occur.
pub open spec fn scan_back(s: Seq<char>, c: char) -> int
    decreases s.len(),
{
    if s.len() == 0 {
        0
    } else if s[s.len() - 1] == c {
        s.len() as int
    } else {
        scan_back(s.drop_last(), c)
    }
}

pub proof fn lemma_scan_back_bounds(s: Seq<char>, c: char)
    ensures
        0 <= scan_back(s, c) <= s.len(),
    decreases s.len(),
{
    if s.len() == 0 {
    } else if s[s.len() - 1] == c {
    } else {
        lemma_scan_back_bounds(s.drop_last(), c);
    }
}

/// The default destination path derived from a source path: the source's
/// parent directory part, then the file stem, then `.pdf`. `None` when the
/// source has no file stem: an empty file name part, or a file name that is
/// `.` or `..`.
pub open spec fn pdf_path_of(s: Seq<char>) -> Option<Seq<char>> {
    let k = scan_back(s, '/');
    let name = s.subrange(k, s.len() as int);
    if name.len() == 0 || (name.len() == 1 && name[0] == '.') || (name.len() == 2 && name[0]
        == '.' && name[1] == '.') {
        None
    } else {
        let d = scan_back(name, '.');
        let stem = if d <= 1 {
            name
        } else {
            name.subrange(0, d - 1)
        };
        Some(s.subrange(0, k) + stem + ".pdf"@)
    }
}

/// One past the last occurrence of `c` in `s`, or `0` if `c` does not occur.
fn rscan(s: &str, c: char) -> (r: usize)
    ensures
        r == scan_back(s@, c),
{
    let n: usize = s.unicode_len();
    let mut i: usize = n;
    proof {
        assert(s@.subrange(0, n as int) =~= s@);
    }
    while i > 0 && s.get_char(i - 1) != c
        invariant
            i <= n,
            n == s@.len(),
            scan_back(s@, c) == scan_back(s@.subrange(0, i as int), c),
        decreases i,
    {
        proof {
            assert(s@.subrange(0, i as int).drop_last() =~= s@.subrange(0, i - 1));
        }
        i = i - 1;
    }
    proof {
        if i == 0 {
            assert(s@.subrange(0, 0) =~= Seq::<char>::empty());
        } else {
            assert(s@.subrange(0, i as int).len() == i);
            assert(s@.subrange(0, i as int)[i - 1] == c);
        }
    }
    i
}

/// Derives the default destination path from a source path, as `pdf_path_of`
/// describes; `None` when the source path has no file stem.
pub fn derive_pdf_path(s: &str) -> (r: Option<String>)
    ensures
        r is Some <==> pdf_path_of(s@) is Some,
        r is Some ==> r->0@ == pdf_path_of(s@)->0,
{
    let n: usize = s.unicode_len();
    let k: usize = rscan(s, '/');
    proof {
        lemma_scan_back_bounds(s@, '/');
    }
    let name = s.substring_char(k, n);
    let nl: usize = name.unicode_len();
    if nl == 0 {
        return None;
    }
    if nl == 1 && name.get_char(0) == '.' {
        return None;
    }
    if nl == 2 && name.get_char(0) == '.' && name.get_char(1) == '.' {
        return None;
    }
    let d: usize = rscan(name, '.');
    proof {
        lemma_scan_back_bounds(name@, '.');
    }
    let stem_end: usize = if d <= 1 {
        nl
    } else {
        d - 1
    };
    let mut r = String::from_str(s.substring_char(0, k));
    r.append(name.substring_char(0, stem_end));
    r.append(".pdf");
    proof {
        if d <= 1 {
            assert(name@.subrange(0, nl as int) =~= name@);
        }
        assert(r@ =~= pdf_path_of(s@)->0);
    }
    Some(r)
}

} // verus!
