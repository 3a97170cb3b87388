//! Paths as text: joining, the parent directory and the extension of a file.
//! Both `/` and `\` count as separators.
use vstd::prelude::*;
use crate::platform::{separator_of, Platform};

verus! {

/// `c` separates the parts of a path.
pub open spec fn is_sep(c: char) -> bool {
    c == '/' || c == '\\'
}

/// The last position in `[lo, hi)` of `s` that holds `a` or `b`; -1 if none.
pub open spec fn last_in(s: Seq<char>, lo: int, hi: int, a: char, b: char) -> int
    decreases hi - lo,
{
    if hi <= lo {
        -1
    } else if s[hi - 1] == a || s[hi - 1] == b {
        hi - 1
    } else {
        last_in(s, lo, hi - 1, a, b)
    }
}

/// The position of the last separator in `s`; -1 if none.
pub open spec fn last_sep(s: Seq<char>) -> int {
    last_in(s, 0, s.len() as int, '/', '\\')
}

/// `rel` appended to `base`, with `sep` between them unless `base` is empty or
/// already ends in a separator. `rel` is taken as relative.
pub open spec fn joined(base: Seq<char>, rel: Seq<char>, sep: char) -> Seq<char> {
    if base.len() == 0 || is_sep(base.last()) {
        base + rel
    } else {
        base + seq![sep] + rel
    }
}

/// The directory that holds `s`: the text before its last separator (the
/// separator itself when it is the first character); empty if there is none.
pub open spec fn parent_of(s: Seq<char>) -> Seq<char> {
    let k = last_sep(s);
    if k < 0 {
        Seq::empty()
    } else if k == 0 {
        s.subrange(0, 1)
    } else {
        s.subrange(0, k)
    }
}

/// `s` with the extension of its last part set to `ext`: what follows the
/// last dot of that part is replaced, unless the dot is its first character,
/// in which case `.` and `ext` are added.
pub open spec fn with_extension_of(s: Seq<char>, ext: Seq<char>) -> Seq<char> {
    let start = last_sep(s) + 1;
    let d = last_in(s, start, s.len() as int, '.', '.');
    if d > start {
        s.subrange(0, d) + seq!['.'] + ext
    } else {
        s + seq!['.'] + ext
    }
}

/// The last position in `[lo, len)` of `s` that holds `a` or `b`.
pub fn rfind_chars(s: &str, lo: usize, a: char, b: char) -> (r: Option<usize>)
    requires
        lo <= s@.len(),
    ensures
        match r {
            Some(i) => lo <= i < s@.len() && i as int == last_in(
                s@,
                lo as int,
                s@.len() as int,
                a,
                b,
            ),
            None => last_in(s@, lo as int, s@.len() as int, a, b) == -1,
        },
{
    let n = s.unicode_len();
    let mut hi: usize = n;
    while hi > lo
        invariant
            n == s@.len(),
            lo <= hi <= n,
            last_in(s@, lo as int, n as int, a, b) == last_in(s@, lo as int, hi as int, a, b),
        decreases hi,
    {
        let c = s.get_char(hi - 1);
        if c == a || c == b {
            return Some(hi - 1);
        }
        hi = hi - 1;
    }
    None
}

/// Joins `rel` to `base` with the separator of `platform`.
pub fn join(base: &str, rel: &str, platform: Platform) -> (r: String)
    ensures
        r@ == joined(base@, rel@, separator_of(platform)),
{
    let n = base.unicode_len();
    let mut r = String::from_str(base);
    if n > 0 {
        let c = base.get_char(n - 1);
        if c != '/' && c != '\\' {
            let ghost prev = r@;
            match platform {
                Platform::Windows => {
                    r.append("\\");
                    proof {
                        reveal_strlit("\\");
                    }
                },
                _ => {
                    r.append("/");
                    proof {
                        reveal_strlit("/");
                    }
                },
            }
            assert(r@ =~= prev + seq![separator_of(platform)]);
        }
    }
    r.append(rel);
    r
}

/// The directory that holds `path`.
pub fn parent(path: &str) -> (r: String)
    ensures
        r@ == parent_of(path@),
{
    match rfind_chars(path, 0, '/', '\\') {
        None => String::new(),
        Some(k) => {
            if k == 0 {
                String::from_str(path.substring_char(0, 1))
            } else {
                String::from_str(path.substring_char(0, k))
            }
        },
    }
}

/// `path` with the extension of its last part set to `ext`.
pub fn with_extension(path: &str, ext: &str) -> (r: String)
    ensures
        r@ == with_extension_of(path@, ext@),
{
    let n = path.unicode_len();
    let start: usize = match rfind_chars(path, 0, '/', '\\') {
        None => 0,
        Some(k) => k + 1,
    };
    let mut r = match rfind_chars(path, start, '.', '.') {
        Some(d) => {
            if d > start {
                String::from_str(path.substring_char(0, d))
            } else {
                String::from_str(path)
            }
        },
        None => String::from_str(path),
    };
    r.append(".");
    proof {
        reveal_strlit(".");
    }
    r.append(ext);
    r
}

} // verus!
