//! Gating protected requests on the session cookie.
//!
//! The transport hands this module the raw `Cookie` header; the module
//! extracts the access-token cookie by name, validates it against the
//! audience's secret, and resolves the subject id — or fails closed. There
//! is no partial success: a missing header, a missing cookie, a missing
//! secret and a failed validation all end in rejection, and audience-bound
//! routes never fall back to the other audience's secret.
//!
//! Header parsing follows the common transport shape: cookies separated by
//! `"; "`, each `name=value`, name and value trimmed of ASCII whitespace,
//! the first cookie carrying the wanted name winning. A cookie without `=`
//! is skipped.

use vstd::prelude::*;

use crate::errors::AuthError;
use crate::token::spec_verify;
use crate::token::verify;

verus! {

/// The whitespace trimmed around cookie names and values.
pub open spec fn is_cookie_ws(c: char) -> bool {
    c == ' ' || c == '\t' || c == '\r' || c == '\n'
}

/// A sequence without its leading whitespace.
pub open spec fn trim_start(s: Seq<char>) -> Seq<char>
    decreases s.len(),
{
    if s.len() > 0 && is_cookie_ws(s.first()) {
        trim_start(s.drop_first())
    } else {
        s
    }
}

/// A sequence without its trailing whitespace.
pub open spec fn trim_end(s: Seq<char>) -> Seq<char>
    decreases s.len(),
{
    if s.len() > 0 && is_cookie_ws(s.last()) {
        trim_end(s.drop_last())
    } else {
        s
    }
}

/// A sequence without leading or trailing whitespace.
pub open spec fn spec_trim(s: Seq<char>) -> Seq<char> {
    trim_end(trim_start(s))
}

/// The position of the first `=`, if any.
pub open spec fn find_eq(s: Seq<char>) -> Option<int>
    decreases s.len(),
{
    if s.len() == 0 {
        None
    } else if s.first() == '=' {
        Some(0int)
    } else {
        match find_eq(s.drop_first()) {
            None => None,
            Some(i) => Some(i + 1),
        }
    }
}

/// The position of the first `"; "` separator, if any.
pub open spec fn find_sep(s: Seq<char>) -> Option<int>
    decreases s.len(),
{
    if s.len() < 2 {
        None
    } else if s.first() == ';' && s[1] == ' ' {
        Some(0int)
    } else {
        match find_sep(s.drop_first()) {
            None => None,
            Some(i) => Some(i + 1),
        }
    }
}

/// What one `name=value` cookie yields for a wanted name: its trimmed
/// value when the trimmed name matches, nothing otherwise or without `=`.
pub open spec fn spec_cookie_entry(piece: Seq<char>, key: Seq<char>) -> Option<Seq<char>> {
    match find_eq(piece) {
        None => None,
        Some(i) => {
            let name = spec_trim(piece.subrange(0, i));
            let value = spec_trim(piece.subrange(i + 1, piece.len() as int));
            if name == key {
                Some(value)
            } else {
                None
            }
        },
    }
}

/// The value of the first cookie carrying the wanted name, walking the
/// header separator by separator.
pub open spec fn spec_get_cookie(header: Seq<char>, key: Seq<char>) -> Option<Seq<char>>
    decreases header.len(),
{
    match find_sep(header) {
        None => spec_cookie_entry(header, key),
        Some(i) => {
            if 0 <= i && i + 2 <= header.len() {
                match spec_cookie_entry(header.subrange(0, i), key) {
                    Some(v) => Some(v),
                    None => spec_get_cookie(header.subrange(i + 2, header.len() as int), key),
                }
            } else {
                None
            }
        },
    }
}

/// The first `=` is where `find_eq` says: an `=` there, none before, and
/// none at all when it says nothing.
proof fn lemma_find_eq(s: Seq<char>)
    ensures
        find_eq(s) matches Some(i) ==> 0 <= i < s.len() && s[i] == '=' && forall|j: int|
            0 <= j < i ==> s[j] != '=',
        find_eq(s) is None ==> forall|j: int| 0 <= j < s.len() ==> s[j] != '=',
    decreases s.len(),
{
    if s.len() > 0 && s.first() != '=' {
        let d = s.drop_first();
        lemma_find_eq(d);
        match find_eq(d) {
            None => {
                assert forall|j: int| 0 <= j < s.len() implies s[j] != '=' by {
                    if j > 0 {
                        assert(s[j] == d[j - 1]);
                    }
                }
            },
            Some(i) => {
                assert(s[i + 1] == d[i]);
                assert forall|j: int| 0 <= j < i + 1 implies s[j] != '=' by {
                    if j > 0 {
                        assert(s[j] == d[j - 1]);
                    }
                }
            },
        }
    }
}

/// The first separator is where `find_sep` says: one there, none before,
/// and none at all when it says nothing.
proof fn lemma_find_sep(s: Seq<char>)
    ensures
        find_sep(s) matches Some(i) ==> 0 <= i && i + 2 <= s.len() && s[i] == ';' && s[i + 1] == ' '
            && forall|j: int| 0 <= j < i ==> !((#[trigger] s[j]) == ';' && s[j + 1] == ' '),
        find_sep(s) is None ==> forall|j: int|
            0 <= j && j + 2 <= s.len() ==> !((#[trigger] s[j]) == ';' && s[j + 1] == ' '),
    decreases s.len(),
{
    if s.len() >= 2 && !(s.first() == ';' && s[1] == ' ') {
        let d = s.drop_first();
        lemma_find_sep(d);
        assert(forall|k: int| 0 <= k < d.len() ==> #[trigger] d[k] == s[k + 1]);
        match find_sep(d) {
            None => {
                assert forall|j: int| 0 <= j && j + 2 <= s.len() implies !((#[trigger] s[j]) == ';'
                    && s[j + 1] == ' ') by {
                    if j > 0 {
                        assert(s[j] == d[j - 1] && s[j + 1] == d[j]);
                    }
                }
            },
            Some(i) => {
                assert(s[i + 1] == d[i] && s[i + 2] == d[i + 1]);
                assert forall|j: int| 0 <= j < i + 1 implies !((#[trigger] s[j]) == ';' && s[j + 1]
                    == ' ') by {
                    if j > 0 {
                        assert(s[j] == d[j - 1] && s[j + 1] == d[j]);
                    }
                }
            },
        }
    }
}

/// The first separator at or after a position, by scanning.
fn find_sep_from(s: &str, from: usize, to: usize) -> (res: Option<usize>)
    requires
        from <= to <= s@.len(),
    ensures
        res matches Some(q) ==> from <= q && q + 2 <= to && s@[q as int] == ';' && s@[q + 1] == ' '
            && forall|j: int| from <= j < q ==> !((#[trigger] s@[j]) == ';' && s@[j + 1] == ' '),
        res is None ==> forall|j: int|
            from <= j && j + 2 <= to ==> !((#[trigger] s@[j]) == ';' && s@[j + 1] == ' '),
{
    let mut q = from;
    loop
        invariant
            from <= q <= to <= s@.len(),
            forall|j: int| from <= j < q ==> !((#[trigger] s@[j]) == ';' && s@[j + 1] == ' '),
        ensures
            forall|j: int| from <= j && j + 2 <= to ==> !((#[trigger] s@[j]) == ';' && s@[j + 1] == ' '),
        decreases to - q,
    {
        if q >= to {
            break ;
        }
        if q + 1 >= to {
            break ;
        }
        if s.get_char(q) == ';' && s.get_char(q + 1) == ' ' {
            return Some(q);
        }
        q = q + 1;
    }
    None
}

/// The first `=` at or after a position, by scanning.
fn find_eq_from(s: &str, from: usize, to: usize) -> (res: Option<usize>)
    requires
        from <= to <= s@.len(),
    ensures
        res matches Some(q) ==> from <= q && q < to && s@[q as int] == '=' && forall|j: int|
            from <= j < q ==> s@[j] != '=',
        res is None ==> forall|j: int| from <= j < to ==> s@[j] != '=',
{
    let mut q = from;
    while q < to
        invariant
            from <= q <= to <= s@.len(),
            forall|j: int| from <= j < q ==> s@[j] != '=',
        decreases to - q,
    {
        if s.get_char(q) == '=' {
            return Some(q);
        }
        q = q + 1;
    }
    None
}

/// Narrows `[a, b)` to the trimmed region of that slice.
fn trim_range(s: &str, a: usize, b: usize) -> (res: (usize, usize))
    requires
        a <= b <= s@.len(),
    ensures
        a <= res.0 <= res.1 <= b,
        spec_trim(s@.subrange(a as int, b as int)) == s@.subrange(res.0 as int, res.1 as int),
{
    let ghost piece = s@.subrange(a as int, b as int);
    let mut lo = a;
    loop
        invariant
            a <= lo <= b <= s@.len(),
            trim_start(piece) == trim_start(s@.subrange(lo as int, b as int)),
        ensures
            a <= lo <= b,
            trim_start(piece) == s@.subrange(lo as int, b as int),
        decreases b - lo,
    {
        if lo >= b {
            break ;
        }
        proof {
            let rem = s@.subrange(lo as int, b as int);
            assert(rem.first() == s@[lo as int]);
            assert(rem.drop_first() =~= s@.subrange(lo + 1, b as int));
        }
        let c = s.get_char(lo);
        if !(c == ' ' || c == '\t' || c == '\r' || c == '\n') {
            break ;
        }
        lo = lo + 1;
    }
    let mut hi = b;
    loop
        invariant
            a <= lo <= hi <= b <= s@.len(),
            trim_start(piece) == s@.subrange(lo as int, b as int),
            trim_end(s@.subrange(lo as int, b as int)) == trim_end(
                s@.subrange(lo as int, hi as int),
            ),
        ensures
            a <= lo <= hi <= b,
            trim_end(s@.subrange(lo as int, b as int)) == s@.subrange(lo as int, hi as int),
        decreases hi,
    {
        if hi <= lo {
            break ;
        }
        proof {
            let rem = s@.subrange(lo as int, hi as int);
            assert(rem.last() == s@[hi - 1]);
            assert(rem.drop_last() =~= s@.subrange(lo as int, hi - 1));
        }
        let c = s.get_char(hi - 1);
        if !(c == ' ' || c == '\t' || c == '\r' || c == '\n') {
            break ;
        }
        hi = hi - 1;
    }
    (lo, hi)
}

/// Whether two strings hold the same characters.
fn str_eq(a: &str, b: &str) -> (res: bool)
    ensures
        res == (a@ == b@),
{
    let owned_a = a.to_owned();
    let owned_b = b.to_owned();
    owned_a.eq(&owned_b)
}

/// Extracts the value of the cookie carrying the given name from a raw
/// `Cookie` header, or nothing when no cookie of that name is present.
pub fn get_cookie_value(cookie_header: &str, key: &str) -> (res: Option<String>)
    ensures
        res matches Some(v) ==> spec_get_cookie(cookie_header@, key@) == Some(v@),
        res is None ==> spec_get_cookie(cookie_header@, key@) is None,
{
    let n = cookie_header.unicode_len();
    let mut p: usize = 0;
    proof {
        assert(cookie_header@.subrange(0, n as int) =~= cookie_header@);
    }
    loop
        invariant
            p <= n == cookie_header@.len(),
            spec_get_cookie(cookie_header@, key@) == spec_get_cookie(
                cookie_header@.subrange(p as int, n as int),
                key@,
            ),
        decreases n - p,
    {
        let ghost rem = cookie_header@.subrange(p as int, n as int);
        let sep = find_sep_from(cookie_header, p, n);
        let e = match sep {
            Some(q) => q,
            None => n,
        };
        proof {
            lemma_find_sep(rem);
            assert(forall|k: int| 0 <= k < rem.len() ==> rem[k] == cookie_header@[p + k]);
            match sep {
                Some(q) => {
                    assert(rem[q - p] == ';' && rem[q - p + 1] == ' ');
                    if find_sep(rem) is None {
                        assert(!(rem[q - p] == ';' && rem[q - p + 1] == ' '));
                    }
                    let i = find_sep(rem)->Some_0;
                    assert(rem[i] == ';' && rem[i + 1] == ' ');
                    assert(!(i < q - p)) by {
                        if i < q - p {
                            assert(cookie_header@[p + i] == ';' && cookie_header@[p + i + 1]
                                == ' ');
                        }
                    }
                    assert(!(i > q - p));
                    assert(find_sep(rem) == Some(q - p));
                },
                None => {
                    if find_sep(rem) is Some {
                        let i = find_sep(rem)->Some_0;
                        assert(cookie_header@[p + i] == ';' && cookie_header@[p + i + 1] == ' ');
                    }
                    assert(find_sep(rem) is None);
                },
            }
        }
        let ghost piece = cookie_header@.subrange(p as int, e as int);
        proof {
            if sep is Some {
                assert(piece =~= rem.subrange(0, e - p));
            }
        }
        // Decide what this piece yields for the wanted name.
        let eq_pos = find_eq_from(cookie_header, p, e);
        let mut entry: Option<String> = None;
        proof {
            lemma_find_eq(piece);
            assert(forall|k: int| 0 <= k < piece.len() ==> piece[k] == cookie_header@[p + k]);
        }
        match eq_pos {
            None => {
                proof {
                    if find_eq(piece) is Some {
                        let i = find_eq(piece)->Some_0;
                        assert(cookie_header@[p + i] == '=');
                    }
                    assert(spec_cookie_entry(piece, key@) is None);
                }
            },
            Some(ei) => {
                proof {
                    assert(piece[ei - p] == '=');
                    if find_eq(piece) is None {
                        assert(piece[ei - p] != '=');
                    }
                    let i = find_eq(piece)->Some_0;
                    assert(piece[i] == '=');
                    assert(!(i < ei - p)) by {
                        if i < ei - p {
                            assert(cookie_header@[p + i] == '=');
                        }
                    }
                    assert(!(i > ei - p));
                    assert(find_eq(piece) == Some(ei - p));
                }
                let (na, nb) = trim_range(cookie_header, p, ei);
                proof {
                    assert(cookie_header@.subrange(p as int, ei as int) =~= piece.subrange(
                        0,
                        ei - p,
                    ));
                }
                let name = cookie_header.substring_char(na, nb);
                if str_eq(name, key) {
                    let (va, vb) = trim_range(cookie_header, ei + 1, e);
                    proof {
                        assert(cookie_header@.subrange(ei + 1, e as int) =~= piece.subrange(
                            ei - p + 1,
                            piece.len() as int,
                        ));
                    }
                    let value = cookie_header.substring_char(va, vb).to_owned();
                    proof {
                        assert(spec_cookie_entry(piece, key@) == Some(value@));
                    }
                    entry = Some(value);
                } else {
                    proof {
                        assert(spec_cookie_entry(piece, key@) is None);
                    }
                }
            },
        }
        match entry {
            Some(v) => {
                proof {
                    match sep {
                        Some(_) => {
                            assert(spec_get_cookie(rem, key@) == Some(v@));
                        },
                        None => {
                            assert(piece =~= rem);
                            assert(spec_get_cookie(rem, key@) == Some(v@));
                        },
                    }
                }
                return Some(v);
            },
            None => {
                match sep {
                    Some(q) => {
                        proof {
                            assert(spec_cookie_entry(piece, key@) is None);
                            assert(rem.subrange(q - p + 2, rem.len() as int)
                                =~= cookie_header@.subrange(q + 2, n as int));
                            assert(spec_get_cookie(rem, key@) == spec_get_cookie(
                                cookie_header@.subrange(q + 2, n as int),
                                key@,
                            ));
                        }
                        p = q + 2;
                    },
                    None => {
                        proof {
                            assert(piece =~= rem);
                            assert(spec_get_cookie(rem, key@) is None);
                        }
                        return None;
                    },
                }
            },
        }
    }
}

/// What gating a request decides, failing closed at the first gap: no
/// header, then no access cookie, then no provisioned secret, then the
/// token checks, whose error passes through. Success resolves the subject
/// id the token speaks for.
pub open spec fn spec_authorize(
    header: Option<Seq<char>>,
    secret: Option<Seq<char>>,
    now: u64,
) -> Result<u64, AuthError> {
    match header {
        None => Err(AuthError::MissingToken),
        Some(h) => match spec_get_cookie(h, "act"@) {
            None => Err(AuthError::MissingToken),
            Some(tok) => match secret {
                None => Err(AuthError::ConfigurationError),
                Some(k) => match spec_verify(k, tok, now) {
                    Err(e) => Err(e),
                    Ok(c) => Ok(c.sub),
                },
            },
        },
    }
}

/// Gates one request: extracts the access token from the `Cookie` header,
/// validates it against this audience's secret at the given time, and
/// resolves the subject id — or fails closed with the first gap found.
/// An absent secret models missing configuration and also fails closed.
pub fn authorize(cookie_header: Option<&str>, secret: Option<&str>, now: u64) -> (res: Result<
    u64,
    AuthError,
>)
    ensures
        res == spec_authorize(
            (match cookie_header {
                Some(h) => Some(h@),
                None => None,
            }),
            (match secret {
                Some(k) => Some(k@),
                None => None,
            }),
            now,
        ),
{
    let header = match cookie_header {
        Some(h) => h,
        None => {
            return Err(AuthError::MissingToken);
        },
    };
    let token = match get_cookie_value(header, "act") {
        Some(t) => t,
        None => {
            return Err(AuthError::MissingToken);
        },
    };
    let key = match secret {
        Some(k) => k,
        None => {
            return Err(AuthError::ConfigurationError);
        },
    };
    match verify(key, token.as_str(), now) {
        Ok(c) => Ok(c.sub),
        Err(e) => Err(e),
    }
}

} // verus!
