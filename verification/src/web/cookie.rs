//! The session cookie: reading it from a request's `Cookie` header, and
//! the `Set-Cookie` values that open and clear it.

use vstd::prelude::*;
use crate::text::{
    chars_of, has_prefix, is_white_space, string_from_chars, trim, trim_chars, trim_end, trim_start,
};

verus! {

/// Index of the first `c` in `s`, or the length of `s` when it has none.
pub open spec fn first_index_of(s: Seq<char>, c: char) -> nat
    decreases s.len(),
{
    if s.len() == 0 {
        0
    } else if s[0] == c {
        0
    } else {
        1 + first_index_of(s.drop_first(), c)
    }
}

pub proof fn lemma_first_index_of(s: Seq<char>, c: char)
    ensures
        first_index_of(s, c) <= s.len(),
        first_index_of(s, c) < s.len() ==> s[first_index_of(s, c) as int] == c,
        forall|k: int| 0 <= k < first_index_of(s, c) ==> s[k] != c,
    decreases s.len(),
{
    if s.len() > 0 && s[0] != c {
        lemma_first_index_of(s.drop_first(), c);
        assert forall|k: int| 0 <= k < first_index_of(s, c) implies s[k] != c by {
            if k > 0 {
                assert(s[k] == s.drop_first()[k - 1]);
            }
        }
    }
}

proof fn lemma_first_index_of_at(s: Seq<char>, c: char, m: int)
    requires
        0 <= m <= s.len(),
        m < s.len() ==> s[m] == c,
        forall|k: int| 0 <= k < m ==> s[k] != c,
    ensures
        first_index_of(s, c) == m,
    decreases m,
{
    if m > 0 {
        assert forall|k: int| 0 <= k < m - 1 implies s.drop_first()[k] != c by {
            assert(s.drop_first()[k] == s[k + 1]);
        }
        lemma_first_index_of_at(s.drop_first(), c, m - 1);
    }
}

/// The name and value of one `name=value` pair, each trimmed of white
/// space; a segment without `'='` is no pair.
pub open spec fn cookie_pair(segment: Seq<char>) -> Option<(Seq<char>, Seq<char>)> {
    let e = first_index_of(segment, '=');
    if e < segment.len() {
        Some((trim(segment.take(e as int)), trim(segment.skip(e as int + 1))))
    } else {
        None
    }
}

/// The value of the first pair named `name` in a `Cookie` header, whose
/// pairs are separated by `';'`.
pub open spec fn cookie_lookup(header: Seq<char>, name: Seq<char>) -> Option<Seq<char>>
    decreases header.len(),
{
    if header.len() == 0 {
        None
    } else {
        let i = first_index_of(header, ';');
        let here = match cookie_pair(header.take(i as int)) {
            Some((k, v)) => if k == name {
                Some(v)
            } else {
                None
            },
            None => None,
        };
        if here is Some {
            here
        } else if i < header.len() {
            proof {
                lemma_first_index_of(header, ';');
            }
            cookie_lookup(header.skip(i as int + 1), name)
        } else {
            None
        }
    }
}

/// Whether two character sequences are equal.
fn same_chars(a: &[char], b: &[char]) -> (r: bool)
    ensures
        r == (a@ == b@),
{
    if a.len() != b.len() {
        return false;
    }
    let r = has_prefix(a, b);
    if r {
        assert(a@ =~= a@.subrange(0, b@.len() as int));
    } else {
        assert(!(b@.is_prefix_of(a@)));
    }
    r
}

/// The position of the first `c` in `s` at or after `from`, or the length
/// of `s`.
fn index_from(s: &[char], from: usize, c: char) -> (e: usize)
    requires
        from <= s.len(),
    ensures
        e as int == from + first_index_of(s@.skip(from as int), c),
        e <= s.len(),
{
    let mut e: usize = from;
    while e < s.len() && s[e] != c
        invariant
            from <= e <= s.len(),
            forall|k: int| from <= k < e ==> s@[k] != c,
        decreases s.len() - e,
    {
        e = e + 1;
    }
    proof {
        let rest = s@.skip(from as int);
        assert forall|k: int| 0 <= k < e - from implies rest[k] != c by {
            assert(rest[k] == s@[from + k]);
        }
        lemma_first_index_of_at(rest, c, e - from);
    }
    e
}

/// The characters of `s` from `start` up to `end`.
fn chars_between(s: &[char], start: usize, end: usize) -> (r: Vec<char>)
    requires
        start <= end <= s.len(),
    ensures
        r@ == s@.subrange(start as int, end as int),
{
    let mut r: Vec<char> = Vec::new();
    let mut k: usize = start;
    while k < end
        invariant
            start <= k <= end <= s.len(),
            r@ == s@.subrange(start as int, k as int),
        decreases end - k,
    {
        r.push(s[k]);
        k = k + 1;
        assert(r@ =~= s@.subrange(start as int, k as int));
    }
    r
}

/// The value of the first cookie named `name` in a `Cookie` header.
pub fn cookie_value(header: &str, name: &str) -> (r: Option<String>)
    ensures
        match r {
            Some(v) => cookie_lookup(header@, name@) == Some(v@),
            None => cookie_lookup(header@, name@) is None,
        },
{
    let cs = chars_of(header);
    let wanted = chars_of(name);
    let n = cs.len();
    let mut pos: usize = 0;
    assert(cs@.skip(0) =~= cs@);
    while pos < n
        invariant
            n == cs@.len(),
            pos <= n,
            cs@ == header@,
            wanted@ == name@,
            cookie_lookup(cs@.skip(pos as int), name@) == cookie_lookup(header@, name@),
        decreases n - pos,
    {
        let ghost rest = cs@.skip(pos as int);
        let e = index_from(cs.as_slice(), pos, ';');
        let segment = chars_between(cs.as_slice(), pos, e);
        assert(segment@ =~= rest.take(first_index_of(rest, ';') as int));
        let eq = index_from(segment.as_slice(), 0, '=');
        assert(segment@.skip(0) =~= segment@);
        if eq < segment.len() {
            let key_raw = chars_between(segment.as_slice(), 0, eq);
            let value_raw = chars_between(segment.as_slice(), eq + 1, segment.len());
            assert(key_raw@ =~= segment@.take(eq as int));
            assert(value_raw@ =~= segment@.skip(eq + 1));
            let key = trim_chars(key_raw.as_slice());
            if same_chars(key.as_slice(), wanted.as_slice()) {
                let value = trim_chars(value_raw.as_slice());
                return Some(string_from_chars(value.as_slice()));
            }
        }
        proof {
            lemma_first_index_of(rest, ';');
        }
        if e < n {
            assert(rest.skip(first_index_of(rest, ';') as int + 1) =~= cs@.skip(e + 1));
            pos = e + 1;
        } else {
            pos = n;
        }
    }
    assert(cs@.skip(pos as int).len() == 0);
    None
}

/// The name of the session cookie.
pub open spec fn session_cookie_name() -> Seq<char> {
    "trust_session"@
}

/// The session id that a request's `Cookie` header carries.
pub fn session_cookie(header: &str) -> (r: Option<String>)
    ensures
        match r {
            Some(v) => cookie_lookup(header@, session_cookie_name()) == Some(v@),
            None => cookie_lookup(header@, session_cookie_name()) is None,
        },
{
    cookie_value(header, "trust_session")
}

/// The `Set-Cookie` value that opens a session: the session id, readable
/// by the server only, for every path.
pub fn session_set_cookie(session_id: &str) -> (s: String)
    ensures
        s@ == "trust_session="@ + session_id@ + "; HttpOnly; Path=/"@,
{
    let head = String::from_str("trust_session=");
    let s = head.concat(session_id).concat("; HttpOnly; Path=/");
    s
}

/// The `Set-Cookie` value that clears the session cookie.
pub fn session_clear_cookie() -> (s: String)
    ensures
        s@ == "trust_session=; HttpOnly; Path=/; Max-Age=0"@,
{
    String::from_str("trust_session=; HttpOnly; Path=/; Max-Age=0")
}

/// The session cookie that a sign-in sets is read back from the `Cookie`
/// header a browser returns with it (`trust_session=<id>`), for a session
/// id without `';'` and without surrounding white space.
pub proof fn law_session_cookie_reads_back(id: Seq<char>)
    requires
        forall|k: int| 0 <= k < id.len() ==> id[k] != ';',
        trim(id) == id,
    ensures
        cookie_lookup("trust_session="@ + id, session_cookie_name()) == Some(id),
{
    reveal_strlit("trust_session=");
    reveal_strlit("trust_session");
    let prefix = "trust_session="@;
    let h = prefix + id;
    assert(prefix.len() == 14);
    assert forall|k: int| 0 <= k < h.len() implies h[k] != ';' by {
        if k >= 14 {
            assert(h[k] == id[k - 14]);
        }
    }
    lemma_first_index_of_at(h, ';', h.len() as int);
    assert(h.take(h.len() as int) =~= h);
    assert(h[13] == '=');
    lemma_first_index_of_at(h, '=', 13);
    let name = h.take(13);
    assert(name =~= session_cookie_name());
    assert(!is_white_space(name[0]));
    assert(trim_start(name) == name);
    assert(name.last() == 'n');
    assert(trim_end(name) == name);
    assert(h.skip(14) =~= id);
}

} // verus!
