//! Stored records that the library's decisions read, and where a SQLite database
//! file lives.
use vstd::prelude::*;
use crate::text::{chars_of, match_at, opt_view, slice_to_vec, starts_with, string_of};

pub mod models;

verus! {

/// `s` with every leading copy of `p` removed (`str::trim_start_matches`).
pub open spec fn strip_all_prefix(s: Seq<char>, p: Seq<char>) -> Seq<char>
    decreases s.len(),
{
    if p.len() > 0 && starts_with(s, p) {
        strip_all_prefix(s.subrange(p.len() as int, s.len() as int), p)
    } else {
        s
    }
}

/// The part of `s` before its first `c`, or all of it.
pub open spec fn before_char(s: Seq<char>, c: char) -> Seq<char>
    decreases s.len(),
{
    if s.len() == 0 {
        s
    } else if s[0] == c {
        seq![]
    } else {
        seq![s[0]] + before_char(s.drop_first(), c)
    }
}

/// The file a SQLite URL names: after its `sqlite:` scheme (repeated copies
/// removed), before any query, without a leading `//`. None for another scheme, an
/// in-memory database, or an empty path.
pub open spec fn sqlite_file(url: Seq<char>) -> Option<Seq<char>> {
    if !starts_with(url, "sqlite:"@) {
        None
    } else {
        let raw = strip_all_prefix(url, "sqlite:"@);
        if raw.len() == 0 || raw == ":memory:"@ {
            None
        } else {
            let p = before_char(raw, '?');
            let n = if starts_with(p, "//"@) {
                p.subrange(2, p.len() as int)
            } else {
                p
            };
            if n.len() == 0 {
                None
            } else {
                Some(n)
            }
        }
    }
}

/// The file of a SQLite database URL, which is created before connecting.
pub fn sqlite_file_path(url: &str) -> (r: Option<String>)
    ensures
        opt_view(r) == sqlite_file(url@),
{
    let u = chars_of(url);
    let scheme = chars_of("sqlite:");
    proof {
        reveal_strlit("sqlite:");
    }
    if !match_at(&u, &scheme, 0) {
        return None;
    }
    let mut start: usize = 0;
    let len: usize = u.len();
    assert(u@.subrange(0, u@.len() as int) =~= u@);
    while match_at(&u, &scheme, start)
        invariant
            start <= u@.len(),
            len == u@.len(),
            scheme@ == "sqlite:"@,
            scheme@.len() == 7,
            strip_all_prefix(u@, scheme@) == strip_all_prefix(u@.subrange(start as int, u@.len() as int), scheme@),
        decreases u@.len() - start,
    {
        assert(start + 7 <= len);
        proof {
            let rest = u@.subrange(start as int, u@.len() as int);
            assert(starts_with(rest, scheme@));
            assert(rest.subrange(7, rest.len() as int) =~= u@.subrange(start + 7, u@.len() as int));
        }
        start = start + 7;
    }
    proof {
        let rest = u@.subrange(start as int, u@.len() as int);
        assert(!starts_with(rest, scheme@));
    }
    let raw = slice_to_vec(&u, start, u.len());
    let memory = chars_of(":memory:");
    if raw.len() == 0 || crate::text::chars_eq(&raw, &memory) {
        return None;
    }
    let mut end: usize = 0;
    while end < raw.len() && raw[end] != '?'
        invariant
            end <= raw@.len(),
            forall|k: int| 0 <= k < end ==> raw@[k] != '?',
        decreases raw@.len() - end,
    {
        end = end + 1;
    }
    proof {
        lemma_before_char(raw@, '?', end as int);
    }
    let slashes = chars_of("//");
    proof {
        reveal_strlit("//");
    }
    let from: usize = if end >= 2 && match_at(&raw, &slashes, 0) {
        2
    } else {
        0
    };
    proof {
        let p = raw@.subrange(0, end as int);
        if end >= 2 {
            assert(starts_with(p, "//"@) == starts_with(raw@, "//"@)) by {
                assert(p.subrange(0, 2) =~= raw@.subrange(0, 2));
            }
        } else {
            assert(!starts_with(p, "//"@));
        }
    }
    if from >= end {
        return None;
    }
    let n = slice_to_vec(&raw, from, end);
    proof {
        let p = raw@.subrange(0, end as int);
        assert(n@ =~= if starts_with(p, "//"@) { p.subrange(2, p.len() as int) } else { p });
    }
    Some(string_of(&n))
}

/// The part of `s` before its first `c` is its prefix up to the first `c`.
proof fn lemma_before_char(s: Seq<char>, c: char, end: int)
    requires
        0 <= end <= s.len(),
        forall|k: int| 0 <= k < end ==> s[k] != c,
        end == s.len() || s[end] == c,
    ensures
        before_char(s, c) == s.subrange(0, end),
    decreases s.len(),
{
    if s.len() == 0 {
    } else if s[0] == c {
        assert(end == 0);
    } else {
        lemma_before_char(s.drop_first(), c, end - 1);
        assert(seq![s[0]] + s.drop_first().subrange(0, end - 1) =~= s.subrange(0, end));
    }
}

} // verus!
