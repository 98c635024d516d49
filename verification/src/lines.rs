//! Splitting a listing response body into dataset names.
//!
//! The server answers a listing request with one dataset name per line.
//! The bridge splits the body on newline characters and drops the empty
//! segments, keeping the order of the remaining ones.

use vstd::prelude::*;
use vstd::string::StrSliceExecFns;

verus! {

/// The position of the first newline in `s`, or `s.len()` when there is none.
pub open spec fn first_newline(s: Seq<char>) -> nat
    decreases s.len(),
{
    if s.len() == 0 {
        0
    } else if s[0] == '\n' {
        0
    } else {
        1 + first_newline(s.drop_first())
    }
}

/// `s` split on newline characters, with the empty segments dropped and
/// the order of the remaining segments kept.
pub open spec fn spec_split_nonempty(s: Seq<char>) -> Seq<Seq<char>>
    decreases s.len(),
{
    if s.len() == 0 {
        Seq::empty()
    } else {
        let i = first_newline(s) as int;
        let seg = s.take(i);
        let rest = if i < s.len() {
            spec_split_nonempty(s.skip(i + 1))
        } else {
            Seq::<Seq<char>>::empty()
        };
        if seg.len() == 0 {
            rest
        } else {
            seq![seg] + rest
        }
    }
}

/// `first_newline(s)` is the index of a newline, unless `s` has none and it
/// is `s.len()`; nothing before it is a newline.
pub proof fn lemma_first_newline(s: Seq<char>)
    ensures
        first_newline(s) <= s.len(),
        forall|k: int| 0 <= k < first_newline(s) ==> s[k] != '\n',
        first_newline(s) < s.len() ==> s[first_newline(s) as int] == '\n',
    decreases s.len(),
{
    if s.len() == 0 {
    } else if s[0] == '\n' {
    } else {
        lemma_first_newline(s.drop_first());
        assert forall|k: int| 0 <= k < first_newline(s) implies s[k] != '\n' by {
            if k > 0 {
                assert(s.drop_first()[k - 1] == s[k]);
            }
        }
    }
}

/// Any index with the properties of `lemma_first_newline` is `first_newline(s)`.
pub proof fn lemma_first_newline_unique(s: Seq<char>, j: int)
    requires
        0 <= j <= s.len(),
        forall|k: int| 0 <= k < j ==> s[k] != '\n',
        j < s.len() ==> s[j] == '\n',
    ensures
        j == first_newline(s),
{
    lemma_first_newline(s);
    let i = first_newline(s) as int;
    if j < i {
        assert(s[j] != '\n');
    } else if i < j {
        assert(s[i] != '\n');
    }
}

/// The least index `r` in `[from, s@.len()]` with `s@[r] == '\n'`, or
/// `s@.len()` when no newline follows `from`.
fn find_newline(s: &str, from: usize, len: usize) -> (r: usize)
    requires
        len == s@.len(),
        from <= len,
    ensures
        from <= r <= len,
        forall|k: int| from <= k < r ==> s@[k] != '\n',
        r < len ==> s@[r as int] == '\n',
{
    let mut j: usize = from;
    while j < len
        invariant
            from <= j <= len,
            len == s@.len(),
            forall|k: int| from <= k < j ==> s@[k] != '\n',
        decreases len - j,
    {
        let c = s.get_char(j);
        if c == '\n' {
            return j;
        }
        j = j + 1;
    }
    j
}

/// Splits `s` on newline characters and returns the non-empty segments,
/// in order.
pub fn split_nonempty_lines(s: &str) -> (r: Vec<String>)
    ensures
        r.deep_view() == spec_split_nonempty(s@),
{
    let len = s.unicode_len();
    let mut r: Vec<String> = Vec::new();
    let mut pos: usize = 0;
    proof {
        assert(s@.skip(0) =~= s@);
        assert(r.deep_view() =~= Seq::<Seq<char>>::empty());
    }
    while pos < len
        invariant
            pos <= len,
            len == s@.len(),
            spec_split_nonempty(s@) == r.deep_view() + spec_split_nonempty(s@.skip(pos as int)),
        decreases len - pos,
    {
        let ghost r_old = r.deep_view();
        let ghost t = s@.skip(pos as int);
        let j = find_newline(s, pos, len);
        proof {
            assert forall|k: int| 0 <= k < j - pos implies t[k] != '\n' by {
                assert(t[k] == s@[pos + k]);
            }
            if j < len {
                assert(t[j - pos] == s@[j as int]);
            }
            lemma_first_newline_unique(t, j - pos);
            assert(t.take(j - pos) =~= s@.subrange(pos as int, j as int));
        }
        if j > pos {
            let seg = s.substring_char(pos, j);
            r.push(seg.to_owned());
            proof {
                assert(r.deep_view() =~= r_old + seq![t.take(j - pos)]);
            }
        }
        proof {
            if j < len {
                assert(t.skip(j - pos + 1) =~= s@.skip(j + 1));
                assert(spec_split_nonempty(s@) == r.deep_view() + spec_split_nonempty(
                    s@.skip(j + 1),
                ));
            } else {
                assert(spec_split_nonempty(s@) == r.deep_view() + spec_split_nonempty(
                    s@.skip(len as int),
                ));
            }
        }
        pos = if j < len {
            j + 1
        } else {
            len
        };
    }
    proof {
        assert(s@.skip(len as int).len() == 0);
        assert(spec_split_nonempty(s@) =~= r.deep_view());
    }
    r
}

} // verus!
