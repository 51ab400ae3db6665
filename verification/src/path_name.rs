//! The display name of a selected image: the final segment of its path.
//!
//! The rule follows the usual reading of a slash-separated path: trailing
//! slashes are ignored, a trailing `.` segment is ignored, and the final
//! remaining segment is the name. There is no name when nothing remains
//! (an empty path, a bare root such as `"/"`, or only `.` segments) or when
//! the path ends in a `..` segment.

use vstd::prelude::*;
use vstd::string::*;

verus! {

/// The longest suffix of `p` that contains no `'/'`.
pub open spec fn tail_segment(p: Seq<char>) -> Seq<char>
    decreases p.len(),
{
    if p.len() == 0 || p.last() == '/' {
        Seq::<char>::empty()
    } else {
        tail_segment(p.drop_last()).push(p.last())
    }
}

/// The final segment of the path `p`, under the rule documented at the top
/// of this module; `None` when the path has no final segment.
pub open spec fn file_name_seq(p: Seq<char>) -> Option<Seq<char>>
    decreases p.len(),
{
    if p.len() == 0 {
        None
    } else if p.last() == '/' {
        file_name_seq(p.drop_last())
    } else {
        let seg = tail_segment(p);
        if seg.len() == 1 && seg[0] == '.' {
            file_name_seq(p.drop_last())
        } else if seg.len() == 2 && seg[0] == '.' && seg[1] == '.' {
            None
        } else {
            Some(seg)
        }
    }
}

/// The suffix of `p` that starts at the character after the last `'/'` is
/// exactly its tail segment.
proof fn lemma_tail_segment_at(p: Seq<char>, start: int)
    requires
        0 <= start <= p.len(),
        forall|i: int| start <= i < p.len() ==> p[i] != '/',
        start == 0 || p[start - 1] == '/',
    ensures
        tail_segment(p) == p.subrange(start, p.len() as int),
    decreases p.len(),
{
    if p.len() == start {
        if p.len() == 0 {
            assert(tail_segment(p) =~= p.subrange(start, p.len() as int));
        } else {
            assert(p.last() == '/');
            assert(tail_segment(p) =~= p.subrange(start, p.len() as int));
        }
    } else {
        assert(p.last() != '/');
        lemma_tail_segment_at(p.drop_last(), start);
        assert(p.drop_last().subrange(start, p.len() - 1) =~= p.subrange(start, p.len() - 1));
        assert(tail_segment(p) =~= p.subrange(start, p.len() as int));
    }
}

/// The final segment of a path, as a fresh `String`; `None` when the path
/// has no final segment.
pub fn display_name_of(path: &str) -> (r: Option<String>)
    ensures
        r is Some <==> file_name_seq(path@) is Some,
        r matches Some(s) ==> file_name_seq(path@) == Some(s@),
    decreases path@.len(),
{
    let n = path.unicode_len();
    if n == 0 {
        return None;
    }
    if path.get_char(n - 1) == '/' {
        let rest = path.substring_char(0, n - 1);
        proof {
            assert(rest@ =~= path@.drop_last());
        }
        return display_name_of(rest);
    }
    let mut start: usize = n;
    while start > 0 && path.get_char(start - 1) != '/'
        invariant
            start <= n,
            n == path@.len(),
            forall|i: int| start <= i < n ==> path@[i] != '/',
        decreases start,
    {
        start = start - 1;
    }
    proof {
        lemma_tail_segment_at(path@, start as int);
    }
    let seg_len = n - start;
    if seg_len == 1 && path.get_char(start) == '.' {
        let rest = path.substring_char(0, n - 1);
        proof {
            assert(rest@ =~= path@.drop_last());
        }
        return display_name_of(rest);
    }
    if seg_len == 2 && path.get_char(start) == '.' && path.get_char(start + 1) == '.' {
        return None;
    }
    let seg = path.substring_char(start, n);
    Some(seg.to_owned())
}

/// A path built as a directory, a `'/'`, and a segment that contains no
/// slash and is not empty, `"."`, or `".."`, has that segment as its display
/// name; so does the bare segment on its own.
pub proof fn lemma_file_name_of_appended(dir: Seq<char>, name: Seq<char>)
    requires
        name.len() > 0,
        forall|i: int| 0 <= i < name.len() ==> name[i] != '/',
        name != seq!['.'],
        name != seq!['.', '.'],
    ensures
        file_name_seq(dir + seq!['/'] + name) == Some(name),
        file_name_seq(name) == Some(name),
{
    let p = dir + seq!['/'] + name;
    assert(p.len() == dir.len() + 1 + name.len());
    assert(forall|i: int| dir.len() + 1 <= i < p.len() ==> p[i] == name[i - dir.len() - 1]);
    assert(p[dir.len() as int] == '/');
    lemma_tail_segment_at(p, dir.len() as int + 1);
    assert(p.subrange(dir.len() as int + 1, p.len() as int) =~= name);
    assert(p.last() == name.last());
    assert(p.last() != '/');
    let seg = tail_segment(p);
    assert(seg == name);
    if seg.len() == 1 && seg[0] == '.' {
        assert(name =~= seq!['.']);
    }
    if seg.len() == 2 && seg[0] == '.' && seg[1] == '.' {
        assert(name =~= seq!['.', '.']);
    }
    assert(file_name_seq(p) == Some(name));

    lemma_tail_segment_at(name, 0);
    assert(name.subrange(0, name.len() as int) =~= name);
    let seg2 = tail_segment(name);
    assert(seg2 == name);
    if seg2.len() == 1 && seg2[0] == '.' {
        assert(name =~= seq!['.']);
    }
    if seg2.len() == 2 && seg2[0] == '.' && seg2[1] == '.' {
        assert(name =~= seq!['.', '.']);
    }
}

} // verus!
