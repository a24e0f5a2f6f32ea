//! Paths as text, with the conventions of Unix paths.
//!
//! A path is the sequence of its characters. Joining follows `PathBuf::push`:
//! an absolute part replaces the base, otherwise a separator is inserted when
//! the base is not empty and does not already end with one. A path's
//! components are its optional root, an optional leading `.`, and its
//! segments between separators, leaving out empty segments and `.`.
use vstd::prelude::*;
use crate::text::{chars_of, substring};

verus! {

/// `base` joined with `part`.
pub open spec fn path_join(base: Seq<char>, part: Seq<char>) -> Seq<char> {
    if part.len() > 0 && part[0] == '/' {
        part
    } else if base.len() == 0 || base.last() == '/' {
        base + part
    } else {
        base + seq!['/'] + part
    }
}

/// The characters after the last separator.
pub open spec fn last_segment(p: Seq<char>) -> Seq<char>
    decreases p.len(),
{
    if p.len() == 0 || p.last() == '/' {
        Seq::empty()
    } else {
        last_segment(p.drop_last()).push(p.last())
    }
}

/// The segments of a path between separators, leaving out empty ones and `.`.
pub open spec fn segments(p: Seq<char>) -> Seq<Seq<char>>
    decreases p.len(),
{
    if p.len() == 0 {
        Seq::empty()
    } else if p.last() == '/' {
        segments(p.drop_last())
    } else {
        let seg = last_segment(p);
        proof {
            lemma_last_segment_len(p);
        }
        let rest = p.subrange(0, p.len() - seg.len());
        if seg == seq!['.'] {
            segments(rest)
        } else {
            segments(rest).push(seg)
        }
    }
}

/// Whether the path starts at the root.
pub open spec fn has_root(p: Seq<char>) -> bool {
    p.len() > 0 && p[0] == '/'
}

/// Whether the path starts with the current-directory component `.`.
pub open spec fn has_cur_dir(p: Seq<char>) -> bool {
    p.len() > 0 && p[0] == '.' && (p.len() == 1 || p[1] == '/')
}

/// Whether two paths have the same components.
pub open spec fn same_path(a: Seq<char>, b: Seq<char>) -> bool {
    &&& has_root(a) == has_root(b)
    &&& has_cur_dir(a) == has_cur_dir(b)
    &&& segments(a) == segments(b)
}

/// The final component of a path when it is a normal name.
pub open spec fn file_name(p: Seq<char>) -> Option<Seq<char>> {
    let s = segments(p);
    if s.len() == 0 || s.last() == seq!['.', '.'] {
        None
    } else {
        Some(s.last())
    }
}

/// Joins `part` to `base`.
pub fn join(base: &str, part: &str) -> (res: String)
    ensures
        res@ == path_join(base@, part@),
{
    let bn = base.unicode_len();
    let pn = part.unicode_len();
    if pn > 0 && part.get_char(0) == '/' {
        return String::from_str(part);
    }
    let mut s = String::from_str(base);
    if bn > 0 && base.get_char(bn - 1) != '/' {
        proof {
            reveal_strlit("/");
        }
        s.append("/");
    }
    s.append(part);
    s
}

/// Where the last segment stands in a path.
pub proof fn lemma_last_segment_len(p: Seq<char>)
    ensures
        last_segment(p).len() <= p.len(),
        p.len() > 0 && p.last() != '/' ==> last_segment(p).len() >= 1,
        last_segment(p) == p.subrange(p.len() - last_segment(p).len(), p.len() as int),
        last_segment(p).len() < p.len() ==> p[p.len() - last_segment(p).len() - 1] == '/',
        forall|i: int| 0 <= i < last_segment(p).len() ==> last_segment(p)[i] != '/',
    decreases p.len(),
{
    if p.len() > 0 && p.last() != '/' {
        lemma_last_segment_len(p.drop_last());
        assert(last_segment(p) =~= p.subrange(p.len() - last_segment(p).len(), p.len() as int));
    }
}

/// The start of the last segment of `p[..end]`.
fn last_segment_start(p: &Vec<char>, end: usize) -> (start: usize)
    requires
        end <= p@.len(),
    ensures
        start <= end,
        p@.subrange(start as int, end as int) == last_segment(p@.subrange(0, end as int)),
{
    let mut i = end;
    while i > 0 && p[i - 1] != '/'
        invariant
            i <= end <= p@.len(),
            forall|j: int| i <= j < end ==> p@[j] != '/',
            last_segment(p@.subrange(0, end as int))
                == last_segment(p@.subrange(0, i as int)) + p@.subrange(i as int, end as int),
        decreases i,
    {
        let ghost pre = p@.subrange(0, i as int);
        assert(p@.subrange(0, (i - 1) as int) =~= pre.drop_last());
        assert(p@.subrange((i - 1) as int, end as int) =~= seq![pre.last()] + p@.subrange(
            i as int,
            end as int,
        ));
        assert(last_segment(pre) == last_segment(pre.drop_last()).push(pre.last()));
        assert(last_segment(pre.drop_last()).push(pre.last()) + p@.subrange(i as int, end as int)
            =~= last_segment(pre.drop_last()) + p@.subrange((i - 1) as int, end as int));
        i = i - 1;
    }
    assert(last_segment(p@.subrange(0, i as int)) =~= Seq::<char>::empty());
    assert(Seq::<char>::empty() + p@.subrange(i as int, end as int) =~= p@.subrange(
        i as int,
        end as int,
    ));
    i
}

/// The segments of `p[..end]`, as ranges of `p`, first to last.
fn segment_ranges(p: &Vec<char>, end: usize) -> (res: Vec<(usize, usize)>)
    requires
        end <= p@.len(),
    ensures
        res@.len() == segments(p@.subrange(0, end as int)).len(),
        forall|i: int|
            #![trigger res@[i]]
            0 <= i < res@.len() ==> {
                &&& res@[i].0 <= res@[i].1 <= end
                &&& p@.subrange(res@[i].0 as int, res@[i].1 as int) == segments(
                    p@.subrange(0, end as int),
                )[i]
            },
    decreases end,
{
    let ghost q = p@.subrange(0, end as int);
    if end == 0 {
        return Vec::new();
    }
    if p[end - 1] == '/' {
        assert(p@.subrange(0, (end - 1) as int) =~= q.drop_last());
        assert(segments(q) == segments(q.drop_last()));
        let r = segment_ranges(p, end - 1);
        assert forall|i: int| #![trigger r@[i]] 0 <= i < r@.len() implies {
            &&& r@[i].0 <= r@[i].1 <= end
            &&& p@.subrange(r@[i].0 as int, r@[i].1 as int) == segments(q)[i]
        } by {
            assert(r@[i].0 <= r@[i].1 <= end - 1);
        }
        return r;
    }
    let start = last_segment_start(p, end);
    proof {
        lemma_last_segment_len(q);
        assert(q.subrange(0, q.len() - last_segment(q).len()) =~= p@.subrange(0, start as int));
    }
    let mut res = segment_ranges(p, start);
    if end - start == 1 && p[start] == '.' {
        proof {
            assert(last_segment(q) =~= seq!['.']);
        }
        return res;
    }
    proof {
        if last_segment(q) == seq!['.'] {
            assert(last_segment(q).len() == 1);
            assert(p@[start as int] == last_segment(q)[0]);
        }
    }
    res.push((start, end));
    res
}

/// The segments of a path as strings, first to last.
pub fn path_segments(path: &str) -> (res: Vec<String>)
    ensures
        res@.len() == segments(path@).len(),
        forall|i: int| 0 <= i < res@.len() ==> #[trigger] res@[i]@ == segments(path@)[i],
{
    let p = chars_of(path);
    let n = p.len();
    let ranges = segment_ranges(&p, n);
    assert(p@.subrange(0, n as int) =~= path@);
    assert(segments(p@.subrange(0, n as int)) == segments(path@));
    assert forall|k: int| #![trigger ranges@[k]] 0 <= k < ranges@.len() implies {
        &&& ranges@[k].0 <= ranges@[k].1 <= n
        &&& p@.subrange(ranges@[k].0 as int, ranges@[k].1 as int) == segments(path@)[k]
    } by {
        assert(ranges@[k].0 <= ranges@[k].1 <= n);
    }
    let mut out: Vec<String> = Vec::new();
    let mut i: usize = 0;
    while i < ranges.len()
        invariant
            p@ == path@,
            n == p@.len(),
            ranges@.len() == segments(path@).len(),
            forall|k: int|
                #![trigger ranges@[k]]
                0 <= k < ranges@.len() ==> {
                    &&& ranges@[k].0 <= ranges@[k].1 <= n
                    &&& p@.subrange(ranges@[k].0 as int, ranges@[k].1 as int) == segments(path@)[k]
                },
            i <= ranges@.len(),
            out@.len() == i,
            forall|k: int| 0 <= k < i ==> #[trigger] out@[k]@ == segments(path@)[k],
        decreases ranges@.len() - i,
    {
        let (a, b) = ranges[i];
        out.push(substring(path, a, b));
        i = i + 1;
    }
    out
}

/// The final component of a path when it is a normal name.
pub fn path_file_name(path: &str) -> (res: Option<String>)
    ensures
        match res {
            Some(name) => file_name(path@) == Some(name@),
            None => file_name(path@) is None,
        },
{
    let segs = path_segments(path);
    let n = segs.len();
    if n == 0 {
        return None;
    }
    let last = &segs[n - 1];
    proof {
        reveal_strlit("..");
        assert(segs@[n - 1]@ == segments(path@)[n - 1]);
        assert(seq!['.', '.'] =~= ".."@);
    }
    if crate::text::str_equal(last.as_str(), "..") {
        return None;
    }
    Some(last.clone())
}


/// Whether two paths have the same components, as `PathBuf` equality decides.
pub fn path_eq(a: &str, b: &str) -> (res: bool)
    ensures
        res == same_path(a@, b@),
{
    let an = a.unicode_len();
    let bn = b.unicode_len();
    let a_root = an > 0 && a.get_char(0) == '/';
    let b_root = bn > 0 && b.get_char(0) == '/';
    if a_root != b_root {
        return false;
    }
    let a_cur = an > 0 && a.get_char(0) == '.' && (an == 1 || a.get_char(1) == '/');
    let b_cur = bn > 0 && b.get_char(0) == '.' && (bn == 1 || b.get_char(1) == '/');
    if a_cur != b_cur {
        return false;
    }
    let sa = path_segments(a);
    let sb = path_segments(b);
    if sa.len() != sb.len() {
        return false;
    }
    let mut i: usize = 0;
    while i < sa.len()
        invariant
            sa@.len() == segments(a@).len(),
            sb@.len() == segments(b@).len(),
            sa@.len() == sb@.len(),
            forall|k: int| 0 <= k < sa@.len() ==> #[trigger] sa@[k]@ == segments(a@)[k],
            forall|k: int| 0 <= k < sb@.len() ==> #[trigger] sb@[k]@ == segments(b@)[k],
            i <= sa@.len(),
            forall|k: int| 0 <= k < i ==> segments(a@)[k] == segments(b@)[k],
        decreases sa@.len() - i,
    {
        if !crate::text::str_equal(sa[i].as_str(), sb[i].as_str()) {
            assert(sa@[i as int]@ == segments(a@)[i as int]);
            assert(sb@[i as int]@ == segments(b@)[i as int]);
            return false;
        }
        assert(sa@[i as int]@ == segments(a@)[i as int]);
        assert(sb@[i as int]@ == segments(b@)[i as int]);
        i = i + 1;
    }
    assert(segments(a@) =~= segments(b@));
    true
}

/// A plain name: not empty, no separator, and neither `.` nor `..`.
pub open spec fn is_plain_name(name: Seq<char>) -> bool {
    &&& name.len() > 0
    &&& forall|i: int| 0 <= i < name.len() ==> name[i] != '/'
    &&& name != seq!['.']
    &&& name != seq!['.', '.']
}

proof fn lemma_last_segment_after_sep(x: Seq<char>, name: Seq<char>)
    requires
        x.len() == 0 || x.last() == '/',
        forall|i: int| 0 <= i < name.len() ==> name[i] != '/',
    ensures
        last_segment(x + name) == name,
    decreases name.len(),
{
    if name.len() == 0 {
        assert(x + name =~= x);
    } else {
        lemma_last_segment_after_sep(x, name.drop_last());
        assert((x + name).drop_last() =~= x + name.drop_last());
        assert(name.drop_last().push(name.last()) =~= name);
    }
}

/// Law: the final component of a directory joined with a plain name is that
/// name. What `switch_version` links to, `get_current_version` reads back.
pub proof fn lemma_file_name_of_join(base: Seq<char>, name: Seq<char>)
    requires
        is_plain_name(name),
    ensures
        file_name(path_join(base, name)) == Some(name),
{
    let x = if base.len() == 0 || base.last() == '/' { base } else { base + seq!['/'] };
    assert(path_join(base, name) == x + name);
    lemma_last_segment_after_sep(x, name);
    let p = x + name;
    assert(p.last() == name.last());
    assert(p.subrange(0, p.len() - name.len()) =~= x);
}

} // verus!
