//! Unix path arithmetic on character sequences: joining, file names, extensions and
//! parents, following the component rules of `std::path` on Unix targets.

use vstd::prelude::*;
use crate::text::{push_str, str_chars, string_from_chars};

verus! {

/// `base` extended with `comp` as `PathBuf::push` does on Unix: an absolute `comp`
/// replaces `base`; otherwise a `/` is put between them unless `base` is empty or already
/// ends with one.
pub open spec fn path_join(base: Seq<char>, comp: Seq<char>) -> Seq<char> {
    if comp.len() > 0 && comp[0] == '/' {
        comp
    } else if base.len() > 0 && base.last() != '/' {
        base + seq!['/'] + comp
    } else {
        base + comp
    }
}

/// Joins a path component onto a base path (`Path::join` on Unix).
pub fn join_path(base: &str, comp: &str) -> (r: String)
    ensures
        r@ == path_join(base@, comp@),
{
    let b = str_chars(base);
    let c = str_chars(comp);
    let mut out: Vec<char> = Vec::new();
    if c.len() > 0 && c[0] == '/' {
        push_str(&mut out, comp);
    } else if b.len() > 0 && b[b.len() - 1] != '/' {
        push_str(&mut out, base);
        out.push('/');
        push_str(&mut out, comp);
    } else {
        push_str(&mut out, base);
        push_str(&mut out, comp);
    }
    proof {
        if !(c.len() > 0 && c[0] == '/') && b.len() > 0 && b[b.len() - 1] != '/' {
            assert(out@ =~= base@ + seq!['/'] + comp@);
        }
    }
    assert(out@ =~= path_join(base@, comp@));
    string_from_chars(&out)
}

/// Index just past the last non-`/` character of `p[lo..end]`, or `lo`.
pub open spec fn trim_separators(p: Seq<char>, lo: int, end: int) -> int
    decreases end - lo,
{
    if end > lo && p[end - 1] == '/' {
        trim_separators(p, lo, end - 1)
    } else {
        end
    }
}

/// Start of the segment of `p[lo..end]` that ends at `end` (just after its last `/`).
pub open spec fn segment_start(p: Seq<char>, lo: int, end: int) -> int
    decreases end - lo,
{
    if end > lo && p[end - 1] != '/' {
        segment_start(p, lo, end - 1)
    } else {
        end
    }
}

/// Whether `p[st..e]` is the segment `.`.
pub open spec fn is_dot_segment(p: Seq<char>, st: int, e: int) -> bool {
    e == st + 1 && p[st] == '.'
}

pub proof fn lemma_trim_bounds(p: Seq<char>, lo: int, end: int)
    requires
        lo <= end,
    ensures
        lo <= trim_separators(p, lo, end) <= end,
        trim_separators(p, lo, end) > lo ==> p[trim_separators(p, lo, end) - 1] != '/',
    decreases end - lo,
{
    if end > lo && p[end - 1] == '/' {
        lemma_trim_bounds(p, lo, end - 1);
    }
}

pub proof fn lemma_segment_bounds(p: Seq<char>, lo: int, end: int)
    requires
        lo <= end,
    ensures
        lo <= segment_start(p, lo, end) <= end,
        end > lo && p[end - 1] != '/' ==> segment_start(p, lo, end) < end,
    decreases end - lo,
{
    if end > lo && p[end - 1] != '/' {
        lemma_segment_bounds(p, lo, end - 1);
    }
}

/// The span of the last component of `p[lo..end]` that is neither empty nor `.`.
pub open spec fn last_component(p: Seq<char>, lo: int, end: int) -> Option<(int, int)>
    decreases end - lo,
{
    if lo <= end {
        let e = trim_separators(p, lo, end);
        if e <= lo {
            None
        } else {
            let st = segment_start(p, lo, e);
            proof {
                lemma_trim_bounds(p, lo, end);
                lemma_segment_bounds(p, lo, e);
            }
            if is_dot_segment(p, st, e) {
                last_component(p, lo, st)
            } else {
                Some((st, e))
            }
        }
    } else {
        None
    }
}

/// The end of `p[..end]` once trailing separators and `.` segments are dropped, never
/// going below `lo`.
pub open spec fn trim_trailing(p: Seq<char>, lo: int, end: int) -> int
    decreases end - lo,
{
    if lo <= end {
        let e = trim_separators(p, lo, end);
        if e <= lo {
            lo
        } else {
            let st = segment_start(p, lo, e);
            proof {
                lemma_trim_bounds(p, lo, end);
                lemma_segment_bounds(p, lo, e);
            }
            if is_dot_segment(p, st, e) {
                trim_trailing(p, lo, st)
            } else {
                e
            }
        }
    } else {
        lo
    }
}

/// Whether the path starts with a root `/`.
pub open spec fn has_root(p: Seq<char>) -> bool {
    p.len() > 0 && p[0] == '/'
}

/// Whether the path starts with a `.` component.
pub open spec fn has_cur_dir(p: Seq<char>) -> bool {
    p.len() > 0 && p[0] == '.' && (p.len() == 1 || p[1] == '/')
}

/// Length of what precedes the body of the path: a root `/` or a leading `.` component.
pub open spec fn body_start(p: Seq<char>) -> int {
    if has_root(p) || has_cur_dir(p) {
        1
    } else {
        0
    }
}

/// The span of the file name of a path (`Path::file_name`): its last component, when
/// that is a normal one (not the root, `.` or `..`).
pub open spec fn file_name_span(p: Seq<char>) -> Option<(int, int)> {
    match last_component(p, body_start(p), p.len() as int) {
        Some((st, e)) => if p.subrange(st, e) == seq!['.', '.'] {
            None
        } else {
            Some((st, e))
        },
        None => None,
    }
}

/// Index of the last `.` in `name`, or -1.
pub open spec fn last_dot(name: Seq<char>) -> int
    decreases name.len(),
{
    if name.len() == 0 {
        -1
    } else if name.last() == '.' {
        name.len() - 1
    } else {
        last_dot(name.drop_last())
    }
}

/// The extension of a path (`Path::extension`): what follows the last `.` of the file
/// name, unless that `.` starts the name.
pub open spec fn path_extension(p: Seq<char>) -> Option<Seq<char>> {
    match file_name_span(p) {
        Some((st, e)) => {
            let d = last_dot(p.subrange(st, e));
            if d > 0 {
                Some(p.subrange(st + d + 1, e))
            } else {
                None
            }
        },
        None => None,
    }
}

/// The path with its extension replaced (`PathBuf::set_extension`): everything after the
/// file stem is dropped and `.ext` appended when `ext` is not empty; a path without a
/// file name is unchanged.
pub open spec fn path_with_extension(p: Seq<char>, ext: Seq<char>) -> Seq<char> {
    match file_name_span(p) {
        Some((st, e)) => {
            let d = last_dot(p.subrange(st, e));
            let stem_end = if d > 0 {
                st + d
            } else {
                e
            };
            if ext.len() > 0 {
                p.subrange(0, stem_end) + seq!['.'] + ext
            } else {
                p.subrange(0, stem_end)
            }
        },
        None => p,
    }
}

/// The parent of a path (`Path::parent`): the path without its last component and the
/// separators and `.` segments before it; none for the root or the empty path.
pub open spec fn path_parent(p: Seq<char>) -> Option<Seq<char>> {
    let bb = body_start(p);
    match last_component(p, bb, p.len() as int) {
        Some((st, e)) => Some(p.subrange(0, trim_trailing(p, bb, st))),
        None => if has_cur_dir(p) {
            Some(Seq::empty())
        } else {
            None
        },
    }
}

} // verus!

verus! {

fn trim_separators_exec(p: &Vec<char>, lo: usize, end: usize) -> (r: usize)
    requires
        lo <= end <= p.len(),
    ensures
        r == trim_separators(p@, lo as int, end as int),
        lo <= r <= end,
{
    let mut e = end;
    while e > lo && p[e - 1] == '/'
        invariant
            lo <= e <= end <= p.len(),
            trim_separators(p@, lo as int, e as int) == trim_separators(p@, lo as int, end as int),
        decreases e,
    {
        e = e - 1;
    }
    e
}

fn segment_start_exec(p: &Vec<char>, lo: usize, end: usize) -> (r: usize)
    requires
        lo <= end <= p.len(),
    ensures
        r == segment_start(p@, lo as int, end as int),
        lo <= r <= end,
{
    let mut s = end;
    while s > lo && p[s - 1] != '/'
        invariant
            lo <= s <= end <= p.len(),
            segment_start(p@, lo as int, s as int) == segment_start(p@, lo as int, end as int),
        decreases s,
    {
        s = s - 1;
    }
    s
}

fn last_component_exec(p: &Vec<char>, lo: usize, end: usize) -> (r: Option<(usize, usize)>)
    requires
        lo <= end <= p.len(),
    ensures
        match last_component(p@, lo as int, end as int) {
            Some((st, e)) => r == Some((st as usize, e as usize)) && lo <= st < e <= end,
            None => r is None,
        },
{
    let mut cur = end;
    loop
        invariant
            lo <= cur <= end <= p.len(),
            last_component(p@, lo as int, cur as int) == last_component(p@, lo as int, end as int),
        decreases cur,
    {
        let e = trim_separators_exec(p, lo, cur);
        if e <= lo {
            return None;
        }
        let st = segment_start_exec(p, lo, e);
        proof {
            lemma_trim_bounds(p@, lo as int, cur as int);
            lemma_segment_bounds(p@, lo as int, e as int);
        }
        if e - st == 1 && p[st] == '.' {
            cur = st;
        } else {
            return Some((st, e));
        }
    }
}

fn trim_trailing_exec(p: &Vec<char>, lo: usize, end: usize) -> (r: usize)
    requires
        lo <= end <= p.len(),
    ensures
        r == trim_trailing(p@, lo as int, end as int),
        lo <= r <= end,
{
    let mut cur = end;
    loop
        invariant
            lo <= cur <= end <= p.len(),
            trim_trailing(p@, lo as int, cur as int) == trim_trailing(p@, lo as int, end as int),
        decreases cur,
    {
        let e = trim_separators_exec(p, lo, cur);
        if e <= lo {
            return lo;
        }
        let st = segment_start_exec(p, lo, e);
        proof {
            lemma_trim_bounds(p@, lo as int, cur as int);
            lemma_segment_bounds(p@, lo as int, e as int);
        }
        if e - st == 1 && p[st] == '.' {
            cur = st;
        } else {
            return e;
        }
    }
}

fn body_start_exec(p: &Vec<char>) -> (r: usize)
    ensures
        r == body_start(p@),
        r <= p.len(),
{
    if p.len() > 0 && (p[0] == '/' || (p[0] == '.' && (p.len() == 1 || p[1] == '/'))) {
        1
    } else {
        0
    }
}

fn file_name_span_exec(p: &Vec<char>) -> (r: Option<(usize, usize)>)
    ensures
        match file_name_span(p@) {
            Some((st, e)) => r == Some((st as usize, e as usize)) && 0 <= st < e <= p.len(),
            None => r is None,
        },
{
    let bb = body_start_exec(p);
    match last_component_exec(p, bb, p.len()) {
        Some((st, e)) => {
            if e - st == 2 && p[st] == '.' && p[st + 1] == '.' {
                assert(p@.subrange(st as int, e as int) =~= seq!['.', '.']);
                None
            } else {
                proof {
                    let seg = p@.subrange(st as int, e as int);
                    if seg == seq!['.', '.'] {
                        assert(seg.len() == 2);
                        assert(seg[0] == p@[st as int]);
                        assert(seg[1] == p@[st + 1]);
                        assert(seq!['.', '.'][0] == '.');
                        assert(seq!['.', '.'][1] == '.');
                    }
                }
                Some((st, e))
            }
        },
        None => None,
    }
}

/// Index of the last `.` of `p[st..e]` relative to `st`, if any.
fn last_dot_exec(p: &Vec<char>, st: usize, e: usize) -> (r: Option<usize>)
    requires
        st <= e <= p.len(),
    ensures
        match r {
            Some(d) => d == last_dot(p@.subrange(st as int, e as int)) && st + d < e,
            None => last_dot(p@.subrange(st as int, e as int)) == -1,
        },
{
    let mut k = e;
    while k > st && p[k - 1] != '.'
        invariant
            st <= k <= e <= p.len(),
            last_dot(p@.subrange(st as int, k as int)) == last_dot(p@.subrange(st as int, e as int)),
        decreases k,
    {
        assert(p@.subrange(st as int, k as int).drop_last() =~= p@.subrange(st as int, k - 1));
        k = k - 1;
    }
    if k > st {
        Some(k - st - 1)
    } else {
        assert(p@.subrange(st as int, k as int).len() == 0);
        None
    }
}

/// Copies `p[from..to]`.
fn copy_range(p: &Vec<char>, from: usize, to: usize) -> (r: Vec<char>)
    requires
        from <= to <= p.len(),
    ensures
        r@ == p@.subrange(from as int, to as int),
{
    let mut out: Vec<char> = Vec::new();
    let mut k = from;
    while k < to
        invariant
            from <= k <= to <= p.len(),
            out@ == p@.subrange(from as int, k as int),
        decreases to - k,
    {
        out.push(p[k]);
        k = k + 1;
        assert(out@ =~= p@.subrange(from as int, k as int));
    }
    out
}

/// The extension of a path (`Path::extension` on Unix).
pub fn extension_of(path: &str) -> (r: Option<String>)
    ensures
        match path_extension(path@) {
            Some(x) => r matches Some(s) && s@ == x,
            None => r is None,
        },
{
    let p = str_chars(path);
    match file_name_span_exec(&p) {
        Some((st, e)) => {
            match last_dot_exec(&p, st, e) {
                Some(d) if d > 0 => {
                    let out = copy_range(&p, st + d + 1, e);
                    Some(string_from_chars(&out))
                },
                _ => None,
            }
        },
        None => None,
    }
}

/// The path with its extension replaced (`PathBuf::set_extension` on Unix).
pub fn with_extension(path: &str, ext: &str) -> (r: String)
    ensures
        r@ == path_with_extension(path@, ext@),
{
    let p = str_chars(path);
    match file_name_span_exec(&p) {
        Some((st, e)) => {
            let stem_end = match last_dot_exec(&p, st, e) {
                Some(d) if d > 0 => st + d,
                _ => e,
            };
            let mut out = copy_range(&p, 0, stem_end);
            let x = str_chars(ext);
            if x.len() > 0 {
                out.push('.');
                push_str(&mut out, ext);
            }
            assert(out@ =~= path_with_extension(path@, ext@));
            string_from_chars(&out)
        },
        None => {
            assert(p@ == path_with_extension(path@, ext@));
            string_from_chars(&p)
        },
    }
}

/// The parent of a path (`Path::parent` on Unix).
pub fn parent_of(path: &str) -> (r: Option<String>)
    ensures
        match path_parent(path@) {
            Some(x) => r matches Some(s) && s@ == x,
            None => r is None,
        },
{
    let p = str_chars(path);
    let bb = body_start_exec(&p);
    match last_component_exec(&p, bb, p.len()) {
        Some((st, _)) => {
            let t = trim_trailing_exec(&p, bb, st);
            let out = copy_range(&p, 0, t);
            Some(string_from_chars(&out))
        },
        None => {
            if p.len() > 0 && p[0] == '.' && (p.len() == 1 || p[1] == '/') {
                let out: Vec<char> = Vec::new();
                assert(out@ =~= Seq::<char>::empty());
                Some(string_from_chars(&out))
            } else {
                None
            }
        },
    }
}

} // verus!

verus! {

proof fn lemma_segment_props(p: Seq<char>, lo: int, end: int)
    requires
        0 <= lo <= end <= p.len(),
    ensures
        lo <= segment_start(p, lo, end) <= end,
        forall|k: int| segment_start(p, lo, end) <= k < end ==> p[k] != '/',
        segment_start(p, lo, end) == lo || p[segment_start(p, lo, end) - 1] == '/',
    decreases end - lo,
{
    if end > lo && p[end - 1] != '/' {
        lemma_segment_props(p, lo, end - 1);
    }
}

proof fn lemma_segment_start_is(q: Seq<char>, lo: int, st: int, end: int)
    requires
        0 <= lo <= st <= end <= q.len(),
        forall|k: int| st <= k < end ==> q[k] != '/',
        st == lo || q[st - 1] == '/',
    ensures
        segment_start(q, lo, end) == st,
    decreases end - lo,
{
    if end > st {
        lemma_segment_start_is(q, lo, st, end - 1);
    }
}

proof fn lemma_last_component_props(p: Seq<char>, lo: int, end: int)
    requires
        0 <= lo <= end <= p.len(),
        last_component(p, lo, end) is Some,
    ensures
        ({
            let (st, e) = last_component(p, lo, end).unwrap();
            &&& lo <= st < e <= end
            &&& forall|k: int| st <= k < e ==> p[k] != '/'
            &&& st == lo || p[st - 1] == '/'
            &&& !is_dot_segment(p, st, e)
        }),
    decreases end - lo,
{
    let e = trim_separators(p, lo, end);
    lemma_trim_bounds(p, lo, end);
    let st = segment_start(p, lo, e);
    lemma_segment_props(p, lo, e);
    lemma_segment_bounds(p, lo, e);
    if is_dot_segment(p, st, e) {
        lemma_last_component_props(p, lo, st);
    }
}

proof fn lemma_last_dot_after(a: Seq<char>, b: Seq<char>)
    requires
        forall|k: int| 0 <= k < b.len() ==> b[k] != '.',
    ensures
        last_dot(a + seq!['.'] + b) == a.len(),
    decreases b.len(),
{
    let s = a + seq!['.'] + b;
    if b.len() == 0 {
        assert(s.last() == '.');
    } else {
        assert(s.last() == b.last());
        assert(s.drop_last() =~= a + seq!['.'] + b.drop_last());
        lemma_last_dot_after(a, b.drop_last());
    }
}

/// Setting a non-empty extension (without `.` or `/`) on a path that has a file name
/// gives a path whose extension is exactly that one.
pub proof fn lemma_with_extension_sets_extension(p: Seq<char>, ext: Seq<char>)
    requires
        file_name_span(p) is Some,
        ext.len() > 0,
        forall|k: int| 0 <= k < ext.len() ==> ext[k] != '.' && ext[k] != '/',
    ensures
        path_extension(path_with_extension(p, ext)) == Some(ext),
{
    let bb = body_start(p);
    let (st, e) = file_name_span(p).unwrap();
    lemma_last_component_props(p, bb, p.len() as int);
    let name = p.subrange(st, e);
    let d = last_dot(name);
    let stem_end = if d > 0 {
        st + d
    } else {
        e
    };
    assert(d <= name.len() - 1) by {
        lemma_last_dot_bounds(name);
    }
    let q = path_with_extension(p, ext);
    let stem = p.subrange(0, stem_end);
    assert(q == stem + seq!['.'] + ext);
    let n = q.len() as int;
    assert(st < stem_end <= e);
    assert(body_start(q) == bb) by {
        assert(q[0] == p[0]);
        if stem_end >= 2 {
            assert(q[1] == p[1]);
        } else {
            assert(q[1] == '.');
        }
        if st == 0 {
            assert(p[0] != '/');
        }
    }
    assert(q[n - 1] == ext.last());
    assert(trim_separators(q, bb, n) == n);
    assert forall|k: int| st <= k < n implies q[k] != '/' by {
        if k < stem_end {
            assert(q[k] == p[k]);
        } else if k == stem_end {
        } else {
            assert(q[k] == ext[k - stem_end - 1]);
        }
    }
    if st > bb {
        assert(q[st - 1] == p[st - 1]);
    }
    lemma_segment_start_is(q, bb, st, n);
    assert(!is_dot_segment(q, st, n));
    assert(last_component(q, bb, n) == Some((st, n)));
    assert(q.subrange(st, n) != seq!['.', '.']) by {
        assert(q.subrange(st, n).len() >= 3);
    }
    assert(file_name_span(q) == Some((st, n)));
    let qname = q.subrange(st, n);
    assert(qname =~= p.subrange(st, stem_end) + seq!['.'] + ext);
    lemma_last_dot_after(p.subrange(st, stem_end), ext);
    assert(qname.subrange(0, 0).len() == 0);
    assert(q.subrange(stem_end + 1, n) =~= ext);
}

proof fn lemma_last_dot_bounds(s: Seq<char>)
    ensures
        -1 <= last_dot(s) < s.len(),
        last_dot(s) >= 0 ==> s[last_dot(s)] == '.',
    decreases s.len(),
{
    if s.len() > 0 && s.last() != '.' {
        lemma_last_dot_bounds(s.drop_last());
    }
}

} // verus!
