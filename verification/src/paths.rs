//! File-system paths held as text, with the component semantics of `std::path`
//! on Unix: `/` separates components, a leading `/` is the root, empty pieces
//! and `.` pieces after the first are not components, a leading `.` is the
//! current directory and `..` is the parent directory.
//!
//! Two paths are the same `Path` exactly when they have the same root flag and
//! the same components, so functions that compute a path from components give
//! it back in the form with single separators.
use vstd::prelude::*;
use crate::text::{chars_of, concat2, concat3, push_char, string_from_chars};

verus! {

/// The pieces of `s` between `/` separators (`s.split('/')`).
pub open spec fn split_slash(s: Seq<char>) -> Seq<Seq<char>>
    decreases s.len(),
{
    if s.len() == 0 {
        seq![Seq::<char>::empty()]
    } else {
        let p = split_slash(s.drop_last());
        if s.last() == '/' {
            p.push(Seq::<char>::empty())
        } else {
            p.update(p.len() - 1, p.last().push(s.last()))
        }
    }
}

pub open spec fn dot() -> Seq<char> {
    seq!['.']
}

pub open spec fn dotdot() -> Seq<char> {
    seq!['.', '.']
}

/// A piece that is a component wherever it stands: not empty and not `.`.
pub open spec fn kept_piece(p: Seq<char>) -> bool {
    p.len() > 0 && p != dot()
}

/// The pieces that are components, in order.
pub open spec fn keep_parts(pcs: Seq<Seq<char>>) -> Seq<Seq<char>>
    decreases pcs.len(),
{
    if pcs.len() == 0 {
        Seq::empty()
    } else if kept_piece(pcs.last()) {
        keep_parts(pcs.drop_last()).push(pcs.last())
    } else {
        keep_parts(pcs.drop_last())
    }
}

/// The path has a root (is absolute on Unix).
pub open spec fn is_root(s: Seq<char>) -> bool {
    s.len() > 0 && s[0] == '/'
}

/// The components of `s` after the root, as `Path::components` yields them:
/// `.` stands for the current directory, `..` for the parent directory.
pub open spec fn path_parts(s: Seq<char>) -> Seq<Seq<char>> {
    let pcs = split_slash(s);
    if !is_root(s) && pcs[0] == dot() {
        seq![dot()] + keep_parts(pcs.drop_first())
    } else {
        keep_parts(pcs)
    }
}

/// Components joined by single separators.
pub open spec fn join_parts(parts: Seq<Seq<char>>) -> Seq<char>
    decreases parts.len(),
{
    if parts.len() == 0 {
        Seq::empty()
    } else if parts.len() == 1 {
        parts[0]
    } else {
        join_parts(parts.drop_last()) + seq!['/'] + parts.last()
    }
}

/// The text of the path with the given root flag and components.
pub open spec fn render(root: bool, parts: Seq<Seq<char>>) -> Seq<char> {
    if root {
        seq!['/'] + join_parts(parts)
    } else {
        join_parts(parts)
    }
}

/// `Path::join` / `PathBuf::push`: an absolute `b` replaces `a`; otherwise
/// `b` is appended after a separator, unless `a` is empty or already ends in one.
pub open spec fn join_path(a: Seq<char>, b: Seq<char>) -> Seq<char> {
    if is_root(b) {
        b
    } else if a.len() == 0 {
        b
    } else if a.last() == '/' {
        a + b
    } else {
        a + seq!['/'] + b
    }
}

/// Folding components the way a normaliser does that keeps a `..` it cannot
/// resolve: `.` is skipped, `..` removes the last kept component or, where
/// there is none, is kept itself.
pub open spec fn fold_keep_parent(parts: Seq<Seq<char>>) -> Seq<Seq<char>>
    decreases parts.len(),
{
    if parts.len() == 0 {
        Seq::empty()
    } else {
        let acc = fold_keep_parent(parts.drop_last());
        let p = parts.last();
        if p == dot() {
            acc
        } else if p == dotdot() {
            if acc.len() > 0 {
                acc.drop_last()
            } else {
                acc.push(p)
            }
        } else {
            acc.push(p)
        }
    }
}

/// Folding components the way a normaliser does that drops a `..` it cannot
/// resolve.
pub open spec fn fold_drop_parent(parts: Seq<Seq<char>>) -> Seq<Seq<char>>
    decreases parts.len(),
{
    if parts.len() == 0 {
        Seq::empty()
    } else {
        let acc = fold_drop_parent(parts.drop_last());
        let p = parts.last();
        if p == dot() {
            acc
        } else if p == dotdot() {
            if acc.len() > 0 {
                acc.drop_last()
            } else {
                acc
            }
        } else {
            acc.push(p)
        }
    }
}

/// The lexical normal form that resolves `..` against earlier components and
/// keeps the ones it cannot resolve.
pub open spec fn normalize_keep(s: Seq<char>) -> Seq<char> {
    render(is_root(s), fold_keep_parent(path_parts(s)))
}

/// The lexical normal form that resolves `..` against earlier components and
/// drops the ones it cannot resolve.
pub open spec fn normalize_drop(s: Seq<char>) -> Seq<char> {
    render(is_root(s), fold_drop_parent(path_parts(s)))
}

/// `Path::parent`: the path without its last component, or `None` for a path
/// with no components (the empty path and the root).
pub open spec fn parent_of(s: Seq<char>) -> Option<Seq<char>> {
    let parts = path_parts(s);
    if parts.len() == 0 {
        None
    } else {
        Some(render(is_root(s), parts.drop_last()))
    }
}

/// `Path::file_name`: the last component where it is a normal one.
pub open spec fn file_name_of(s: Seq<char>) -> Option<Seq<char>> {
    let parts = path_parts(s);
    if parts.len() == 0 || parts.last() == dot() || parts.last() == dotdot() {
        None
    } else {
        Some(parts.last())
    }
}

/// Index of the last `.` in `name`, or -1.
pub open spec fn last_dot(name: Seq<char>) -> int
    decreases name.len(),
{
    if name.len() == 0 {
        -1
    } else if name.last() == '.' {
        name.len() - 1
    } else {
        last_dot(name.drop_last())
    }
}

/// The stem of a file name (`Path::file_stem`): the name before its last `.`,
/// or the whole name where it has no `.` but a leading one.
pub open spec fn stem_of(name: Seq<char>) -> Seq<char> {
    let k = last_dot(name);
    if k <= 0 {
        name
    } else {
        name.subrange(0, k)
    }
}

/// The texts held in a vector of character vectors.
pub open spec fn views(v: Seq<Vec<char>>) -> Seq<Seq<char>> {
    Seq::new(v.len(), |i: int| v[i]@)
}

pub proof fn lemma_views_push(v: Seq<Vec<char>>, x: Vec<char>)
    ensures
        views(v.push(x)) =~= views(v).push(x@),
{
}

pub proof fn lemma_views_drop_last(v: Seq<Vec<char>>)
    requires
        v.len() > 0,
    ensures
        views(v.drop_last()) =~= views(v).drop_last(),
{
}

/// A copy of a character vector.
pub fn copy_chars(v: &Vec<char>) -> (r: Vec<char>)
    ensures
        r@ == v@,
{
    let mut r: Vec<char> = Vec::new();
    let mut i: usize = 0;
    while i < v.len()
        invariant
            0 <= i <= v.len(),
            r@ =~= v@.subrange(0, i as int),
        decreases v.len() - i,
    {
        r.push(v[i]);
        i += 1;
    }
    r
}

pub proof fn lemma_split_nonempty(s: Seq<char>)
    ensures
        split_slash(s).len() >= 1,
    decreases s.len(),
{
    if s.len() > 0 {
        lemma_split_nonempty(s.drop_last());
    }
}

/// The pieces of a text.
pub fn split_slash_exec(s: &Vec<char>) -> (pcs: Vec<Vec<char>>)
    ensures
        views(pcs@) == split_slash(s@),
{
    let mut pcs: Vec<Vec<char>> = Vec::new();
    let mut cur: Vec<char> = Vec::new();
    let mut i: usize = 0;
    while i < s.len()
        invariant
            0 <= i <= s.len(),
            views(pcs@).push(cur@) =~= split_slash(s@.subrange(0, i as int)),
        decreases s.len() - i,
    {
        let c = s[i];
        let ghost prev = s@.subrange(0, i as int);
        assert(s@.subrange(0, i + 1).drop_last() =~= prev);
        proof {
            lemma_split_nonempty(prev);
        }
        if c == '/' {
            pcs.push(cur);
            cur = Vec::new();
            assert(views(pcs@).push(cur@) =~= split_slash(prev).push(Seq::<char>::empty()));
        } else {
            let ghost old_pcs = views(pcs@);
            cur.push(c);
            assert(views(pcs@).push(cur@) =~= split_slash(prev).update(
                split_slash(prev).len() - 1,
                split_slash(prev).last().push(c),
            ));
        }
        i += 1;
    }
    pcs.push(cur);
    assert(s@.subrange(0, s.len() as int) =~= s@);
    pcs
}

/// Whether a piece is exactly `.`.
pub fn is_dot(p: &Vec<char>) -> (r: bool)
    ensures
        r == (p@ == dot()),
{
    let r = p.len() == 1 && p[0] == '.';
    assert(r ==> p@ =~= dot());
    r
}

/// Whether a piece is exactly `..`.
pub fn is_dotdot(p: &Vec<char>) -> (r: bool)
    ensures
        r == (p@ == dotdot()),
{
    let r = p.len() == 2 && p[0] == '.' && p[1] == '.';
    assert(r ==> p@ =~= dotdot());
    r
}

/// The components of a path text after its root, and whether it has a root.
pub fn path_parts_exec(s: &Vec<char>) -> (res: (bool, Vec<Vec<char>>))
    ensures
        res.0 == is_root(s@),
        views(res.1@) == path_parts(s@),
{
    let root = s.len() > 0 && s[0] == '/';
    let pcs = split_slash_exec(s);
    proof {
        lemma_split_nonempty(s@);
    }
    let lead_dot = !root && is_dot(&pcs[0]);
    let start: usize = if lead_dot {
        1
    } else {
        0
    };
    let mut parts: Vec<Vec<char>> = Vec::new();
    if lead_dot {
        parts.push(copy_chars(&pcs[0]));
    }
    let ghost base: Seq<Seq<char>> = if lead_dot {
        seq![dot()]
    } else {
        Seq::empty()
    };
    assert(views(parts@) =~= base);
    let mut i = start;
    while i < pcs.len()
        invariant
            start <= i <= pcs.len(),
            views(parts@) =~= base + keep_parts(
                views(pcs@).subrange(start as int, i as int),
            ),
        decreases pcs.len() - i,
    {
        let ghost sub = views(pcs@).subrange(start as int, i as int);
        let ghost sub1 = views(pcs@).subrange(start as int, i + 1);
        assert(sub1.drop_last() =~= sub);
        assert(sub1.last() == pcs@[i as int]@);
        if pcs[i].len() > 0 && !is_dot(&pcs[i]) {
            let c = copy_chars(&pcs[i]);
            proof {
                lemma_views_push(parts@, c);
            }
            parts.push(c);
        }
        i += 1;
    }
    assert(views(pcs@).subrange(start as int, pcs.len() as int) =~= if lead_dot {
        views(pcs@).drop_first()
    } else {
        views(pcs@)
    });
    (root, parts)
}

/// The text of components joined with single separators, after an optional root.
pub fn render_exec(root: bool, parts: &Vec<Vec<char>>) -> (s: String)
    ensures
        s@ == render(root, views(parts@)),
{
    let mut s = String::new();
    if root {
        push_char(&mut s, '/');
    }
    let ghost pre: Seq<char> = if root {
        seq!['/']
    } else {
        Seq::empty()
    };
    let mut i: usize = 0;
    while i < parts.len()
        invariant
            0 <= i <= parts.len(),
            s@ =~= pre + join_parts(views(parts@).subrange(0, i as int)),
        decreases parts.len() - i,
    {
        let ghost sub = views(parts@).subrange(0, i + 1);
        assert(sub.drop_last() =~= views(parts@).subrange(0, i as int));
        if i > 0 {
            push_char(&mut s, '/');
        }
        let p = &parts[i];
        let mut j: usize = 0;
        let ghost before = s@;
        while j < p.len()
            invariant
                0 <= j <= p.len(),
                s@ =~= before + p@.subrange(0, j as int),
            decreases p.len() - j,
        {
            push_char(&mut s, p[j]);
            j += 1;
        }
        assert(p@.subrange(0, p.len() as int) =~= p@);
        assert(sub.last() == p@);
        if i == 0 {
            assert(join_parts(sub) =~= p@);
        }
        i += 1;
    }
    assert(views(parts@).subrange(0, parts.len() as int) =~= views(parts@));
    s
}

/// `a.join(b)` as text.
pub fn join_path_exec(a: &str, b: &str) -> (r: String)
    ensures
        r@ == join_path(a@, b@),
{
    let av = chars_of(a);
    let bv = chars_of(b);
    if bv.len() > 0 && bv[0] == '/' {
        return string_from_chars(&bv);
    }
    if av.len() == 0 {
        return string_from_chars(&bv);
    }
    if av[av.len() - 1] == '/' {
        concat2(a, b)
    } else {
        proof {
            reveal_strlit("/");
        }
        concat3(a, "/", b)
    }
}

/// Lexical normalisation that keeps a `..` it cannot resolve.
pub fn normalize_keep_exec(s: &str) -> (r: String)
    ensures
        r@ == normalize_keep(s@),
{
    let chars = chars_of(s);
    let (root, parts) = path_parts_exec(&chars);
    let mut acc: Vec<Vec<char>> = Vec::new();
    let mut i: usize = 0;
    while i < parts.len()
        invariant
            0 <= i <= parts.len(),
            views(acc@) =~= fold_keep_parent(views(parts@).subrange(0, i as int)),
        decreases parts.len() - i,
    {
        assert(views(parts@).subrange(0, i + 1).drop_last() =~= views(parts@).subrange(
            0,
            i as int,
        ));
        let p = &parts[i];
        if is_dot(p) {
        } else if is_dotdot(p) {
            if acc.len() > 0 {
                acc.pop();
            } else {
                acc.push(copy_chars(p));
            }
        } else {
            acc.push(copy_chars(p));
        }
        i += 1;
    }
    assert(views(parts@).subrange(0, parts.len() as int) =~= views(parts@));
    render_exec(root, &acc)
}

/// Lexical normalisation that drops a `..` it cannot resolve.
pub fn normalize_drop_exec(s: &str) -> (r: String)
    ensures
        r@ == normalize_drop(s@),
{
    let chars = chars_of(s);
    let (root, parts) = path_parts_exec(&chars);
    let mut acc: Vec<Vec<char>> = Vec::new();
    let mut i: usize = 0;
    while i < parts.len()
        invariant
            0 <= i <= parts.len(),
            views(acc@) =~= fold_drop_parent(views(parts@).subrange(0, i as int)),
        decreases parts.len() - i,
    {
        assert(views(parts@).subrange(0, i + 1).drop_last() =~= views(parts@).subrange(
            0,
            i as int,
        ));
        let p = &parts[i];
        if is_dot(p) {
        } else if is_dotdot(p) {
            if acc.len() > 0 {
                acc.pop();
            }
        } else {
            acc.push(copy_chars(p));
        }
        i += 1;
    }
    assert(views(parts@).subrange(0, parts.len() as int) =~= views(parts@));
    render_exec(root, &acc)
}

/// Whether two parts lists are equal.
pub fn parts_eq(a: &Vec<Vec<char>>, b: &Vec<Vec<char>>) -> (r: bool)
    ensures
        r == (views(a@) == views(b@)),
{
    if a.len() != b.len() {
        assert(views(a@).len() != views(b@).len());
        return false;
    }
    let mut i: usize = 0;
    while i < a.len()
        invariant
            0 <= i <= a.len(),
            a.len() == b.len(),
            forall|j: int| 0 <= j < i ==> a@[j]@ == b@[j]@,
        decreases a.len() - i,
    {
        let x = &a[i];
        let y = &b[i];
        if x.len() != y.len() {
            assert(views(a@)[i as int] != views(b@)[i as int]);
            return false;
        }
        let mut k: usize = 0;
        while k < x.len()
            invariant
                0 <= k <= x.len(),
                x.len() == y.len(),
                i < a.len(),
                a.len() == b.len(),
                *x == a@[i as int],
                *y == b@[i as int],
                forall|j: int| 0 <= j < k ==> x@[j] == y@[j],
            decreases x.len() - k,
        {
            if x[k] != y[k] {
                assert(views(a@)[i as int] == x@);
                assert(views(b@)[i as int] == y@);
                assert(views(a@)[i as int][k as int] != views(b@)[i as int][k as int]);
                return false;
            }
            k += 1;
        }
        assert(x@ =~= y@);
        i += 1;
    }
    assert(views(a@) =~= views(b@));
    true
}

/// Two path texts name the same `Path`: same root flag and same components.
pub open spec fn same_path(a: Seq<char>, b: Seq<char>) -> bool {
    is_root(a) == is_root(b) && path_parts(a) == path_parts(b)
}

/// Whether two path texts are equal as `Path`s.
pub fn same_path_exec(a: &str, b: &str) -> (r: bool)
    ensures
        r == same_path(a@, b@),
{
    let ac = chars_of(a);
    let bc = chars_of(b);
    let (ra, pa) = path_parts_exec(&ac);
    let (rb, pb) = path_parts_exec(&bc);
    ra == rb && parts_eq(&pa, &pb)
}

/// `Path::starts_with`: the components of `b`, its root among them, are the
/// first components of `a`. A path with no components at all is a prefix of
/// every path.
pub open spec fn path_starts_with(a: Seq<char>, b: Seq<char>) -> bool {
    if !is_root(b) && path_parts(b).len() == 0 {
        true
    } else {
        &&& is_root(a) == is_root(b)
        &&& path_parts(b).len() <= path_parts(a).len()
        &&& path_parts(a).subrange(0, path_parts(b).len() as int) == path_parts(b)
    }
}

/// Whether two character vectors are equal.
pub fn chars_eq(x: &Vec<char>, y: &Vec<char>) -> (r: bool)
    ensures
        r == (x@ == y@),
{
    if x.len() != y.len() {
        return false;
    }
    let mut k: usize = 0;
    while k < x.len()
        invariant
            0 <= k <= x.len(),
            x.len() == y.len(),
            forall|j: int| 0 <= j < k ==> x@[j] == y@[j],
        decreases x.len() - k,
    {
        if x[k] != y[k] {
            return false;
        }
        k += 1;
    }
    assert(x@ =~= y@);
    true
}

/// Whether `b` lists the first components of `a`.
pub fn parts_prefix(a: &Vec<Vec<char>>, b: &Vec<Vec<char>>) -> (r: bool)
    ensures
        r == (b.len() <= a.len() && views(a@).subrange(0, b.len() as int) == views(b@)),
{
    if b.len() > a.len() {
        return false;
    }
    let mut i: usize = 0;
    while i < b.len()
        invariant
            0 <= i <= b.len(),
            b.len() <= a.len(),
            forall|j: int| 0 <= j < i ==> a@[j]@ == b@[j]@,
        decreases b.len() - i,
    {
        if !chars_eq(&a[i], &b[i]) {
            assert(views(a@).subrange(0, b.len() as int)[i as int] != views(b@)[i as int]);
            return false;
        }
        i += 1;
    }
    assert(views(a@).subrange(0, b.len() as int) =~= views(b@));
    true
}

/// Whether `a` starts with `b`, component by component.
pub fn path_starts_with_exec(a: &str, b: &str) -> (r: bool)
    ensures
        r == path_starts_with(a@, b@),
{
    let (ra, pa) = path_parts_exec(&chars_of(a));
    let (rb, pb) = path_parts_exec(&chars_of(b));
    if !rb && pb.len() == 0 {
        return true;
    }
    ra == rb && parts_prefix(&pa, &pb)
}

/// Two paths overlap when one of them lies within the other (or they are the
/// same). The texts are the paths as the file system resolved them.
pub open spec fn spec_paths_overlap(left: Seq<char>, right: Seq<char>) -> bool {
    path_starts_with(left, right) || path_starts_with(right, left)
}

/// Whether one of two resolved paths lies within the other.
pub fn paths_overlap(left: &str, right: &str) -> (r: bool)
    ensures
        r == spec_paths_overlap(left@, right@),
{
    path_starts_with_exec(left, right) || path_starts_with_exec(right, left)
}

/// `Path::parent` as text.
pub fn parent_exec(s: &str) -> (r: Option<String>)
    ensures
        r matches Some(t) ==> parent_of(s@) == Some(t@),
        r is None <==> parent_of(s@) is None,
{
    let chars = chars_of(s);
    let (root, mut parts) = path_parts_exec(&chars);
    if parts.len() == 0 {
        return None;
    }
    proof {
        lemma_views_drop_last(parts@);
    }
    parts.pop();
    Some(render_exec(root, &parts))
}

/// `Path::file_name` as text.
pub fn file_name_exec(s: &str) -> (r: Option<Vec<char>>)
    ensures
        r matches Some(t) ==> file_name_of(s@) == Some(t@),
        r is None <==> file_name_of(s@) is None,
{
    let chars = chars_of(s);
    let (_root, parts) = path_parts_exec(&chars);
    if parts.len() == 0 {
        return None;
    }
    let last = &parts[parts.len() - 1];
    assert(last@ == views(parts@).last());
    if is_dot(last) || is_dotdot(last) {
        return None;
    }
    Some(copy_chars(last))
}

/// The stem of a file name.
pub fn stem_exec(name: &Vec<char>) -> (r: Vec<char>)
    ensures
        r@ == stem_of(name@),
{
    let mut k = name.len();
    assert(name@.subrange(0, k as int) =~= name@);
    while k > 0 && name[k - 1] != '.'
        invariant
            0 <= k <= name.len(),
            last_dot(name@) == last_dot(name@.subrange(0, k as int)),
        decreases k,
    {
        assert(name@.subrange(0, k as int).drop_last() =~= name@.subrange(0, k - 1));
        k -= 1;
    }
    if k == 0 {
        assert(last_dot(name@.subrange(0, 0)) == -1);
        return copy_chars(name);
    }
    assert(last_dot(name@) == k - 1);
    if k == 1 {
        return copy_chars(name);
    }
    let mut r: Vec<char> = Vec::new();
    let mut i: usize = 0;
    while i < k - 1
        invariant
            0 <= i <= k - 1,
            k <= name.len(),
            r@ =~= name@.subrange(0, i as int),
        decreases k - 1 - i,
    {
        r.push(name[i]);
        i += 1;
    }
    r
}

} // verus!
