//! Unix paths as character sequences: absoluteness, joining, parent, file name, components.
//!
//! A path is split into an optional root `/`, an optional leading `.` (only for a relative
//! path that starts with `.` followed by `/` or nothing), and a body whose pieces between
//! separators are its components, empty pieces and `.` pieces being skipped.
use vstd::prelude::*;

use crate::text::{slice_chars, split_char, split_char_exec, views};

verus! {

/// The path starts at the root.
pub open spec fn is_absolute(p: Seq<char>) -> bool {
    p.len() > 0 && p[0] == '/'
}

/// A relative path whose first component is `.`.
pub open spec fn has_cur_dir(p: Seq<char>) -> bool {
    !is_absolute(p) && p.len() > 0 && p[0] == '.' && (p.len() == 1 || p[1] == '/')
}

/// Where the body starts: after the root or after a leading `.`.
pub open spec fn body_start(p: Seq<char>) -> int {
    if is_absolute(p) || has_cur_dir(p) {
        1
    } else {
        0
    }
}

/// The end of the path once trailing separators and `.` pieces are dropped,
/// scanning back from `e` but never before `base`.
pub open spec fn trimmed_end(p: Seq<char>, base: int, e: int) -> int
    decreases e - base,
{
    if e <= base || e > p.len() {
        base
    } else if p[e - 1] == '/' {
        trimmed_end(p, base, e - 1)
    } else if p[e - 1] == '.' && (e - 1 == base || p[e - 2] == '/') {
        trimmed_end(p, base, e - 1)
    } else {
        e
    }
}

/// The start of the piece that ends at `e`: just after the previous separator, or `base`.
pub open spec fn piece_start(p: Seq<char>, base: int, e: int) -> int
    decreases e - base,
{
    if e <= base || e > p.len() {
        base
    } else if p[e - 1] == '/' {
        e
    } else {
        piece_start(p, base, e - 1)
    }
}

/// End of the last component of the body (equal to the body start when there is none).
pub open spec fn last_end(p: Seq<char>) -> int {
    trimmed_end(p, body_start(p), p.len() as int)
}

/// Start of the last component of the body.
pub open spec fn last_start(p: Seq<char>) -> int {
    piece_start(p, body_start(p), last_end(p))
}

/// `Path::file_name`: the last component unless it is `..` or there is none in the body.
pub open spec fn file_name(p: Seq<char>) -> Option<Seq<char>> {
    if last_end(p) > body_start(p) && p.subrange(last_start(p), last_end(p)) != ".."@ {
        Some(p.subrange(last_start(p), last_end(p)))
    } else {
        None
    }
}

/// `Path::parent`: the path without its last component, with trailing separators and `.`
/// pieces dropped; `None` for the empty path and for the root.
pub open spec fn parent(p: Seq<char>) -> Option<Seq<char>> {
    if last_end(p) > body_start(p) {
        Some(p.subrange(0, trimmed_end(p, body_start(p), last_start(p))))
    } else if has_cur_dir(p) {
        Some(Seq::<char>::empty())
    } else {
        None
    }
}

/// `Path::join`: an absolute `q` replaces `p`; otherwise a separator is put between
/// them unless `p` is empty or already ends with one.
pub open spec fn join(p: Seq<char>, q: Seq<char>) -> Seq<char> {
    if is_absolute(q) {
        q
    } else if p.len() > 0 && p.last() != '/' {
        p + seq!['/'] + q
    } else {
        p + q
    }
}

/// A body piece that is a component: neither empty nor `.`.
pub open spec fn is_component_piece(x: Seq<char>) -> bool {
    x.len() > 0 && x != seq!['.']
}

/// `Path::iter`, each component as a string: the root as `/`, a leading `.`,
/// then the body pieces that are components.
pub open spec fn components(p: Seq<char>) -> Seq<Seq<char>> {
    (if is_absolute(p) {
        seq![seq!['/']]
    } else {
        Seq::<Seq<char>>::empty()
    }) + (if has_cur_dir(p) {
        seq![seq!['.']]
    } else {
        Seq::<Seq<char>>::empty()
    }) + split_char(p.subrange(body_start(p), p.len() as int), '/').filter(
        |x: Seq<char>| is_component_piece(x),
    )
}

// ---------------------------------------------------------------------------
// Executable counterparts
// ---------------------------------------------------------------------------

pub fn is_absolute_exec(p: &[char]) -> (r: bool)
    ensures
        r == is_absolute(p@),
{
    p.len() > 0 && p[0] == '/'
}

fn has_cur_dir_exec(p: &[char]) -> (r: bool)
    ensures
        r == has_cur_dir(p@),
{
    !is_absolute_exec(p) && p.len() > 0 && p[0] == '.' && (p.len() == 1 || p[1] == '/')
}

fn body_start_exec(p: &[char]) -> (r: usize)
    ensures
        r == body_start(p@),
        r <= p@.len(),
{
    if is_absolute_exec(p) || has_cur_dir_exec(p) {
        1
    } else {
        0
    }
}

fn trimmed_end_exec(p: &[char], base: usize, e: usize) -> (r: usize)
    requires
        base <= e <= p@.len(),
    ensures
        r == trimmed_end(p@, base as int, e as int),
        base <= r <= e,
{
    let mut i = e;
    while i > base
        invariant
            base <= i <= e <= p@.len(),
            trimmed_end(p@, base as int, i as int) == trimmed_end(p@, base as int, e as int),
        decreases i,
    {
        if p[i - 1] == '/' {
            i = i - 1;
        } else if p[i - 1] == '.' && (i - 1 == base || p[i - 2] == '/') {
            i = i - 1;
        } else {
            return i;
        }
    }
    i
}

fn piece_start_exec(p: &[char], base: usize, e: usize) -> (r: usize)
    requires
        base <= e <= p@.len(),
    ensures
        r == piece_start(p@, base as int, e as int),
        base <= r <= e,
{
    let mut i = e;
    while i > base
        invariant
            base <= i <= e <= p@.len(),
            piece_start(p@, base as int, i as int) == piece_start(p@, base as int, e as int),
        decreases i,
    {
        if p[i - 1] == '/' {
            return i;
        }
        i = i - 1;
    }
    i
}

/// `Path::file_name`.
pub fn file_name_exec(p: &[char]) -> (r: Option<Vec<char>>)
    ensures
        match r {
            Some(v) => file_name(p@) == Some(v@),
            None => file_name(p@) is None,
        },
{
    let base = body_start_exec(p);
    let e = trimmed_end_exec(p, base, p.len());
    if e > base {
        let s = piece_start_exec(p, base, e);
        let v = slice_chars(p, s, e);
        let dd = e - s == 2 && p[s] == '.' && p[s + 1] == '.';
        proof {
            reveal_strlit("..");
            if dd {
                assert(v@ =~= ".."@);
            } else if v@ == ".."@ {
                assert(v@[0] == '.' && v@[1] == '.');
            }
        }
        if !dd {
            return Some(v);
        }
    }
    None
}

/// `Path::parent`.
pub fn parent_exec(p: &[char]) -> (r: Option<Vec<char>>)
    ensures
        match r {
            Some(v) => parent(p@) == Some(v@),
            None => parent(p@) is None,
        },
{
    let base = body_start_exec(p);
    let e = trimmed_end_exec(p, base, p.len());
    if e > base {
        let s = piece_start_exec(p, base, e);
        let t = trimmed_end_exec(p, base, s);
        Some(slice_chars(p, 0, t))
    } else if has_cur_dir_exec(p) {
        let v: Vec<char> = Vec::new();
        assert(v@ =~= Seq::<char>::empty());
        Some(v)
    } else {
        None
    }
}

/// `Path::join`.
pub fn join_exec(p: &[char], q: &[char]) -> (r: Vec<char>)
    ensures
        r@ == join(p@, q@),
{
    let mut r: Vec<char> = Vec::new();
    if !is_absolute_exec(q) {
        let mut i: usize = 0;
        while i < p.len()
            invariant
                i <= p@.len(),
                r@ == p@.subrange(0, i as int),
            decreases p@.len() - i,
        {
            r.push(p[i]);
            i = i + 1;
        }
        if p.len() > 0 && p[p.len() - 1] != '/' {
            r.push('/');
        }
    }
    let ghost pre = r@;
    let mut j: usize = 0;
    while j < q.len()
        invariant
            j <= q@.len(),
            r@ == pre + q@.subrange(0, j as int),
        decreases q@.len() - j,
    {
        r.push(q[j]);
        j = j + 1;
    }
    proof {
        assert(q@.subrange(0, q@.len() as int) =~= q@);
        assert(p@.subrange(0, p@.len() as int) =~= p@);
        if is_absolute(q@) {
            assert(r@ =~= q@);
        } else if p@.len() > 0 && p@.last() != '/' {
            assert(r@ =~= p@ + seq!['/'] + q@);
        } else {
            assert(r@ =~= p@ + q@);
        }
    }
    r
}

/// `Path::iter`, each component as a string.
pub fn components_exec(p: &[char]) -> (r: Vec<Vec<char>>)
    ensures
        views(r@) == components(p@),
{
    let mut r: Vec<Vec<char>> = Vec::new();
    if is_absolute_exec(p) {
        let mut root: Vec<char> = Vec::new();
        root.push('/');
        r.push(root);
    }
    if has_cur_dir_exec(p) {
        let mut dot: Vec<char> = Vec::new();
        dot.push('.');
        r.push(dot);
    }
    let ghost head = views(r@);
    proof {
        assert(head =~= (if is_absolute(p@) {
            seq![seq!['/']]
        } else {
            Seq::<Seq<char>>::empty()
        }) + (if has_cur_dir(p@) {
            seq![seq!['.']]
        } else {
            Seq::<Seq<char>>::empty()
        }));
    }
    let base = body_start_exec(p);
    let body = slice_chars(p, base, p.len());
    let pieces = split_char_exec(body.as_slice(), '/');
    let ghost all = views(pieces@);
    let mut i: usize = 0;
    while i < pieces.len()
        invariant
            i <= pieces@.len(),
            all == views(pieces@),
            views(r@) == head + all.subrange(0, i as int).filter(
                |x: Seq<char>| is_component_piece(x),
            ),
        decreases pieces@.len() - i,
    {
        let piece = &pieces[i];
        let keep = piece.len() > 0 && !(piece.len() == 1 && piece[0] == '.');
        proof {
            assert(all[i as int] == piece@);
            if keep {
                if piece@ == seq!['.'] {
                    assert(piece@[0] == '.');
                }
            } else if piece@.len() == 1 {
                assert(piece@ =~= seq!['.']);
            }
            assert(all.subrange(0, i + 1).drop_last() =~= all.subrange(0, i as int));
            reveal_with_fuel(Seq::<Seq<char>>::filter, 1);
        }
        if keep {
            let copy = slice_chars(piece.as_slice(), 0, piece.len());
            proof {
                assert(copy@ =~= piece@);
                assert(views(r@.push(copy)) =~= views(r@).push(copy@));
            }
            r.push(copy);
        }
        i = i + 1;
    }
    proof {
        assert(all.subrange(0, all.len() as int) =~= all);
    }
    r
}

} // verus!
