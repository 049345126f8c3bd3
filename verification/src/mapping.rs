//! Source-to-destination path mapping.
//!
//! A source path is mapped by stripping the source-root prefix and
//! sanitizing every remaining component independently.  Components never
//! contain the separator `'/'`, so the per-component rule is stated here
//! character by character with the separator preserved.  The mapping is
//! recomputed on demand and never cached.

use crate::sanitize::is_forbidden_char;
use crate::sanitize::sanitize_char;
use crate::sanitize::sanitized_of;
use vstd::prelude::*;

verus! {

/// `p` lies at or below `root`: it is `root` itself, or `root` followed by
/// a separator and a non-empty relative part.
pub open spec fn under_root(root: Seq<char>, p: Seq<char>) -> bool {
    p == root || (p.len() > root.len() && p.subrange(0, root.len() as int) == root && p[
        root.len() as int
    ] == '/')
}

/// Sanitization of a relative path: every component is sanitized, the
/// separators between components stay.
pub open spec fn sanitize_relative(s: Seq<char>) -> Seq<char> {
    s.map_values(
        |c: char|
            if c == '/' {
                c
            } else {
                sanitize_char(c)
            },
    )
}

/// Where a source path is copied to: the destination root, followed by the
/// source-root-relative part of `p` with every component sanitized.
pub open spec fn dest_path_spec(source_root: Seq<char>, dest_root: Seq<char>, p: Seq<char>) -> Seq<
    char,
> {
    if p == source_root {
        dest_root
    } else {
        dest_root + seq!['/'] + sanitize_relative(
            p.subrange(source_root.len() as int + 1, p.len() as int),
        )
    }
}

/// Reports whether `p` lies at or below `source_root`.
pub fn check_under_root(source_root: &str, p: &str) -> (b: bool)
    ensures
        b == under_root(source_root@, p@),
{
    let rl: usize = source_root.unicode_len();
    let pl: usize = p.unicode_len();
    if pl < rl {
        return false;
    }
    let mut i: usize = 0;
    while i < rl
        invariant
            rl == source_root@.len(),
            pl == p@.len(),
            rl <= pl,
            i <= rl,
            forall|j: int| 0 <= j < i ==> p@[j] == source_root@[j],
        decreases rl - i,
    {
        let cp = p.get_char(i);
        let cr = source_root.get_char(i);
        if cp != cr {
            return false;
        }
        i = i + 1;
    }
    if pl == rl {
        proof {
            assert(p@ =~= source_root@);
        }
        true
    } else {
        proof {
            assert(p@.subrange(0, rl as int) =~= source_root@);
            assert(p@ != source_root@);
        }
        p.get_char(rl) == '/'
    }
}

/// Computes the destination path of a source path that lies under the
/// source root.
pub fn map_dest_path(source_root: &str, dest_root: &str, p: &str) -> (r: String)
    requires
        under_root(source_root@, p@),
    ensures
        r@ == dest_path_spec(source_root@, dest_root@, p@),
{
    let rl: usize = source_root.unicode_len();
    let pl: usize = p.unicode_len();
    let mut r = dest_root.to_owned();
    if pl <= rl {
        proof {
            assert(p@ == source_root@);
        }
        return r;
    }
    proof {
        assert(p@ != source_root@);
    }
    r.push('/');
    let mut i: usize = rl + 1;
    proof {
        assert(p@.subrange(rl + 1, i as int) =~= Seq::<char>::empty());
        assert(r@ =~= dest_root@ + seq!['/'] + sanitize_relative(p@.subrange(rl + 1, i as int)));
    }
    while i < pl
        invariant
            rl == source_root@.len(),
            pl == p@.len(),
            rl + 1 <= i <= pl,
            r@ == dest_root@ + seq!['/'] + sanitize_relative(p@.subrange(rl + 1, i as int)),
        decreases pl - i,
    {
        let c = p.get_char(i);
        let sc = if c == '/' {
            '/'
        } else {
            sanitized_of(c)
        };
        r.push(sc);
        proof {
            assert(p@.subrange(rl + 1, i + 1) =~= p@.subrange(rl + 1, i as int).push(
                p@[i as int],
            ));
            assert(r@ =~= dest_root@ + seq!['/'] + sanitize_relative(p@.subrange(rl + 1, i + 1)));
        }
        i = i + 1;
    }
    proof {
        assert(p@.subrange(rl + 1, pl as int) =~= p@.subrange(rl + 1, p@.len() as int));
    }
    r
}

/// When no component of the relative part contains a forbidden character,
/// the mapping is plain prefix replacement: the relative part is kept as it
/// is under the destination root.
pub proof fn lemma_dest_path_clean(source_root: Seq<char>, dest_root: Seq<char>, p: Seq<char>)
    requires
        under_root(source_root, p),
        forall|i: int|
            source_root.len() < i < p.len() ==> (#[trigger] p[i] == '/' || !is_forbidden_char(
                p[i],
            )),
    ensures
        p == source_root ==> dest_path_spec(source_root, dest_root, p) == dest_root,
        p != source_root ==> dest_path_spec(source_root, dest_root, p) == dest_root + seq!['/']
            + p.subrange(source_root.len() as int + 1, p.len() as int),
{
    if p != source_root {
        let rel = p.subrange(source_root.len() as int + 1, p.len() as int);
        assert(sanitize_relative(rel) =~= rel);
    }
}

} // verus!
