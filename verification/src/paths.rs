use vstd::prelude::*;

verus! {

/// The path separator byte, `'/'`. Paths are byte strings as the operating
/// system sees them.
pub const SEPARATOR: u8 = 47;

/// An absolute path: non-empty and starting with the separator.
pub open spec fn is_absolute(p: Seq<u8>) -> bool {
    p.len() > 0 && p[0] == SEPARATOR
}

/// `p` lies inside the directory `dir`: it is `dir` itself, or `dir`
/// followed by a separator and at least one more byte.
pub open spec fn is_under(p: Seq<u8>, dir: Seq<u8>) -> bool {
    ||| p == dir
    ||| (dir.len() < p.len() && p.subrange(0, dir.len() as int) == dir && p[dir.len() as int]
        == SEPARATOR)
}

/// Byte-for-byte equality of two byte strings.
pub fn bytes_eq(a: &Vec<u8>, b: &Vec<u8>) -> (r: bool)
    ensures
        r == (a@ == b@),
{
    if a.len() != b.len() {
        return false;
    }
    let mut i: usize = 0;
    while i < a.len()
        invariant
            i <= a.len(),
            a.len() == b.len(),
            forall|j: int| 0 <= j < i ==> a@[j] == b@[j],
        decreases a.len() - i,
    {
        if a[i] != b[i] {
            return false;
        }
        i += 1;
    }
    proof {
        assert(a@ =~= b@);
    }
    true
}

/// A fresh copy of a byte string.
pub fn bytes_clone(a: &Vec<u8>) -> (r: Vec<u8>)
    ensures
        r@ == a@,
{
    let mut r: Vec<u8> = Vec::new();
    let mut i: usize = 0;
    while i < a.len()
        invariant
            i <= a.len(),
            r@ == a@.subrange(0, i as int),
        decreases a.len() - i,
    {
        r.push(a[i]);
        proof {
            assert(r@ =~= a@.subrange(0, i as int + 1));
        }
        i += 1;
    }
    proof {
        assert(r@ =~= a@);
    }
    r
}

/// Decides [`is_absolute`] on a path.
pub fn check_absolute(p: &Vec<u8>) -> (r: bool)
    ensures
        r == is_absolute(p@),
{
    p.len() > 0 && p[0] == SEPARATOR
}

/// Decides [`is_under`] on a path and a directory.
pub fn check_under(p: &Vec<u8>, dir: &Vec<u8>) -> (r: bool)
    ensures
        r == is_under(p@, dir@),
{
    if p.len() < dir.len() {
        return false;
    }
    if p.len() == dir.len() {
        return bytes_eq(p, dir);
    }
    let mut i: usize = 0;
    while i < dir.len()
        invariant
            i <= dir.len(),
            dir.len() < p.len(),
            forall|j: int| 0 <= j < i ==> p@[j] == dir@[j],
        decreases dir.len() - i,
    {
        if p[i] != dir[i] {
            proof {
                assert(p@.subrange(0, dir@.len() as int)[i as int] == p@[i as int]);
            }
            return false;
        }
        i += 1;
    }
    proof {
        assert(p@.subrange(0, dir@.len() as int) =~= dir@);
    }
    p[dir.len()] == SEPARATOR
}

/// A path of the form `base`, separator, `name` — where `name` is non-empty
/// and separator-free — cannot lie inside a directory `other` when `base`
/// and `other` are disjoint, that is, neither lies inside the other.
///
/// This is what keeps a freshly minted managed path out of every subworker
/// sandbox that is disjoint from the worker's own work directory.
pub proof fn lemma_child_escapes_disjoint_dir(base: Seq<u8>, name: Seq<u8>, other: Seq<u8>)
    requires
        name.len() > 0,
        forall|i: int| 0 <= i < name.len() ==> name[i] != SEPARATOR,
        !is_under(base, other),
        !is_under(other, base),
    ensures
        !is_under(base + seq![SEPARATOR] + name, other),
{
    let t = base + seq![SEPARATOR] + name;
    assert(t.len() == base.len() + 1 + name.len());
    assert forall|j: int| 0 <= j < base.len() implies t[j] == base[j] by {}
    assert(t[base.len() as int] == SEPARATOR);
    assert forall|j: int| base.len() < j < t.len() implies t[j] == name[j - base.len() - 1] by {}
    if is_under(t, other) {
        if t == other {
            // Then `other` extends `base` past a separator, so it lies
            // inside `base`, against the disjointness hypothesis.
            assert(other.subrange(0, base.len() as int) =~= base);
            assert(is_under(other, base));
        } else {
            assert(other.len() < t.len());
            assert(t.subrange(0, other.len() as int) == other);
            assert(t[other.len() as int] == SEPARATOR);
            if other.len() < base.len() {
                assert(base.subrange(0, other.len() as int) =~= t.subrange(
                    0,
                    other.len() as int,
                ));
                assert(base[other.len() as int] == t[other.len() as int]);
                assert(is_under(base, other));
            } else if other.len() == base.len() {
                assert(other =~= base);
                assert(is_under(other, base));
            } else {
                // The separator at `other.len()` would have to fall inside
                // `name`, which has none.
                assert(t[other.len() as int] == name[other.len() - base.len() - 1]);
            }
        }
    }
}

} // verus!
