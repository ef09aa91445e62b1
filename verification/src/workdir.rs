use vstd::prelude::*;

use crate::paths::{bytes_clone, is_under, SEPARATOR};

verus! {

/// The decimal digit bytes of `n`, most significant first.
pub open spec fn decimal(n: nat) -> Seq<u8>
    decreases n,
{
    if n < 10 {
        seq![(48 + n) as u8]
    } else {
        decimal(n / 10).push((48 + n % 10) as u8)
    }
}

/// A decimal rendering is non-empty and holds digit bytes only — in
/// particular, never a separator.
pub proof fn lemma_decimal_digits(n: nat)
    ensures
        decimal(n).len() > 0,
        forall|i: int| 0 <= i < decimal(n).len() ==> 48 <= #[trigger] decimal(n)[i] <= 57,
    decreases n,
{
    if n < 10 {
    } else {
        lemma_decimal_digits(n / 10);
    }
}

/// Distinct numbers render to distinct digit strings.
pub proof fn lemma_decimal_injective(m: nat, n: nat)
    requires
        m != n,
    ensures
        decimal(m) != decimal(n),
    decreases m + n,
{
    lemma_decimal_digits(m);
    lemma_decimal_digits(n);
    if m < 10 && n < 10 {
        assert(decimal(m)[0] != decimal(n)[0]);
    } else if m < 10 {
        lemma_decimal_digits(n / 10);
        assert(decimal(n).len() >= 2);
    } else if n < 10 {
        lemma_decimal_digits(m / 10);
        assert(decimal(m).len() >= 2);
    } else {
        if m % 10 != n % 10 {
            assert(decimal(m).last() != decimal(n).last());
        } else {
            assert(m / 10 != n / 10) by {
                vstd::arithmetic::div_mod::lemma_fundamental_div_mod(m as int, 10);
                vstd::arithmetic::div_mod::lemma_fundamental_div_mod(n as int, 10);
            }
            lemma_decimal_injective(m / 10, n / 10);
            if decimal(m) == decimal(n) {
                assert(decimal(m).drop_last() == decimal(m / 10));
                assert(decimal(n).drop_last() == decimal(n / 10));
            }
        }
    }
}

/// The managed path the work directory mints for allocation index `n`.
pub open spec fn minted_path(base: Seq<u8>, n: nat) -> Seq<u8> {
    base + seq![SEPARATOR] + decimal(n)
}

/// A minted path lies strictly inside the allocator's directory.
pub proof fn lemma_minted_path_under_base(base: Seq<u8>, n: nat)
    ensures
        is_under(minted_path(base, n), base),
        minted_path(base, n) != base,
{
    lemma_decimal_digits(n);
    let t = minted_path(base, n);
    assert(t.subrange(0, base.len() as int) =~= base);
    assert(t[base.len() as int] == SEPARATOR);
}

/// Distinct allocation indices mint distinct paths under one base: the
/// work directory never hands the same managed path out twice.
pub proof fn lemma_minted_paths_distinct(base: Seq<u8>, m: nat, n: nat)
    requires
        m != n,
    ensures
        minted_path(base, m) != minted_path(base, n),
{
    lemma_decimal_injective(m, n);
    let s = minted_path(base, m);
    let t = minted_path(base, n);
    if s == t {
        assert(decimal(m) =~= s.subrange(base.len() as int + 1, s.len() as int));
        assert(decimal(n) =~= t.subrange(base.len() as int + 1, t.len() as int));
    }
}

/// The worker's work-directory allocator: the one authority able to mint
/// fresh managed paths for relocated data. Each call hands out the path for
/// the next allocation index, so no two calls ever return the same path.
pub struct WorkDir {
    /// Absolute path of the directory this allocator owns.
    base: Vec<u8>,
    /// The index the next minted path will carry.
    next_index: u64,
}

impl WorkDir {
    /// The directory under which every minted path lies.
    pub closed spec fn spec_base(self) -> Seq<u8> {
        self.base@
    }

    /// The index the next minted path will carry.
    pub closed spec fn spec_next_index(self) -> nat {
        self.next_index as nat
    }

    /// A fresh allocator over the given directory.
    pub fn new(base: Vec<u8>) -> (w: WorkDir)
        ensures
            w.spec_base() == base@,
            w.spec_next_index() == 0,
    {
        WorkDir { base, next_index: 0 }
    }

    /// A copy of the directory path this allocator owns.
    pub fn base_path(&self) -> (p: Vec<u8>)
        ensures
            p@ == self.spec_base(),
    {
        bytes_clone(&self.base)
    }

    /// Whether another path can still be minted: the allocation index has
    /// not reached its ceiling.
    pub fn can_mint(&self) -> (r: bool)
        ensures
            r == (self.spec_next_index() < u64::MAX),
    {
        self.next_index < u64::MAX
    }

    /// Mints the managed path for the next data object and advances the
    /// allocator, so the same path is never handed out twice.
    pub fn new_path_for_dataobject(&mut self) -> (p: Vec<u8>)
        requires
            old(self).spec_next_index() < u64::MAX,
        ensures
            p@ == minted_path(old(self).spec_base(), old(self).spec_next_index()),
            final(self).spec_base() == old(self).spec_base(),
            final(self).spec_next_index() == old(self).spec_next_index() + 1,
    {
        let mut p = bytes_clone(&self.base);
        p.push(SEPARATOR);
        proof {
            assert(p@ =~= old(self).spec_base() + seq![SEPARATOR]);
        }
        push_decimal(self.next_index, &mut p);
        self.next_index = self.next_index + 1;
        p
    }
}

/// Appends the decimal digits of `n` to `out`.
fn push_decimal(n: u64, out: &mut Vec<u8>)
    ensures
        final(out)@ == old(out)@ + decimal(n as nat),
    decreases n,
{
    if n < 10 {
        out.push(48 + n as u8);
        proof {
            assert(out@ =~= old(out)@ + decimal(n as nat));
        }
    } else {
        push_decimal(n / 10, out);
        out.push(48 + (n % 10) as u8);
        proof {
            assert(out@ =~= old(out)@ + decimal(n as nat));
        }
    }
}

} // verus!
