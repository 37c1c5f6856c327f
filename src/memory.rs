//! Sparse byte-addressable memory. A byte exists only after a region holding it
//! was initialized; reading or writing any other byte is an error.

use vstd::prelude::*;
use std::collections::HashMap;
use crate::errors::{AxError, ErrorKind};
use vstd::arithmetic::div_mod::lemma_div_denominator;

verus! {

broadcast use vstd::std_specs::hash::group_hash_axioms;

/// `256^k`.
pub open spec fn pow256(k: nat) -> int
    decreases k,
{
    if k == 0 {
        1
    } else {
        256 * pow256((k - 1) as nat)
    }
}

/// The little-endian value of a byte sequence.
pub open spec fn le_value(bs: Seq<u8>) -> int
    decreases bs.len(),
{
    if bs.len() == 0 {
        0
    } else {
        bs[0] + 256 * le_value(bs.subrange(1, bs.len() as int))
    }
}

/// Byte `k` of `v` in little-endian order.
pub open spec fn le_byte(v: u64, k: nat) -> u8 {
    ((v as int / pow256(k)) % 256) as u8
}

proof fn lemma_pow256_positive(k: nat)
    ensures
        pow256(k) > 0,
    decreases k,
{
    if k > 0 {
        lemma_pow256_positive((k - 1) as nat);
    }
}

proof fn lemma_pow256_le_8(k: nat)
    requires
        k <= 8,
    ensures
        pow256(k) <= 0x1_0000_0000_0000_0000,
{
    reveal_with_fuel(pow256, 9);
}

pub proof fn lemma_le_value_bound(bs: Seq<u8>)
    ensures
        0 <= le_value(bs) < pow256(bs.len()),
    decreases bs.len(),
{
    if bs.len() > 0 {
        let rest = bs.subrange(1, bs.len() as int);
        lemma_le_value_bound(rest);
        assert(pow256(bs.len()) == 256 * pow256(rest.len()));
        assert(le_value(bs) == bs[0] + 256 * le_value(rest));
        assert(bs[0] + 256 * le_value(rest) < 256 * pow256(rest.len())) by (nonlinear_arith)
            requires
                0 <= bs[0] < 256,
                0 <= le_value(rest) < pow256(rest.len()),
        ;
    }
}

/// The emulated memory.
pub struct Memory {
    bytes: HashMap<u64, u8>,
}

impl View for Memory {
    type V = Map<u64, u8>;

    closed spec fn view(&self) -> Map<u64, u8> {
        self.bytes@
    }
}

impl Memory {
    /// True when every byte of `[addr, addr + n)` lies below `2^64` and is initialized.
    pub open spec fn covers(self, addr: int, n: nat) -> bool {
        &&& addr + n <= 0x1_0000_0000_0000_0000
        &&& forall|k: int| 0 <= k < n ==> #[trigger] self@.contains_key((addr + k) as u64)
    }

    /// The `n` bytes at `addr`, lowest address first.
    pub open spec fn bytes_at(self, addr: int, n: nat) -> Seq<u8> {
        Seq::new(n, |k: int| self@[(addr + k) as u64])
    }

    /// Memory with nothing initialized.
    pub fn new() -> (m: Memory)
        ensures
            m@ == Map::<u64, u8>::empty(),
    {
        Memory { bytes: HashMap::new() }
    }

    /// Marks `[start, start + len)` as initialized and zero. Fails, changing nothing,
    /// when the range runs past the end of the address space.
    pub fn init_region(&mut self, start: u64, len: u64) -> (r: Result<(), AxError>)
        ensures
            r is Ok <==> start + len <= 0x1_0000_0000_0000_0000,
            r is Ok ==> forall|a: u64|
                #[trigger] final(self)@.contains_key(a) <==> (old(self)@.contains_key(a) || (
                start <= a < start + len)),
            r is Ok ==> forall|a: u64| #[trigger]
                final(self)@.contains_key(a) ==> final(self)@[a] == if start <= a < start + len {
                    0u8
                } else {
                    old(self)@[a]
                },
            r is Err ==> final(self)@ == old(self)@ && r->Err_0.kind == ErrorKind::InvalidRegion
                && !r->Err_0.signals_normal_finish,
    {
        if len > 0 && len - 1 > u64::MAX - start {
            return Err(
                AxError::new(ErrorKind::InvalidRegion, "memory region exceeds the address space"),
            );
        }
        let mut k: u64 = 0;
        while k < len
            invariant
                k <= len,
                start + len <= 0x1_0000_0000_0000_0000,
                forall|a: u64|
                    #[trigger] self@.contains_key(a) <==> (old(self)@.contains_key(a) || (start <= a
                        < start + k)),
                forall|a: u64| #[trigger]
                    self@.contains_key(a) ==> self@[a] == if start <= a < start + k {
                        0u8
                    } else {
                        old(self)@[a]
                    },
            decreases len - k,
        {
            let ghost prev = self@;
            self.bytes.insert(start + k, 0u8);
            assert(self@ == prev.insert((start + k) as u64, 0u8));
            k = k + 1;
        }
        Ok(())
    }

    /// Whether every byte of `[addr, addr + n)` is initialized.
    pub fn is_covered(&self, addr: u64, n: usize) -> (r: bool)
        ensures
            r == self.covers(addr as int, n as nat),
    {
        let mut k: usize = 0;
        while k < n
            invariant
                k <= n,
                addr + k <= 0x1_0000_0000_0000_0000,
                forall|j: int| 0 <= j < k ==> #[trigger] self@.contains_key((addr + j) as u64),
            decreases n - k,
        {
            if k as u64 > u64::MAX - addr || !self.bytes.contains_key(&(addr + k as u64)) {
                assert(addr + k > u64::MAX || !self@.contains_key((addr + k) as u64));
                return false;
            }
            k = k + 1;
        }
        true
    }

    /// Writes the low `n` bytes of `v` at `addr`, little-endian. Fails, changing
    /// nothing, when a byte of the range is not initialized.
    pub fn write(&mut self, addr: u64, n: usize, v: u64) -> (r: Result<(), AxError>)
        requires
            1 <= n <= 8,
        ensures
            r is Ok <==> old(self).covers(addr as int, n as nat),
            r is Ok ==> final(self)@.dom() == old(self)@.dom(),
            r is Ok ==> forall|a: u64| #[trigger]
                final(self)@[a] == if addr <= a < addr + n {
                    le_byte(v, (a - addr) as nat)
                } else {
                    old(self)@[a]
                },
            r is Err ==> final(self)@ == old(self)@ && r->Err_0.kind
                == ErrorKind::UninitializedAccess && !r->Err_0.signals_normal_finish,
    {
        if !self.is_covered(addr, n) {
            return Err(
                AxError::new(ErrorKind::UninitializedAccess, "access to uninitialized memory"),
            );
        }
        let mut x: u64 = v;
        let mut k: usize = 0;
        while k < n
            invariant
                k <= n <= 8,
                old(self).covers(addr as int, n as nat),
                self@.dom() == old(self)@.dom(),
                x as int == v as int / pow256(k as nat),
                forall|a: u64| #[trigger]
                    self@[a] == if addr <= a < addr + k {
                        le_byte(v, (a - addr) as nat)
                    } else {
                        old(self)@[a]
                    },
            decreases n - k,
        {
            proof {
                lemma_pow256_positive(k as nat);
                lemma_div_denominator(v as int, pow256(k as nat), 256);
                assert(self@.contains_key((addr + k) as u64));
            }
            self.bytes.insert(addr + k as u64, (x % 256) as u8);
            x = x / 256;
            k = k + 1;
            assert(self@.dom() =~= old(self)@.dom());
        }
        Ok(())
    }

    /// Reads the `n`-byte little-endian value at `addr`.
    pub fn read(&self, addr: u64, n: usize) -> (r: Result<u64, AxError>)
        requires
            1 <= n <= 8,
        ensures
            r is Ok <==> self.covers(addr as int, n as nat),
            r is Ok ==> r->Ok_0 as int == le_value(self.bytes_at(addr as int, n as nat)),
            r is Err ==> r->Err_0.kind == ErrorKind::UninitializedAccess
                && !r->Err_0.signals_normal_finish,
    {
        if !self.is_covered(addr, n) {
            return Err(
                AxError::new(ErrorKind::UninitializedAccess, "access to uninitialized memory"),
            );
        }
        let ghost bs = self.bytes_at(addr as int, n as nat);
        let mut v: u64 = 0;
        let mut k: usize = n;
        while k > 0
            invariant
                k <= n <= 8,
                self.covers(addr as int, n as nat),
                bs == self.bytes_at(addr as int, n as nat),
                v as int == le_value(bs.subrange(k as int, n as int)),
            decreases k,
        {
            let b = *self.bytes.get(&(addr + (k - 1) as u64)).unwrap();
            proof {
                let tail = bs.subrange(k as int, n as int);
                let longer = bs.subrange(k - 1, n as int);
                assert(longer.subrange(1, longer.len() as int) =~= tail);
                assert(b == bs[k - 1]);
                lemma_le_value_bound(tail);
                lemma_pow256_le_8((n - k) as nat);
                assert(le_value(longer) == b + 256 * le_value(tail));
                lemma_le_value_bound(longer);
                lemma_pow256_le_8((n - k + 1) as nat);
            }
            v = v * 256 + b as u64;
            k = k - 1;
        }
        assert(bs.subrange(0, n as int) =~= bs);
        Ok(v)
    }
}

} // verus!
