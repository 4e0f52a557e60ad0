//! Pointer chains: a base address and a sequence of offsets, each step but
//! the last followed through a pointer stored in the host. Every access
//! goes through the guarded copies of [`HostMemory`], so an unmapped,
//! misaligned or null step surfaces as "no value" and never as a fault.

use vstd::prelude::*;
use vstd::arithmetic::div_mod::lemma_div_denominator;
use crate::memory::{bytes_at, cell_mapped, mapped, stored, HostMemory};

verus! {

/// The descriptor of a cell in the host: where the walk starts and the
/// byte offsets applied on the way.
#[derive(Debug)]
pub struct PointerChain {
    pub base: u64,
    pub offsets: Vec<u64>,
}

/// The mathematical form of a [`PointerChain`].
pub ghost struct ChainView {
    pub base: u64,
    pub offsets: Seq<u64>,
}

impl View for PointerChain {
    type V = ChainView;

    open spec fn view(&self) -> ChainView {
        ChainView { base: self.base, offsets: self.offsets@ }
    }
}

/// The number that eight bytes encode, least significant byte first.
pub open spec fn le64(b: Seq<u8>) -> int {
    b[0] + 0x100 * b[1] + 0x1_0000 * b[2] + 0x100_0000 * b[3] + 0x1_0000_0000 * b[4]
        + 0x100_0000_0000 * b[5] + 0x1_0000_0000_0000 * b[6] + 0x100_0000_0000_0000 * b[7]
}

/// The number that four bytes encode, least significant byte first.
pub open spec fn le32(b: Seq<u8>) -> int {
    b[0] + 0x100 * b[1] + 0x1_0000 * b[2] + 0x100_0000 * b[3]
}

/// The four bytes that encode `v`, least significant byte first.
pub open spec fn le32_bytes(v: u32) -> Seq<u8> {
    seq![
        (v % 0x100) as u8,
        (v / 0x100 % 0x100) as u8,
        (v / 0x1_0000 % 0x100) as u8,
        (v / 0x100_0000 % 0x100) as u8,
    ]
}

/// The eight bytes that encode `v`, least significant byte first.
pub open spec fn le64_bytes(v: u64) -> Seq<u8> {
    seq![
        (v % 0x100) as u8,
        (v / 0x100 % 0x100) as u8,
        (v / 0x1_0000 % 0x100) as u8,
        (v / 0x100_0000 % 0x100) as u8,
        (v / 0x1_0000_0000 % 0x100) as u8,
        (v / 0x100_0000_0000 % 0x100) as u8,
        (v / 0x1_0000_0000_0000 % 0x100) as u8,
        (v / 0x100_0000_0000_0000 % 0x100) as u8,
    ]
}

/// The pointer stored at `address`: the cell must be mapped and lie on an
/// 8-byte boundary.
pub open spec fn pointer_at(cells: Map<u64, u8>, address: int) -> Option<u64> {
    if address % 8 == 0 && mapped(cells, address, 8) {
        Some(le64(bytes_at(cells, address, 8)) as u64)
    } else {
        None
    }
}

/// The address reached from the cell at `at` by following the pointer
/// stored there and adding `offsets[k]`, and so on to the last offset.
/// A pointer that is null, unmapped or misaligned, or an address past the
/// end of the address space, ends the walk with `None`.
pub open spec fn walk(cells: Map<u64, u8>, at: u64, offsets: Seq<u64>, k: int) -> Option<u64>
    decreases offsets.len() - k,
{
    if k >= offsets.len() {
        Some(at)
    } else {
        match pointer_at(cells, at as int) {
            Some(p) => if p != 0 && p + offsets[k] <= u64::MAX {
                walk(cells, (p + offsets[k]) as u64, offsets, k + 1)
            } else {
                None
            },
            None => None,
        }
    }
}

/// The address of the cell that `chain` denotes in `cells`, if the chain
/// resolves: `base` itself for a chain without offsets, else the walk that
/// starts at `base + offsets[0]`.
pub open spec fn resolved(cells: Map<u64, u8>, chain: ChainView) -> Option<u64> {
    if chain.offsets.len() == 0 {
        Some(chain.base)
    } else if chain.base + chain.offsets[0] > u64::MAX {
        None
    } else {
        walk(cells, (chain.base + chain.offsets[0]) as u64, chain.offsets, 1)
    }
}

/// What a read of `len` bytes through `chain` yields.
pub open spec fn read_outcome(cells: Map<u64, u8>, chain: ChainView, len: int) -> Option<Seq<u8>> {
    match resolved(cells, chain) {
        Some(a) => if mapped(cells, a as int, len) {
            Some(bytes_at(cells, a as int, len))
        } else {
            None
        },
        None => None,
    }
}

/// The cells after a write of `data` through `chain`: unchanged where the
/// chain does not resolve or the target is not mapped.
pub open spec fn write_outcome(cells: Map<u64, u8>, chain: ChainView, data: Seq<u8>) -> Map<u64, u8> {
    match resolved(cells, chain) {
        Some(a) => if mapped(cells, a as int, data.len() as int) {
            stored(cells, a as int, data)
        } else {
            cells
        },
        None => cells,
    }
}

fn decode_le64(b: &Vec<u8>) -> (v: u64)
    requires
        b@.len() == 8,
    ensures
        v == le64(b@),
{
    let b0 = b[0] as u64;
    let b1 = b[1] as u64;
    let b2 = b[2] as u64;
    let b3 = b[3] as u64;
    let b4 = b[4] as u64;
    let b5 = b[5] as u64;
    let b6 = b[6] as u64;
    let b7 = b[7] as u64;
    b0 + 0x100 * b1 + 0x1_0000 * b2 + 0x100_0000 * b3 + 0x1_0000_0000 * b4 + 0x100_0000_0000 * b5
        + 0x1_0000_0000_0000 * b6 + 0x100_0000_0000_0000 * b7
}

fn decode_le32(b: &Vec<u8>) -> (v: u32)
    requires
        b@.len() == 4,
    ensures
        v == le32(b@),
{
    let b0 = b[0] as u32;
    let b1 = b[1] as u32;
    let b2 = b[2] as u32;
    let b3 = b[3] as u32;
    b0 + 0x100 * b1 + 0x1_0000 * b2 + 0x100_0000 * b3
}

fn encode_le32(v: u32) -> (b: Vec<u8>)
    ensures
        b@ == le32_bytes(v),
{
    let mut b: Vec<u8> = Vec::new();
    b.push((v % 0x100) as u8);
    b.push((v / 0x100 % 0x100) as u8);
    b.push((v / 0x1_0000 % 0x100) as u8);
    b.push((v / 0x100_0000 % 0x100) as u8);
    assert(b@ =~= le32_bytes(v));
    b
}

fn encode_le64(v: u64) -> (b: Vec<u8>)
    ensures
        b@ == le64_bytes(v),
{
    let mut b: Vec<u8> = Vec::new();
    b.push((v % 0x100) as u8);
    b.push((v / 0x100 % 0x100) as u8);
    b.push((v / 0x1_0000 % 0x100) as u8);
    b.push((v / 0x100_0000 % 0x100) as u8);
    b.push((v / 0x1_0000_0000 % 0x100) as u8);
    b.push((v / 0x100_0000_0000 % 0x100) as u8);
    b.push((v / 0x1_0000_0000_0000 % 0x100) as u8);
    b.push((v / 0x100_0000_0000_0000 % 0x100) as u8);
    assert(b@ =~= le64_bytes(v));
    b
}

fn load_pointer<M: HostMemory>(mem: &M, address: u64) -> (p: Option<u64>)
    ensures
        p == pointer_at(mem.cells(), address as int),
{
    if address % 8 != 0 {
        return None;
    }
    match mem.try_copy(address, 8) {
        Some(bytes) => Some(decode_le64(&bytes)),
        None => None,
    }
}

impl PointerChain {
    /// A chain from its base and offsets.
    pub fn new(base: u64, offsets: Vec<u64>) -> (chain: PointerChain)
        ensures
            chain@ == (ChainView { base, offsets: offsets@ }),
    {
        PointerChain { base, offsets }
    }

    /// Walks the chain and hands out the address of the cell, or `None`
    /// where a step cannot be taken.
    pub fn resolve<M: HostMemory>(&self, mem: &M) -> (address: Option<u64>)
        ensures
            address == resolved(mem.cells(), self@),
    {
        if self.offsets.len() == 0 {
            return Some(self.base);
        }
        let mut at = match self.base.checked_add(self.offsets[0]) {
            Some(a) => a,
            None => return None,
        };
        let mut k: usize = 1;
        while k < self.offsets.len()
            invariant
                1 <= k <= self.offsets.len(),
                resolved(mem.cells(), self@) == walk(mem.cells(), at, self.offsets@, k as int),
            decreases self.offsets.len() - k,
        {
            let p = match load_pointer(mem, at) {
                Some(p) => p,
                None => return None,
            };
            if p == 0 {
                return None;
            }
            at = match p.checked_add(self.offsets[k]) {
                Some(a) => a,
                None => return None,
            };
            k = k + 1;
        }
        Some(at)
    }

    /// Copies `len` bytes out of the cell.
    pub fn read_bytes<M: HostMemory>(&self, mem: &M, len: usize) -> (out: Option<Vec<u8>>)
        ensures
            match (out, read_outcome(mem.cells(), self@, len as int)) {
                (Some(data), Some(expected)) => data@ == expected,
                (None, None) => true,
                _ => false,
            },
    {
        match self.resolve(mem) {
            Some(a) => mem.try_copy(a, len),
            None => None,
        }
    }

    /// Copies `data` into the cell; does nothing where the chain does not
    /// resolve or the cell is not mapped.
    pub fn write_bytes<M: HostMemory>(&self, mem: &mut M, data: &[u8])
        ensures
            final(mem).cells() == write_outcome(old(mem).cells(), self@, data@),
    {
        match self.resolve(mem) {
            Some(a) => {
                let _ = mem.try_store(a, data);
            },
            None => {},
        }
    }

    /// Reads the cell as one byte.
    pub fn read_u8<M: HostMemory>(&self, mem: &M) -> (out: Option<u8>)
        ensures
            match (out, read_outcome(mem.cells(), self@, 1)) {
                (Some(v), Some(expected)) => v == expected[0],
                (None, None) => true,
                _ => false,
            },
    {
        match self.read_bytes(mem, 1) {
            Some(bytes) => Some(bytes[0]),
            None => None,
        }
    }

    /// Writes one byte to the cell.
    pub fn write_u8<M: HostMemory>(&self, mem: &mut M, value: u8)
        ensures
            final(mem).cells() == write_outcome(old(mem).cells(), self@, seq![value]),
    {
        let mut data: Vec<u8> = Vec::new();
        data.push(value);
        assert(data@ =~= seq![value]);
        self.write_bytes(mem, data.as_slice());
    }

    /// Reads the cell as a 32-bit number, least significant byte first.
    pub fn read_u32<M: HostMemory>(&self, mem: &M) -> (out: Option<u32>)
        ensures
            match (out, read_outcome(mem.cells(), self@, 4)) {
                (Some(v), Some(expected)) => v == le32(expected),
                (None, None) => true,
                _ => false,
            },
    {
        match self.read_bytes(mem, 4) {
            Some(bytes) => Some(decode_le32(&bytes)),
            None => None,
        }
    }

    /// Writes a 32-bit number to the cell, least significant byte first.
    pub fn write_u32<M: HostMemory>(&self, mem: &mut M, value: u32)
        ensures
            final(mem).cells() == write_outcome(old(mem).cells(), self@, le32_bytes(value)),
    {
        let data = encode_le32(value);
        self.write_bytes(mem, data.as_slice());
    }

    /// Reads the cell as a 64-bit number, least significant byte first.
    pub fn read_u64<M: HostMemory>(&self, mem: &M) -> (out: Option<u64>)
        ensures
            match (out, read_outcome(mem.cells(), self@, 8)) {
                (Some(v), Some(expected)) => v == le64(expected),
                (None, None) => true,
                _ => false,
            },
    {
        match self.read_bytes(mem, 8) {
            Some(bytes) => Some(decode_le64(&bytes)),
            None => None,
        }
    }

    /// Writes a 64-bit number to the cell, least significant byte first.
    pub fn write_u64<M: HostMemory>(&self, mem: &mut M, value: u64)
        ensures
            final(mem).cells() == write_outcome(old(mem).cells(), self@, le64_bytes(value)),
    {
        let data = encode_le64(value);
        self.write_bytes(mem, data.as_slice());
    }
}

proof fn lemma_walk_continues(cells: Map<u64, u8>, at: u64, offsets: Seq<u64>, k: int, j: int)
    requires
        1 <= k <= j <= offsets.len(),
    ensures
        walk(cells, at, offsets, k) == match walk(cells, at, offsets.take(j), k) {
            Some(a) => walk(cells, a, offsets, j),
            None => None,
        },
    decreases j - k,
{
    let head = offsets.take(j);
    if k < j {
        assert(head[k] == offsets[k]);
        match pointer_at(cells, at as int) {
            Some(p) => {
                if p != 0 && p + offsets[k] <= u64::MAX {
                    lemma_walk_continues(cells, (p + offsets[k]) as u64, offsets, k + 1, j);
                }
            },
            None => {},
        }
    }
}

/// The chain cut off after its first `j` offsets.
pub open spec fn chain_prefix(chain: ChainView, j: int) -> ChainView {
    ChainView { base: chain.base, offsets: chain.offsets.take(j) }
}

/// A chain with an intermediate cell that holds no usable pointer (a null
/// pointer, or a cell that is unmapped or misaligned) does not resolve: a
/// read through it yields nothing, whatever length is asked for, and a write
/// through it changes nothing.
pub proof fn lemma_null_intermediate_reads_none(
    cells: Map<u64, u8>,
    chain: ChainView,
    j: int,
    len: int,
    data: Seq<u8>,
)
    requires
        1 <= j < chain.offsets.len(),
        resolved(cells, chain_prefix(chain, j)) matches Some(a) && !(pointer_at(cells, a as int) matches Some(
            p,
        ) && p != 0),
    ensures
        resolved(cells, chain) is None,
        read_outcome(cells, chain, len) is None,
        write_outcome(cells, chain, data) == cells,
{
    let start = (chain.base + chain.offsets[0]) as u64;
    assert(chain.offsets.take(j)[0] == chain.offsets[0]);
    lemma_walk_continues(cells, start, chain.offsets, 1, j);
}

/// A chain that fails to resolve part of the way does not resolve as a
/// whole.
pub proof fn lemma_unresolved_prefix(cells: Map<u64, u8>, chain: ChainView, j: int)
    requires
        1 <= j <= chain.offsets.len(),
        resolved(cells, chain_prefix(chain, j)) is None,
    ensures
        resolved(cells, chain) is None,
{
    let start = (chain.base + chain.offsets[0]) as u64;
    assert(chain.offsets.take(j)[0] == chain.offsets[0]);
    if chain.base + chain.offsets[0] <= u64::MAX {
        lemma_walk_continues(cells, start, chain.offsets, 1, j);
    }
}

/// Reading back what was just written yields it, provided the chain
/// resolves to a mapped cell and the write has not redirected the chain
/// itself.
pub proof fn lemma_read_after_write(cells: Map<u64, u8>, chain: ChainView, data: Seq<u8>)
    requires
        resolved(cells, chain) matches Some(a) && mapped(cells, a as int, data.len() as int),
        resolved(write_outcome(cells, chain, data), chain) == resolved(cells, chain),
    ensures
        read_outcome(write_outcome(cells, chain, data), chain, data.len() as int) == Some(data),
{
    let a = resolved(cells, chain)->Some_0;
    let n = data.len() as int;
    let after = stored(cells, a as int, data);
    assert(write_outcome(cells, chain, data) == after);
    assert forall|i: int| 0 <= i < n implies #[trigger] cell_mapped(after, a as int + i) by {
        assert(cell_mapped(cells, a as int + i));
    }
    assert(mapped(after, a as int, n));
    assert forall|i: int| 0 <= i < n implies bytes_at(after, a as int, n)[i] == data[i] by {
        assert(cell_mapped(cells, a as int + i));
    }
    assert(bytes_at(after, a as int, n) =~= data);
}

/// A chain of at most one offset names a fixed address: no write can
/// redirect it.
pub proof fn lemma_flat_chain_is_stable(before: Map<u64, u8>, after: Map<u64, u8>, chain: ChainView)
    requires
        chain.offsets.len() <= 1,
    ensures
        resolved(before, chain) == resolved(after, chain),
{
}

/// The eight bytes of a number decode to that number.
pub proof fn lemma_le64_round_trip(v: u64)
    ensures
        le64(le64_bytes(v)) == v,
{
    let q0 = v as int;
    let q1 = q0 / 0x100;
    let q2 = q1 / 0x100;
    let q3 = q2 / 0x100;
    let q4 = q3 / 0x100;
    let q5 = q4 / 0x100;
    let q6 = q5 / 0x100;
    let q7 = q6 / 0x100;
    lemma_div_denominator(q0, 0x100, 0x100);
    lemma_div_denominator(q0, 0x1_0000, 0x100);
    lemma_div_denominator(q0, 0x100_0000, 0x100);
    lemma_div_denominator(q0, 0x1_0000_0000, 0x100);
    lemma_div_denominator(q0, 0x100_0000_0000, 0x100);
    lemma_div_denominator(q0, 0x1_0000_0000_0000, 0x100);
    assert(q2 == q0 / 0x1_0000);
    assert(q3 == q0 / 0x100_0000);
    assert(q4 == q0 / 0x1_0000_0000);
    assert(q5 == q0 / 0x100_0000_0000);
    assert(q6 == q0 / 0x1_0000_0000_0000);
    assert(q7 == q0 / 0x100_0000_0000_0000);
    assert(q7 < 0x100);
    let b = le64_bytes(v);
    assert(b[0] == q0 % 0x100);
    assert(b[1] == q1 % 0x100);
    assert(b[2] == q2 % 0x100);
    assert(b[3] == q3 % 0x100);
    assert(b[4] == q4 % 0x100);
    assert(b[5] == q5 % 0x100);
    assert(b[6] == q6 % 0x100);
    assert(b[7] == q7);
    assert(q0 == 0x100 * q1 + b[0]);
    assert(q1 == 0x100 * q2 + b[1]);
    assert(q2 == 0x100 * q3 + b[2]);
    assert(q3 == 0x100 * q4 + b[3]);
    assert(q4 == 0x100 * q5 + b[4]);
    assert(q5 == 0x100 * q6 + b[5]);
    assert(q6 == 0x100 * q7 + b[6]);
}

/// A number written through a chain is the number read back through it,
/// provided the chain resolves to a mapped cell and the write has not
/// redirected the chain itself.
pub proof fn lemma_u32_read_after_write(cells: Map<u64, u8>, chain: ChainView, v: u32)
    requires
        resolved(cells, chain) matches Some(a) && mapped(cells, a as int, 4),
        resolved(write_outcome(cells, chain, le32_bytes(v)), chain) == resolved(cells, chain),
    ensures
        read_outcome(write_outcome(cells, chain, le32_bytes(v)), chain, 4) matches Some(b) && le32(b)
            == v,
{
    lemma_read_after_write(cells, chain, le32_bytes(v));
    lemma_le32_round_trip(v);
}

/// The four bytes of a number decode to that number.
pub proof fn lemma_le32_round_trip(v: u32)
    ensures
        le32(le32_bytes(v)) == v,
{
}

} // verus!
