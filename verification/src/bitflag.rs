//! Bit flags: one boolean held in some bits of a byte that a pointer chain
//! leads to.

use vstd::prelude::*;
use crate::memory::{bytes_at, cell_mapped, mapped, stored, HostMemory};
use crate::pointer_chain::{read_outcome, resolved, write_outcome, ChainView, PointerChain};

verus! {

/// A boolean cell: the byte `chain` leads to, and the bits of it that
/// carry the flag.
#[derive(Debug)]
pub struct Bitflag {
    pub chain: PointerChain,
    pub mask: u8,
}

/// The mathematical form of a [`Bitflag`].
pub ghost struct BitflagView {
    pub chain: ChainView,
    pub mask: u8,
}

impl View for Bitflag {
    type V = BitflagView;

    open spec fn view(&self) -> BitflagView {
        BitflagView { chain: self.chain@, mask: self.mask }
    }
}

/// Whether the flag is on, where its byte can be read.
pub open spec fn flag_state(cells: Map<u64, u8>, flag: BitflagView) -> Option<bool> {
    match read_outcome(cells, flag.chain, 1) {
        Some(b) => Some(b[0] & flag.mask != 0),
        None => None,
    }
}

/// The cells after the flag's bits have been flipped; unchanged where the
/// byte cannot be read.
pub open spec fn toggled(cells: Map<u64, u8>, flag: BitflagView) -> Map<u64, u8> {
    match read_outcome(cells, flag.chain, 1) {
        Some(b) => write_outcome(cells, flag.chain, seq![b[0] ^ flag.mask]),
        None => cells,
    }
}

/// The cells after the flag has been switched on or off; unchanged where
/// the byte cannot be read.
pub open spec fn switched(cells: Map<u64, u8>, flag: BitflagView, on: bool) -> Map<u64, u8> {
    match read_outcome(cells, flag.chain, 1) {
        Some(b) => write_outcome(
            cells,
            flag.chain,
            seq![if on {
                b[0] | flag.mask
            } else {
                b[0] & !flag.mask
            }],
        ),
        None => cells,
    }
}

impl Bitflag {
    /// A flag from its chain and mask.
    pub fn new(chain: PointerChain, mask: u8) -> (flag: Bitflag)
        ensures
            flag@ == (BitflagView { chain: chain@, mask }),
    {
        Bitflag { chain, mask }
    }

    /// Whether the flag is on; `None` where its byte cannot be read.
    pub fn get<M: HostMemory>(&self, mem: &M) -> (state: Option<bool>)
        ensures
            state == flag_state(mem.cells(), self@),
    {
        match self.chain.read_u8(mem) {
            Some(b) => Some(b & self.mask != 0),
            None => None,
        }
    }

    /// Switches the flag on or off, leaving the other bits of the byte.
    pub fn set<M: HostMemory>(&self, mem: &mut M, on: bool)
        ensures
            final(mem).cells() == switched(old(mem).cells(), self@, on),
    {
        match self.chain.read_u8(mem) {
            Some(b) => {
                let next = if on {
                    b | self.mask
                } else {
                    b & !self.mask
                };
                self.chain.write_u8(mem, next);
            },
            None => {},
        }
    }

    /// Flips the flag: reads the byte, exclusive-ors the mask in, writes it
    /// back.
    pub fn toggle<M: HostMemory>(&self, mem: &mut M)
        ensures
            final(mem).cells() == toggled(old(mem).cells(), self@),
    {
        match self.chain.read_u8(mem) {
            Some(b) => {
                self.chain.write_u8(mem, b ^ self.mask);
            },
            None => {},
        }
    }
}

proof fn lemma_store_one(cells: Map<u64, u8>, a: u64, v: u8)
    requires
        cells.dom().contains(a),
    ensures
        mapped(cells, a as int, 1),
        mapped(stored(cells, a as int, seq![v]), a as int, 1),
        bytes_at(stored(cells, a as int, seq![v]), a as int, 1)[0] == v,
        stored(cells, a as int, seq![v]) =~= cells.insert(a, v),
{
    assert forall|i: int| 0 <= i < 1 implies #[trigger] cell_mapped(cells, a as int + i) by {}
    let after = stored(cells, a as int, seq![v]);
    assert forall|i: int| 0 <= i < 1 implies #[trigger] cell_mapped(after, a as int + i) by {}
}

/// Toggling twice brings the host's memory, and with it the flag, back to
/// where it was, provided nothing else writes in between and the first
/// toggle has not redirected the flag's own chain.
pub proof fn lemma_toggle_twice(cells: Map<u64, u8>, flag: BitflagView)
    requires
        resolved(toggled(cells, flag), flag.chain) == resolved(cells, flag.chain),
    ensures
        toggled(toggled(cells, flag), flag) == cells,
        flag_state(toggled(toggled(cells, flag), flag), flag) == flag_state(cells, flag),
{
    match read_outcome(cells, flag.chain, 1) {
        Some(b) => {
            let a = resolved(cells, flag.chain)->Some_0;
            let m = flag.mask;
            let x = b[0];
            assert(cell_mapped(cells, a as int + 0));
            assert(x == cells[a]);
            lemma_store_one(cells, a, x ^ m);
            let once = stored(cells, a as int, seq![x ^ m]);
            assert(toggled(cells, flag) == once);
            assert(read_outcome(once, flag.chain, 1) is Some);
            let y = read_outcome(once, flag.chain, 1)->Some_0[0];
            assert(y == x ^ m);
            lemma_store_one(once, a, y ^ m);
            assert((x ^ m) ^ m == x) by (bit_vector);
            assert(toggled(once, flag) =~= cells);
        },
        None => {},
    }
}

/// After the flag has been switched, it reads as it was set, provided its
/// mask is not empty, its byte can be read and the write has not
/// redirected the flag's own chain.
pub proof fn lemma_switch_then_get(cells: Map<u64, u8>, flag: BitflagView, on: bool)
    requires
        flag.mask != 0,
        flag_state(cells, flag) is Some,
        resolved(switched(cells, flag, on), flag.chain) == resolved(cells, flag.chain),
    ensures
        flag_state(switched(cells, flag, on), flag) == Some(on),
{
    let b = read_outcome(cells, flag.chain, 1)->Some_0;
    let a = resolved(cells, flag.chain)->Some_0;
    let m = flag.mask;
    let x = b[0];
    assert(cell_mapped(cells, a as int + 0));
    let next = if on {
        x | m
    } else {
        x & !m
    };
    lemma_store_one(cells, a, next);
    assert(m != 0 ==> (x | m) & m != 0) by (bit_vector);
    assert((x & !m) & m == 0) by (bit_vector);
}

} // verus!
