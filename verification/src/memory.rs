//! The host's memory as the overlay sees it: a partial map from addresses
//! to bytes, reached only through a guarded copy in and a guarded copy out.

use vstd::prelude::*;

verus! {

/// Whether `address` is an address of the host and is mapped.
pub open spec fn cell_mapped(cells: Map<u64, u8>, address: int) -> bool {
    0 <= address <= u64::MAX && cells.dom().contains(address as u64)
}

/// Whether the `len` bytes from `address` on are all mapped.
pub open spec fn mapped(cells: Map<u64, u8>, address: int, len: int) -> bool {
    forall|i: int| 0 <= i < len ==> #[trigger] cell_mapped(cells, address + i)
}

/// The `len` bytes from `address` on.
pub open spec fn bytes_at(cells: Map<u64, u8>, address: int, len: int) -> Seq<u8> {
    Seq::new(len as nat, |i: int| cells[(address + i) as u64])
}

/// The cells after `data` has been copied in at `address`.
pub open spec fn stored(cells: Map<u64, u8>, address: int, data: Seq<u8>) -> Map<u64, u8> {
    Map::new(
        |a: u64| cells.dom().contains(a),
        |a: u64| if address <= a < address + data.len() {
            data[a - address]
        } else {
            cells[a]
        },
    )
}

/// A memory that can be read and written without faulting. The overlay
/// builds every access to the host on these two operations.
pub trait HostMemory {
    /// The mapped cells and what they hold.
    spec fn cells(&self) -> Map<u64, u8>;

    /// Copies `len` bytes out, or reports that some of them are not mapped.
    fn try_copy(&self, address: u64, len: usize) -> (out: Option<Vec<u8>>)
        ensures
            match out {
                Some(data) => mapped(self.cells(), address as int, len as int) && data@ == bytes_at(
                    self.cells(),
                    address as int,
                    len as int,
                ),
                None => !mapped(self.cells(), address as int, len as int),
            },
    ;

    /// Copies `data` in; where some target byte is not mapped, nothing is
    /// written and `false` comes back.
    fn try_store(&mut self, address: u64, data: &[u8]) -> (done: bool)
        ensures
            done == mapped(old(self).cells(), address as int, data@.len() as int),
            done ==> final(self).cells() == stored(old(self).cells(), address as int, data@),
            !done ==> final(self).cells() == old(self).cells(),
    ;
}

/// One contiguous mapped region: a snapshot of host memory, or a stand-in
/// for it.
#[derive(Debug)]
pub struct MemoryImage {
    pub base: u64,
    pub data: Vec<u8>,
}

/// The cells of a region that starts at `base` and holds `data`.
pub open spec fn image_cells(base: u64, data: Seq<u8>) -> Map<u64, u8> {
    Map::new(|a: u64| base <= a && a - base < data.len(), |a: u64| data[a - base])
}

impl MemoryImage {
    /// A region that starts at `base` and holds `data`.
    pub fn new(base: u64, data: Vec<u8>) -> (image: MemoryImage)
        ensures
            image.base == base,
            image.data@ == data@,
    {
        MemoryImage { base, data }
    }

    fn covers(&self, address: u64, len: usize) -> (inside: bool)
        ensures
            inside == mapped(self.cells(), address as int, len as int),
            inside && len > 0 ==> self.base <= address && address - self.base + len
                <= self.data@.len() && address + len - 1 <= u64::MAX,
    {
        if len == 0 {
            return true;
        }
        let size = self.data.len() as u64;
        if (len - 1) as u64 > u64::MAX - address {
            assert(!mapped(self.cells(), address as int, len as int)) by {
                let last = len - 1;
                assert(!cell_mapped(self.cells(), address + last));
            }
            return false;
        }
        if address < self.base {
            assert(!cell_mapped(self.cells(), address + 0));
            return false;
        }
        let start = address - self.base;
        if start >= size || size - start < len as u64 {
            proof {
                if start >= size {
                    assert(!cell_mapped(self.cells(), address + 0));
                } else {
                    let last = len - 1;
                    assert(!cell_mapped(self.cells(), address + last));
                }
            }
            return false;
        }
        true
    }
}

impl HostMemory for MemoryImage {
    open spec fn cells(&self) -> Map<u64, u8> {
        image_cells(self.base, self.data@)
    }

    fn try_copy(&self, address: u64, len: usize) -> (out: Option<Vec<u8>>) {
        if !self.covers(address, len) {
            return None;
        }
        let mut out: Vec<u8> = Vec::new();
        let mut i: usize = 0;
        assert(self.data.len() <= usize::MAX);
        while i < len
            invariant
                i <= len,
                len > 0 ==> self.base <= address && address - self.base + len <= self.data@.len()
                    && address + len - 1 <= u64::MAX,
                self.data@.len() <= usize::MAX,
                out@.len() == i,
                forall|j: int| 0 <= j < i ==> out@[j] == self.cells()[(address + j) as u64],
            decreases len - i,
        {
            let at = (address - self.base) as usize + i;
            out.push(self.data[at]);
            i = i + 1;
        }
        assert(out@ =~= bytes_at(self.cells(), address as int, len as int));
        Some(out)
    }

    fn try_store(&mut self, address: u64, data: &[u8]) -> (done: bool) {
        if !self.covers(address, data.len()) {
            return false;
        }
        let mut i: usize = 0;
        let ghost before = self.data@;
        assert(self.data.len() <= usize::MAX);
        while i < data.len()
            invariant
                i <= data@.len(),
                self.base == old(self).base,
                before == old(self).data@,
                data@.len() > 0 ==> self.base <= address && address - self.base + data@.len()
                    <= before.len() && address + data@.len() - 1 <= u64::MAX,
                before.len() <= usize::MAX,
                self.data@.len() == before.len(),
                forall|k: int|
                    0 <= k < before.len() ==> self.data@[k] == (if address - self.base <= k < address
                        - self.base + i {
                        data@[k - (address - self.base)]
                    } else {
                        before[k]
                    }),
            decreases data@.len() - i,
        {
            let at = (address - self.base) as usize + i;
            self.data.set(at, data[i]);
            i = i + 1;
        }
        assert(self.cells() =~= stored(old(self).cells(), address as int, data@));
        true
    }
}

} // verus!
