//! Pages: the fixed-size, aligned snapshots of file bytes that the cache holds.

use vstd::prelude::*;

verus! {

/// Number of bytes in a page.
pub const BUFFER_SIZE: usize = 256;

/// Number of bytes in a page, as a file offset.
pub const BUFFER_SIZE_U64: u64 = 256;

/// Number of bytes shown on one line of the dump.
pub const LINE_SIZE: u64 = 10;

/// Identifier of the page that covers `address`.
pub open spec fn page_id_of(address: int) -> int {
    address / 256
}

/// Absolute offset of the first byte of the page that covers `address`.
pub open spec fn page_start_of(address: int) -> int {
    page_id_of(address) * 256
}

/// The contents of a page read from `data`: the bytes that were read, followed
/// by zeroes up to the page size. Bytes in `data` beyond the page size are left out.
pub open spec fn zero_filled(data: Seq<u8>) -> Seq<u8> {
    Seq::new(
        256,
        |i: int|
            if i < data.len() {
                data[i]
            } else {
                0u8
            },
    )
}

/// A snapshot of 256 contiguous file bytes.
pub struct SedecimFilePage {
    pub page_id: u64,
    pub page_start: u64,
    pub loaded: bool,
    pub buffer: [u8; BUFFER_SIZE],
}

impl SedecimFilePage {
    /// A page is well formed when its start is its identifier times the page size.
    pub open spec fn wf(&self) -> bool {
        self.page_start == self.page_id * 256
    }

    /// An empty page: identifier 0, not loaded, all bytes zero.
    pub fn new() -> (page: SedecimFilePage)
        ensures
            page.page_id == 0,
            page.page_start == 0,
            !page.loaded,
            page.buffer@ == zero_filled(Seq::empty()),
            page.wf(),
    {
        let page_id: u64 = 0;
        let page_start: u64 = 0;
        let loaded = false;
        let buffer: [u8; BUFFER_SIZE] = [0; BUFFER_SIZE];
        Self { page_id, page_start, loaded, buffer }
    }

    /// Identifier of the page that covers `address`.
    pub fn get_page(address: u64) -> (id: u64)
        ensures
            id == page_id_of(address as int),
    {
        address / BUFFER_SIZE_U64
    }

    /// The page that covers `address`, filled with the bytes that were read
    /// from the start of that page. A short read is padded with zeroes; bytes
    /// beyond the page size are dropped.
    pub fn load(address: u64, data: &[u8]) -> (page: SedecimFilePage)
        ensures
            page.page_id == page_id_of(address as int),
            page.page_start == page_start_of(address as int),
            page.loaded,
            page.buffer@ == zero_filled(data@),
            page.wf(),
    {
        let mut page = SedecimFilePage::new();
        page.loaded = true;
        page.page_id = SedecimFilePage::get_page(address);
        page.page_start = address - (address % BUFFER_SIZE_U64);
        let count: usize = if data.len() < BUFFER_SIZE {
            data.len()
        } else {
            BUFFER_SIZE
        };
        let mut i: usize = 0;
        while i < count
            invariant
                i <= count,
                count <= data@.len(),
                count <= 256,
                page.page_id == page_id_of(address as int),
                page.page_start == page_start_of(address as int),
                page.loaded,
                forall|j: int| 0 <= j < i ==> page.buffer@[j] == data@[j],
                forall|j: int| i <= j < 256 ==> page.buffer@[j] == 0u8,
            decreases count - i,
        {
            page.buffer[i] = data[i];
            i = i + 1;
        }
        page
    }
}

} // verus!
