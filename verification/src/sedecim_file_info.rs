//! The file window: the current view offset, the last observed file size, and
//! the cache of pages that serves bytes by absolute offset.
//!
//! The window never touches the file itself. Where a page is wanted and not
//! cached, the window says which one; whoever drives the viewer reads it and
//! hands the bytes in with [`SedecimFileInfo::insert_page`].

use crate::sedecim_file_page::{
    page_id_of,
    page_start_of,
    zero_filled,
    SedecimFilePage,
    BUFFER_SIZE_U64,
    LINE_SIZE,
};
use std::collections::HashMap;
use vstd::prelude::*;

verus! {

broadcast use vstd::std_specs::hash::group_hash_axioms;

/// The four ways to scroll the window.
#[derive(Clone, Copy, Debug, PartialEq, Eq, Structural)]
pub enum MoveValues {
    UpLine,
    DownLine,
    UpPage,
    DownPage,
}

/// The mathematical model of a file window.
pub struct WindowView {
    /// Path of the file.
    pub name: Seq<char>,
    /// Absolute offset of the first byte on screen.
    pub offset: int,
    /// Size of the file in bytes when it was last looked at.
    pub size: int,
    /// The cached pages: page identifier to the 256 bytes of the page.
    pub pages: Map<int, Seq<u8>>,
}

impl WindowView {
    /// Offsets and sizes fit the machine, and every cached page has an
    /// identifier that some offset maps to, and exactly 256 bytes.
    pub open spec fn wf(self) -> bool {
        &&& 0 <= self.offset <= u64::MAX
        &&& 0 <= self.size <= u64::MAX
        &&& forall|id: int| #[trigger]
            self.pages.contains_key(id) ==> 0 <= id <= page_id_of(u64::MAX as int)
                && self.pages[id].len() == 256
    }

    /// The window of a file that has not been looked at yet: offset 0, size 0,
    /// nothing cached.
    pub open spec fn unopened(name: Seq<char>) -> WindowView {
        WindowView { name, offset: 0, size: 0, pages: Map::empty() }
    }

    /// The view offset lies within the file.
    pub open spec fn in_bounds(self) -> bool {
        0 <= self.offset <= self.size
    }

    /// The view offset is a multiple of the line width.
    pub open spec fn aligned(self) -> bool {
        self.offset % 10 == 0
    }

    /// Whether the page that covers `address` is in the cache.
    pub open spec fn cached(self, address: int) -> bool {
        self.pages.contains_key(page_id_of(address))
    }

    /// The byte at `address` as the window serves it: the byte of the cached
    /// page that covers the address, and zero where no such page is cached.
    pub open spec fn byte_at(self, address: int) -> u8 {
        if self.cached(address) {
            self.pages[page_id_of(address)][address % 256]
        } else {
            0u8
        }
    }

    /// The page to read so that `address` is covered: the start of its page
    /// if that page is not cached, nothing if it is.
    pub open spec fn request(self, address: int) -> Option<u64> {
        if self.cached(address) {
            None
        } else {
            Some(page_start_of(address) as u64)
        }
    }

    /// The page to read so that the first byte on screen is covered.
    pub open spec fn warm_request(self) -> Option<u64> {
        self.request(self.offset)
    }

    /// The window after its offset was set to `address`, clamped to the file size.
    pub open spec fn moved_to(self, address: int) -> WindowView {
        WindowView {
            offset: if address <= self.size {
                address
            } else {
                self.size
            },
            ..self
        }
    }

    /// Where a scroll takes the view offset, or `None` where the scroll is
    /// suppressed. Scrolling up stops at 0. Scrolling down is suppressed when
    /// it would pass the file size, also when the file is shorter than the step.
    pub open spec fn scroll_target(self, kind: MoveValues) -> Option<int> {
        match kind {
            MoveValues::UpLine => Some(
                if self.offset >= 10 {
                    self.offset - 10
                } else {
                    0
                },
            ),
            MoveValues::DownLine => if self.size >= 10 && self.offset <= self.size - 10 {
                Some(self.offset + 10)
            } else {
                None
            },
            MoveValues::UpPage => Some(
                if self.offset >= 256 {
                    self.offset - 256
                } else {
                    0
                },
            ),
            MoveValues::DownPage => if self.size >= 256 && self.offset <= self.size - 256 {
                Some(self.offset + 256)
            } else {
                None
            },
        }
    }

    /// The window after a scroll.
    pub open spec fn scrolled(self, kind: MoveValues) -> WindowView {
        match self.scroll_target(kind) {
            Some(address) => self.moved_to(address),
            None => self,
        }
    }

    /// The page to read after a scroll: the one that covers the new offset if
    /// the window moved and that page is not cached.
    pub open spec fn scroll_request(self, kind: MoveValues) -> Option<u64> {
        match self.scroll_target(kind) {
            Some(address) => self.moved_to(address).warm_request(),
            None => None,
        }
    }

    /// The window after the page that covers `address` was read: `data` holds
    /// the bytes read from the start of that page and `size` the file size
    /// seen at that moment. A page that is already cached is kept as it is,
    /// and the size with it.
    pub open spec fn with_page(self, address: int, data: Seq<u8>, size: int) -> WindowView {
        if self.cached(address) {
            self
        } else {
            WindowView {
                size,
                pages: self.pages.insert(page_id_of(address), zero_filled(data)),
                ..self
            }
        }
    }

    /// Whether every byte of `first .. first + count` that has an offset at
    /// all lies in a cached page.
    pub open spec fn covers(self, first: int, count: int) -> bool {
        forall|a: int| first <= a < first + count && a <= u64::MAX ==> #[trigger] self.cached(a)
    }
}

/// Handing in a page answers the request for it: the page that covers the
/// address is cached afterwards. A page that was cached before stays cached
/// and serves the bytes it served before. The view offset stays where it was.
pub proof fn lemma_with_page_caches(window: WindowView, address: int, data: Seq<u8>, size: int)
    ensures
        window.with_page(address, data, size).cached(address),
        window.with_page(address, data, size).request(address) is None,
        forall|a: int|
            window.cached(a) ==> #[trigger] window.with_page(address, data, size).cached(a)
                && window.with_page(address, data, size).byte_at(a) == window.byte_at(a),
        window.with_page(address, data, size).offset == window.offset,
{
}

/// Handing in a page keeps the view offset within the file exactly if the
/// page was cached already or the file size that comes with it is not below
/// the view offset.
pub proof fn lemma_with_page_in_bounds(window: WindowView, address: int, data: Seq<u8>, size: int)
    requires
        window.in_bounds(),
    ensures
        window.with_page(address, data, size).in_bounds() <==> (window.cached(address)
            || window.offset <= size),
{
}

/// The window over one file.
pub struct SedecimFileInfo {
    file_name: String,
    file_offset: u64,
    file_size: u64,
    pages: HashMap<u64, SedecimFilePage>,
}

impl View for SedecimFileInfo {
    type V = WindowView;

    closed spec fn view(&self) -> WindowView {
        WindowView {
            name: self.file_name@,
            offset: self.file_offset as int,
            size: self.file_size as int,
            pages: Map::new(
                |id: int| 0 <= id <= u64::MAX && self.pages@.contains_key(id as u64),
                |id: int| self.pages@[id as u64].buffer@,
            ),
        }
    }
}

impl SedecimFileInfo {
    /// The cache is coherent: the page stored under an identifier has that
    /// identifier, starts at that identifier times the page size, and is
    /// marked as loaded.
    pub closed spec fn wf(&self) -> bool {
        forall|id: u64| #[trigger]
            self.pages@.contains_key(id) ==> {
                &&& self.pages@[id].page_id == id
                &&& self.pages@[id].wf()
                &&& self.pages@[id].loaded
            }
    }

    /// The model of a well-formed window is well formed.
    pub proof fn lemma_view_wf(&self)
        requires
            self.wf(),
        ensures
            self@.wf(),
    {
    }

    /// The window of a file that has not been looked at yet.
    pub fn new(file_name: String) -> (info: SedecimFileInfo)
        ensures
            info.wf(),
            info@ == WindowView::unopened(file_name@),
    {
        let file_offset: u64 = 0;
        let file_size: u64 = 0;
        let pages = HashMap::new();
        let info = SedecimFileInfo { file_name, file_offset, file_size, pages };
        assert(info@.pages =~= Map::<int, Seq<u8>>::empty());
        info
    }

    /// Path of the file.
    pub fn file_name(&self) -> (name: &String)
        ensures
            name@ == self@.name,
    {
        &self.file_name
    }

    /// Absolute offset of the first byte on screen.
    pub fn file_offset(&self) -> (offset: u64)
        ensures
            offset == self@.offset,
    {
        self.file_offset
    }

    /// Size of the file when it was last looked at.
    pub fn file_size(&self) -> (size: u64)
        ensures
            size == self@.size,
    {
        self.file_size
    }

    /// The page to read so that `address` is covered: the start of its page
    /// if that page is not cached, nothing if it is.
    pub fn page_request(&self, address: u64) -> (request: Option<u64>)
        ensures
            request == self@.request(address as int),
    {
        let id = SedecimFilePage::get_page(address);
        if self.pages.contains_key(&id) {
            None
        } else {
            Some(address - (address % BUFFER_SIZE_U64))
        }
    }

    /// Sets the view offset to `address`, clamped to the file size, and
    /// returns the page to read so that the new offset is covered.
    pub fn set_address(&mut self, address: u64) -> (request: Option<u64>)
        requires
            old(self).wf(),
        ensures
            final(self).wf(),
            final(self)@ == old(self)@.moved_to(address as int),
            request == final(self)@.warm_request(),
    {
        let target = if address <= self.file_size {
            address
        } else {
            self.file_size
        };
        self.file_offset = target;
        self.page_request(target)
    }

    /// The cached page that covers `address`, if there is one.
    pub fn get_page(&self, address: u64) -> (page: Option<&SedecimFilePage>)
        requires
            self.wf(),
        ensures
            page is Some <==> self@.cached(address as int),
            page matches Some(p) ==> {
                &&& p.page_id == page_id_of(address as int)
                &&& p.page_start == page_start_of(address as int)
                &&& p.loaded
                &&& p.buffer@.len() == 256
                &&& p.buffer@ == self@.pages[page_id_of(address as int)]
            },
    {
        let id = SedecimFilePage::get_page(address);
        self.pages.get(&id)
    }

    /// The byte at `address`: the byte of the cached page that covers it,
    /// zero where no such page is cached.
    pub fn byte_at(&self, address: u64) -> (byte: u8)
        requires
            self.wf(),
        ensures
            byte == self@.byte_at(address as int),
    {
        match self.get_page(address) {
            Some(page) => page.buffer[(address % BUFFER_SIZE_U64) as usize],
            None => 0,
        }
    }

    /// Takes in the page that covers `load_address`. `data` holds the bytes
    /// that were read from the start of that page (a short read is padded
    /// with zeroes), `file_size` the size of the file at the time of the read.
    /// A page that is already cached is kept as it is, and the size with it.
    pub fn insert_page(&mut self, load_address: u64, data: &[u8], file_size: u64)
        requires
            old(self).wf(),
        ensures
            final(self).wf(),
            final(self)@ == old(self)@.with_page(load_address as int, data@, file_size as int),
    {
        let current_page_number = SedecimFilePage::get_page(load_address);
        if !self.pages.contains_key(&current_page_number) {
            let page = SedecimFilePage::load(load_address, data);
            self.file_size = file_size;
            self.pages.insert(current_page_number, page);
            assert(self@.pages =~= old(self)@.pages.insert(
                page_id_of(load_address as int),
                zero_filled(data@),
            ));
        }
    }

    /// Scrolls the window by a line or a page and returns the page to read so
    /// that the new offset is covered. Scrolling up stops at the start of the
    /// file; scrolling down past the file size does nothing.
    pub fn scroll(&mut self, scroll_amount: MoveValues) -> (request: Option<u64>)
        requires
            old(self).wf(),
        ensures
            final(self).wf(),
            final(self)@ == old(self)@.scrolled(scroll_amount),
            request == old(self)@.scroll_request(scroll_amount),
    {
        match scroll_amount {
            MoveValues::UpLine => {
                if self.file_offset >= LINE_SIZE {
                    self.set_address(self.file_offset - LINE_SIZE)
                } else {
                    self.set_address(0)
                }
            },
            MoveValues::DownLine => {
                if self.file_size >= LINE_SIZE && self.file_offset <= self.file_size - LINE_SIZE {
                    self.set_address(self.file_offset + LINE_SIZE)
                } else {
                    None
                }
            },
            MoveValues::UpPage => {
                if self.file_offset >= BUFFER_SIZE_U64 {
                    self.set_address(self.file_offset - BUFFER_SIZE_U64)
                } else {
                    self.set_address(0)
                }
            },
            MoveValues::DownPage => {
                if self.file_size >= BUFFER_SIZE_U64 && self.file_offset <= self.file_size
                    - BUFFER_SIZE_U64 {
                    self.set_address(self.file_offset + BUFFER_SIZE_U64)
                } else {
                    None
                }
            },
        }
    }

    /// The first page to read so that the bytes `first .. first + count` are
    /// covered, or `None` where all of them are.
    pub fn missing_page(&self, first: u64, count: u64) -> (request: Option<u64>)
        requires
            self.wf(),
        ensures
            request is None <==> self@.covers(first as int, count as int),
            request matches Some(start) ==> {
                &&& start % 256 == 0
                &&& !self@.cached(start as int)
                &&& first < start + 256
                &&& start < first + count
                &&& self@.covers(first as int, start - first)
            },
    {
        if count == 0 {
            return None;
        }
        let last: u64 = if first <= u64::MAX - (count - 1) {
            first + (count - 1)
        } else {
            u64::MAX
        };
        let last_id = SedecimFilePage::get_page(last);
        let mut id = SedecimFilePage::get_page(first);
        while id <= last_id
            invariant
                self.wf(),
                count > 0,
                last == if first + count - 1 <= u64::MAX {
                    first + count - 1
                } else {
                    u64::MAX as int
                },
                last_id == page_id_of(last as int),
                page_id_of(first as int) <= id <= last_id + 1,
                forall|a: int| first <= a <= last && page_id_of(a) < id ==> #[trigger] self@.cached(a),
            decreases last_id + 1 - id,
        {
            if !self.pages.contains_key(&id) {
                let start = id * BUFFER_SIZE_U64;
                proof {
                    let witness = if start >= first {
                        start as int
                    } else {
                        first as int
                    };
                    assert(!self@.cached(witness));
                }
                return Some(start);
            }
            id = id + 1;
        }
        None
    }
}

} // verus!
