//! Page-table-based memory map for 16-bit address spaces.
//!
//! The 64 KB address space is divided into 256 pages of 256 bytes. Each page
//! entry carries a machine-defined region identifier and the region-local
//! offset of the page, plus per-page watch flags that act as a fast filter in
//! front of an exact list of watched addresses.

use vstd::prelude::*;

verus! {

/// Machine-defined region identifier.
pub type RegionId = u8;

/// Sentinel region ID for unmapped pages.
pub const UNMAPPED: RegionId = 0;

/// What kind of access a region supports (for introspection and display).
#[derive(Clone, Copy, Debug, PartialEq, Eq, Structural)]
pub enum AccessKind {
    ReadWrite,
    ReadOnly,
    WriteOnly,
    Io,
    Unmapped,
}

/// A single entry in the 256-page table.
#[derive(Clone, Copy, Debug, PartialEq, Eq, Structural)]
pub struct PageEntry {
    /// Machine-defined region identifier.
    pub region_id: RegionId,
    /// Byte offset into the region for the start of this page.
    pub base_offset: u16,
    /// True if a read watchpoint is active on this page.
    pub watch_read: bool,
    /// True if a write watchpoint is active on this page.
    pub watch_write: bool,
}

/// A named region descriptor for debugger introspection.
#[derive(Clone, Debug)]
pub struct RegionDescriptor {
    /// Machine-defined region ID (matches `PageEntry::region_id`).
    pub id: RegionId,
    /// Human-readable name.
    pub name: &'static str,
    /// First address in this region.
    pub start_addr: u16,
    /// Last address in this region (inclusive).
    pub end_addr: u16,
    /// Access characteristics.
    pub access: AccessKind,
}

/// Whether a watchpoint triggers on reads or on writes.
#[derive(Clone, Copy, Debug, PartialEq, Eq, Structural)]
pub enum WatchpointKind {
    Read,
    Write,
}

/// Details of a watchpoint hit, consumed by the debugger after each tick.
#[derive(Clone, Copy, Debug, PartialEq, Eq, Structural)]
pub struct WatchpointHit {
    pub addr: u16,
    pub kind: WatchpointKind,
    pub value: u8,
}

/// An unmapped page with no watch flags.
pub open spec fn blank_page() -> PageEntry {
    PageEntry { region_id: UNMAPPED, base_offset: 0, watch_read: false, watch_write: false }
}

/// Whether a page carries a watch flag of either kind.
pub open spec fn page_active(p: PageEntry) -> bool {
    p.watch_read || p.watch_write
}

/// The page table after `region` maps `page_count` pages of region `id` from
/// `start_page`, pages past the top of the address space being dropped.
pub open spec fn region_pages(
    pages: Seq<PageEntry>,
    id: RegionId,
    start_page: int,
    page_count: int,
) -> Seq<PageEntry> {
    Seq::new(
        pages.len(),
        |i: int|
            if start_page <= i < start_page + page_count {
                PageEntry {
                    region_id: id,
                    base_offset: ((i - start_page) * 256) as u16,
                    watch_read: false,
                    watch_write: false,
                }
            } else {
                pages[i]
            },
    )
}

/// The page table after the first `k` pages of a mirror have been copied, one
/// at a time and in order, from `source_page + i` to `mirror_page + i`.
pub open spec fn mirror_pages(
    pages: Seq<PageEntry>,
    mirror_page: int,
    source_page: int,
    k: nat,
) -> Seq<PageEntry>
    decreases k,
{
    if k == 0 {
        pages
    } else {
        let q = mirror_pages(pages, mirror_page, source_page, (k - 1) as nat);
        let src = source_page + k - 1;
        let dst = mirror_page + k - 1;
        if src < 256 && dst < 256 {
            q.update(
                dst,
                PageEntry {
                    region_id: q[src].region_id,
                    base_offset: q[src].base_offset,
                    watch_read: false,
                    watch_write: false,
                },
            )
        } else {
            q
        }
    }
}

/// The page table after `remap_pages`: region and offset replaced, watch flags
/// kept.
pub open spec fn remap_spec(
    pages: Seq<PageEntry>,
    start_page: int,
    page_count: int,
    id: RegionId,
    base: int,
) -> Seq<PageEntry> {
    Seq::new(
        pages.len(),
        |i: int|
            if start_page <= i < start_page + page_count {
                PageEntry {
                    region_id: id,
                    base_offset: (base + (i - start_page) * 256) as u16,
                    ..pages[i]
                }
            } else {
                pages[i]
            },
    )
}

/// The predicate keeping every watch-list entry except `(addr, kind)`.
pub open spec fn not_entry(addr: u16, kind: WatchpointKind) -> spec_fn((u16, WatchpointKind)) -> bool {
    |e: (u16, WatchpointKind)| e != (addr, kind)
}

/// How many of `page_count` pages from `start_page` fall inside the table.
pub open spec fn remap_span(start_page: int, page_count: int) -> int {
    if page_count < 256 - start_page {
        page_count
    } else {
        256 - start_page
    }
}

/// A page entry with the flag of `kind` forced to `on`.
pub open spec fn with_watch(p: PageEntry, kind: WatchpointKind, on: bool) -> PageEntry {
    match kind {
        WatchpointKind::Read => PageEntry { watch_read: on, ..p },
        WatchpointKind::Write => PageEntry { watch_write: on, ..p },
    }
}

/// The flag of `kind` on a page.
pub open spec fn watch_flag(p: PageEntry, kind: WatchpointKind) -> bool {
    match kind {
        WatchpointKind::Read => p.watch_read,
        WatchpointKind::Write => p.watch_write,
    }
}

/// The index of the first region descriptor with this id, if any.
pub open spec fn first_with_id(regions: Seq<RegionDescriptor>, id: RegionId) -> Option<int> {
    if exists|i: int| 0 <= i < regions.len() && regions[i].id == id {
        Some(
            choose|i: int|
                0 <= i < regions.len() && regions[i].id == id && forall|j: int|
                    0 <= j < i ==> regions[j].id != id,
        )
    } else {
        None
    }
}

/// Whether an access of `kind` at `addr` hits a watchpoint: some page is
/// watched at all, the page holding `addr` has the flag of `kind`, and
/// `(addr, kind)` is on the watch list.
pub open spec fn watch_hit(
    pages: Seq<PageEntry>,
    watched: Seq<(u16, WatchpointKind)>,
    count: u16,
    addr: u16,
    kind: WatchpointKind,
) -> bool {
    count != 0 && watch_flag(pages[(addr / 256) as int], kind) && watched.contains((addr, kind))
}

/// The page table, watch list and active-page count after setting a
/// watchpoint of `kind` at `addr`: the entry added to the list unless it
/// is there, the page's flag of `kind` set, and the page counted if it was
/// not watched before.
pub open spec fn watch_set(m: MemoryMap, addr: u16, kind: WatchpointKind) -> (
    Seq<PageEntry>,
    Seq<(u16, WatchpointKind)>,
    u16,
) {
    (
        m.pages@.update((addr / 256) as int, with_watch(m.page_of(addr), kind, true)),
        if m.watched_addrs@.contains((addr, kind)) {
            m.watched_addrs@
        } else {
            m.watched_addrs@.push((addr, kind))
        },
        if page_active(m.page_of(addr)) {
            m.active_watch_count
        } else {
            (m.active_watch_count + 1) as u16
        },
    )
}

/// The page table, watch list and active-page count after clearing the
/// watchpoint of `kind` at `addr`: the entry dropped from the list, the
/// page's flag of `kind` cleared unless another watched address of that
/// kind remains on the page, and the page uncounted if it lost its last
/// flag.
pub open spec fn watch_cleared(m: MemoryMap, addr: u16, kind: WatchpointKind) -> (
    Seq<PageEntry>,
    Seq<(u16, WatchpointKind)>,
    u16,
) {
    let list = m.watched_addrs@.filter(not_entry(addr, kind));
    let still = exists|k: int|
        0 <= k < list.len() && list[k].0 / 256 == addr / 256 && list[k].1 == kind;
    let p = m.page_of(addr);
    let q = if still {
        p
    } else {
        with_watch(p, kind, false)
    };
    (
        m.pages@.update((addr / 256) as int, q),
        list,
        if page_active(p) && !page_active(q) {
            if m.active_watch_count == 0 {
                0
            } else {
                (m.active_watch_count - 1) as u16
            }
        } else {
            m.active_watch_count
        },
    )
}

/// How many pages carry a watch flag.
pub open spec fn active_pages(pages: Seq<PageEntry>) -> nat
    decreases pages.len(),
{
    if pages.len() == 0 {
        0
    } else {
        active_pages(pages.drop_last()) + if page_active(pages.last()) {
            1nat
        } else {
            0
        }
    }
}

/// Replacing one page changes the count by what the old and new page add.
proof fn lemma_active_pages_update(pages: Seq<PageEntry>, i: int, v: PageEntry)
    requires
        0 <= i < pages.len(),
    ensures
        active_pages(pages.update(i, v)) + (if page_active(pages[i]) {
            1int
        } else {
            0
        }) == active_pages(pages) + (if page_active(v) {
            1int
        } else {
            0
        }),
    decreases pages.len(),
{
    let u = pages.update(i, v);
    if i == pages.len() - 1 {
        assert(u.drop_last() =~= pages.drop_last());
    } else {
        assert(u.drop_last() =~= pages.drop_last().update(i, v));
        lemma_active_pages_update(pages.drop_last(), i, v);
    }
}

/// A table with no flagged page counts none.
proof fn lemma_no_active_pages(pages: Seq<PageEntry>)
    requires
        forall|i: int| 0 <= i < pages.len() ==> !page_active(#[trigger] pages[i]),
    ensures
        active_pages(pages) == 0,
    decreases pages.len(),
{
    if pages.len() > 0 {
        lemma_no_active_pages(pages.drop_last());
    }
}

/// Page-table-based memory map for a 16-bit address space.
pub struct MemoryMap {
    pub pages: Vec<PageEntry>,
    pub regions: Vec<RegionDescriptor>,
    pub active_watch_count: u16,
    pub pending_hit: Option<WatchpointHit>,
    /// Exact watched addresses. Page flags filter; this list decides.
    pub watched_addrs: Vec<(u16, WatchpointKind)>,
}

impl MemoryMap {
    /// The page table always has exactly 256 entries.
    pub open spec fn wf(&self) -> bool {
        self.pages@.len() == 256
    }

    /// The page holding `addr`.
    pub open spec fn page_of(&self, addr: u16) -> PageEntry {
        self.pages@[(addr / 256) as int]
    }

    /// Create a new memory map with all pages unmapped.
    pub fn new() -> (r: Self)
        ensures
            r.wf(),
            forall|i: int| 0 <= i < 256 ==> r.pages@[i] == blank_page(),
            r.regions@ == Seq::<RegionDescriptor>::empty(),
            r.active_watch_count == 0,
            r.pending_hit == None::<WatchpointHit>,
            r.watched_addrs@ == Seq::<(u16, WatchpointKind)>::empty(),
    {
        let mut pages: Vec<PageEntry> = Vec::new();
        let mut i: usize = 0;
        while i < 256
            invariant
                i <= 256,
                pages@.len() == i,
                forall|k: int| 0 <= k < i ==> pages@[k] == blank_page(),
            decreases 256 - i,
        {
            pages.push(PageEntry {
                region_id: UNMAPPED,
                base_offset: 0,
                watch_read: false,
                watch_write: false,
            });
            i += 1;
        }
        MemoryMap {
            pages,
            regions: Vec::new(),
            active_watch_count: 0,
            pending_hit: None,
            watched_addrs: Vec::new(),
        }
    }

    /// Map a contiguous address range to a region.
    ///
    /// `start` must be page-aligned and `length` a whole number of pages of
    /// at least one (or zero). Sets the page entries, with watch flags clear,
    /// and adds a region descriptor.
    pub fn region(
        &mut self,
        id: RegionId,
        name: &'static str,
        start: u16,
        length: u32,
        access: AccessKind,
    ) -> (r: &mut Self)
        requires
            old(self).wf(),
            start % 256 == 0,
            length >= 256 || length == 0,
        ensures
            r.wf(),
            r.pages@ == region_pages(
                old(self).pages@,
                id,
                (start / 256) as int,
                ((length + 255) / 256) as int,
            ),
            r.regions@ == old(self).regions@.push(
                RegionDescriptor {
                    id,
                    name,
                    start_addr: start,
                    end_addr: if length == 0 {
                        start
                    } else {
                        ((start + length - 1) % 65536) as u16
                    },
                    access,
                },
            ),
            r.active_watch_count == old(self).active_watch_count,
            r.pending_hit == old(self).pending_hit,
            r.watched_addrs@ == old(self).watched_addrs@,
            *final(self) == *final(r),
    {
        let start_page = (start / 256) as usize;
        let page_count = ((length as u64 + 255) / 256) as usize;
        let ghost old_pages = self.pages@;
        let mut i: usize = 0;
        while i < page_count
            invariant
                self.pages@.len() == 256,
                old_pages.len() == 256,
                start_page < 256,
                page_count <= 0x1000000,
                i <= page_count,
                self.regions@ == old(self).regions@,
                self.active_watch_count == old(self).active_watch_count,
                self.pending_hit == old(self).pending_hit,
                self.watched_addrs@ == old(self).watched_addrs@,
                forall|k: int|
                    0 <= k < 256 ==> self.pages@[k] == (if start_page <= k < start_page + i {
                        region_pages(old_pages, id, start_page as int, page_count as int)[k]
                    } else {
                        old_pages[k]
                    }),
            decreases page_count - i,
        {
            let idx = start_page + i;
            if idx < 256 {
                let e = PageEntry {
                    region_id: id,
                    base_offset: (i as u16) * 256,
                    watch_read: false,
                    watch_write: false,
                };
                self.pages.set(idx, e);
            }
            i += 1;
        }
        assert(self.pages@ =~= region_pages(old_pages, id, start_page as int, page_count as int));
        let end_addr = if length == 0 {
            start
        } else {
            ((start as u64 + length as u64 - 1) % 65536) as u16
        };
        self.regions.push(RegionDescriptor { id, name, start_addr: start, end_addr, access });
        self
    }

    /// Copy page entries from a source range to a mirror range, one page at
    /// a time in ascending order. Watch flags are not copied.
    pub fn mirror(&mut self, mirror_start: u16, source_start: u16, length: u32) -> (r: &mut Self)
        requires
            old(self).wf(),
        ensures
            r.wf(),
            r.pages@ == mirror_pages(
                old(self).pages@,
                (mirror_start / 256) as int,
                (source_start / 256) as int,
                (length / 256) as nat,
            ),
            r.regions@ == old(self).regions@,
            r.active_watch_count == old(self).active_watch_count,
            r.pending_hit == old(self).pending_hit,
            r.watched_addrs@ == old(self).watched_addrs@,
            *final(self) == *final(r),
    {
        let mirror_page = (mirror_start / 256) as usize;
        let source_page = (source_start / 256) as usize;
        let page_count = (length / 256) as usize;
        let ghost old_pages = self.pages@;
        let mut i: usize = 0;
        while i < page_count
            invariant
                self.pages@.len() == 256,
                old_pages.len() == 256,
                mirror_page < 256,
                source_page < 256,
                page_count <= 0x1000000,
                i <= page_count,
                self.regions@ == old(self).regions@,
                self.active_watch_count == old(self).active_watch_count,
                self.pending_hit == old(self).pending_hit,
                self.watched_addrs@ == old(self).watched_addrs@,
                self.pages@ == mirror_pages(
                    old_pages,
                    mirror_page as int,
                    source_page as int,
                    i as nat,
                ),
            decreases page_count - i,
        {
            proof {
                lemma_mirror_len(old_pages, mirror_page as int, source_page as int, i as nat);
            }
            let src = source_page + i;
            let dst = mirror_page + i;
            if src < 256 && dst < 256 {
                let e = PageEntry {
                    region_id: self.pages[src].region_id,
                    base_offset: self.pages[src].base_offset,
                    watch_read: false,
                    watch_write: false,
                };
                self.pages.set(dst, e);
            }
            i += 1;
        }
        self
    }

    /// Remap a range of pages to a different region (for bank switching).
    /// Watch flags are kept.
    pub fn remap_pages(
        &mut self,
        start_page: u8,
        page_count: u8,
        new_region_id: RegionId,
        new_base_offset: u16,
    )
        requires
            old(self).wf(),
            remap_span(start_page as int, page_count as int) == 0 || new_base_offset + (remap_span(
                start_page as int,
                page_count as int,
            ) - 1) * 256 <= u16::MAX,
        ensures
            final(self).wf(),
            final(self).pages@ == remap_spec(
                old(self).pages@,
                start_page as int,
                page_count as int,
                new_region_id,
                new_base_offset as int,
            ),
            final(self).regions@ == old(self).regions@,
            final(self).active_watch_count == old(self).active_watch_count,
            final(self).pending_hit == old(self).pending_hit,
            final(self).watched_addrs@ == old(self).watched_addrs@,
    {
        let ghost old_pages = self.pages@;
        let mut i: usize = 0;
        while i < page_count as usize
            invariant
                self.pages@.len() == 256,
                old_pages.len() == 256,
                i <= page_count,
                self.regions@ == old(self).regions@,
                self.active_watch_count == old(self).active_watch_count,
                self.pending_hit == old(self).pending_hit,
                self.watched_addrs@ == old(self).watched_addrs@,
                remap_span(start_page as int, page_count as int) == 0 || new_base_offset + (
                remap_span(start_page as int, page_count as int) - 1) * 256 <= u16::MAX,
                forall|k: int|
                    0 <= k < 256 ==> self.pages@[k] == (if start_page <= k < start_page + i {
                        remap_spec(
                            old_pages,
                            start_page as int,
                            page_count as int,
                            new_region_id,
                            new_base_offset as int,
                        )[k]
                    } else {
                        old_pages[k]
                    }),
            decreases page_count - i,
        {
            let idx = start_page as usize + i;
            if idx < 256 {
                let old_e = self.pages[idx];
                assert(new_base_offset + i * 256 <= u16::MAX);
                let e = PageEntry {
                    region_id: new_region_id,
                    base_offset: new_base_offset + (i as u16) * 256,
                    ..old_e
                };
                self.pages.set(idx, e);
            }
            i += 1;
        }
        assert(self.pages@ =~= remap_spec(
            old_pages,
            start_page as int,
            page_count as int,
            new_region_id,
            new_base_offset as int,
        ));
    }

    /// Look up the page entry for an address.
    pub fn page(&self, addr: u16) -> (r: &PageEntry)
        requires
            self.wf(),
        ensures
            *r == self.page_of(addr),
    {
        &self.pages[(addr / 256) as usize]
    }

    /// The region-local byte offset of an address: the page's base offset
    /// plus the address's offset within the page.
    pub fn region_offset(&self, addr: u16) -> (r: usize)
        requires
            self.wf(),
        ensures
            r == self.page_of(addr).base_offset + addr % 256,
    {
        let page = self.page(addr);
        page.base_offset as usize + (addr % 256) as usize
    }

    /// Whether `(addr, kind)` is in the exact watch list.
    fn is_watched(&self, addr: u16, kind: WatchpointKind) -> (r: bool)
        ensures
            r == self.watched_addrs@.contains((addr, kind)),
    {
        let mut i: usize = 0;
        while i < self.watched_addrs.len()
            invariant
                i <= self.watched_addrs@.len(),
                forall|k: int| 0 <= k < i ==> self.watched_addrs@[k] != (addr, kind),
            decreases self.watched_addrs.len() - i,
        {
            let (a, k) = self.watched_addrs[i];
            if a == addr && k == kind {
                return true;
            }
            i += 1;
        }
        false
    }

    /// Check for a watchpoint hit of `kind` at `addr`, recording it as the
    /// pending hit when it fires.
    fn check_watch(&mut self, addr: u16, value: u8, kind: WatchpointKind) -> (r: bool)
        requires
            old(self).wf(),
        ensures
            final(self).wf(),
            r == (old(self).active_watch_count != 0 && watch_flag(old(self).page_of(addr), kind)
                && old(self).watched_addrs@.contains((addr, kind))),
            final(self).pending_hit == if r {
                Some(WatchpointHit { addr, kind, value })
            } else {
                old(self).pending_hit
            },
            final(self).pages@ == old(self).pages@,
            final(self).regions@ == old(self).regions@,
            final(self).active_watch_count == old(self).active_watch_count,
            final(self).watched_addrs@ == old(self).watched_addrs@,
    {
        if self.active_watch_count == 0 {
            return false;
        }
        let page = self.pages[(addr / 256) as usize];
        let flag = match kind {
            WatchpointKind::Read => page.watch_read,
            WatchpointKind::Write => page.watch_write,
        };
        if flag && self.is_watched(addr, kind) {
            self.pending_hit = Some(WatchpointHit { addr, kind, value });
            return true;
        }
        false
    }

    /// Check for a read watchpoint hit at exactly `addr`.
    pub fn check_read_watch(&mut self, addr: u16, value: u8) -> (r: bool)
        requires
            old(self).wf(),
        ensures
            final(self).wf(),
            r == watch_hit(
                old(self).pages@,
                old(self).watched_addrs@,
                old(self).active_watch_count,
                addr,
                WatchpointKind::Read,
            ),
            final(self).pending_hit == if r {
                Some(WatchpointHit { addr, kind: WatchpointKind::Read, value })
            } else {
                old(self).pending_hit
            },
            final(self).pages@ == old(self).pages@,
            final(self).regions@ == old(self).regions@,
            final(self).active_watch_count == old(self).active_watch_count,
            final(self).watched_addrs@ == old(self).watched_addrs@,
    {
        self.check_watch(addr, value, WatchpointKind::Read)
    }

    /// Check for a write watchpoint hit at exactly `addr`.
    pub fn check_write_watch(&mut self, addr: u16, value: u8) -> (r: bool)
        requires
            old(self).wf(),
        ensures
            final(self).wf(),
            r == watch_hit(
                old(self).pages@,
                old(self).watched_addrs@,
                old(self).active_watch_count,
                addr,
                WatchpointKind::Write,
            ),
            final(self).pending_hit == if r {
                Some(WatchpointHit { addr, kind: WatchpointKind::Write, value })
            } else {
                old(self).pending_hit
            },
            final(self).pages@ == old(self).pages@,
            final(self).regions@ == old(self).regions@,
            final(self).active_watch_count == old(self).active_watch_count,
            final(self).watched_addrs@ == old(self).watched_addrs@,
    {
        self.check_watch(addr, value, WatchpointKind::Write)
    }

    /// Consume the pending watchpoint hit.
    pub fn take_hit(&mut self) -> (r: Option<WatchpointHit>)
        ensures
            r == old(self).pending_hit,
            final(self).pending_hit == None::<WatchpointHit>,
            final(self).pages@ == old(self).pages@,
            final(self).regions@ == old(self).regions@,
            final(self).active_watch_count == old(self).active_watch_count,
            final(self).watched_addrs@ == old(self).watched_addrs@,
    {
        let hit = self.pending_hit;
        self.pending_hit = None;
        hit
    }

    /// True if any page carries a watchpoint.
    pub fn has_any_watchpoints(&self) -> (r: bool)
        ensures
            r == (self.active_watch_count > 0),
    {
        self.active_watch_count > 0
    }

    /// Set a watchpoint on the exact address `addr`.
    pub fn set_watchpoint(&mut self, addr: u16, kind: WatchpointKind)
        requires
            old(self).wf(),
            !page_active(old(self).page_of(addr)) ==> old(self).active_watch_count < u16::MAX,
        ensures
            final(self).wf(),
            (final(self).pages@, final(self).watched_addrs@, final(self).active_watch_count)
                == watch_set(*old(self), addr, kind),
            final(self).regions@ == old(self).regions@,
            final(self).pending_hit == old(self).pending_hit,
    {
        if !self.is_watched(addr, kind) {
            self.watched_addrs.push((addr, kind));
        }
        let idx = (addr / 256) as usize;
        let page = self.pages[idx];
        let was_active = page.watch_read || page.watch_write;
        let new_page = match kind {
            WatchpointKind::Read => PageEntry { watch_read: true, ..page },
            WatchpointKind::Write => PageEntry { watch_write: true, ..page },
        };
        self.pages.set(idx, new_page);
        if !was_active {
            self.active_watch_count = self.active_watch_count + 1;
        }
    }

    /// Clear the watchpoint of `kind` on the exact address `addr`. The page
    /// flag is cleared only if no other watched address of that kind remains
    /// on the same page.
    pub fn clear_watchpoint(&mut self, addr: u16, kind: WatchpointKind)
        requires
            old(self).wf(),
        ensures
            final(self).wf(),
            (final(self).pages@, final(self).watched_addrs@, final(self).active_watch_count)
                == watch_cleared(*old(self), addr, kind),
            final(self).regions@ == old(self).regions@,
            final(self).pending_hit == old(self).pending_hit,
    {
        let ghost pred = not_entry(addr, kind);
        let ghost old_list = self.watched_addrs@;
        let mut kept: Vec<(u16, WatchpointKind)> = Vec::new();
        let mut i: usize = 0;
        while i < self.watched_addrs.len()
            invariant
                i <= self.watched_addrs@.len(),
                self.watched_addrs@ == old_list,
                pred == not_entry(addr, kind),
                kept@ == old_list.take(i as int).filter(pred),
            decreases self.watched_addrs.len() - i,
        {
            let (a, k) = self.watched_addrs[i];
            proof {
                assert(old_list.take(i + 1) =~= old_list.take(i as int).push(old_list[i as int]));
                old_list.take(i as int).lemma_filter_push(old_list[i as int], pred);
                assert(pred(old_list[i as int]) == !(a == addr && k == kind));
            }
            if !(a == addr && k == kind) {
                kept.push((a, k));
            }
            i += 1;
        }
        assert(old_list.take(old_list.len() as int) =~= old_list);
        self.watched_addrs = kept;
        let page_idx = (addr / 256) as usize;
        let mut still_has_kind = false;
        let mut j: usize = 0;
        while j < self.watched_addrs.len()
            invariant
                j <= self.watched_addrs@.len(),
                page_idx == addr / 256,
                still_has_kind == exists|k: int|
                    0 <= k < j && self.watched_addrs@[k].0 / 256 == page_idx
                        && self.watched_addrs@[k].1 == kind,
            decreases self.watched_addrs.len() - j,
        {
            let (a, k) = self.watched_addrs[j];
            if (a / 256) as usize == page_idx && k == kind {
                still_has_kind = true;
            }
            j += 1;
        }
        let page = self.pages[page_idx];
        let was_active = page.watch_read || page.watch_write;
        let new_page = if still_has_kind {
            page
        } else {
            match kind {
                WatchpointKind::Read => PageEntry { watch_read: false, ..page },
                WatchpointKind::Write => PageEntry { watch_write: false, ..page },
            }
        };
        self.pages.set(page_idx, new_page);
        let is_active = new_page.watch_read || new_page.watch_write;
        if was_active && !is_active {
            self.active_watch_count = self.active_watch_count.saturating_sub(1);
        }
    }

    /// Clear all watchpoints on all pages.
    pub fn clear_all_watchpoints(&mut self)
        requires
            old(self).wf(),
        ensures
            final(self).wf(),
            forall|i: int|
                0 <= i < 256 ==> final(self).pages@[i] == (PageEntry {
                    watch_read: false,
                    watch_write: false,
                    ..old(self).pages@[i]
                }),
            final(self).active_watch_count == 0,
            final(self).pending_hit == None::<WatchpointHit>,
            final(self).watched_addrs@ == Seq::<(u16, WatchpointKind)>::empty(),
            final(self).regions@ == old(self).regions@,
    {
        let ghost old_pages = self.pages@;
        let mut i: usize = 0;
        while i < 256
            invariant
                self.pages@.len() == 256,
                old_pages.len() == 256,
                i <= 256,
                self.regions@ == old(self).regions@,
                forall|k: int|
                    0 <= k < 256 ==> self.pages@[k] == (if k < i {
                        (PageEntry { watch_read: false, watch_write: false, ..old_pages[k] })
                    } else {
                        old_pages[k]
                    }),
            decreases 256 - i,
        {
            let p = self.pages[i];
            self.pages.set(i, PageEntry { watch_read: false, watch_write: false, ..p });
            i += 1;
        }
        self.active_watch_count = 0;
        self.pending_hit = None;
        self.watched_addrs.clear();
    }

    /// All named region descriptors, in the order they were added.
    pub fn regions(&self) -> (r: &[RegionDescriptor])
        ensures
            r@ == self.regions@,
    {
        self.regions.as_slice()
    }

    /// The first region descriptor whose id is that of the page holding
    /// `addr`, or `None` for an unmapped page or an id no descriptor has.
    pub fn region_at(&self, addr: u16) -> (r: Option<&RegionDescriptor>)
        requires
            self.wf(),
        ensures
            ({
                let id = self.page_of(addr).region_id;
                if id == UNMAPPED {
                    r is None
                } else {
                    match first_with_id(self.regions@, id) {
                        Some(i) => r == Some(&self.regions@[i]),
                        None => r is None,
                    }
                }
            }),
    {
        let id = self.page(addr).region_id;
        if id == UNMAPPED {
            return None;
        }
        let mut i: usize = 0;
        while i < self.regions.len()
            invariant
                i <= self.regions@.len(),
                self.wf(),
                id == self.page_of(addr).region_id,
                id != UNMAPPED,
                forall|j: int| 0 <= j < i ==> self.regions@[j].id != id,
            decreases self.regions.len() - i,
        {
            if self.regions[i].id == id {
                proof {
                    let w = choose|k: int|
                        0 <= k < self.regions@.len() && self.regions@[k].id == id && forall|j: int|
                            0 <= j < k ==> self.regions@[j].id != id;
                    assert(0 <= i < self.regions@.len() && self.regions@[i as int].id == id
                        && forall|j: int| 0 <= j < i ==> self.regions@[j].id != id);
                    if w < i {
                        assert(self.regions@[w].id != id);
                    } else if w > i {
                        assert(self.regions@[i as int].id != id);
                    }
                    assert(w == i);
                    assert(first_with_id(self.regions@, id) == Some(i as int));
                }
                return Some(&self.regions[i]);
            }
            i += 1;
        }
        None
    }
}

/// Mirroring never changes the length of the page table.
proof fn lemma_mirror_len(pages: Seq<PageEntry>, mirror_page: int, source_page: int, k: nat)
    requires
        pages.len() == 256,
        mirror_page >= 0,
        source_page >= 0,
    ensures
        mirror_pages(pages, mirror_page, source_page, k).len() == pages.len(),
    decreases k,
{
    if k > 0 {
        lemma_mirror_len(pages, mirror_page, source_page, (k - 1) as nat);
    }
}

/// A watchpoint fires at exactly its address. After setting one of `kind`
/// at `addr`, an access of that kind at `addr` hits; an access at any other
/// address that is not itself on the watch list does not, even on the same
/// page. The map is taken consistent: a page with a flag set is counted.
pub proof fn law_watchpoint_fires_at_exactly_its_address(
    m: MemoryMap,
    addr: u16,
    kind: WatchpointKind,
    other: u16,
)
    requires
        m.wf(),
        page_active(m.page_of(addr)) ==> m.active_watch_count > 0,
        !page_active(m.page_of(addr)) ==> m.active_watch_count < u16::MAX,
        other != addr,
        !m.watched_addrs@.contains((other, kind)),
    ensures
        ({
            let (pages, watched, count) = watch_set(m, addr, kind);
            &&& watch_hit(pages, watched, count, addr, kind)
            &&& !watch_hit(pages, watched, count, other, kind)
        }),
{
    let (pages, watched, count) = watch_set(m, addr, kind);
    if m.watched_addrs@.contains((addr, kind)) {
    } else {
        assert(watched[watched.len() - 1] == (addr, kind));
        if watched.contains((other, kind)) {
            let k = choose|k: int| 0 <= k < watched.len() && watched[k] == (other, kind);
            assert(m.watched_addrs@[k] == (other, kind));
        }
    }
}


/// The count of watched pages stays what it counts. Setting a watchpoint on
/// a map whose count is the number of pages carrying a watch flag leaves it
/// so, and so does clearing one; clearing them all leaves no flagged page
/// and a count of zero.
pub proof fn law_watch_count_counts_watched_pages(m: MemoryMap, addr: u16, kind: WatchpointKind)
    requires
        m.wf(),
        m.active_watch_count == active_pages(m.pages@),
    ensures
        (page_active(m.page_of(addr)) || m.active_watch_count < u16::MAX) ==> watch_set(
            m,
            addr,
            kind,
        ).2 == active_pages(watch_set(m, addr, kind).0),
        watch_cleared(m, addr, kind).2 == active_pages(watch_cleared(m, addr, kind).0),
        forall|pages: Seq<PageEntry>|
            (forall|i: int| 0 <= i < pages.len() ==> !page_active(#[trigger] pages[i]))
                ==> active_pages(pages) == 0,
{
    let i = (addr / 256) as int;
    let p = m.page_of(addr);
    lemma_active_pages_update(m.pages@, i, with_watch(p, kind, true));
    let q = watch_cleared(m, addr, kind).0[i];
    assert(watch_cleared(m, addr, kind).0 == m.pages@.update(i, q));
    lemma_active_pages_update(m.pages@, i, q);
    assert forall|pages: Seq<PageEntry>|
        (forall|i: int| 0 <= i < pages.len() ==> !page_active(#[trigger] pages[i])) implies active_pages(
        pages,
    ) == 0 by {
        lemma_no_active_pages(pages);
    }
}


/// The page table, watch list and count agree: the table has its 256
/// pages, the count is the number of pages carrying a watch flag, and a
/// page carries the flag of a kind exactly when the list holds an address
/// of that kind on the page. A fresh map is so, and every watch function
/// keeps it so.
pub open spec fn watch_consistent(
    pages: Seq<PageEntry>,
    list: Seq<(u16, WatchpointKind)>,
    count: u16,
) -> bool {
    &&& pages.len() == 256
    &&& count == active_pages(pages)
    &&& forall|i: int, kind: WatchpointKind|
        0 <= i < 256 ==> (#[trigger] watch_flag(pages[i], kind) <==> listed_on(list, i, kind))
}

/// The list holds an address of `kind` on page `i`.
pub open spec fn listed_on(list: Seq<(u16, WatchpointKind)>, i: int, kind: WatchpointKind) -> bool {
    exists|e: (u16, WatchpointKind)| #[trigger] list.contains(e) && e.0 / 256 == i && e.1 == kind
}

impl MemoryMap {
    /// The map's page table, watch list and count agree.
    pub open spec fn watch_consistent(&self) -> bool {
        watch_consistent(self.pages@, self.watched_addrs@, self.active_watch_count)
    }
}

/// An entry survives clearing `(addr, kind)` exactly when it was listed and
/// is not that one.
proof fn lemma_filtered_entry(
    list: Seq<(u16, WatchpointKind)>,
    addr: u16,
    kind: WatchpointKind,
    e: (u16, WatchpointKind),
)
    ensures
        list.filter(not_entry(addr, kind)).contains(e) <==> (list.contains(e) && e != (addr,
            kind)),
{
    let f = list.filter(not_entry(addr, kind));
    if f.contains(e) {
        list.lemma_filter_contains_rev(not_entry(addr, kind), e);
        let k = choose|k: int| 0 <= k < f.len() && f[k] == e;
        list.lemma_filter_pred(not_entry(addr, kind), k);
    }
    if list.contains(e) && e != (addr, kind) {
        let k = choose|k: int| 0 <= k < list.len() && list[k] == e;
        list.lemma_filter_contains(not_entry(addr, kind), k);
    }
}

/// No more pages are counted than there are.
proof fn lemma_active_pages_bound(pages: Seq<PageEntry>)
    ensures
        active_pages(pages) <= pages.len(),
    decreases pages.len(),
{
    if pages.len() > 0 {
        lemma_active_pages_bound(pages.drop_last());
    }
}

/// A flagged page makes the count at least one.
proof fn lemma_active_page_counts(pages: Seq<PageEntry>, i: int)
    requires
        0 <= i < pages.len(),
        page_active(pages[i]),
    ensures
        active_pages(pages) >= 1,
{
    lemma_active_pages_update(pages, i, blank_page());
}

/// A map is consistent as `new` leaves it: blank pages, an empty list and a
/// zero count.
pub proof fn law_a_fresh_map_is_consistent(pages: Seq<PageEntry>)
    requires
        pages.len() == 256,
        forall|i: int| 0 <= i < 256 ==> pages[i] == blank_page(),
    ensures
        watch_consistent(pages, Seq::empty(), 0),
{
    lemma_no_active_pages(pages);
}

/// Setting and clearing a watchpoint keep a consistent map consistent, and
/// so does clearing them all (every flag off, the list empty, the count
/// zero).
pub proof fn law_watch_functions_keep_the_map_consistent(
    m: MemoryMap,
    addr: u16,
    kind: WatchpointKind,
    cleared: Seq<PageEntry>,
)
    requires
        m.watch_consistent(),
        cleared.len() == 256,
        forall|i: int|
            0 <= i < 256 ==> cleared[i] == (PageEntry {
                watch_read: false,
                watch_write: false,
                ..m.pages@[i]
            }),
    ensures
        ({
            let (pages, list, count) = watch_set(m, addr, kind);
            watch_consistent(pages, list, count)
        }),
        ({
            let (pages, list, count) = watch_cleared(m, addr, kind);
            watch_consistent(pages, list, count)
        }),
        watch_consistent(cleared, Seq::empty(), 0),
{
    let i0 = (addr / 256) as int;
    let p = m.page_of(addr);
    lemma_active_pages_bound(m.pages@);
    law_watch_count_counts_watched_pages(m, addr, kind);
    if page_active(p) {
        lemma_active_page_counts(m.pages@, i0);
    }
    // Setting.
    let (sp, sl, sc) = watch_set(m, addr, kind);
    assert forall|i: int, k: WatchpointKind|
        0 <= i < 256 implies (#[trigger] watch_flag(sp[i], k) <==> listed_on(sl, i, k)) by {
        assert(watch_flag(m.pages@[i], k) <==> listed_on(m.watched_addrs@, i, k));
        if listed_on(m.watched_addrs@, i, k) {
            let e = choose|e: (u16, WatchpointKind)|
                #[trigger] m.watched_addrs@.contains(e) && e.0 / 256 == i && e.1 == k;
            let j = choose|j: int| 0 <= j < m.watched_addrs@.len() && m.watched_addrs@[j] == e;
            assert(sl[j] == e);
            assert(sl.contains(e));
        }
        if i == i0 && k == kind {
            if !m.watched_addrs@.contains((addr, kind)) {
                assert(sl[sl.len() - 1] == (addr, kind));
            }
            assert(sl.contains((addr, kind)));
        }
        if listed_on(sl, i, k) {
            let e = choose|e: (u16, WatchpointKind)|
                #[trigger] sl.contains(e) && e.0 / 256 == i && e.1 == k;
            if e != (addr, kind) {
                assert(m.watched_addrs@.contains(e));
            }
        }
    }
    // Clearing one.
    let (cp, cl, cc) = watch_cleared(m, addr, kind);
    assert forall|i: int, k: WatchpointKind|
        0 <= i < 256 implies (#[trigger] watch_flag(cp[i], k) <==> listed_on(cl, i, k)) by {
        assert(watch_flag(m.pages@[i], k) <==> listed_on(m.watched_addrs@, i, k));
        if listed_on(cl, i, k) {
            let e = choose|e: (u16, WatchpointKind)|
                #[trigger] cl.contains(e) && e.0 / 256 == i && e.1 == k;
            lemma_filtered_entry(m.watched_addrs@, addr, kind, e);
            if i == i0 && k == kind {
                let j = choose|j: int| 0 <= j < cl.len() && cl[j] == e;
                assert(cl[j].0 / 256 == addr / 256 && cl[j].1 == kind);
            }
        }
        if listed_on(m.watched_addrs@, i, k) && !(i == i0 && k == kind) {
            let e = choose|e: (u16, WatchpointKind)|
                #[trigger] m.watched_addrs@.contains(e) && e.0 / 256 == i && e.1 == k;
            lemma_filtered_entry(m.watched_addrs@, addr, kind, e);
            assert(cl.contains(e));
        }
        if i == i0 && k == kind && watch_flag(cp[i], k) {
            let j = choose|j: int|
                0 <= j < cl.len() && cl[j].0 / 256 == addr / 256 && cl[j].1 == kind;
            assert(cl.contains(cl[j]));
        }
    }
    // Clearing all.
    lemma_no_active_pages(cleared);
}

/// On a consistent map, some page is counted exactly when the watch list
/// holds an entry: `has_any_watchpoints` answers whether any watchpoint is
/// set.
pub proof fn law_any_watchpoint_exactly_when_listed(
    pages: Seq<PageEntry>,
    list: Seq<(u16, WatchpointKind)>,
    count: u16,
)
    requires
        watch_consistent(pages, list, count),
    ensures
        (count != 0) <==> (list.len() > 0),
{
    if list.len() > 0 {
        let e = list[0];
        assert(list.contains(e));
        let i = (e.0 / 256) as int;
        assert(listed_on(list, i, e.1));
        assert(watch_flag(pages[i], e.1));
        lemma_active_page_counts(pages, i);
    }
    if count != 0 {
        if forall|i: int| 0 <= i < pages.len() ==> !page_active(#[trigger] pages[i]) {
            lemma_no_active_pages(pages);
        }
        let i = choose|i: int| 0 <= i < pages.len() && page_active(#[trigger] pages[i]);
        if pages[i].watch_read {
            assert(watch_flag(pages[i], WatchpointKind::Read));
            assert(listed_on(list, i, WatchpointKind::Read));
        } else {
            assert(watch_flag(pages[i], WatchpointKind::Write));
            assert(listed_on(list, i, WatchpointKind::Write));
        }
    }
}


/// Remapping lays the bank out contiguously. After remapping `page_count`
/// pages from `start_page` to region `id` at `base` (within the table, and
/// the last page's offset within 16 bits), every address in the remapped
/// range lies `base` plus its distance from the range's start into the
/// bank, so consecutive pages sit 256 bytes apart; pages outside the range
/// are left as they were.
pub proof fn law_remap_lays_the_bank_out_contiguously(
    pages: Seq<PageEntry>,
    start_page: int,
    page_count: int,
    id: RegionId,
    base: int,
    addr: u16,
)
    requires
        pages.len() == 256,
        0 <= start_page,
        0 <= page_count,
        start_page + page_count <= 256,
        0 <= base,
        page_count == 0 || base + (page_count - 1) * 256 <= u16::MAX,
    ensures
        ({
            let r = remap_spec(pages, start_page, page_count, id, base);
            let page = (addr / 256) as int;
            &&& start_page * 256 <= addr < (start_page + page_count) * 256 ==> {
                &&& r[page].region_id == id
                &&& r[page].base_offset + addr % 256 == base + (addr - start_page * 256)
            }
            &&& !(start_page <= page < start_page + page_count) ==> r[page] == pages[page]
        }),
{
    let page = (addr / 256) as int;
    if start_page * 256 <= addr < (start_page + page_count) * 256 {
        assert(start_page <= page < start_page + page_count);
        assert((page - start_page) * 256 + addr % 256 == addr - start_page * 256);
        assert(base + (page - start_page) * 256 <= base + (page_count - 1) * 256) by (nonlinear_arith)
            requires
                page - start_page <= page_count - 1,
        ;
    }
}

} // verus!
