//! The per-thread frame table of the emitted profile, with plain-data
//! models of the interning tables it writes through: each distinct frame is
//! stored once, its columns filled from its location and category.
use vstd::prelude::*;

use crate::markers::CategoryHandle;
use crate::text::{hex_str, push_hex, str_eq};

verus! {

/// A handle to a string interned in a thread's string table.
#[derive(Debug, Clone, Copy, PartialEq, Eq, Structural)]
pub struct ThreadInternalStringIndex(pub u32);

/// A handle to a library in the global library table.
#[derive(Debug, Clone, Copy, PartialEq, Eq, Structural)]
pub struct GlobalLibIndex(pub u32);

/// A handle to a function in a thread's function table.
#[derive(Debug, Clone, Copy, PartialEq, Eq, Structural)]
pub struct FuncIndex(pub u32);

/// A handle to a resource row made for a library.
#[derive(Debug, Clone, Copy, PartialEq, Eq, Structural)]
pub struct ResourceIndex(pub u32);

/// A category with an optional subcategory index.
#[derive(Debug, Clone, Copy, PartialEq, Eq, Structural)]
pub struct CategoryPairHandle(pub CategoryHandle, pub Option<u32>);

/// A frame's subcategory column entry.
#[derive(Debug, Clone, Copy, PartialEq, Eq, Structural)]
pub enum Subcategory {
    Normal(u32),
    Other(CategoryHandle),
}

/// Where a frame points: a bare address, an address within a known
/// library, or a plain label.
#[derive(Debug, Clone, Copy, PartialEq, Eq, Structural)]
pub enum InternalFrameLocation {
    UnknownAddress(u64),
    AddressInLib(u32, GlobalLibIndex),
    Label(ThreadInternalStringIndex),
}

/// A frame as the consumer dedups it: location and category pair.
#[derive(Debug, Clone, Copy, PartialEq, Eq, Structural)]
pub struct InternalFrame {
    pub location: InternalFrameLocation,
    pub category_pair: CategoryPairHandle,
}

/// A thread's string interner.
#[derive(Debug)]
pub struct ThreadStringTable {
    strings: Vec<String>,
}

impl ThreadStringTable {
    pub closed spec fn view(&self) -> Seq<String> {
        self.strings@
    }

    pub fn new() -> (r: Self)
        ensures
            r.view().len() == 0,
    {
        ThreadStringTable { strings: Vec::new() }
    }

    /// Interns a string: an already-interned string keeps its index.
    pub fn index_for_string(&mut self, s: &str) -> (r: ThreadInternalStringIndex)
        requires
            old(self).view().len() < 0xFFFF_FFFF,
        ensures
            final(self).view().len() >= old(self).view().len(),
            final(self).view().len() <= old(self).view().len() + 1,
            r.0 < final(self).view().len(),
            final(self).view()[r.0 as int]@ == s@,
            final(self).view().subrange(0, old(self).view().len() as int) == old(self).view(),
            forall|j: int| 0 <= j < r.0 ==> (#[trigger] final(self).view()[j])@ != s@,
    {
        let mut i: usize = 0;
        while i < self.strings.len()
            invariant
                i <= self.strings@.len(),
                self.strings@.len() < 0xFFFF_FFFF,
                self == old(self),
                forall|j: int| 0 <= j < i ==> (#[trigger] self.strings@[j])@ != s@,
            decreases self.strings@.len() - i,
        {
            if str_eq(&self.strings[i], s) {
                proof {
                    assert(self.strings@.subrange(0, self.strings@.len() as int) =~= self.strings@);
                }
                return ThreadInternalStringIndex(i as u32);
            }
            i = i + 1;
        }
        let h = self.strings.len() as u32;
        let ghost before = self.strings@;
        self.strings.push(s.to_owned());
        proof {
            assert(self.strings@.subrange(0, before.len() as int) =~= before);
        }
        ThreadInternalStringIndex(h)
    }
}

/// The global library table, as far as resources read it.
#[derive(Debug)]
pub struct GlobalLibTable {
    pub libs: Vec<GlobalLibIndex>,
}

/// The per-thread resource table: one resource row per distinct library.
#[derive(Debug)]
pub struct ResourceTable {
    libs: Vec<GlobalLibIndex>,
}

impl ResourceTable {
    pub closed spec fn view(&self) -> Seq<GlobalLibIndex> {
        self.libs@
    }

    pub fn new() -> (r: Self)
        ensures
            r.view().len() == 0,
    {
        ResourceTable { libs: Vec::new() }
    }

    /// The resource row for a library, created on first sight.
    pub fn resource_for_lib(&mut self, lib: GlobalLibIndex, _global_libs: &GlobalLibTable) -> (r:
        ResourceIndex)
        requires
            old(self).view().len() < 0xFFFF_FFFF,
        ensures
            final(self).view().len() >= old(self).view().len(),
            final(self).view().len() <= old(self).view().len() + 1,
            r.0 < final(self).view().len(),
            final(self).view()[r.0 as int] == lib,
            final(self).view().subrange(0, old(self).view().len() as int) == old(self).view(),
            forall|j: int| 0 <= j < r.0 ==> #[trigger] final(self).view()[j] != lib,
    {
        let mut i: usize = 0;
        while i < self.libs.len()
            invariant
                i <= self.libs@.len(),
                self.libs@.len() < 0xFFFF_FFFF,
                self == old(self),
                forall|j: int| 0 <= j < i ==> #[trigger] self.libs@[j] != lib,
            decreases self.libs@.len() - i,
        {
            if self.libs[i] == lib {
                proof {
                    assert(self.libs@.subrange(0, self.libs@.len() as int) =~= self.libs@);
                }
                return ResourceIndex(i as u32);
            }
            i = i + 1;
        }
        let h = self.libs.len() as u32;
        let ghost before = self.libs@;
        self.libs.push(lib);
        proof {
            assert(self.libs@.subrange(0, before.len() as int) =~= before);
        }
        ResourceIndex(h)
    }
}

/// The per-thread function table: one row per distinct name and resource.
#[derive(Debug)]
pub struct FuncTable {
    funcs: Vec<(ThreadInternalStringIndex, Option<ResourceIndex>)>,
}

impl FuncTable {
    pub closed spec fn view(&self) -> Seq<(ThreadInternalStringIndex, Option<ResourceIndex>)> {
        self.funcs@
    }

    pub fn new() -> (r: Self)
        ensures
            r.view().len() == 0,
    {
        FuncTable { funcs: Vec::new() }
    }

    /// The function row for a name and resource, created on first sight.
    pub fn index_for_func(
        &mut self,
        name: ThreadInternalStringIndex,
        resource: Option<ResourceIndex>,
    ) -> (r: FuncIndex)
        requires
            old(self).view().len() < 0xFFFF_FFFF,
        ensures
            final(self).view().len() >= old(self).view().len(),
            final(self).view().len() <= old(self).view().len() + 1,
            r.0 < final(self).view().len(),
            final(self).view()[r.0 as int] == (name, resource),
            final(self).view().subrange(0, old(self).view().len() as int) == old(self).view(),
            forall|j: int| 0 <= j < r.0 ==> #[trigger] final(self).view()[j] != (name, resource),
    {
        let mut i: usize = 0;
        while i < self.funcs.len()
            invariant
                i <= self.funcs@.len(),
                self.funcs@.len() < 0xFFFF_FFFF,
                self == old(self),
                forall|j: int| 0 <= j < i ==> #[trigger] self.funcs@[j] != (name, resource),
            decreases self.funcs@.len() - i,
        {
            let (n2, r2) = self.funcs[i];
            if n2 == name && match (r2, resource) {
                (None, None) => true,
                (Some(a), Some(b)) => a == b,
                _ => false,
            } {
                proof {
                    assert(self.funcs@.subrange(0, self.funcs@.len() as int) =~= self.funcs@);
                    assert(self.funcs@[i as int] == (name, resource));
                }
                return FuncIndex(i as u32);
            }
            i = i + 1;
        }
        let h = self.funcs.len() as u32;
        let ghost before = self.funcs@;
        self.funcs.push((name, resource));
        proof {
            assert(self.funcs@.subrange(0, before.len() as int) =~= before);
        }
        FuncIndex(h)
    }
}

/// The hexadecimal label a bare address is shown under.
pub open spec fn address_label(addr: int) -> Seq<char> {
    "0x"@ + hex_str(addr)
}

/// The frame table: parallel columns, one row per distinct frame.
#[derive(Debug)]
pub struct FrameTable {
    addresses: Vec<Option<u32>>,
    categories: Vec<CategoryHandle>,
    subcategories: Vec<Subcategory>,
    funcs: Vec<FuncIndex>,
    frames: Vec<InternalFrame>,
}

impl FrameTable {
    /// The frames, in insertion order; row `i` of every column belongs to
    /// frame `i`.
    pub closed spec fn view(&self) -> Seq<InternalFrame> {
        self.frames@
    }

    /// The address column.
    pub closed spec fn addresses_view(&self) -> Seq<Option<u32>> {
        self.addresses@
    }

    /// The category column.
    pub closed spec fn categories_view(&self) -> Seq<CategoryHandle> {
        self.categories@
    }

    /// The subcategory column.
    pub closed spec fn subcategories_view(&self) -> Seq<Subcategory> {
        self.subcategories@
    }

    /// The function column.
    pub closed spec fn funcs_view(&self) -> Seq<FuncIndex> {
        self.funcs@
    }

    /// All columns hold one row per frame, each row filled from its frame.
    pub closed spec fn wf(&self) -> bool {
        &&& self.addresses@.len() == self.frames@.len()
        &&& self.categories@.len() == self.frames@.len()
        &&& self.subcategories@.len() == self.frames@.len()
        &&& self.funcs@.len() == self.frames@.len()
        &&& forall|i: int|
            0 <= i < self.frames@.len() ==> frame_row_ok(
                #[trigger] self.frames@[i],
                self.addresses@[i],
                self.categories@[i],
                self.subcategories@[i],
            )
    }

    pub fn new() -> (r: Self)
        ensures
            r.wf(),
            r.view().len() == 0,
    {
        FrameTable {
            addresses: Vec::new(),
            categories: Vec::new(),
            subcategories: Vec::new(),
            funcs: Vec::new(),
            frames: Vec::new(),
        }
    }

    /// The row of a frame, inserting it on first sight: a repeated frame
    /// keeps its row and changes nothing; a new frame fills one row of
    /// every column from its location and category pair.
    pub fn index_for_frame(
        &mut self,
        string_table: &mut ThreadStringTable,
        resource_table: &mut ResourceTable,
        func_table: &mut FuncTable,
        global_libs: &GlobalLibTable,
        frame: InternalFrame,
    ) -> (r: usize)
        requires
            old(self).wf(),
            old(self).view().len() < 0xFFFF_FFFF,
            old(string_table).view().len() < 0xFFFF_FFFF,
            old(resource_table).view().len() < 0xFFFF_FFFF,
            old(func_table).view().len() < 0xFFFF_FFFF,
        ensures
            final(self).wf(),
            r < final(self).view().len(),
            final(self).view()[r as int] == frame,
            final(self).categories_view()[r as int] == frame.category_pair.0,
            (match frame.category_pair.1 {
                Some(sub) => final(self).subcategories_view()[r as int] == Subcategory::Normal(sub),
                None => final(self).subcategories_view()[r as int] == Subcategory::Other(
                    frame.category_pair.0,
                ),
            }),
            (match frame.location {
                InternalFrameLocation::AddressInLib(a, _) => final(self).addresses_view()[
                    r as int] == Some(a),
                _ => final(self).addresses_view()[r as int] is None,
            }),
            has_frame(old(self).view(), frame) ==> (*final(self) == *old(self)
                && *final(string_table) == *old(string_table) && *final(resource_table)
                == *old(resource_table) && *final(func_table) == *old(func_table)),
            !has_frame(old(self).view(), frame) ==> (r == old(self).view().len() && final(self).view() == old(self).view().push(frame)),
    {
        let mut i: usize = 0;
        while i < self.frames.len()
            invariant
                i <= self.frames@.len(),
                self == old(self),
                old(self).wf(),
                forall|j: int| 0 <= j < i ==> #[trigger] self.frames@[j] != frame,
            decreases self.frames@.len() - i,
        {
            if self.frames[i] == frame {
                proof {
                    assert(has_frame(self.frames@, frame));
                }
                return i;
            }
            i = i + 1;
        }
        proof {
            if has_frame(self.frames@, frame) {
                let w = choose|w: int| 0 <= w < self.frames@.len() && self.frames@[w] == frame;
                assert(false);
            }
        }
        let frame_index = self.frames.len();
        let (address, location_string_index, resource) = match frame.location {
            InternalFrameLocation::UnknownAddress(address) => {
                let mut label = "0x".to_owned();
                push_hex(address, &mut label);
                let s = string_table.index_for_string(label.as_str());
                (None, s, None)
            },
            InternalFrameLocation::AddressInLib(address, lib_index) => {
                let mut label = "0x".to_owned();
                push_hex(address as u64, &mut label);
                let s = string_table.index_for_string(label.as_str());
                let res = resource_table.resource_for_lib(lib_index, global_libs);
                (Some(address), s, Some(res))
            },
            InternalFrameLocation::Label(string_index) => (None, string_index, None),
        };
        let func_index = func_table.index_for_func(location_string_index, resource);
        let subcategory = match frame.category_pair.1 {
            Some(index) => Subcategory::Normal(index),
            None => Subcategory::Other(frame.category_pair.0),
        };
        let ghost before = self.frames@;
        self.addresses.push(address);
        self.categories.push(frame.category_pair.0);
        self.subcategories.push(subcategory);
        self.funcs.push(func_index);
        self.frames.push(frame);
        frame_index
    }
}

/// One column row agrees with its frame: the category, the subcategory
/// derived from the pair, and the address only for a within-library frame.
pub open spec fn frame_row_ok(
    f: InternalFrame,
    addr: Option<u32>,
    cat: CategoryHandle,
    sub: Subcategory,
) -> bool {
    &&& cat == f.category_pair.0
    &&& (match f.category_pair.1 {
        Some(s) => sub == Subcategory::Normal(s),
        None => sub == Subcategory::Other(f.category_pair.0),
    })
    &&& (match f.location {
        InternalFrameLocation::AddressInLib(a, _) => addr == Some(a),
        _ => addr is None,
    })
}

/// Whether a frame already has a row.
pub open spec fn has_frame(frames: Seq<InternalFrame>, f: InternalFrame) -> bool {
    exists|i: int| 0 <= i < frames.len() && frames[i] == f
}

} // verus!
