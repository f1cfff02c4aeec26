//! The profile markers the consumer emits for GC activity, together with a
//! plain-data model of the profile schema types they fill in and of the
//! profile's string interner.
use vstd::prelude::*;

use crate::text::str_eq;

verus! {

/// A handle to an interned profile string: its index in the interner.
#[derive(Debug, Clone, Copy, PartialEq, Eq, Structural)]
pub struct StringHandle(pub u32);

/// A handle to a marker category.
#[derive(Debug, Clone, Copy, PartialEq, Eq, Structural)]
pub struct CategoryHandle(pub u32);

/// Where a marker is shown.
#[derive(Debug, Clone, Copy, PartialEq, Eq, Structural)]
pub enum MarkerLocation {
    MarkerChart,
    MarkerTable,
    TimelineMemory,
}

/// How a marker field is formatted.
#[derive(Debug, Clone, Copy, PartialEq, Eq, Structural)]
pub enum MarkerFieldFormat {
    FormatString,
    FormatBytes,
    FormatInteger,
}

/// One dynamic field of a marker schema.
#[derive(Debug)]
pub struct MarkerFieldSchema {
    pub key: String,
    pub label: String,
    pub format: MarkerFieldFormat,
    pub searchable: bool,
}

/// One static field of a marker schema.
#[derive(Debug)]
pub struct MarkerStaticField {
    pub label: String,
    pub value: String,
}

/// A marker schema: its unique name, where it shows, its labels and
/// fields.
#[derive(Debug)]
pub struct MarkerSchema {
    pub marker_kind: String,
    pub locations: Vec<MarkerLocation>,
    pub chart_label: Option<String>,
    pub tooltip_label: Option<String>,
    pub table_label: Option<String>,
    pub fields: Vec<MarkerFieldSchema>,
    pub static_fields: Vec<MarkerStaticField>,
}

/// The profile's string interner, as far as the markers use it: a list of
/// interned strings addressed by handle.
#[derive(Debug)]
pub struct Profile {
    strings: Vec<String>,
}

impl Profile {
    /// The interned strings by handle index.
    pub closed spec fn view(&self) -> Seq<String> {
        self.strings@
    }

    pub fn new() -> (r: Self)
        ensures
            r.view().len() == 0,
    {
        Profile { strings: Vec::new() }
    }

    /// Interns a string and returns its handle; an already-interned string
    /// keeps its handle.
    pub fn intern_string(&mut self, s: &str) -> (r: StringHandle)
        requires
            old(self).view().len() < 0xFFFF_FFFF,
        ensures
            final(self).view().len() >= old(self).view().len(),
            final(self).view().len() <= old(self).view().len() + 1,
            r.0 < final(self).view().len(),
            final(self).view()[r.0 as int]@ == s@,
            final(self).view().subrange(0, old(self).view().len() as int) == old(self).view(),
            crate::string_table::has_string(old(self).view(), s@) ==> final(self).view() == old(
                self,
            ).view(),
            forall|j: int| 0 <= j < r.0 ==> (#[trigger] final(self).view()[j])@ != s@,
    {
        let mut i: usize = 0;
        let ghost before = self.strings@;
        while i < self.strings.len()
            invariant
                i <= self.strings@.len(),
                self.strings@.len() < 0xFFFF_FFFF,
                self == old(self),
                forall|j: int| 0 <= j < i ==> (#[trigger] self.strings@[j])@ != s@,
            decreases self.strings@.len() - i,
        {
            if str_eq(&self.strings[i], s) {
                proof {
                    assert(self.strings@.subrange(0, self.strings@.len() as int) =~= self.strings@);
                }
                return StringHandle(i as u32);
            }
            i = i + 1;
        }
        let h = self.strings.len() as u32;
        self.strings.push(s.to_owned());
        proof {
            assert(self.strings@.subrange(0, before.len() as int) =~= before);
        }
        StringHandle(h)
    }
}

/// An allocation-tick marker: the allocated type, the total size, and the
/// object count.
#[derive(Debug, Clone, Copy)]
pub struct CoreClrGcAllocTickMarker(pub StringHandle, pub usize, pub usize, pub CategoryHandle);

impl CoreClrGcAllocTickMarker {
    /// The marker's schema: a searchable type field, a bytes field and a
    /// count field.
    pub fn schema() -> (r: MarkerSchema)
        ensures
            r.marker_kind@ == "GC Alloc Tick"@,
            r.locations@.len() == 3,
            r.chart_label matches Some(l) && l@ == "GC Alloc"@,
            r.table_label matches Some(l) && l@ == "GC Alloc"@,
            r.fields@.len() == 3,
            r.static_fields@.len() == 1,
    {
        let mut locations: Vec<MarkerLocation> = Vec::new();
        locations.push(MarkerLocation::MarkerChart);
        locations.push(MarkerLocation::MarkerTable);
        locations.push(MarkerLocation::TimelineMemory);
        let mut fields: Vec<MarkerFieldSchema> = Vec::new();
        fields.push(MarkerFieldSchema {
            key: "clrtype".to_owned(),
            label: "CLR Type".to_owned(),
            format: MarkerFieldFormat::FormatString,
            searchable: true,
        });
        fields.push(MarkerFieldSchema {
            key: "size".to_owned(),
            label: "Total size of all objects".to_owned(),
            format: MarkerFieldFormat::FormatBytes,
            searchable: false,
        });
        fields.push(MarkerFieldSchema {
            key: "objcount".to_owned(),
            label: "Number of objects allocated".to_owned(),
            format: MarkerFieldFormat::FormatInteger,
            searchable: false,
        });
        let mut static_fields: Vec<MarkerStaticField> = Vec::new();
        static_fields.push(MarkerStaticField {
            label: "Description".to_owned(),
            value: "CoreCLR GC Allocation Tick".to_owned(),
        });
        MarkerSchema {
            marker_kind: "GC Alloc Tick".to_owned(),
            locations,
            chart_label: Some("GC Alloc".to_owned()),
            tooltip_label: Some(
                "GC Alloc: {marker.data.clrtype} ({marker.data.size} bytes)".to_owned(),
            ),
            table_label: Some("GC Alloc".to_owned()),
            fields,
            static_fields,
        }
    }

    /// The marker's display name, interned.
    pub fn name(&self, profile: &mut Profile) -> (r: StringHandle)
        requires
            old(profile).view().len() < 0xFFFF_FFFF,
        ensures
            r.0 < final(profile).view().len(),
            final(profile).view()[r.0 as int]@ == "GC Alloc Tick"@,
    {
        profile.intern_string("GC Alloc Tick")
    }

    pub fn category(&self, _profile: &mut Profile) -> (r: CategoryHandle)
        ensures
            r == self.3,
    {
        self.3
    }

    pub fn string_field_value(&self, _field_index: u32) -> (r: StringHandle)
        ensures
            r == self.0,
    {
        self.0
    }
}

/// A sampled-allocation marker: the allocated type and size.
#[derive(Debug, Clone, Copy)]
pub struct CoreClrGcAllocMarker(pub StringHandle, pub usize, pub CategoryHandle);

impl CoreClrGcAllocMarker {
    /// The marker's schema: a searchable type field and a bytes field.
    pub fn schema() -> (r: MarkerSchema)
        ensures
            r.marker_kind@ == "GC Alloc"@,
            r.locations@.len() == 3,
            r.fields@.len() == 2,
            r.static_fields@.len() == 1,
    {
        let mut locations: Vec<MarkerLocation> = Vec::new();
        locations.push(MarkerLocation::MarkerChart);
        locations.push(MarkerLocation::MarkerTable);
        locations.push(MarkerLocation::TimelineMemory);
        let mut fields: Vec<MarkerFieldSchema> = Vec::new();
        fields.push(MarkerFieldSchema {
            key: "clrtype".to_owned(),
            label: "CLR Type".to_owned(),
            format: MarkerFieldFormat::FormatString,
            searchable: true,
        });
        fields.push(MarkerFieldSchema {
            key: "size".to_owned(),
            label: "Size".to_owned(),
            format: MarkerFieldFormat::FormatBytes,
            searchable: false,
        });
        let mut static_fields: Vec<MarkerStaticField> = Vec::new();
        static_fields.push(MarkerStaticField {
            label: "Description".to_owned(),
            value: "GC Allocation".to_owned(),
        });
        MarkerSchema {
            marker_kind: "GC Alloc".to_owned(),
            locations,
            chart_label: Some("GC Alloc".to_owned()),
            tooltip_label: Some(
                "GC Alloc: {marker.data.clrtype} ({marker.data.size} bytes)".to_owned(),
            ),
            table_label: Some("GC Alloc".to_owned()),
            fields,
            static_fields,
        }
    }

    /// The marker's display name, interned.
    pub fn name(&self, profile: &mut Profile) -> (r: StringHandle)
        requires
            old(profile).view().len() < 0xFFFF_FFFF,
        ensures
            r.0 < final(profile).view().len(),
            final(profile).view()[r.0 as int]@ == "GC Alloc"@,
    {
        profile.intern_string("GC Alloc")
    }

    pub fn category(&self, _profile: &mut Profile) -> (r: CategoryHandle)
        ensures
            r == self.2,
    {
        self.2
    }

    pub fn string_field_value(&self, _field_index: u32) -> (r: StringHandle)
        ensures
            r == self.0,
    {
        self.0
    }
}

/// A generic GC event marker: a name and a description string.
#[derive(Debug, Clone, Copy)]
pub struct CoreClrGcEventMarker(pub StringHandle, pub StringHandle, pub CategoryHandle);

impl CoreClrGcEventMarker {
    /// The marker's schema: one searchable event field.
    pub fn schema() -> (r: MarkerSchema)
        ensures
            r.marker_kind@ == "GC Event"@,
            r.locations@.len() == 3,
            r.fields@.len() == 1,
            r.static_fields@.len() == 1,
    {
        let mut locations: Vec<MarkerLocation> = Vec::new();
        locations.push(MarkerLocation::MarkerChart);
        locations.push(MarkerLocation::MarkerTable);
        locations.push(MarkerLocation::TimelineMemory);
        let mut fields: Vec<MarkerFieldSchema> = Vec::new();
        fields.push(MarkerFieldSchema {
            key: "event".to_owned(),
            label: "Event".to_owned(),
            format: MarkerFieldFormat::FormatString,
            searchable: true,
        });
        let mut static_fields: Vec<MarkerStaticField> = Vec::new();
        static_fields.push(MarkerStaticField {
            label: "Description".to_owned(),
            value: "CoreCLR GC Event".to_owned(),
        });
        MarkerSchema {
            marker_kind: "GC Event".to_owned(),
            locations,
            chart_label: Some("{marker.data.event}".to_owned()),
            tooltip_label: Some("{marker.data.event}".to_owned()),
            table_label: Some("{marker.data.event}".to_owned()),
            fields,
            static_fields,
        }
    }

    /// The marker's display name: its own first handle.
    pub fn name(&self, _profile: &mut Profile) -> (r: StringHandle)
        ensures
            r == self.0,
    {
        self.0
    }

    pub fn category(&self, _profile: &mut Profile) -> (r: CategoryHandle)
        ensures
            r == self.2,
    {
        self.2
    }

    pub fn string_field_value(&self, _field_index: u32) -> (r: StringHandle)
        ensures
            r == self.1,
    {
        self.1
    }
}

/// A bare GC marker.
#[derive(Debug, Clone, Copy)]
pub struct CoreClrGcMarker(pub CategoryHandle);

impl CoreClrGcMarker {
    /// The marker's schema: no dynamic fields.
    pub fn schema() -> (r: MarkerSchema)
        ensures
            r.marker_kind@ == "GC"@,
            r.locations@.len() == 3,
            r.fields@.len() == 0,
            r.static_fields@.len() == 1,
    {
        let mut locations: Vec<MarkerLocation> = Vec::new();
        locations.push(MarkerLocation::MarkerChart);
        locations.push(MarkerLocation::MarkerTable);
        locations.push(MarkerLocation::TimelineMemory);
        let mut static_fields: Vec<MarkerStaticField> = Vec::new();
        static_fields.push(MarkerStaticField {
            label: "Description".to_owned(),
            value: "CoreCLR GC".to_owned(),
        });
        MarkerSchema {
            marker_kind: "GC".to_owned(),
            locations,
            chart_label: Some("GC".to_owned()),
            tooltip_label: Some("GC".to_owned()),
            table_label: Some("GC".to_owned()),
            fields: Vec::new(),
            static_fields,
        }
    }

    /// The marker's display name, interned.
    pub fn name(&self, profile: &mut Profile) -> (r: StringHandle)
        requires
            old(profile).view().len() < 0xFFFF_FFFF,
        ensures
            r.0 < final(profile).view().len(),
            final(profile).view()[r.0 as int]@ == "GC"@,
    {
        profile.intern_string("GC")
    }

    pub fn category(&self, _profile: &mut Profile) -> (r: CategoryHandle)
        ensures
            r == self.0,
    {
        self.0
    }
}

} // verus!
