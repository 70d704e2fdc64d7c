//! The fixed-layout records the loader consumes, modelled symbolically.
//!
//! Every record is emitted as one named, section-placed, statically-allocated
//! constant with program lifetime.  A pointer-valued field holds the name of
//! the symbol it is resolved to, together with how the linker resolves it:
//! defined in this module, forward-declared and fixed up by the loader, or a
//! weak alias that another module's canonical definition deduplicates.  Field
//! order follows the runtime's ABI layout.

use vstd::prelude::*;

verus! {

/// Byte size of one method-table entry (three pointer-sized fields).
pub const METHOD_ENTRY_SIZE: u32 = 24;

/// Byte size of a category record (seven pointer-sized fields and a
/// four-byte size, padded to pointer alignment).
pub const CATEGORY_RECORD_SIZE: u32 = 64;

/// Descriptor flag: the record describes a metaclass.
pub const RO_META: u32 = 0x01;

/// Descriptor flag: generation marker set on every descriptor this module
/// emits.
pub const RO_IS_ARC: u32 = 0x80;

/// Descriptor flag: the class has synthesized field-lifecycle hooks.
pub const RO_HAS_CXX_STRUCTORS: u32 = 0x04;

/// Descriptor flag: the class has only the destruction hook.
pub const RO_HAS_CXX_DTOR_ONLY: u32 = 0x100;

/// Fixed instance geometry of a metaclass record (five pointer-sized words).
pub const METACLASS_INSTANCE_SIZE: u32 = 40;

/// Version field of the per-module image-info record.
pub const IMAGE_INFO_VERSION: u32 = 0;

/// Default flag word the runtime expects from a module of this metadata
/// generation.
pub const IMAGE_INFO_FLAGS: u32 = 64;

/// The named storage region a constant is placed in.  The loader scans each
/// of these for a specific kind of record, so placement is part of the ABI.
#[derive(Clone, Copy, Debug, PartialEq, Eq, Structural)]
pub enum Section {
    /// Class-name string literals.
    ClassNames,
    /// Selector-name string literals.
    MethodNames,
    /// Encoded-type string literals.
    MethodTypes,
    /// Read-only descriptor records, method tables, protocol lists.
    Const,
    /// Class and metaclass records.
    Data,
    /// The loader-scanned list of classes this module defines.
    ClassList,
    /// The loader-scanned list of categories this module defines.
    CategoryList,
    /// Loader-fixed-up cells holding class references.
    ClassRefs,
    /// Loader-fixed-up cells holding superclass references.
    SuperRefs,
    /// The per-module image-info record.
    ImageInfo,
}

/// A pointer-valued record field: null, or the symbol it resolves to.
#[derive(Debug)]
pub enum Ptr {
    /// The null pointer; the runtime reads absence, not an empty record.
    Null,
    /// A symbol defined in this module.
    Local(String),
    /// A symbol declared elsewhere; the loader or linker supplies it.
    Foreign(String),
    /// A weakly-aliased symbol: never the canonical definition, so the
    /// linker's deduplication keeps another module's authoritative one.
    Weak(String),
}

/// Mathematical form of [`Ptr`].
#[verifier::ext_equal]
pub enum PtrView {
    Null,
    Local(Seq<char>),
    Foreign(Seq<char>),
    Weak(Seq<char>),
}

impl View for Ptr {
    type V = PtrView;

    open spec fn view(&self) -> PtrView {
        match self {
            Ptr::Null => PtrView::Null,
            Ptr::Local(s) => PtrView::Local(s@),
            Ptr::Foreign(s) => PtrView::Foreign(s@),
            Ptr::Weak(s) => PtrView::Weak(s@),
        }
    }
}

/// One named constant: the symbol it is exported under, the storage region
/// it is placed in, whether the region is marked so the linker must not
/// dead-strip it, and its payload.
#[derive(Debug)]
pub struct Artifact<T> {
    pub symbol: String,
    pub section: Section,
    /// True for constants the loader discovers by scanning their section
    /// rather than through program references.
    pub keep_alive: bool,
    pub value: T,
}

/// Mathematical form of [`Artifact`].
#[verifier::ext_equal]
pub struct ArtifactView<V> {
    pub symbol: Seq<char>,
    pub section: Section,
    pub keep_alive: bool,
    pub value: V,
}

impl<T: View> View for Artifact<T> {
    type V = ArtifactView<T::V>;

    open spec fn view(&self) -> ArtifactView<T::V> {
        ArtifactView {
            symbol: self.symbol@,
            section: self.section,
            keep_alive: self.keep_alive,
            value: self.value@,
        }
    }
}

/// One method-table entry: the selector-name literal, the encoded-type
/// literal, and the implementation entry point.
#[derive(Debug)]
pub struct MethodEntry {
    /// Points at the NUL-terminated selector-name literal.
    pub name: Ptr,
    /// Points at the NUL-terminated encoded-type literal.
    pub types: Ptr,
    /// Identifier of the implementation entry point the entry dispatches to.
    pub imp: String,
}

/// Mathematical form of [`MethodEntry`].
#[verifier::ext_equal]
pub struct MethodEntryView {
    pub name: PtrView,
    pub types: PtrView,
    pub imp: Seq<char>,
}

impl View for MethodEntry {
    type V = MethodEntryView;

    open spec fn view(&self) -> MethodEntryView {
        MethodEntryView { name: self.name@, types: self.types@, imp: self.imp@ }
    }
}

/// A counted, fixed-length method table with its entry-size header.  A table
/// is only ever emitted with at least one entry: zero methods collapse to a
/// null pointer instead.
#[derive(Debug)]
pub struct MethodTable {
    /// Byte size of one entry: always [`METHOD_ENTRY_SIZE`].
    pub entsize: u32,
    /// Number of entries; equals `entries.len()`.
    pub count: u32,
    pub entries: Vec<MethodEntry>,
}

/// Mathematical form of [`MethodTable`].
#[verifier::ext_equal]
pub struct MethodTableView {
    pub entsize: u32,
    pub count: u32,
    pub entries: Seq<MethodEntryView>,
}

impl View for MethodTable {
    type V = MethodTableView;

    open spec fn view(&self) -> MethodTableView {
        MethodTableView {
            entsize: self.entsize,
            count: self.count,
            entries: self.entries@.map_values(|e: MethodEntry| e@),
        }
    }
}

/// The empty method cache every fresh class record starts with; the runtime
/// fills it at dispatch time.
#[derive(Debug)]
pub struct CacheInit {
    /// Points at the runtime's shared empty-cache sentinel.
    pub buckets: Ptr,
    pub mask: u32,
    pub occupied: u32,
}

/// Mathematical form of [`CacheInit`].
#[verifier::ext_equal]
pub struct CacheInitView {
    pub buckets: PtrView,
    pub mask: u32,
    pub occupied: u32,
}

impl View for CacheInit {
    type V = CacheInitView;

    open spec fn view(&self) -> CacheInitView {
        CacheInitView { buckets: self.buckets@, mask: self.mask, occupied: self.occupied }
    }
}

/// The read-only descriptor record shared by a class and its metaclass
/// shape: flags, instance geometry, and the pointers to the name literal,
/// method table and ivar list.  Property lists and weak-ivar layout are
/// always emitted null: their synthesis is out of scope, and null is what
/// the runtime accepts for "none".
#[derive(Debug)]
pub struct ClassRo {
    pub flags: u32,
    pub instance_start: u32,
    pub instance_size: u32,
    pub ivar_layout: Ptr,
    pub name: Ptr,
    pub base_method_list: Ptr,
    pub base_protocols: Ptr,
    pub ivars: Ptr,
    pub weak_ivar_layout: Ptr,
    pub base_properties: Ptr,
}

/// Mathematical form of [`ClassRo`].
#[verifier::ext_equal]
pub struct ClassRoView {
    pub flags: u32,
    pub instance_start: u32,
    pub instance_size: u32,
    pub ivar_layout: PtrView,
    pub name: PtrView,
    pub base_method_list: PtrView,
    pub base_protocols: PtrView,
    pub ivars: PtrView,
    pub weak_ivar_layout: PtrView,
    pub base_properties: PtrView,
}

impl View for ClassRo {
    type V = ClassRoView;

    open spec fn view(&self) -> ClassRoView {
        ClassRoView {
            flags: self.flags,
            instance_start: self.instance_start,
            instance_size: self.instance_size,
            ivar_layout: self.ivar_layout@,
            name: self.name@,
            base_method_list: self.base_method_list@,
            base_protocols: self.base_protocols@,
            ivars: self.ivars@,
            weak_ivar_layout: self.weak_ivar_layout@,
            base_properties: self.base_properties@,
        }
    }
}

/// The outer class or metaclass record: its own class pointer, superclass
/// pointer, an empty method cache, and the pointer to its read-only
/// descriptor.
#[derive(Debug)]
pub struct ObjcClass {
    pub isa: Ptr,
    pub superclass: Ptr,
    pub cache: CacheInit,
    pub bits: Ptr,
}

/// Mathematical form of [`ObjcClass`].
#[verifier::ext_equal]
pub struct ObjcClassView {
    pub isa: PtrView,
    pub superclass: PtrView,
    pub cache: CacheInitView,
    pub bits: PtrView,
}

impl View for ObjcClass {
    type V = ObjcClassView;

    open spec fn view(&self) -> ObjcClassView {
        ObjcClassView {
            isa: self.isa@,
            superclass: self.superclass@,
            cache: self.cache@,
            bits: self.bits@,
        }
    }
}

/// A counted protocol-conformance list; the trailing null entry of the
/// binary layout is implied.
#[derive(Debug)]
pub struct ProtocolList {
    /// Number of entries; equals `protocols.len()`.
    pub count: u32,
    pub protocols: Vec<Ptr>,
}

/// Mathematical form of [`ProtocolList`].
#[verifier::ext_equal]
pub struct ProtocolListView {
    pub count: u32,
    pub protocols: Seq<PtrView>,
}

impl View for ProtocolList {
    type V = ProtocolListView;

    open spec fn view(&self) -> ProtocolListView {
        ProtocolListView {
            count: self.count,
            protocols: self.protocols@.map_values(|p: Ptr| p@),
        }
    }
}

/// An anonymous category record: binds method tables and a protocol list to
/// an externally-declared class.  Property lists are always null.
#[derive(Debug)]
pub struct CategoryRecord {
    pub name: Ptr,
    pub cls: Ptr,
    pub instance_methods: Ptr,
    pub class_methods: Ptr,
    pub protocols: Ptr,
    pub instance_properties: Ptr,
    pub class_properties: Ptr,
    /// Byte size of this record: always [`CATEGORY_RECORD_SIZE`].
    pub size: u32,
}

/// Mathematical form of [`CategoryRecord`].
#[verifier::ext_equal]
pub struct CategoryRecordView {
    pub name: PtrView,
    pub cls: PtrView,
    pub instance_methods: PtrView,
    pub class_methods: PtrView,
    pub protocols: PtrView,
    pub instance_properties: PtrView,
    pub class_properties: PtrView,
    pub size: u32,
}

impl View for CategoryRecord {
    type V = CategoryRecordView;

    open spec fn view(&self) -> CategoryRecordView {
        CategoryRecordView {
            name: self.name@,
            cls: self.cls@,
            instance_methods: self.instance_methods@,
            class_methods: self.class_methods@,
            protocols: self.protocols@,
            instance_properties: self.instance_properties@,
            class_properties: self.class_properties@,
            size: self.size,
        }
    }
}

/// The per-module image-info record carrying the fixed default flags of this
/// metadata generation.
#[derive(Clone, Copy, Debug, PartialEq, Eq, Structural)]
pub struct ImageInfo {
    pub version: u32,
    pub flags: u32,
}

impl View for ImageInfo {
    type V = ImageInfo;

    open spec fn view(&self) -> ImageInfo {
        *self
    }
}

} // verus!
