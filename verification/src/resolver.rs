//! The reference/symbol resolver: for every primary class declaration it
//! plans the three accessor routines the rest of the program uses to obtain
//! live runtime handles — the class's own reference, the super-metaclass
//! reference and the superclass reference — plus the per-module image-info
//! record.
//!
//! Each accessor owns one loader-fixed-up storage cell that initially holds
//! the address of an externally declared symbol; the loader supplies the
//! true pointer before any use.  The cell is read with a volatility
//! guarantee (the read must not be cached or reordered across loader
//! fix-up), and the accessor is aggressively inlined except when the owning
//! type is generic, where inlining is suppressed so object-file splitting
//! cannot break references to the section-local cell.

use vstd::prelude::*;

use crate::descriptor::decl_wf;
use crate::descriptor::ClassDescriptor;
use crate::descriptor::Declaration;
use crate::records::Artifact;
use crate::records::ArtifactView;
use crate::records::ImageInfo;
use crate::records::Ptr;
use crate::records::PtrView;
use crate::records::Section;
use crate::records::IMAGE_INFO_FLAGS;
use crate::records::IMAGE_INFO_VERSION;
use crate::symbols::class_ref_symbol;
use crate::symbols::class_symbol;
use crate::symbols::image_info_symbol;
use crate::symbols::metaclass_symbol;
use crate::symbols::super_class_ref_symbol;
use crate::symbols::super_meta_ref_symbol;
use crate::symbols::sym_class;
use crate::symbols::sym_class_ref;
use crate::symbols::sym_image_info;
use crate::symbols::sym_metaclass;
use crate::symbols::sym_super_class_ref;
use crate::symbols::sym_super_meta_ref;

verus! {

/// One planned accessor: its storage cell and how its read and inlining
/// must be compiled.
#[derive(Debug)]
pub struct RefAccessor {
    /// The loader-fixed-up cell, placed in its reference section and marked
    /// so the linker keeps it; its initial value is the address of the
    /// externally declared symbol the loader then replaces.
    pub cell: Artifact<Ptr>,
    /// The read of the cell must not be cached or reordered across loader
    /// fix-up; always true.
    pub volatile: bool,
    /// Whether the accessor may be aggressively inlined; false when the
    /// owning type is generic.
    pub inlined: bool,
}

/// Mathematical form of [`RefAccessor`].
#[verifier::ext_equal]
pub struct RefAccessorView {
    pub cell: ArtifactView<PtrView>,
    pub volatile: bool,
    pub inlined: bool,
}

impl View for RefAccessor {
    type V = RefAccessorView;

    open spec fn view(&self) -> RefAccessorView {
        RefAccessorView { cell: self.cell@, volatile: self.volatile, inlined: self.inlined }
    }
}

/// The accessor cell holding the class's own reference.
pub open spec fn class_ref_view(c: ClassDescriptor) -> RefAccessorView {
    let rn = c.runtime_name();
    RefAccessorView {
        cell: ArtifactView {
            symbol: sym_class_ref(rn),
            section: Section::ClassRefs,
            keep_alive: true,
            value: PtrView::Foreign(sym_class(rn)),
        },
        volatile: true,
        inlined: !c.is_generic,
    }
}

/// The accessor cell used for dispatch through the class's own metaclass,
/// placed in the superclass-reference section.
pub open spec fn super_meta_ref_view(c: ClassDescriptor) -> RefAccessorView {
    let rn = c.runtime_name();
    RefAccessorView {
        cell: ArtifactView {
            symbol: sym_super_meta_ref(rn),
            section: Section::SuperRefs,
            keep_alive: true,
            value: PtrView::Foreign(sym_metaclass(rn)),
        },
        volatile: true,
        inlined: !c.is_generic,
    }
}

/// The accessor cell used for dispatch through the class itself, placed in
/// the superclass-reference section.
pub open spec fn super_class_ref_view(c: ClassDescriptor) -> RefAccessorView {
    let rn = c.runtime_name();
    RefAccessorView {
        cell: ArtifactView {
            symbol: sym_super_class_ref(rn),
            section: Section::SuperRefs,
            keep_alive: true,
            value: PtrView::Foreign(sym_class(rn)),
        },
        volatile: true,
        inlined: !c.is_generic,
    }
}

/// The per-module image-info record: emitted once per module that declares a
/// class, with the fixed flags of this metadata generation.
pub open spec fn image_info_view(c: ClassDescriptor) -> ArtifactView<ImageInfo> {
    ArtifactView {
        symbol: sym_image_info(c.runtime_name()),
        section: Section::ImageInfo,
        keep_alive: true,
        value: ImageInfo { version: IMAGE_INFO_VERSION, flags: IMAGE_INFO_FLAGS },
    }
}

/// Everything the resolver plans for one primary class declaration.
#[derive(Debug)]
pub struct RefArtifacts {
    pub class_ref: RefAccessor,
    pub super_meta_ref: RefAccessor,
    pub super_class_ref: RefAccessor,
    pub image_info: Artifact<ImageInfo>,
}

/// The resolver's full contract.
pub open spec fn ref_artifacts_ok(r: RefArtifacts, c: ClassDescriptor) -> bool {
    &&& r.class_ref@ == class_ref_view(c)
    &&& r.super_meta_ref@ == super_meta_ref_view(c)
    &&& r.super_class_ref@ == super_class_ref_view(c)
    &&& r.image_info@ == image_info_view(c)
}

/// Plans the reference accessors of a declaration: `None` when the
/// declaration overlays a category, which adds no accessors.  A class owned
/// elsewhere still gets its accessors — they reference, never define.
pub fn build_refs(decl: &Declaration) -> (r: Option<RefArtifacts>)
    requires
        decl_wf(*decl),
    ensures
        r is Some <==> decl.category is None,
        (r matches Some(a) ==> ref_artifacts_ok(a, decl.class)),
{
    if decl.category.is_some() {
        return None;
    }
    let c = &decl.class;
    let rn = c.runtime_name_str();
    let rn_str = rn.as_str();
    let inlined = !c.is_generic;

    let class_ref = RefAccessor {
        cell: Artifact {
            symbol: class_ref_symbol(rn_str),
            section: Section::ClassRefs,
            keep_alive: true,
            value: Ptr::Foreign(class_symbol(rn_str)),
        },
        volatile: true,
        inlined,
    };
    let super_meta_ref = RefAccessor {
        cell: Artifact {
            symbol: super_meta_ref_symbol(rn_str),
            section: Section::SuperRefs,
            keep_alive: true,
            value: Ptr::Foreign(metaclass_symbol(rn_str)),
        },
        volatile: true,
        inlined,
    };
    let super_class_ref = RefAccessor {
        cell: Artifact {
            symbol: super_class_ref_symbol(rn_str),
            section: Section::SuperRefs,
            keep_alive: true,
            value: Ptr::Foreign(class_symbol(rn_str)),
        },
        volatile: true,
        inlined,
    };
    let image_info = Artifact {
        symbol: image_info_symbol(rn_str),
        section: Section::ImageInfo,
        keep_alive: true,
        value: ImageInfo { version: IMAGE_INFO_VERSION, flags: IMAGE_INFO_FLAGS },
    };

    Some(RefArtifacts { class_ref, super_meta_ref, super_class_ref, image_info })
}

} // verus!
