//! The class-record builder: for a primary, locally-owned class declaration
//! it composes the class-name literal, the metaclass and class records with
//! their shared read-only descriptors, the method tables of both receiver
//! kinds, and the label cell whose presence in the loader-scanned class list
//! registers the class at image-load time.

use vstd::prelude::*;

use crate::descriptor::decl_wf;
use crate::descriptor::ClassDescriptor;
use crate::descriptor::Declaration;
use crate::encode::cstr;
use crate::method_table::build_method_table;
use crate::method_table::table_artifacts_ok;
use crate::method_table::table_pointer;
use crate::method_table::table_ptr;
use crate::method_table::TableArtifacts;
use crate::records::Artifact;
use crate::records::ArtifactView;
use crate::records::CacheInit;
use crate::records::CacheInitView;
use crate::records::ClassRo;
use crate::records::ClassRoView;
use crate::records::ObjcClass;
use crate::records::ObjcClassView;
use crate::records::Ptr;
use crate::records::PtrView;
use crate::records::Section;
use crate::records::METACLASS_INSTANCE_SIZE;
use crate::records::RO_HAS_CXX_DTOR_ONLY;
use crate::records::RO_HAS_CXX_STRUCTORS;
use crate::records::RO_IS_ARC;
use crate::records::RO_META;
use crate::symbols::class_name_literal_symbol;
use crate::symbols::class_ro_symbol;
use crate::symbols::class_symbol;
use crate::symbols::empty_cache_symbol;
use crate::symbols::ivar_list_symbol;
use crate::symbols::label_class_symbol;
use crate::symbols::metaclass_ro_symbol;
use crate::symbols::metaclass_symbol;
use crate::symbols::sym_class;
use crate::symbols::sym_class_name_literal;
use crate::symbols::sym_class_ro;
use crate::symbols::sym_empty_cache;
use crate::symbols::sym_ivar_list;
use crate::symbols::sym_label_class;
use crate::symbols::sym_metaclass;
use crate::symbols::sym_metaclass_ro;

verus! {

/// The empty method cache a fresh record starts with: the runtime's shared
/// sentinel buckets, nothing masked, nothing occupied.
pub open spec fn empty_cache_view() -> CacheInitView {
    CacheInitView { buckets: PtrView::Foreign(sym_empty_cache()), mask: 0, occupied: 0 }
}

/// The emitted class-name literal: the runtime name, NUL terminated.
pub open spec fn name_literal_view(c: ClassDescriptor) -> ArtifactView<Seq<char>> {
    ArtifactView {
        symbol: sym_class_name_literal(c.runtime_name()),
        section: Section::ClassNames,
        keep_alive: false,
        value: cstr(c.runtime_name()),
    }
}

/// The metaclass's read-only descriptor: marked as a metaclass, fixed
/// metaclass geometry, the class-level method table, everything else null.
pub open spec fn metaclass_ro_view(c: ClassDescriptor) -> ClassRoView {
    ClassRoView {
        flags: RO_IS_ARC | RO_META,
        instance_start: METACLASS_INSTANCE_SIZE,
        instance_size: METACLASS_INSTANCE_SIZE,
        ivar_layout: PtrView::Null,
        name: PtrView::Local(sym_class_name_literal(c.runtime_name())),
        base_method_list: table_ptr(c.runtime_name(), None, false, c.class_methods@),
        base_protocols: PtrView::Null,
        ivars: PtrView::Null,
        weak_ivar_layout: PtrView::Null,
        base_properties: PtrView::Null,
    }
}

/// The flag word of the class's read-only descriptor: the generation marker,
/// plus the lifecycle-hook bits the descriptor's flags require.
pub open spec fn class_ro_flags(c: ClassDescriptor) -> u32 {
    RO_IS_ARC | (if c.needs_construct || c.needs_destruct {
        RO_HAS_CXX_STRUCTORS
    } else {
        0
    }) | (if c.needs_destruct && !c.needs_construct {
        RO_HAS_CXX_DTOR_ONLY
    } else {
        0
    })
}

/// The class's read-only descriptor: computed flags and instance geometry,
/// the instance method table, the ivar list when the class declares fields,
/// property and weak-layout pointers always null.
pub open spec fn class_ro_view(c: ClassDescriptor) -> ClassRoView {
    ClassRoView {
        flags: class_ro_flags(c),
        instance_start: c.instance_start,
        instance_size: c.instance_size,
        ivar_layout: PtrView::Null,
        name: PtrView::Local(sym_class_name_literal(c.runtime_name())),
        base_method_list: table_ptr(c.runtime_name(), None, true, c.instance_methods@),
        base_protocols: PtrView::Null,
        ivars: if c.has_ivars {
            PtrView::Local(sym_ivar_list(c.runtime_name()))
        } else {
            PtrView::Null
        },
        weak_ivar_layout: PtrView::Null,
        base_properties: PtrView::Null,
    }
}

/// The metaclass record's own class pointer: the root metaclass of the
/// chain — this module's own metaclass for a root class, the externally
/// resolved root metaclass otherwise.
pub open spec fn metaclass_isa_view(c: ClassDescriptor) -> PtrView {
    if c.is_root {
        PtrView::Local(sym_metaclass(c.runtime_name()))
    } else {
        PtrView::Foreign(sym_metaclass(c.root_class@))
    }
}

/// The metaclass record's superclass pointer: the declared superclass's
/// metaclass, externally resolved; for a root class the chain folds back to
/// the class record itself.
pub open spec fn metaclass_superclass_view(c: ClassDescriptor) -> PtrView {
    match c.superclass {
        Some(s) => PtrView::Foreign(sym_metaclass(s@)),
        None => PtrView::Local(sym_class(c.runtime_name())),
    }
}

/// The metaclass record.
pub open spec fn metaclass_view(c: ClassDescriptor) -> ObjcClassView {
    ObjcClassView {
        isa: metaclass_isa_view(c),
        superclass: metaclass_superclass_view(c),
        cache: empty_cache_view(),
        bits: PtrView::Local(sym_metaclass_ro(c.runtime_name())),
    }
}

/// The class record's superclass pointer: null for a root class, the
/// externally resolved superclass otherwise.
pub open spec fn class_superclass_view(c: ClassDescriptor) -> PtrView {
    match c.superclass {
        Some(s) => PtrView::Foreign(sym_class(s@)),
        None => PtrView::Null,
    }
}

/// The class record: its metaclass, its superclass, an empty cache, and its
/// read-only descriptor.
pub open spec fn class_record_view(c: ClassDescriptor) -> ObjcClassView {
    ObjcClassView {
        isa: PtrView::Local(sym_metaclass(c.runtime_name())),
        superclass: class_superclass_view(c),
        cache: empty_cache_view(),
        bits: PtrView::Local(sym_class_ro(c.runtime_name())),
    }
}

/// Everything the class-record builder emits for one primary class.
#[derive(Debug)]
pub struct ClassArtifacts {
    pub name_literal: Artifact<String>,
    pub instance_table: TableArtifacts,
    pub class_table: TableArtifacts,
    pub metaclass_ro: Artifact<ClassRo>,
    pub metaclass: Artifact<ObjcClass>,
    pub class_ro: Artifact<ClassRo>,
    pub class_record: Artifact<ObjcClass>,
    /// The label cell in the loader-scanned class list; every emitted class
    /// produces exactly one, or it stays invisible to the runtime.
    pub label: Artifact<Ptr>,
}

/// The builder's full contract, record by record.
pub open spec fn class_artifacts_ok(r: ClassArtifacts, c: ClassDescriptor) -> bool {
    let rn = c.runtime_name();
    &&& r.name_literal@ == name_literal_view(c)
    &&& table_artifacts_ok(
        r.instance_table,
        rn,
        None,
        true,
        c.instance_methods@,
        c.needs_construct,
        c.needs_destruct,
    )
    &&& table_artifacts_ok(
        r.class_table,
        rn,
        None,
        false,
        c.class_methods@,
        c.needs_construct,
        c.needs_destruct,
    )
    &&& r.metaclass_ro@ == (ArtifactView {
        symbol: sym_metaclass_ro(rn),
        section: Section::Const,
        keep_alive: false,
        value: metaclass_ro_view(c),
    })
    &&& r.metaclass@ == (ArtifactView {
        symbol: sym_metaclass(rn),
        section: Section::Data,
        keep_alive: false,
        value: metaclass_view(c),
    })
    &&& r.class_ro@ == (ArtifactView {
        symbol: sym_class_ro(rn),
        section: Section::Const,
        keep_alive: false,
        value: class_ro_view(c),
    })
    &&& r.class_record@ == (ArtifactView {
        symbol: sym_class(rn),
        section: Section::Data,
        keep_alive: false,
        value: class_record_view(c),
    })
    &&& r.label@ == (ArtifactView {
        symbol: sym_label_class(rn),
        section: Section::ClassList,
        keep_alive: true,
        value: PtrView::Local(sym_class(rn)),
    })
}

/// Builds the empty method cache.
fn empty_cache() -> (r: CacheInit)
    ensures
        r@ == empty_cache_view(),
{
    CacheInit { buckets: Ptr::Foreign(empty_cache_symbol()), mask: 0, occupied: 0 }
}

/// Builds the class records of a primary, locally-owned class declaration:
/// `None` when the declaration overlays a category or the class's binary
/// representation is owned elsewhere, in which case nothing is emitted.
pub fn build_class_records(decl: &Declaration) -> (r: Option<ClassArtifacts>)
    requires
        decl_wf(*decl),
    ensures
        r is Some <==> (decl.category is None && !decl.class.is_foreign),
        (r matches Some(a) ==> class_artifacts_ok(a, decl.class)),
{
    if decl.category.is_some() || decl.class.is_foreign {
        return None;
    }
    let c = &decl.class;
    let rn = c.runtime_name_str();
    let rn_str = rn.as_str();

    proof {
        reveal_strlit("\u{0}");
    }
    let mut name_value = rn.clone();
    name_value.append("\u{0}");
    proof {
        assert(name_value@ =~= cstr(c.runtime_name()));
    }
    let name_literal = Artifact {
        symbol: class_name_literal_symbol(rn_str),
        section: Section::ClassNames,
        keep_alive: false,
        value: name_value,
    };

    let instance_table = build_method_table(
        rn_str,
        None,
        true,
        &c.instance_methods,
        c.needs_construct,
        c.needs_destruct,
    );
    let class_table = build_method_table(
        rn_str,
        None,
        false,
        &c.class_methods,
        c.needs_construct,
        c.needs_destruct,
    );

    let metaclass_ro_value = ClassRo {
        flags: RO_IS_ARC | RO_META,
        instance_start: METACLASS_INSTANCE_SIZE,
        instance_size: METACLASS_INSTANCE_SIZE,
        ivar_layout: Ptr::Null,
        name: Ptr::Local(class_name_literal_symbol(rn_str)),
        base_method_list: table_pointer(&class_table),
        base_protocols: Ptr::Null,
        ivars: Ptr::Null,
        weak_ivar_layout: Ptr::Null,
        base_properties: Ptr::Null,
    };
    let metaclass_ro = Artifact {
        symbol: metaclass_ro_symbol(rn_str),
        section: Section::Const,
        keep_alive: false,
        value: metaclass_ro_value,
    };

    let metaclass_isa = if c.is_root {
        Ptr::Local(metaclass_symbol(rn_str))
    } else {
        Ptr::Foreign(metaclass_symbol(c.root_class.as_str()))
    };
    let metaclass_superclass = match &c.superclass {
        Some(s) => Ptr::Foreign(metaclass_symbol(s.as_str())),
        None => Ptr::Local(class_symbol(rn_str)),
    };
    let metaclass = Artifact {
        symbol: metaclass_symbol(rn_str),
        section: Section::Data,
        keep_alive: false,
        value: ObjcClass {
            isa: metaclass_isa,
            superclass: metaclass_superclass,
            cache: empty_cache(),
            bits: Ptr::Local(metaclass_ro_symbol(rn_str)),
        },
    };

    let flags = RO_IS_ARC | (if c.needs_construct || c.needs_destruct {
        RO_HAS_CXX_STRUCTORS
    } else {
        0
    }) | (if c.needs_destruct && !c.needs_construct {
        RO_HAS_CXX_DTOR_ONLY
    } else {
        0
    });
    let class_ro_value = ClassRo {
        flags,
        instance_start: c.instance_start,
        instance_size: c.instance_size,
        ivar_layout: Ptr::Null,
        name: Ptr::Local(class_name_literal_symbol(rn_str)),
        base_method_list: table_pointer(&instance_table),
        base_protocols: Ptr::Null,
        ivars: if c.has_ivars {
            Ptr::Local(ivar_list_symbol(rn_str))
        } else {
            Ptr::Null
        },
        weak_ivar_layout: Ptr::Null,
        base_properties: Ptr::Null,
    };
    let class_ro = Artifact {
        symbol: class_ro_symbol(rn_str),
        section: Section::Const,
        keep_alive: false,
        value: class_ro_value,
    };

    let class_superclass = match &c.superclass {
        Some(s) => Ptr::Foreign(class_symbol(s.as_str())),
        None => Ptr::Null,
    };
    let class_record = Artifact {
        symbol: class_symbol(rn_str),
        section: Section::Data,
        keep_alive: false,
        value: ObjcClass {
            isa: Ptr::Local(metaclass_symbol(rn_str)),
            superclass: class_superclass,
            cache: empty_cache(),
            bits: Ptr::Local(class_ro_symbol(rn_str)),
        },
    };

    let label = Artifact {
        symbol: label_class_symbol(rn_str),
        section: Section::ClassList,
        keep_alive: true,
        value: Ptr::Local(class_symbol(rn_str)),
    };

    Some(
        ClassArtifacts {
            name_literal,
            instance_table,
            class_table,
            metaclass_ro,
            metaclass,
            class_ro,
            class_record,
            label,
        },
    )
}

} // verus!
