//! The category-record builder: when a declaration overlays a capability
//! interface onto an externally-declared class, it composes an anonymous
//! category record that grafts the interface's methods and a one-entry
//! protocol-conformance list onto that class.
//!
//! The category's name must be process-unique; uniqueness comes from a
//! freshly generated random token the caller supplies from a high-entropy,
//! per-build source.  The protocol entry is only ever a weak alias of the
//! externally-defined protocol description: emitting a canonical definition
//! here would collide with the native toolchain's own emission of the same
//! protocol.

use vstd::prelude::*;

use crate::descriptor::decl_wf;
use crate::descriptor::ClassDescriptor;
use crate::descriptor::Declaration;
use crate::encode::cstr;
use crate::method_table::build_method_table;
use crate::method_table::table_artifacts_ok;
use crate::method_table::table_pointer;
use crate::method_table::table_ptr;
use crate::method_table::TableArtifacts;
use crate::records::Artifact;
use crate::records::ArtifactView;
use crate::records::CategoryRecord;
use crate::records::CategoryRecordView;
use crate::records::ProtocolList;
use crate::records::ProtocolListView;
use crate::records::Ptr;
use crate::records::PtrView;
use crate::records::Section;
use crate::records::CATEGORY_RECORD_SIZE;
use crate::symbols::category_name;
use crate::symbols::category_name_string;
use crate::symbols::category_protocols_symbol;
use crate::symbols::category_record_symbol;
use crate::symbols::class_name_literal_symbol;
use crate::symbols::class_symbol;
use crate::symbols::label_category_symbol;
use crate::symbols::protocol_symbol;
use crate::symbols::sym_category;
use crate::symbols::sym_category_protocols;
use crate::symbols::sym_class;
use crate::symbols::sym_class_name_literal;
use crate::symbols::sym_label_category;
use crate::symbols::sym_protocol;

verus! {

/// The emitted category-name literal: the generated unique name, NUL
/// terminated, in the class-name string section.
pub open spec fn category_name_literal_view(cat: Seq<char>) -> ArtifactView<Seq<char>> {
    ArtifactView {
        symbol: sym_class_name_literal(cat),
        section: Section::ClassNames,
        keep_alive: false,
        value: cstr(cat),
    }
}

/// The category's protocol list: exactly one entry, a weak reference to the
/// protocol description named after the capability interface.
pub open spec fn protocol_list_view(rn: Seq<char>, iface: Seq<char>, cat: Seq<char>)
    -> ArtifactView<ProtocolListView> {
    ArtifactView {
        symbol: sym_category_protocols(rn, cat),
        section: Section::Const,
        keep_alive: false,
        value: ProtocolListView {
            count: 1,
            protocols: seq![PtrView::Weak(sym_protocol(iface))],
        },
    }
}

/// The category record itself: the generated name, the externally-resolved
/// target class, the two method-table pointers, the protocol list, null
/// property lists, and the record's fixed byte size.
pub open spec fn category_record_view(c: ClassDescriptor, cat: Seq<char>) -> CategoryRecordView {
    let rn = c.runtime_name();
    CategoryRecordView {
        name: PtrView::Local(sym_class_name_literal(cat)),
        cls: PtrView::Foreign(sym_class(rn)),
        instance_methods: table_ptr(rn, Some(cat), true, c.instance_methods@),
        class_methods: table_ptr(rn, Some(cat), false, c.class_methods@),
        protocols: PtrView::Local(sym_category_protocols(rn, cat)),
        instance_properties: PtrView::Null,
        class_properties: PtrView::Null,
        size: CATEGORY_RECORD_SIZE,
    }
}

/// Everything the category builder emits for one overlay declaration.
#[derive(Debug)]
pub struct CategoryArtifacts {
    pub name_literal: Artifact<String>,
    pub instance_table: TableArtifacts,
    pub class_table: TableArtifacts,
    pub protocol_list: Artifact<ProtocolList>,
    pub record: Artifact<CategoryRecord>,
    /// The label cell in the loader-scanned category list.
    pub label: Artifact<Ptr>,
}

/// The builder's full contract, record by record; `iface` is the capability
/// interface's name and `token` the fresh uniqueness token.
pub open spec fn category_artifacts_ok(
    r: CategoryArtifacts,
    c: ClassDescriptor,
    iface: Seq<char>,
    token: Seq<char>,
) -> bool {
    let rn = c.runtime_name();
    let cat = category_name(iface, token);
    &&& r.name_literal@ == category_name_literal_view(cat)
    &&& table_artifacts_ok(
        r.instance_table,
        rn,
        Some(cat),
        true,
        c.instance_methods@,
        c.needs_construct,
        c.needs_destruct,
    )
    &&& table_artifacts_ok(
        r.class_table,
        rn,
        Some(cat),
        false,
        c.class_methods@,
        c.needs_construct,
        c.needs_destruct,
    )
    &&& r.protocol_list@ == protocol_list_view(rn, iface, cat)
    &&& r.record@ == (ArtifactView {
        symbol: sym_category(rn, cat),
        section: Section::Const,
        keep_alive: false,
        value: category_record_view(c, cat),
    })
    &&& r.label@ == (ArtifactView {
        symbol: sym_label_category(cat),
        section: Section::CategoryList,
        keep_alive: true,
        value: PtrView::Local(sym_category(rn, cat)),
    })
}

/// Builds the category records of an overlay declaration: `None` when the
/// declaration is a primary class declaration, or when the class is marked
/// as owned elsewhere, in which case nothing is emitted.  `token` is the
/// freshly generated random identifier that makes the category name
/// process-unique.
pub fn build_category_records(decl: &Declaration, token: &String) -> (r: Option<
    CategoryArtifacts,
>)
    requires
        decl_wf(*decl),
    ensures
        r is Some <==> (decl.category is Some && !decl.class.is_foreign),
        (r matches Some(a) ==> decl.category matches Some(iface) && category_artifacts_ok(
            a,
            decl.class,
            iface@,
            token@,
        )),
{
    let iface = match &decl.category {
        Some(iface) => iface,
        None => {
            return None;
        },
    };
    if decl.class.is_foreign {
        return None;
    }
    let c = &decl.class;
    let rn = c.runtime_name_str();
    let rn_str = rn.as_str();

    let cat = category_name_string(iface.as_str(), token.as_str());
    let cat_str = cat.as_str();

    proof {
        reveal_strlit("\u{0}");
    }
    let mut name_value = cat.clone();
    name_value.append("\u{0}");
    proof {
        assert(name_value@ =~= cstr(cat@));
    }
    let name_literal = Artifact {
        symbol: class_name_literal_symbol(cat_str),
        section: Section::ClassNames,
        keep_alive: false,
        value: name_value,
    };

    let instance_table = build_method_table(
        rn_str,
        Some(&cat),
        true,
        &c.instance_methods,
        c.needs_construct,
        c.needs_destruct,
    );
    let class_table = build_method_table(
        rn_str,
        Some(&cat),
        false,
        &c.class_methods,
        c.needs_construct,
        c.needs_destruct,
    );

    let mut protocol_refs: Vec<Ptr> = Vec::new();
    protocol_refs.push(Ptr::Weak(protocol_symbol(iface.as_str())));
    let protocol_list_value = ProtocolList { count: 1, protocols: protocol_refs };
    proof {
        assert(protocol_list_value@.protocols =~= seq![PtrView::Weak(sym_protocol(iface@))]);
    }
    let protocol_list = Artifact {
        symbol: category_protocols_symbol(rn_str, cat_str),
        section: Section::Const,
        keep_alive: false,
        value: protocol_list_value,
    };

    let record_value = CategoryRecord {
        name: Ptr::Local(class_name_literal_symbol(cat_str)),
        cls: Ptr::Foreign(class_symbol(rn_str)),
        instance_methods: table_pointer(&instance_table),
        class_methods: table_pointer(&class_table),
        protocols: Ptr::Local(category_protocols_symbol(rn_str, cat_str)),
        instance_properties: Ptr::Null,
        class_properties: Ptr::Null,
        size: CATEGORY_RECORD_SIZE,
    };
    let record = Artifact {
        symbol: category_record_symbol(rn_str, cat_str),
        section: Section::Const,
        keep_alive: false,
        value: record_value,
    };

    let label = Artifact {
        symbol: label_category_symbol(cat_str),
        section: Section::CategoryList,
        keep_alive: true,
        value: Ptr::Local(category_record_symbol(rn_str, cat_str)),
    };

    Some(
        CategoryArtifacts {
            name_literal,
            instance_table,
            class_table,
            protocol_list,
            record,
            label,
        },
    )
}

} // verus!
