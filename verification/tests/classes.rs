use objc_meta::class_record::build_class_records;
use objc_meta::descriptor::ClassDescriptor;
use objc_meta::descriptor::Declaration;
use objc_meta::descriptor::MethodDescriptor;
use objc_meta::descriptor::ReceiverKind;
use objc_meta::descriptor::class_wf_check;
use objc_meta::descriptor::partition_methods;
use objc_meta::foundation::NSNotification;
use objc_meta::records::Ptr;
use objc_meta::records::Section;
use objc_meta::resolver::build_refs;
use objc_meta::synthesis::synthesize_module;
use objc_meta::type_encoding::TypeDesc;

fn root_class(name: &str) -> ClassDescriptor {
    ClassDescriptor {
        declared_name: name.to_string(),
        export_name: None,
        superclass: None,
        root_class: name.to_string(),
        is_root: true,
        instance_start: 8,
        instance_size: 16,
        has_ivars: false,
        needs_construct: false,
        needs_destruct: false,
        is_foreign: false,
        is_generic: false,
        instance_methods: vec![],
        class_methods: vec![],
    }
}

fn bar_method() -> MethodDescriptor {
    MethodDescriptor {
        selector: "bar:".to_string(),
        fn_name: "bar".to_string(),
        params: vec![TypeDesc::SignedInt],
        ret: TypeDesc::Void,
        receiver: ReceiverKind::Instance,
        has_impl: true,
    }
}

fn expect_local(p: &Ptr, symbol: &str) {
    match p {
        Ptr::Local(s) => assert_eq!(s, symbol),
        other => panic!("expected local symbol {}: {:?}", symbol, other),
    }
}

fn expect_foreign(p: &Ptr, symbol: &str) {
    match p {
        Ptr::Foreign(s) => assert_eq!(s, symbol),
        other => panic!("expected foreign symbol {}: {:?}", symbol, other),
    }
}

#[test]
fn root_class_scenario_emits_the_full_record_chain() {
    let mut c = root_class("Foo");
    c.instance_methods = vec![bar_method()];
    let decl = Declaration { class: c, category: None };
    let a = build_class_records(&decl).expect("primary local class");

    assert_eq!(a.name_literal.symbol, "\u{1}L_OBJC_CLASS_NAME_Foo");
    assert_eq!(a.name_literal.section, Section::ClassNames);
    assert_eq!(a.name_literal.value, "Foo\0");

    // One instance method, no hooks.
    let table = a.instance_table.table.as_ref().expect("instance table");
    assert_eq!(table.value.count, 1);
    assert_eq!(a.instance_table.type_strings[0].value, "v20@0:8i16\0");
    assert!(a.class_table.table.is_none());

    // Metaclass descriptor: meta flag, fixed geometry, null class table.
    assert_eq!(a.metaclass_ro.symbol, "\u{1}l_OBJC_METACLASS_RO_$_Foo");
    assert_eq!(a.metaclass_ro.value.flags, 0x81);
    assert_eq!(a.metaclass_ro.value.instance_start, 40);
    assert_eq!(a.metaclass_ro.value.instance_size, 40);
    assert!(matches!(a.metaclass_ro.value.base_method_list, Ptr::Null));
    expect_local(&a.metaclass_ro.value.name, "\u{1}L_OBJC_CLASS_NAME_Foo");

    // Root metaclass: its own class is itself, its superclass the class.
    assert_eq!(a.metaclass.symbol, "OBJC_METACLASS_$_Foo");
    assert_eq!(a.metaclass.section, Section::Data);
    expect_local(&a.metaclass.value.isa, "OBJC_METACLASS_$_Foo");
    expect_local(&a.metaclass.value.superclass, "OBJC_CLASS_$_Foo");
    expect_local(&a.metaclass.value.bits, "\u{1}l_OBJC_METACLASS_RO_$_Foo");
    expect_foreign(&a.metaclass.value.cache.buckets, "_objc_empty_cache");

    // Class descriptor: geometry from the descriptor, instance table linked.
    assert_eq!(a.class_ro.symbol, "\u{1}l_OBJC_CLASS_RO_$_Foo");
    assert_eq!(a.class_ro.value.flags, 0x80);
    assert_eq!(a.class_ro.value.instance_start, 8);
    assert_eq!(a.class_ro.value.instance_size, 16);
    expect_local(&a.class_ro.value.base_method_list, "\u{1}l_OBJC_$_INSTANCE_METHODS_Foo");
    assert!(matches!(a.class_ro.value.ivars, Ptr::Null));

    // Root class record: null superclass.
    assert_eq!(a.class_record.symbol, "OBJC_CLASS_$_Foo");
    expect_local(&a.class_record.value.isa, "OBJC_METACLASS_$_Foo");
    assert!(matches!(a.class_record.value.superclass, Ptr::Null));
    expect_local(&a.class_record.value.bits, "\u{1}l_OBJC_CLASS_RO_$_Foo");

    // The label makes the loader see the class.
    assert_eq!(a.label.symbol, "\u{1}l_OBJC_LABEL_CLASS_$Foo");
    assert_eq!(a.label.section, Section::ClassList);
    assert!(a.label.keep_alive);
    expect_local(&a.label.value, "OBJC_CLASS_$_Foo");
}

#[test]
fn subclass_links_superclass_symbols_externally() {
    let mut c = root_class("Door");
    c.superclass = Some("NSObject".to_string());
    c.root_class = "NSObject".to_string();
    c.is_root = false;
    let decl = Declaration { class: c, category: None };
    let a = build_class_records(&decl).expect("records");
    expect_foreign(&a.metaclass.value.isa, "OBJC_METACLASS_$_NSObject");
    expect_foreign(&a.metaclass.value.superclass, "OBJC_METACLASS_$_NSObject");
    expect_foreign(&a.class_record.value.superclass, "OBJC_CLASS_$_NSObject");
}

#[test]
fn lifecycle_flags_combine_into_descriptor_bits() {
    let mut both = root_class("Both");
    both.needs_construct = true;
    both.needs_destruct = true;
    both.instance_methods = vec![bar_method()];
    let a = build_class_records(&Declaration { class: both, category: None }).expect("records");
    assert_eq!(a.class_ro.value.flags, 0x80 | 0x04);

    let mut dtor = root_class("Dtor");
    dtor.needs_destruct = true;
    dtor.instance_methods = vec![bar_method()];
    let a = build_class_records(&Declaration { class: dtor, category: None }).expect("records");
    assert_eq!(a.class_ro.value.flags, 0x80 | 0x04 | 0x100);
}

#[test]
fn ivar_list_is_linked_only_when_fields_exist() {
    let mut c = root_class("Holder");
    c.has_ivars = true;
    let a = build_class_records(&Declaration { class: c, category: None }).expect("records");
    expect_local(&a.class_ro.value.ivars, "\u{1}l_OBJC_$_INSTANCE_VARIABLES_Holder");
}

#[test]
fn zero_methods_of_a_kind_yield_null_table_pointers() {
    let c = root_class("Empty");
    let a = build_class_records(&Declaration { class: c, category: None }).expect("records");
    assert!(matches!(a.class_ro.value.base_method_list, Ptr::Null));
    assert!(matches!(a.metaclass_ro.value.base_method_list, Ptr::Null));
}

#[test]
fn export_name_override_renames_every_symbol() {
    let mut c = root_class("Inner");
    c.export_name = Some("Outer".to_string());
    c.root_class = "Outer".to_string();
    let a = build_class_records(&Declaration { class: c, category: None }).expect("records");
    assert_eq!(a.class_record.symbol, "OBJC_CLASS_$_Outer");
    assert_eq!(a.name_literal.value, "Outer\0");
    assert_eq!(a.label.symbol, "\u{1}l_OBJC_LABEL_CLASS_$Outer");
}

#[test]
fn foreign_class_emits_no_records_but_keeps_accessors() {
    let decl = Declaration { class: NSNotification::descriptor(), category: None };
    let token = String::new();
    let m = synthesize_module(&decl, &token);
    assert!(m.class_records.is_none());
    assert!(m.category_records.is_none());
    let refs = m.refs.expect("accessors for a primary declaration");
    assert_eq!(
        refs.class_ref.cell.symbol,
        "\u{1}L_OBJC_CLASSLIST_REFERENCES_$_.__objrs_class.NSNotification"
    );
    assert_eq!(refs.class_ref.cell.section, Section::ClassRefs);
    assert!(refs.class_ref.cell.keep_alive);
    assert!(refs.class_ref.volatile);
    assert!(refs.class_ref.inlined);
    match &refs.class_ref.cell.value {
        Ptr::Foreign(s) => assert_eq!(s, "OBJC_CLASS_$_NSNotification"),
        other => panic!("class ref cell: {:?}", other),
    }
}

#[test]
fn accessor_cells_reference_the_right_symbols() {
    let c = root_class("Foo");
    let decl = Declaration { class: c, category: None };
    let refs = build_refs(&decl).expect("refs");
    match &refs.super_meta_ref.cell.value {
        Ptr::Foreign(s) => assert_eq!(s, "OBJC_METACLASS_$_Foo"),
        other => panic!("super meta ref: {:?}", other),
    }
    assert_eq!(
        refs.super_meta_ref.cell.symbol,
        "\u{1}L_OBJC_CLASSLIST_SUP_REFS_$_.__objrs_metaclass.Foo"
    );
    assert_eq!(refs.super_meta_ref.cell.section, Section::SuperRefs);
    match &refs.super_class_ref.cell.value {
        Ptr::Foreign(s) => assert_eq!(s, "OBJC_CLASS_$_Foo"),
        other => panic!("super class ref: {:?}", other),
    }
    assert_eq!(
        refs.super_class_ref.cell.symbol,
        "\u{1}L_OBJC_CLASSLIST_SUP_REFS_$_.__objrs_class.Foo"
    );
}

#[test]
fn generic_owner_suppresses_accessor_inlining() {
    let mut c = root_class("Box2");
    c.is_generic = true;
    let refs = build_refs(&Declaration { class: c, category: None }).expect("refs");
    assert!(!refs.class_ref.inlined);
    assert!(refs.class_ref.volatile);
}

#[test]
fn image_info_carries_the_fixed_generation_flags() {
    let c = root_class("Foo");
    let refs = build_refs(&Declaration { class: c, category: None }).expect("refs");
    assert_eq!(refs.image_info.symbol, "\u{1}L_OBJC_IMAGE_INFO.__objrs_image.Foo");
    assert_eq!(refs.image_info.section, Section::ImageInfo);
    assert!(refs.image_info.keep_alive);
    assert_eq!(refs.image_info.value.version, 0);
    assert_eq!(refs.image_info.value.flags, 64);
}

#[test]
fn class_well_formedness_ties_root_flag_to_superclass() {
    let mut c = root_class("Foo");
    c.instance_methods = vec![bar_method()];
    assert!(class_wf_check(&c));
    let mut contradictory = root_class("Foo");
    contradictory.superclass = Some("NSObject".to_string());
    assert!(!class_wf_check(&contradictory));
    let mut renamed_root = root_class("Foo");
    renamed_root.root_class = "Other".to_string();
    assert!(!class_wf_check(&renamed_root));
}

#[test]
fn methods_partition_by_receiver_kind_in_order() {
    let mut shared = bar_method();
    shared.selector = "shared".to_string();
    shared.fn_name = "shared".to_string();
    shared.receiver = ReceiverKind::Class;
    let mut late = bar_method();
    late.selector = "baz:".to_string();
    late.fn_name = "baz".to_string();
    let (instance_methods, class_methods) = partition_methods(vec![
        bar_method(),
        shared,
        late,
    ]);
    assert_eq!(instance_methods.len(), 2);
    assert_eq!(instance_methods[0].fn_name, "bar");
    assert_eq!(instance_methods[1].fn_name, "baz");
    assert_eq!(class_methods.len(), 1);
    assert_eq!(class_methods[0].fn_name, "shared");
}

#[test]
fn notification_descriptor_restates_the_framework_binding() {
    let d = NSNotification::descriptor();
    assert_eq!(d.declared_name, "NSNotification");
    assert_eq!(d.superclass.as_deref(), Some("NSObject"));
    assert!(d.is_foreign);
    assert!(!d.is_root);
    assert!(d.instance_methods.is_empty());
    assert!(d.class_methods.is_empty());
}
