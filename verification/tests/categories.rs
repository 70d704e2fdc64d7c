use objc_meta::category::build_category_records;
use objc_meta::descriptor::ClassDescriptor;
use objc_meta::descriptor::Declaration;
use objc_meta::descriptor::MethodDescriptor;
use objc_meta::descriptor::ReceiverKind;
use objc_meta::records::Ptr;
use objc_meta::records::Section;
use objc_meta::synthesis::synthesize_module;
use objc_meta::type_encoding::TypeDesc;

fn foo_class() -> ClassDescriptor {
    ClassDescriptor {
        declared_name: "Foo".to_string(),
        export_name: None,
        superclass: Some("NSObject".to_string()),
        root_class: "NSObject".to_string(),
        is_root: false,
        instance_start: 8,
        instance_size: 8,
        has_ivars: false,
        needs_construct: false,
        needs_destruct: false,
        is_foreign: false,
        is_generic: false,
        instance_methods: vec![],
        class_methods: vec![],
    }
}

fn greet_decl() -> Declaration {
    Declaration { class: foo_class(), category: Some("Greet".to_string()) }
}

fn expect_local(p: &Ptr, symbol: &str) {
    match p {
        Ptr::Local(s) => assert_eq!(s, symbol),
        other => panic!("expected local symbol {}: {:?}", symbol, other),
    }
}

#[test]
fn empty_category_scenario_emits_record_with_null_tables() {
    let token = "t0".to_string();
    let a = build_category_records(&greet_decl(), &token).expect("category records");

    let cat = "__objrs_category_Greet_t0";
    assert_eq!(a.name_literal.symbol, format!("\u{1}L_OBJC_CLASS_NAME_{}", cat));
    assert_eq!(a.name_literal.value, format!("{}\0", cat));
    assert_eq!(a.name_literal.section, Section::ClassNames);

    // Zero methods: both tables collapse to null pointers.
    assert!(a.instance_table.table.is_none());
    assert!(a.class_table.table.is_none());
    assert!(matches!(a.record.value.instance_methods, Ptr::Null));
    assert!(matches!(a.record.value.class_methods, Ptr::Null));

    // The protocol list names the capability interface, weakly.
    assert_eq!(
        a.protocol_list.symbol,
        format!("\u{1}l_OBJC_CATEGORY_PROTOCOLS_$_Foo_$_{}", cat)
    );
    assert_eq!(a.protocol_list.value.count, 1);
    assert_eq!(a.protocol_list.value.protocols.len(), 1);
    match &a.protocol_list.value.protocols[0] {
        Ptr::Weak(s) => assert_eq!(s, "\u{1}l_OBJC_PROTOCOL_$_Greet"),
        other => panic!("protocol entry: {:?}", other),
    }

    // The record binds the externally declared class.
    assert_eq!(a.record.symbol, format!("\u{1}l_OBJC_$_CATEGORY_Foo_$_{}", cat));
    expect_local(&a.record.value.name, &format!("\u{1}L_OBJC_CLASS_NAME_{}", cat));
    match &a.record.value.cls {
        Ptr::Foreign(s) => assert_eq!(s, "OBJC_CLASS_$_Foo"),
        other => panic!("target class: {:?}", other),
    }
    expect_local(
        &a.record.value.protocols,
        &format!("\u{1}l_OBJC_CATEGORY_PROTOCOLS_$_Foo_$_{}", cat),
    );
    assert!(matches!(a.record.value.instance_properties, Ptr::Null));
    assert!(matches!(a.record.value.class_properties, Ptr::Null));
    assert_eq!(a.record.value.size, 64);

    // The label makes the loader see the category.
    assert_eq!(a.label.symbol, format!("\u{1}l_OBJC_LABEL_CATEGORY_${}", cat));
    assert_eq!(a.label.section, Section::CategoryList);
    assert!(a.label.keep_alive);
    expect_local(&a.label.value, &format!("\u{1}l_OBJC_$_CATEGORY_Foo_$_{}", cat));
}

#[test]
fn category_methods_use_suffixed_table_symbols() {
    let mut decl = greet_decl();
    decl.class.instance_methods = vec![MethodDescriptor {
        selector: "greet".to_string(),
        fn_name: "greet".to_string(),
        params: vec![],
        ret: TypeDesc::Void,
        receiver: ReceiverKind::Instance,
        has_impl: true,
    }];
    let token = "t1".to_string();
    let a = build_category_records(&decl, &token).expect("category records");
    let table = a.instance_table.table.as_ref().expect("instance table");
    assert_eq!(
        table.symbol,
        "\u{1}l_OBJC_$_CATEGORY_INSTANCE_METHODS_Foo_$___objrs_category_Greet_t1"
    );
    assert_eq!(table.value.count, 1);
    expect_local(
        &a.record.value.instance_methods,
        "\u{1}l_OBJC_$_CATEGORY_INSTANCE_METHODS_Foo_$___objrs_category_Greet_t1",
    );
}

#[test]
fn distinct_tokens_give_distinct_category_symbols() {
    let a = build_category_records(&greet_decl(), &"aaaa".to_string()).expect("first");
    let b = build_category_records(&greet_decl(), &"bbbb".to_string()).expect("second");
    assert_ne!(a.record.symbol, b.record.symbol);
    assert_ne!(a.label.symbol, b.label.symbol);
    assert_ne!(a.name_literal.symbol, b.name_literal.symbol);
    assert_ne!(a.name_literal.value, b.name_literal.value);
}

#[test]
fn primary_declarations_emit_no_category() {
    let decl = Declaration { class: foo_class(), category: None };
    let token = "t2".to_string();
    assert!(build_category_records(&decl, &token).is_none());
}

#[test]
fn foreign_overlays_emit_nothing() {
    let mut decl = greet_decl();
    decl.class.is_foreign = true;
    let token = "t3".to_string();
    assert!(build_category_records(&decl, &token).is_none());
}

#[test]
fn category_synthesis_skips_class_records_and_accessors() {
    let token = "t4".to_string();
    let m = synthesize_module(&greet_decl(), &token);
    assert!(m.class_records.is_none());
    assert!(m.refs.is_none());
    assert!(m.category_records.is_some());
}
