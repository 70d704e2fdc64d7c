use objc_meta::descriptor::method_wf_check;
use objc_meta::descriptor::MethodDescriptor;
use objc_meta::descriptor::ReceiverKind;
use objc_meta::encode::encoded_type_string;
use objc_meta::encode::selector_literal;
use objc_meta::encode::type_literal;
use objc_meta::records::Section;
use objc_meta::text::dec_string;
use objc_meta::type_encoding::push_type_encoding;
use objc_meta::type_encoding::type_size_bytes;
use objc_meta::type_encoding::type_wf_check;
use objc_meta::type_encoding::TypeDesc;

fn method(
    selector: &str,
    fn_name: &str,
    params: Vec<TypeDesc>,
    ret: TypeDesc,
    receiver: ReceiverKind,
) -> MethodDescriptor {
    MethodDescriptor {
        selector: selector.to_string(),
        fn_name: fn_name.to_string(),
        params,
        ret,
        receiver,
        has_impl: true,
    }
}

fn encoding_of(t: &TypeDesc) -> String {
    let mut s = String::new();
    push_type_encoding(&mut s, t);
    s
}

#[test]
fn decimal_rendering_has_no_leading_zeros_or_sign() {
    assert_eq!(dec_string(0), "0");
    assert_eq!(dec_string(8), "8");
    assert_eq!(dec_string(10), "10");
    assert_eq!(dec_string(20), "20");
    assert_eq!(dec_string(12345), "12345");
    assert_eq!(dec_string(usize::MAX), "18446744073709551615");
}

#[test]
fn scalar_and_pointer_encodings() {
    assert_eq!(encoding_of(&TypeDesc::ObjectPointer), "@");
    assert_eq!(encoding_of(&TypeDesc::ClassPointer), "#");
    assert_eq!(encoding_of(&TypeDesc::Void), "v");
    assert_eq!(encoding_of(&TypeDesc::Bool), "B");
    assert_eq!(encoding_of(&TypeDesc::SignedInt), "i");
    assert_eq!(encoding_of(&TypeDesc::UnsignedLongLong), "Q");
    assert_eq!(encoding_of(&TypeDesc::Pointer(None)), "^?");
    assert_eq!(encoding_of(&TypeDesc::Pointer(Some(Box::new(TypeDesc::UnsignedByte)))), "^C");
    assert_eq!(encoding_of(&TypeDesc::Opaque(24)), "?");
}

#[test]
fn array_encodings_nest() {
    let a = TypeDesc::Array(3, Box::new(TypeDesc::SignedInt));
    assert_eq!(encoding_of(&a), "[3i]");
    assert_eq!(type_size_bytes(&a), 12);
    let nested = TypeDesc::Array(2, Box::new(TypeDesc::Array(4, Box::new(TypeDesc::UnsignedShort))));
    assert_eq!(encoding_of(&nested), "[2[4S]]");
    assert_eq!(type_size_bytes(&nested), 16);
}

#[test]
fn type_sizes_follow_the_descriptor() {
    assert_eq!(type_size_bytes(&TypeDesc::ObjectPointer), 8);
    assert_eq!(type_size_bytes(&TypeDesc::Void), 0);
    assert_eq!(type_size_bytes(&TypeDesc::SignedByte), 1);
    assert_eq!(type_size_bytes(&TypeDesc::UnsignedShort), 2);
    assert_eq!(type_size_bytes(&TypeDesc::SignedInt), 4);
    assert_eq!(type_size_bytes(&TypeDesc::Pointer(None)), 8);
    assert_eq!(type_size_bytes(&TypeDesc::Opaque(24)), 24);
}

#[test]
fn niladic_instance_method_has_five_byte_argument_suffix() {
    let m = method("bar", "bar", vec![], TypeDesc::Void, ReceiverKind::Instance);
    let s = encoded_type_string(&m);
    assert_eq!(s, "v16@0:8\0");
    // The argument portion after the return encoding and frame size is
    // exactly five bytes: kind, '0', ':', '0' + 8, NUL.
    assert_eq!(&s.as_bytes()[3..], &[b'@', b'0', b':', b'0' + 8, 0]);
}

#[test]
fn niladic_class_method_uses_class_pointer_kind() {
    let m = method("instance", "instance", vec![], TypeDesc::ObjectPointer, ReceiverKind::Class);
    let s = encoded_type_string(&m);
    assert_eq!(s, "@16#0:8\0");
    assert_eq!(&s.as_bytes()[3..], &[b'#', b'0', b':', b'0' + 8, 0]);
}

#[test]
fn one_pointer_sized_frame_scenario() {
    // Class `Foo`, instance method `bar:` with one four-byte signed integer
    // parameter, returning nothing.
    let m = method("bar:", "bar", vec![TypeDesc::SignedInt], TypeDesc::Void,
        ReceiverKind::Instance);
    assert_eq!(encoded_type_string(&m), "v20@0:8i16\0");
}

#[test]
fn frame_offsets_accumulate_tightly_packed() {
    // Three parameters of sizes 8, 4 and 1: offsets 16, 24, 28; total 29.
    let m = method(
        "a:b:c:",
        "abc",
        vec![TypeDesc::SignedLongLong, TypeDesc::SignedInt, TypeDesc::SignedByte],
        TypeDesc::Void,
        ReceiverKind::Instance,
    );
    let s = encoded_type_string(&m);
    assert_eq!(s, "v29@0:8q16i24c28\0");
    // Offsets strictly increase and the last offset plus its size is the
    // embedded total frame size: 28 + 1 == 29.
    assert!(16 < 24 && 24 < 28);
}

#[test]
fn encoded_type_length_is_the_sum_of_its_pieces() {
    let m = method(
        "a:b:c:",
        "abc",
        vec![TypeDesc::SignedLongLong, TypeDesc::SignedInt, TypeDesc::SignedByte],
        TypeDesc::Void,
        ReceiverKind::Instance,
    );
    let s = encoded_type_string(&m);
    // return encoding + total-frame digits + fixed head + three
    // (encoding + offset digits) pieces + NUL, with no off-by-one.
    assert_eq!(s.len(), 1 + 2 + 4 + (1 + 2) * 3 + 1);
    assert_eq!(s.len(), s.as_bytes().len());
}

#[test]
fn object_parameters_and_returns_encode_as_objects() {
    let m = method(
        "setDelegate:",
        "set_delegate",
        vec![TypeDesc::ObjectPointer],
        TypeDesc::ObjectPointer,
        ReceiverKind::Instance,
    );
    assert_eq!(encoded_type_string(&m), "@24@0:8@16\0");
}

#[test]
fn type_well_formedness_bounds_sizes() {
    assert!(type_wf_check(&TypeDesc::SignedInt));
    assert!(type_wf_check(&TypeDesc::Array(1000, Box::new(TypeDesc::SignedLongLong))));
    assert!(type_wf_check(&TypeDesc::Opaque(0x7fff_ffff)));
    assert!(!type_wf_check(&TypeDesc::Opaque(0x8000_0000)));
    // 2^31 eight-byte elements overflow the size bound.
    assert!(!type_wf_check(&TypeDesc::Array(0x8000_0000, Box::new(TypeDesc::SignedLongLong))));
    assert!(!type_wf_check(&TypeDesc::Pointer(Some(Box::new(TypeDesc::Opaque(0xffff_ffff))))));
}

#[test]
fn method_well_formedness_rejects_empty_parameters() {
    let good = method("bar:", "bar", vec![TypeDesc::SignedInt], TypeDesc::Void,
        ReceiverKind::Instance);
    assert!(method_wf_check(&good));
    let zero_sized = method("bar:", "bar", vec![TypeDesc::Void], TypeDesc::Void,
        ReceiverKind::Instance);
    assert!(!method_wf_check(&zero_sized));
    let bad_ret = method("bar", "bar", vec![], TypeDesc::Opaque(0x8000_0000),
        ReceiverKind::Instance);
    assert!(!method_wf_check(&bad_ret));
}

#[test]
fn selector_literal_is_nul_terminated_and_placed() {
    let m = method("bar:", "bar", vec![TypeDesc::SignedInt], TypeDesc::Void,
        ReceiverKind::Instance);
    let a = selector_literal("Foo", &m);
    assert_eq!(a.symbol, "\u{1}L_OBJC_METH_VAR_NAME_.__objrs_meth.Foo::bar");
    assert_eq!(a.section, Section::MethodNames);
    assert!(!a.keep_alive);
    assert_eq!(a.value, "bar:\0");
}

#[test]
fn type_literal_is_the_encoded_string_and_placed() {
    let m = method("bar:", "bar", vec![TypeDesc::SignedInt], TypeDesc::Void,
        ReceiverKind::Instance);
    let a = type_literal("Foo", &m);
    assert_eq!(a.symbol, "\u{1}L_OBJC_METH_VAR_TYPE_.__objrs_meth.Foo::bar");
    assert_eq!(a.section, Section::MethodTypes);
    assert_eq!(a.value, "v20@0:8i16\0");
}
