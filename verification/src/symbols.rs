//! The fixed symbol-name scheme the loader discovers records under.  Any
//! deviation from these exact names breaks loader discovery, so each name is
//! pinned by a specification function and built by a matching executable
//! function.

use vstd::prelude::*;

verus! {

/// Builds `a + b`.
fn join2(a: &str, b: &str) -> (r: String)
    ensures
        r@ == a@ + b@,
{
    let mut s = String::from_str(a);
    s.append(b);
    s
}

/// Builds `a + b + c`.
fn join3(a: &str, b: &str, c: &str) -> (r: String)
    ensures
        r@ == a@ + b@ + c@,
{
    let mut s = String::from_str(a);
    s.append(b);
    s.append(c);
    s
}

/// Builds `a + b + c + d`.
fn join4(a: &str, b: &str, c: &str, d: &str) -> (r: String)
    ensures
        r@ == a@ + b@ + c@ + d@,
{
    let mut s = String::from_str(a);
    s.append(b);
    s.append(c);
    s.append(d);
    s
}

/// Symbol of a class-name (or category-name) string literal.
pub open spec fn sym_class_name_literal(name: Seq<char>) -> Seq<char> {
    "\u{1}L_OBJC_CLASS_NAME_"@ + name
}

/// Executable form of [`sym_class_name_literal`].
pub fn class_name_literal_symbol(name: &str) -> (r: String)
    ensures
        r@ == sym_class_name_literal(name@),
{
    join2("\u{1}L_OBJC_CLASS_NAME_", name)
}

/// Symbol of the selector-name literal of one method, keyed by class and
/// implementation identifier so per-method metadata survives dead-code
/// stripping independently.
pub open spec fn sym_meth_var_name(class: Seq<char>, fn_name: Seq<char>) -> Seq<char> {
    "\u{1}L_OBJC_METH_VAR_NAME_.__objrs_meth."@ + class + "::"@ + fn_name
}

/// Executable form of [`sym_meth_var_name`].
pub fn meth_var_name_symbol(class: &str, fn_name: &str) -> (r: String)
    ensures
        r@ == sym_meth_var_name(class@, fn_name@),
{
    join4("\u{1}L_OBJC_METH_VAR_NAME_.__objrs_meth.", class, "::", fn_name)
}

/// Symbol of the encoded-type literal of one method.
pub open spec fn sym_meth_var_type(class: Seq<char>, fn_name: Seq<char>) -> Seq<char> {
    "\u{1}L_OBJC_METH_VAR_TYPE_.__objrs_meth."@ + class + "::"@ + fn_name
}

/// Executable form of [`sym_meth_var_type`].
pub fn meth_var_type_symbol(class: &str, fn_name: &str) -> (r: String)
    ensures
        r@ == sym_meth_var_type(class@, fn_name@),
{
    join4("\u{1}L_OBJC_METH_VAR_TYPE_.__objrs_meth.", class, "::", fn_name)
}

/// Symbol of a method table: instance or class methods, for a primary class
/// or — suffixed with the category name so the symbols cannot collide with
/// the primary class's — for a category.
pub open spec fn sym_method_table(
    class: Seq<char>,
    category: Option<Seq<char>>,
    is_instance: bool,
) -> Seq<char> {
    let kind = if is_instance {
        "INSTANCE_METHODS_"@
    } else {
        "CLASS_METHODS_"@
    };
    match category {
        Some(cat) => "\u{1}l_OBJC_$_CATEGORY_"@ + kind + class + "_$_"@ + cat,
        None => "\u{1}l_OBJC_$_"@ + kind + class,
    }
}

/// Executable form of [`sym_method_table`].
pub fn method_table_symbol(class: &str, category: Option<&String>, is_instance: bool) -> (r:
    String)
    ensures
        r@ == sym_method_table(class@, category_view(category), is_instance),
{
    let kind = if is_instance {
        "INSTANCE_METHODS_"
    } else {
        "CLASS_METHODS_"
    };
    match category {
        Some(cat) => join4("\u{1}l_OBJC_$_CATEGORY_", kind, class, "_$_").concat(cat.as_str()),
        None => join3("\u{1}l_OBJC_$_", kind, class),
    }
}

/// The view of an optional category name.
pub open spec fn category_view(category: Option<&String>) -> Option<Seq<char>> {
    match category {
        Some(c) => Some(c@),
        None => None,
    }
}

/// Symbol of a metaclass's read-only descriptor.
pub open spec fn sym_metaclass_ro(name: Seq<char>) -> Seq<char> {
    "\u{1}l_OBJC_METACLASS_RO_$_"@ + name
}

/// Executable form of [`sym_metaclass_ro`].
pub fn metaclass_ro_symbol(name: &str) -> (r: String)
    ensures
        r@ == sym_metaclass_ro(name@),
{
    join2("\u{1}l_OBJC_METACLASS_RO_$_", name)
}

/// Symbol of a class's read-only descriptor.
pub open spec fn sym_class_ro(name: Seq<char>) -> Seq<char> {
    "\u{1}l_OBJC_CLASS_RO_$_"@ + name
}

/// Executable form of [`sym_class_ro`].
pub fn class_ro_symbol(name: &str) -> (r: String)
    ensures
        r@ == sym_class_ro(name@),
{
    join2("\u{1}l_OBJC_CLASS_RO_$_", name)
}

/// Symbol of a metaclass record.
pub open spec fn sym_metaclass(name: Seq<char>) -> Seq<char> {
    "OBJC_METACLASS_$_"@ + name
}

/// Executable form of [`sym_metaclass`].
pub fn metaclass_symbol(name: &str) -> (r: String)
    ensures
        r@ == sym_metaclass(name@),
{
    join2("OBJC_METACLASS_$_", name)
}

/// Symbol of a class record.
pub open spec fn sym_class(name: Seq<char>) -> Seq<char> {
    "OBJC_CLASS_$_"@ + name
}

/// Executable form of [`sym_class`].
pub fn class_symbol(name: &str) -> (r: String)
    ensures
        r@ == sym_class(name@),
{
    join2("OBJC_CLASS_$_", name)
}

/// Symbol of the label cell that makes the loader register a class.
pub open spec fn sym_label_class(name: Seq<char>) -> Seq<char> {
    "\u{1}l_OBJC_LABEL_CLASS_$"@ + name
}

/// Executable form of [`sym_label_class`].
pub fn label_class_symbol(name: &str) -> (r: String)
    ensures
        r@ == sym_label_class(name@),
{
    join2("\u{1}l_OBJC_LABEL_CLASS_$", name)
}

/// Symbol of the label cell that makes the loader register a category.
pub open spec fn sym_label_category(name: Seq<char>) -> Seq<char> {
    "\u{1}l_OBJC_LABEL_CATEGORY_$"@ + name
}

/// Executable form of [`sym_label_category`].
pub fn label_category_symbol(name: &str) -> (r: String)
    ensures
        r@ == sym_label_category(name@),
{
    join2("\u{1}l_OBJC_LABEL_CATEGORY_$", name)
}

/// Symbol of a protocol description, named after the capability interface.
/// Only ever referenced weakly: the authoritative definition originates in
/// the interface's own framework.
pub open spec fn sym_protocol(name: Seq<char>) -> Seq<char> {
    "\u{1}l_OBJC_PROTOCOL_$_"@ + name
}

/// Executable form of [`sym_protocol`].
pub fn protocol_symbol(name: &str) -> (r: String)
    ensures
        r@ == sym_protocol(name@),
{
    join2("\u{1}l_OBJC_PROTOCOL_$_", name)
}

/// Symbol of a category's protocol-conformance list.
pub open spec fn sym_category_protocols(class: Seq<char>, category: Seq<char>) -> Seq<char> {
    "\u{1}l_OBJC_CATEGORY_PROTOCOLS_$_"@ + class + "_$_"@ + category
}

/// Executable form of [`sym_category_protocols`].
pub fn category_protocols_symbol(class: &str, category: &str) -> (r: String)
    ensures
        r@ == sym_category_protocols(class@, category@),
{
    join4("\u{1}l_OBJC_CATEGORY_PROTOCOLS_$_", class, "_$_", category)
}

/// Symbol of a category record.
pub open spec fn sym_category(class: Seq<char>, category: Seq<char>) -> Seq<char> {
    "\u{1}l_OBJC_$_CATEGORY_"@ + class + "_$_"@ + category
}

/// Executable form of [`sym_category`].
pub fn category_record_symbol(class: &str, category: &str) -> (r: String)
    ensures
        r@ == sym_category(class@, category@),
{
    join4("\u{1}l_OBJC_$_CATEGORY_", class, "_$_", category)
}

/// Symbol of the ivar list the class declaration emits beside this module's
/// records.
pub open spec fn sym_ivar_list(name: Seq<char>) -> Seq<char> {
    "\u{1}l_OBJC_$_INSTANCE_VARIABLES_"@ + name
}

/// Executable form of [`sym_ivar_list`].
pub fn ivar_list_symbol(name: &str) -> (r: String)
    ensures
        r@ == sym_ivar_list(name@),
{
    join2("\u{1}l_OBJC_$_INSTANCE_VARIABLES_", name)
}

/// Symbol of the per-module image-info record.
pub open spec fn sym_image_info(name: Seq<char>) -> Seq<char> {
    "\u{1}L_OBJC_IMAGE_INFO.__objrs_image."@ + name
}

/// Executable form of [`sym_image_info`].
pub fn image_info_symbol(name: &str) -> (r: String)
    ensures
        r@ == sym_image_info(name@),
{
    join2("\u{1}L_OBJC_IMAGE_INFO.__objrs_image.", name)
}

/// Symbol of the loader-fixed-up cell holding a class's own reference.
pub open spec fn sym_class_ref(name: Seq<char>) -> Seq<char> {
    "\u{1}L_OBJC_CLASSLIST_REFERENCES_$_.__objrs_class."@ + name
}

/// Executable form of [`sym_class_ref`].
pub fn class_ref_symbol(name: &str) -> (r: String)
    ensures
        r@ == sym_class_ref(name@),
{
    join2("\u{1}L_OBJC_CLASSLIST_REFERENCES_$_.__objrs_class.", name)
}

/// Symbol of the loader-fixed-up cell holding the super-metaclass reference.
pub open spec fn sym_super_meta_ref(name: Seq<char>) -> Seq<char> {
    "\u{1}L_OBJC_CLASSLIST_SUP_REFS_$_.__objrs_metaclass."@ + name
}

/// Executable form of [`sym_super_meta_ref`].
pub fn super_meta_ref_symbol(name: &str) -> (r: String)
    ensures
        r@ == sym_super_meta_ref(name@),
{
    join2("\u{1}L_OBJC_CLASSLIST_SUP_REFS_$_.__objrs_metaclass.", name)
}

/// Symbol of the loader-fixed-up cell holding the superclass reference.
pub open spec fn sym_super_class_ref(name: Seq<char>) -> Seq<char> {
    "\u{1}L_OBJC_CLASSLIST_SUP_REFS_$_.__objrs_class."@ + name
}

/// Executable form of [`sym_super_class_ref`].
pub fn super_class_ref_symbol(name: &str) -> (r: String)
    ensures
        r@ == sym_super_class_ref(name@),
{
    join2("\u{1}L_OBJC_CLASSLIST_SUP_REFS_$_.__objrs_class.", name)
}

/// The runtime's shared empty-cache sentinel symbol.
pub open spec fn sym_empty_cache() -> Seq<char> {
    "_objc_empty_cache"@
}

/// Executable form of [`sym_empty_cache`].
pub fn empty_cache_symbol() -> (r: String)
    ensures
        r@ == sym_empty_cache(),
{
    String::from_str("_objc_empty_cache")
}

/// The process-unique name of a category: a fixed prefix, the capability
/// interface's name, and a freshly generated random token whose entropy
/// makes collisions negligible.
pub open spec fn category_name(interface: Seq<char>, token: Seq<char>) -> Seq<char> {
    "__objrs_category_"@ + interface + "_"@ + token
}

/// Executable form of [`category_name`].
pub fn category_name_string(interface: &str, token: &str) -> (r: String)
    ensures
        r@ == category_name(interface@, token@),
{
    join4("__objrs_category_", interface, "_", token)
}

/// Appending different suffixes to one prefix gives different strings.
proof fn lemma_append_distinct(prefix: Seq<char>, t1: Seq<char>, t2: Seq<char>)
    requires
        t1 != t2,
    ensures
        prefix + t1 != prefix + t2,
{
    if prefix + t1 == prefix + t2 {
        assert(t1 =~= (prefix + t1).subrange(prefix.len() as int, (prefix + t1).len() as int));
        assert(t2 =~= (prefix + t2).subrange(prefix.len() as int, (prefix + t2).len() as int));
        assert(false);
    }
}

/// Category names built from the same capability-interface name and distinct
/// tokens are distinct, and so are every pair of symbols derived from them:
/// two categories generated in the same build never collide as long as their
/// random tokens differ.
pub proof fn lemma_category_names_distinct(interface: Seq<char>, t1: Seq<char>, t2: Seq<char>)
    requires
        t1 != t2,
    ensures
        category_name(interface, t1) != category_name(interface, t2),
        sym_label_category(category_name(interface, t1)) != sym_label_category(
            category_name(interface, t2),
        ),
        sym_class_name_literal(category_name(interface, t1)) != sym_class_name_literal(
            category_name(interface, t2),
        ),
{
    let p = "__objrs_category_"@ + interface + "_"@;
    let n1 = category_name(interface, t1);
    let n2 = category_name(interface, t2);
    assert(n1 =~= p + t1);
    assert(n2 =~= p + t2);
    lemma_append_distinct(p, t1, t2);
    lemma_append_distinct("\u{1}l_OBJC_LABEL_CATEGORY_$"@ + p, t1, t2);
    assert(sym_label_category(n1) =~= "\u{1}l_OBJC_LABEL_CATEGORY_$"@ + p + t1);
    assert(sym_label_category(n2) =~= "\u{1}l_OBJC_LABEL_CATEGORY_$"@ + p + t2);
    lemma_append_distinct("\u{1}L_OBJC_CLASS_NAME_"@ + p, t1, t2);
    assert(sym_class_name_literal(n1) =~= "\u{1}L_OBJC_CLASS_NAME_"@ + p + t1);
    assert(sym_class_name_literal(n2) =~= "\u{1}L_OBJC_CLASS_NAME_"@ + p + t2);
}

} // verus!
