//! The method-table builder: aggregates the declared methods of one receiver
//! kind into a single counted record, together with the per-method string
//! literals its entries point at.  Descriptors without a synthesized
//! implementation are skipped.  For a primary class's instance table,
//! synthesized field-lifecycle hook entries are appended as the class's
//! flags require.  A table with no entries collapses to a null pointer: the
//! runtime distinguishes "no methods" from "empty list" by pointer nullity.

use vstd::prelude::*;

use crate::descriptor::method_wf;
use crate::descriptor::MethodDescriptor;
use crate::encode::cstr;
use crate::encode::encoded_type;
use crate::encode::selector_literal;
use crate::encode::selector_literal_view;
use crate::encode::type_literal;
use crate::encode::type_literal_view;
use crate::records::Artifact;
use crate::records::ArtifactView;
use crate::records::MethodEntry;
use crate::records::MethodEntryView;
use crate::records::MethodTable;
use crate::records::MethodTableView;
use crate::records::Ptr;
use crate::records::PtrView;
use crate::records::Section;
use crate::records::METHOD_ENTRY_SIZE;
use crate::symbols::category_view;
use crate::symbols::meth_var_name_symbol;
use crate::symbols::meth_var_type_symbol;
use crate::symbols::method_table_symbol;
use crate::symbols::sym_meth_var_name;
use crate::symbols::sym_meth_var_type;
use crate::symbols::sym_method_table;

verus! {

/// The selector of the synthesized field-construction hook, mandated by the
/// runtime.
pub open spec fn construct_hook_selector() -> Seq<char> {
    ".cxx_construct"@
}

/// The selector of the synthesized field-destruction hook, mandated by the
/// runtime.
pub open spec fn destruct_hook_selector() -> Seq<char> {
    ".cxx_destruct"@
}

/// The fixed encoded-type text of a hook: a call with only the receiver and
/// selector parameters (16-byte frame) returning `ret_code` (`@` for the
/// construction hook, which returns the object; `v` for the destruction
/// hook).
pub open spec fn hook_type_text(ret_code: char) -> Seq<char> {
    seq![ret_code, '1', '6', '@', '0', ':', '8', '\u{0}']
}

/// The fixed hook strings are what the encoder itself would produce: for any
/// instance method with only the receiver and selector parameters, the
/// encoded type is the return encoding followed by `16@0:8` and the NUL —
/// [`hook_type_text`] of the return encoding's single character.
pub proof fn lemma_hook_type_matches_encoder(m: MethodDescriptor)
    requires
        m.params@.len() == 0,
        m.receiver is Instance,
    ensures
        m.ret is Void ==> encoded_type(m) == hook_type_text('v'),
        m.ret is ObjectPointer ==> encoded_type(m) == hook_type_text('@'),
{
    assert(crate::text::dec_chars(1) =~= seq!['1']);
    assert(crate::text::dec_chars(16) =~= seq!['1', '6']);
    if m.ret is Void {
        assert(encoded_type(m) =~= hook_type_text('v'));
    }
    if m.ret is ObjectPointer {
        assert(encoded_type(m) =~= hook_type_text('@'));
    }
}

/// The table entry of one declared method: both string pointers resolve to
/// symbols defined in this module, keyed by the implementing function's
/// identifier.
pub open spec fn entry_view(class: Seq<char>, m: MethodDescriptor) -> MethodEntryView {
    MethodEntryView {
        name: PtrView::Local(sym_meth_var_name(class, m.fn_name@)),
        types: PtrView::Local(sym_meth_var_type(class, m.fn_name@)),
        imp: m.fn_name@,
    }
}

/// Entries of the first `n` declared methods that have an implementation.
pub open spec fn entries_upto(class: Seq<char>, methods: Seq<MethodDescriptor>, n: int) -> Seq<
    MethodEntryView,
>
    decreases n,
{
    if n <= 0 {
        Seq::empty()
    } else {
        entries_upto(class, methods, n - 1) + if methods[n - 1].has_impl {
            seq![entry_view(class, methods[n - 1])]
        } else {
            Seq::<MethodEntryView>::empty()
        }
    }
}

/// Entries of all declared methods that have an implementation, in
/// declaration order.
pub open spec fn declared_entries(class: Seq<char>, methods: Seq<MethodDescriptor>) -> Seq<
    MethodEntryView,
> {
    entries_upto(class, methods, methods.len() as int)
}

/// Selector-name literals of the first `n` implemented methods.
pub open spec fn name_literals_upto(class: Seq<char>, methods: Seq<MethodDescriptor>, n: int) -> Seq<
    ArtifactView<Seq<char>>,
>
    decreases n,
{
    if n <= 0 {
        Seq::empty()
    } else {
        name_literals_upto(class, methods, n - 1) + if methods[n - 1].has_impl {
            seq![selector_literal_view(class, methods[n - 1])]
        } else {
            Seq::<ArtifactView<Seq<char>>>::empty()
        }
    }
}

/// Encoded-type literals of the first `n` implemented methods.
pub open spec fn type_literals_upto(class: Seq<char>, methods: Seq<MethodDescriptor>, n: int) -> Seq<
    ArtifactView<Seq<char>>,
>
    decreases n,
{
    if n <= 0 {
        Seq::empty()
    } else {
        type_literals_upto(class, methods, n - 1) + if methods[n - 1].has_impl {
            seq![type_literal_view(class, methods[n - 1])]
        } else {
            Seq::<ArtifactView<Seq<char>>>::empty()
        }
    }
}

/// The table entry of a synthesized hook with selector `sel` and fixed
/// implementation identifier `imp`.
pub open spec fn hook_entry_view(class: Seq<char>, sel: Seq<char>, imp: Seq<char>)
    -> MethodEntryView {
    MethodEntryView {
        name: PtrView::Local(sym_meth_var_name(class, sel)),
        types: PtrView::Local(sym_meth_var_type(class, sel)),
        imp: imp,
    }
}

/// The selector-name literal of a synthesized hook.
pub open spec fn hook_name_literal_view(class: Seq<char>, sel: Seq<char>) -> ArtifactView<
    Seq<char>,
> {
    ArtifactView {
        symbol: sym_meth_var_name(class, sel),
        section: Section::MethodNames,
        keep_alive: false,
        value: cstr(sel),
    }
}

/// The encoded-type literal of a synthesized hook.
pub open spec fn hook_type_literal_view(class: Seq<char>, sel: Seq<char>, ret_code: char)
    -> ArtifactView<Seq<char>> {
    ArtifactView {
        symbol: sym_meth_var_type(class, sel),
        section: Section::MethodTypes,
        keep_alive: false,
        value: hook_type_text(ret_code),
    }
}

/// Whether hook entries belong in this table: only the instance table of a
/// primary class declaration carries them, and only when it has at least one
/// declared entry (a table with none collapses to null before hooks are
/// considered).
pub open spec fn hooks_included(
    category: Option<Seq<char>>,
    is_instance: bool,
    declared_len: nat,
) -> bool {
    is_instance && category is None && declared_len > 0
}

/// The complete entry sequence of a table: the declared entries, then — when
/// hooks are included — the destruction hook and the construction hook, each
/// present as the class's flags require.
pub open spec fn table_entries(
    class: Seq<char>,
    category: Option<Seq<char>>,
    is_instance: bool,
    methods: Seq<MethodDescriptor>,
    needs_construct: bool,
    needs_destruct: bool,
) -> Seq<MethodEntryView> {
    let declared = declared_entries(class, methods);
    if hooks_included(category, is_instance, declared.len()) {
        declared + (if needs_destruct {
            seq![hook_entry_view(class, destruct_hook_selector(), "cxx_destruct"@)]
        } else {
            Seq::<MethodEntryView>::empty()
        }) + (if needs_construct {
            seq![hook_entry_view(class, construct_hook_selector(), "cxx_construct"@)]
        } else {
            Seq::<MethodEntryView>::empty()
        })
    } else {
        declared
    }
}

/// The null-or-defined pointer under which callers reference this table: the
/// table's symbol when it has any declared entry, null otherwise.
pub open spec fn table_ptr(
    class: Seq<char>,
    category: Option<Seq<char>>,
    is_instance: bool,
    methods: Seq<MethodDescriptor>,
) -> PtrView {
    if declared_entries(class, methods).len() > 0 {
        PtrView::Local(sym_method_table(class, category, is_instance))
    } else {
        PtrView::Null
    }
}

/// Everything the method-table builder emits for one receiver kind.
#[derive(Debug)]
pub struct TableArtifacts {
    /// One NUL-terminated selector-name literal per table entry.
    pub selector_names: Vec<Artifact<String>>,
    /// One NUL-terminated encoded-type literal per table entry.
    pub type_strings: Vec<Artifact<String>>,
    /// The counted table itself; `None` when no entry exists, which callers
    /// must emit as a null pointer.
    pub table: Option<Artifact<MethodTable>>,
}

/// The builder's full contract: the emitted literals and table entries are
/// exactly those of the implemented methods (plus the required hooks), the
/// table exists precisely when some declared method has an implementation,
/// and its header counts the entries at the fixed entry size.
pub open spec fn table_artifacts_ok(
    r: TableArtifacts,
    class: Seq<char>,
    category: Option<Seq<char>>,
    is_instance: bool,
    methods: Seq<MethodDescriptor>,
    needs_construct: bool,
    needs_destruct: bool,
) -> bool {
    let declared = declared_entries(class, methods);
    let entries = table_entries(class, category, is_instance, methods, needs_construct,
        needs_destruct);
    let hooks = hooks_included(category, is_instance, declared.len());
    &&& r.selector_names@.map_values(|a: Artifact<String>| a@) == name_literals_upto(
        class,
        methods,
        methods.len() as int,
    ) + (if hooks && needs_destruct {
        seq![hook_name_literal_view(class, destruct_hook_selector())]
    } else {
        Seq::<ArtifactView<Seq<char>>>::empty()
    }) + (if hooks && needs_construct {
        seq![hook_name_literal_view(class, construct_hook_selector())]
    } else {
        Seq::<ArtifactView<Seq<char>>>::empty()
    })
    &&& r.type_strings@.map_values(|a: Artifact<String>| a@) == type_literals_upto(
        class,
        methods,
        methods.len() as int,
    ) + (if hooks && needs_destruct {
        seq![hook_type_literal_view(class, destruct_hook_selector(), 'v')]
    } else {
        Seq::<ArtifactView<Seq<char>>>::empty()
    }) + (if hooks && needs_construct {
        seq![hook_type_literal_view(class, construct_hook_selector(), '@')]
    } else {
        Seq::<ArtifactView<Seq<char>>>::empty()
    })
    &&& (r.table is Some <==> declared.len() > 0)
    &&& (r.table matches Some(t) ==> t@ == ArtifactView {
        symbol: sym_method_table(class, category, is_instance),
        section: Section::Const,
        keep_alive: false,
        value: MethodTableView {
            entsize: METHOD_ENTRY_SIZE,
            count: entries.len() as u32,
            entries: entries,
        },
    })
}

proof fn lemma_upto_lens_agree(class: Seq<char>, methods: Seq<MethodDescriptor>, n: int)
    ensures
        entries_upto(class, methods, n).len() == name_literals_upto(class, methods, n).len(),
        entries_upto(class, methods, n).len() == type_literals_upto(class, methods, n).len(),
    decreases n,
{
    if n > 0 {
        lemma_upto_lens_agree(class, methods, n - 1);
    }
}

/// Every table entry is accompanied by exactly one selector-name literal
/// and one encoded-type literal: a built table never points at a string
/// that was not emitted beside it.
pub proof fn lemma_one_literal_pair_per_entry(
    r: TableArtifacts,
    class: Seq<char>,
    category: Option<Seq<char>>,
    is_instance: bool,
    methods: Seq<MethodDescriptor>,
    needs_construct: bool,
    needs_destruct: bool,
)
    requires
        table_artifacts_ok(r, class, category, is_instance, methods, needs_construct,
            needs_destruct),
    ensures
        r.selector_names@.len() == table_entries(
            class,
            category,
            is_instance,
            methods,
            needs_construct,
            needs_destruct,
        ).len(),
        r.type_strings@.len() == table_entries(
            class,
            category,
            is_instance,
            methods,
            needs_construct,
            needs_destruct,
        ).len(),
{
    lemma_upto_lens_agree(class, methods, methods.len() as int);
    assert(r.selector_names@.map_values(|a: Artifact<String>| a@).len()
        == r.selector_names@.len());
    assert(r.type_strings@.map_values(|a: Artifact<String>| a@).len() == r.type_strings@.len());
}

/// The pointer under which a built table is referenced: its symbol when it
/// exists, null otherwise.
pub fn table_pointer(t: &TableArtifacts) -> (r: Ptr)
    ensures
        r@ == (match t.table {
            Some(a) => PtrView::Local(a.symbol@),
            None => PtrView::Null,
        }),
{
    match &t.table {
        Some(a) => Ptr::Local(a.symbol.clone()),
        None => Ptr::Null,
    }
}

/// Builds the selector-name literal of a synthesized hook.
fn hook_name_literal(class: &str, sel: &str) -> (r: Artifact<String>)
    ensures
        r@ == hook_name_literal_view(class@, sel@),
{
    proof {
        reveal_strlit("\u{0}");
    }
    let mut value = String::from_str(sel);
    value.append("\u{0}");
    proof {
        assert(value@ =~= cstr(sel@));
    }
    Artifact {
        symbol: meth_var_name_symbol(class, sel),
        section: Section::MethodNames,
        keep_alive: false,
        value,
    }
}

/// Builds one table entry pointing at the metadata strings keyed by
/// `fn_name`, dispatching to `imp`.
fn table_entry(class: &str, fn_name: &str, imp: String) -> (r: MethodEntry)
    ensures
        r@ == (MethodEntryView {
            name: PtrView::Local(sym_meth_var_name(class@, fn_name@)),
            types: PtrView::Local(sym_meth_var_type(class@, fn_name@)),
            imp: imp@,
        }),
{
    MethodEntry {
        name: Ptr::Local(meth_var_name_symbol(class, fn_name)),
        types: Ptr::Local(meth_var_type_symbol(class, fn_name)),
        imp,
    }
}

/// Builds the method table of one receiver kind for a class (`category ==
/// None`) or a category, with the per-entry string literals.  `methods` is
/// the ordered set of declared methods of that kind; `needs_construct` /
/// `needs_destruct` are the class's lifecycle flags, honoured only in a
/// primary class's instance table.
pub fn build_method_table(
    class: &str,
    category: Option<&String>,
    is_instance: bool,
    methods: &Vec<MethodDescriptor>,
    needs_construct: bool,
    needs_destruct: bool,
) -> (r: TableArtifacts)
    requires
        forall|i: int| 0 <= i < methods@.len() ==> method_wf(#[trigger] methods@[i]),
        methods@.len() < 0xffff_fff0,
    ensures
        table_artifacts_ok(
            r,
            class@,
            category_view(category),
            is_instance,
            methods@,
            needs_construct,
            needs_destruct,
        ),
{
    let ghost cat = category_view(category);
    let mut selector_names: Vec<Artifact<String>> = Vec::new();
    let mut type_strings: Vec<Artifact<String>> = Vec::new();
    let mut entries: Vec<MethodEntry> = Vec::new();
    let mut i: usize = 0;
    while i < methods.len()
        invariant
            forall|k: int| 0 <= k < methods@.len() ==> method_wf(#[trigger] methods@[k]),
            methods@.len() < 0xffff_fff0,
            i <= methods@.len(),
            selector_names@.map_values(|a: Artifact<String>| a@) == name_literals_upto(
                class@,
                methods@,
                i as int,
            ),
            type_strings@.map_values(|a: Artifact<String>| a@) == type_literals_upto(
                class@,
                methods@,
                i as int,
            ),
            entries@.map_values(|e: MethodEntry| e@) == entries_upto(class@, methods@, i as int),
            entries@.len() <= i,
        decreases methods@.len() - i,
    {
        let m = &methods[i];
        if m.has_impl {
            selector_names.push(selector_literal(class, m));
            type_strings.push(type_literal(class, m));
            entries.push(table_entry(class, m.fn_name.as_str(), m.fn_name.clone()));
        }
        i = i + 1;
        proof {
            assert(selector_names@.map_values(|a: Artifact<String>| a@) =~= name_literals_upto(
                class@,
                methods@,
                i as int,
            ));
            assert(type_strings@.map_values(|a: Artifact<String>| a@) =~= type_literals_upto(
                class@,
                methods@,
                i as int,
            ));
            assert(entries@.map_values(|e: MethodEntry| e@) =~= entries_upto(
                class@,
                methods@,
                i as int,
            ));
        }
    }
    if entries.len() == 0 {
        return TableArtifacts { selector_names, type_strings, table: None };
    }
    if is_instance && category.is_none() {
        if needs_destruct {
            proof {
                reveal_strlit("v16@0:8\u{0}");
            }
            selector_names.push(hook_name_literal(class, ".cxx_destruct"));
            let hook_types = Artifact {
                symbol: meth_var_type_symbol(class, ".cxx_destruct"),
                section: Section::MethodTypes,
                keep_alive: false,
                value: String::from_str("v16@0:8\u{0}"),
            };
            proof {
                assert(hook_types@.value =~= hook_type_text('v'));
            }
            type_strings.push(hook_types);
            entries.push(
                table_entry(class, ".cxx_destruct", String::from_str("cxx_destruct")),
            );
        }
        if needs_construct {
            proof {
                reveal_strlit("@16@0:8\u{0}");
            }
            selector_names.push(hook_name_literal(class, ".cxx_construct"));
            let hook_types = Artifact {
                symbol: meth_var_type_symbol(class, ".cxx_construct"),
                section: Section::MethodTypes,
                keep_alive: false,
                value: String::from_str("@16@0:8\u{0}"),
            };
            proof {
                assert(hook_types@.value =~= hook_type_text('@'));
            }
            type_strings.push(hook_types);
            entries.push(
                table_entry(class, ".cxx_construct", String::from_str("cxx_construct")),
            );
        }
    }
    proof {
        assert(entries@.map_values(|e: MethodEntry| e@) =~= table_entries(
            class@,
            cat,
            is_instance,
            methods@,
            needs_construct,
            needs_destruct,
        ));
        assert(selector_names@.map_values(|a: Artifact<String>| a@) =~= name_literals_upto(
            class@,
            methods@,
            methods@.len() as int,
        ) + (if hooks_included(cat, is_instance, declared_entries(class@, methods@).len())
            && needs_destruct {
            seq![hook_name_literal_view(class@, destruct_hook_selector())]
        } else {
            Seq::<ArtifactView<Seq<char>>>::empty()
        }) + (if hooks_included(cat, is_instance, declared_entries(class@, methods@).len())
            && needs_construct {
            seq![hook_name_literal_view(class@, construct_hook_selector())]
        } else {
            Seq::<ArtifactView<Seq<char>>>::empty()
        }));
        assert(type_strings@.map_values(|a: Artifact<String>| a@) =~= type_literals_upto(
            class@,
            methods@,
            methods@.len() as int,
        ) + (if hooks_included(cat, is_instance, declared_entries(class@, methods@).len())
            && needs_destruct {
            seq![hook_type_literal_view(class@, destruct_hook_selector(), 'v')]
        } else {
            Seq::<ArtifactView<Seq<char>>>::empty()
        }) + (if hooks_included(cat, is_instance, declared_entries(class@, methods@).len())
            && needs_construct {
            seq![hook_type_literal_view(class@, construct_hook_selector(), '@')]
        } else {
            Seq::<ArtifactView<Seq<char>>>::empty()
        }));
    }
    let count = entries.len() as u32;
    let table = MethodTable { entsize: METHOD_ENTRY_SIZE, count, entries };
    TableArtifacts {
        selector_names,
        type_strings,
        table: Some(
            Artifact {
                symbol: method_table_symbol(class, category, is_instance),
                section: Section::Const,
                keep_alive: false,
                value: table,
            },
        ),
    }
}

/// A primary class that requires both lifecycle hooks gets an instance
/// method table whose entry count is its declared-and-implemented method
/// count plus two, the last two entries being the destruction and
/// construction hooks under their fixed, runtime-mandated selectors.
pub proof fn lemma_hooked_table_shape(class: Seq<char>, methods: Seq<MethodDescriptor>)
    requires
        declared_entries(class, methods).len() > 0,
    ensures
        table_entries(class, None, true, methods, true, true).len() == declared_entries(
            class,
            methods,
        ).len() + 2,
        table_entries(class, None, true, methods, true, true).last() == hook_entry_view(
            class,
            construct_hook_selector(),
            "cxx_construct"@,
        ),
        table_entries(class, None, true, methods, true, true)[table_entries(
            class,
            None,
            true,
            methods,
            true,
            true,
        ).len() - 2] == hook_entry_view(class, destruct_hook_selector(), "cxx_destruct"@),
{
}

} // verus!
