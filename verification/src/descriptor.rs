//! The structured descriptor records handed in by the declaration front end:
//! one per method and one per class.  The front end has already validated
//! them syntactically; well-formedness here is the arithmetic side of that
//! contract (bounded type sizes, a frame that fits in a machine word, flag
//! consistency).
//!
//! Frame layout: the receiver and the selector occupy the first two
//! pointer-sized slots unconditionally; every following parameter starts
//! where the previous one ended — argument slots are tightly packed, with no
//! re-alignment gaps.

use vstd::prelude::*;

use crate::type_encoding::lemma_type_size_bounded;
use crate::type_encoding::type_size;
use crate::type_encoding::type_size_bytes;
use crate::type_encoding::type_wf;
use crate::type_encoding::type_wf_check;
use crate::type_encoding::TypeDesc;

verus! {

/// Pointer size of the target, in bytes.
pub const POINTER_SIZE: usize = 8;

/// Largest total frame size a well-formed method may have.
pub const MAX_FRAME_SIZE: usize = 0x7fff_ffff;

/// Whether a method is received by an instance or by the class object.
#[derive(Clone, Copy, Debug, PartialEq, Eq, Structural)]
pub enum ReceiverKind {
    Instance,
    Class,
}

/// One declared method: its selector, the identifier of the function that
/// implements it, the parameter types after the implicit receiver and
/// selector, the return type, and the receiver kind.  A descriptor without a
/// synthesized implementation (`has_impl == false`) declares forwarding only
/// and never enters a method table.
#[derive(Debug)]
pub struct MethodDescriptor {
    /// Colon-delimited selector string.
    pub selector: String,
    /// Identifier of the implementation entry point; also names the
    /// per-method metadata strings.
    pub fn_name: String,
    /// Parameter types after the receiver and the selector.
    pub params: Vec<TypeDesc>,
    /// Return type; [`TypeDesc::Void`] for a method returning nothing.
    pub ret: TypeDesc,
    pub receiver: ReceiverKind,
    /// Whether a synthesized implementation exists for this descriptor.
    pub has_impl: bool,
}

/// Byte offset of parameter `i` (counting from the first parameter after the
/// receiver and selector) within the argument frame.  The receiver and
/// selector occupy the first two pointer-sized slots, so the first parameter
/// starts at 16; each later one starts where its predecessor ended.
pub open spec fn frame_offset(params: Seq<TypeDesc>, i: int) -> nat
    decreases i,
{
    if i <= 0 {
        (2 * POINTER_SIZE) as nat
    } else {
        frame_offset(params, i - 1) + type_size(params[i - 1])
    }
}

/// Total byte size of the argument frame: where a parameter after the last
/// one would start.  A method with no parameters has the fixed two-slot
/// frame of 16 bytes.
pub open spec fn total_frame(params: Seq<TypeDesc>) -> nat {
    frame_offset(params, params.len() as int)
}

/// Every parameter type is well formed and occupies at least one byte: the
/// empty type cannot be passed as an argument.
pub open spec fn params_wf(params: Seq<TypeDesc>) -> bool {
    forall|i: int|
        0 <= i < params.len() ==> type_wf(#[trigger] params[i]) && 1 <= type_size(params[i])
}

/// Well-formedness of a method descriptor, as the front end guarantees it.
pub open spec fn method_wf(m: MethodDescriptor) -> bool {
    &&& params_wf(m.params@)
    &&& type_wf(m.ret)
    &&& total_frame(m.params@) <= MAX_FRAME_SIZE
}

/// Frame offsets never decrease from one parameter to the next.
pub proof fn lemma_frame_offset_monotone(params: Seq<TypeDesc>, i: int, j: int)
    requires
        0 <= i <= j,
    ensures
        frame_offset(params, i) <= frame_offset(params, j),
    decreases j,
{
    if i < j {
        lemma_frame_offset_monotone(params, i, j - 1);
    }
}

/// With every parameter at least one byte wide, frame offsets strictly
/// increase.
pub proof fn lemma_frame_offset_strictly_increasing(params: Seq<TypeDesc>, i: int, j: int)
    requires
        params_wf(params),
        0 <= i < j <= params.len(),
    ensures
        frame_offset(params, i) < frame_offset(params, j),
    decreases j,
{
    if i < j - 1 {
        lemma_frame_offset_strictly_increasing(params, i, j - 1);
    }
}

/// The last parameter's offset plus its size is the total frame size.
pub proof fn lemma_total_frame_last(params: Seq<TypeDesc>)
    requires
        params.len() > 0,
    ensures
        total_frame(params) == frame_offset(params, params.len() - 1) + type_size(
            params[params.len() - 1],
        ),
{
}

/// Decides [`method_wf`].
pub fn method_wf_check(m: &MethodDescriptor) -> (r: bool)
    ensures
        r == method_wf(*m),
{
    if !type_wf_check(&m.ret) {
        return false;
    }
    let n = m.params.len();
    let mut off: u64 = 16;
    let mut i: usize = 0;
    while i < n
        invariant
            n == m.params@.len(),
            i <= n,
            type_wf(m.ret),
            forall|k: int|
                0 <= k < i ==> type_wf(#[trigger] m.params@[k]) && 1 <= type_size(m.params@[k]),
            off == frame_offset(m.params@, i as int),
            off <= MAX_FRAME_SIZE as u64,
        decreases n - i,
    {
        let p = &m.params[i];
        if !type_wf_check(p) {
            proof {
                assert(!type_wf(m.params@[i as int]));
            }
            return false;
        }
        let sz = type_size_bytes(p);
        if sz == 0 {
            return false;
        }
        proof {
            lemma_type_size_bounded(m.params@[i as int]);
        }
        let next = off + sz as u64;
        if next > MAX_FRAME_SIZE as u64 {
            proof {
                lemma_frame_offset_monotone(m.params@, i + 1, n as int);
            }
            return false;
        }
        off = next;
        i = i + 1;
    }
    true
}

/// The instance methods among the first `n` declared methods, in order.
pub open spec fn instance_part(methods: Seq<MethodDescriptor>, n: int) -> Seq<MethodDescriptor>
    decreases n,
{
    if n <= 0 {
        Seq::empty()
    } else {
        instance_part(methods, n - 1) + if methods[n - 1].receiver is Instance {
            seq![methods[n - 1]]
        } else {
            Seq::<MethodDescriptor>::empty()
        }
    }
}

/// The class methods among the first `n` declared methods, in order.
pub open spec fn class_part(methods: Seq<MethodDescriptor>, n: int) -> Seq<MethodDescriptor>
    decreases n,
{
    if n <= 0 {
        Seq::empty()
    } else {
        class_part(methods, n - 1) + if methods[n - 1].receiver is Class {
            seq![methods[n - 1]]
        } else {
            Seq::<MethodDescriptor>::empty()
        }
    }
}

/// Splits one declaration block's methods into the instance and class
/// method lists of its descriptor, keeping declaration order within each.
pub fn partition_methods(methods: Vec<MethodDescriptor>) -> (r: (
    Vec<MethodDescriptor>,
    Vec<MethodDescriptor>,
))
    ensures
        r.0@ == instance_part(methods@, methods@.len() as int),
        r.1@ == class_part(methods@, methods@.len() as int),
{
    let ghost all = methods@;
    let mut rest = methods;
    let mut instance_methods: Vec<MethodDescriptor> = Vec::new();
    let mut class_methods: Vec<MethodDescriptor> = Vec::new();
    let ghost mut k: int = 0;
    while rest.len() > 0
        invariant
            0 <= k <= all.len(),
            rest@ =~= all.skip(k),
            instance_methods@ == instance_part(all, k),
            class_methods@ == class_part(all, k),
        decreases rest@.len(),
    {
        let m = rest.remove(0);
        proof {
            assert(m == all[k]);
            k = k + 1;
        }
        match m.receiver {
            ReceiverKind::Instance => instance_methods.push(m),
            ReceiverKind::Class => class_methods.push(m),
        }
        proof {
            assert(instance_methods@ =~= instance_part(all, k));
            assert(class_methods@ =~= class_part(all, k));
            assert(rest@ =~= all.skip(k));
        }
    }
    (instance_methods, class_methods)
}

/// One class (or class-like) declaration: its names, geometry, lifecycle
/// flags, and the methods it declares.  Immutable once produced by the front
/// end.
#[derive(Debug)]
pub struct ClassDescriptor {
    /// The declared type's own name.
    pub declared_name: String,
    /// Optional override: the name the runtime sees instead of `declared_name`.
    pub export_name: Option<String>,
    /// Name of the declared superclass; `None` for a root class.
    pub superclass: Option<String>,
    /// Name of the root class of this class's chain (its own runtime name
    /// when the class is itself a root).
    pub root_class: String,
    /// Whether the class has no superclass.
    pub is_root: bool,
    /// Byte offset where this class's own instance fields begin.
    pub instance_start: u32,
    /// Total instance byte size.
    pub instance_size: u32,
    /// Whether the class declares instance fields of its own.
    pub has_ivars: bool,
    /// Whether instances need the synthesized field-construction hook.
    pub needs_construct: bool,
    /// Whether instances need the synthesized field-destruction hook.
    pub needs_destruct: bool,
    /// Whether the class's binary representation is owned by another module;
    /// if so, only references to it are emitted here.
    pub is_foreign: bool,
    /// Whether the declared type is generic; suppresses accessor inlining.
    pub is_generic: bool,
    pub instance_methods: Vec<MethodDescriptor>,
    pub class_methods: Vec<MethodDescriptor>,
}

impl ClassDescriptor {
    /// The name the runtime sees: the export override when present, the
    /// declared type name otherwise.
    pub open spec fn runtime_name(self) -> Seq<char> {
        match self.export_name {
            Some(n) => n@,
            None => self.declared_name@,
        }
    }

    /// Executable form of [`ClassDescriptor::runtime_name`].
    pub fn runtime_name_str(&self) -> (r: &String)
        ensures
            r@ == self.runtime_name(),
    {
        match &self.export_name {
            Some(n) => n,
            None => &self.declared_name,
        }
    }
}

/// Well-formedness of a class descriptor, as the front end guarantees it.
pub open spec fn class_wf(c: ClassDescriptor) -> bool {
    &&& forall|i: int|
        0 <= i < c.instance_methods@.len() ==> method_wf(#[trigger] c.instance_methods@[i])
    &&& forall|i: int|
        0 <= i < c.class_methods@.len() ==> method_wf(#[trigger] c.class_methods@[i])
    &&& (c.is_root <==> c.superclass is None)
    &&& (c.is_root ==> c.root_class@ == c.runtime_name())
    &&& c.instance_methods@.len() < 0xffff_fff0
    &&& c.class_methods@.len() < 0xffff_fff0
}

/// Decides [`class_wf`].
pub fn class_wf_check(c: &ClassDescriptor) -> (r: bool)
    ensures
        r == class_wf(*c),
{
    let mut i: usize = 0;
    while i < c.instance_methods.len()
        invariant
            i <= c.instance_methods@.len(),
            forall|k: int| 0 <= k < i ==> method_wf(#[trigger] c.instance_methods@[k]),
        decreases c.instance_methods@.len() - i,
    {
        if !method_wf_check(&c.instance_methods[i]) {
            proof {
                assert(!method_wf(c.instance_methods@[i as int]));
            }
            return false;
        }
        i = i + 1;
    }
    let mut j: usize = 0;
    while j < c.class_methods.len()
        invariant
            j <= c.class_methods@.len(),
            forall|k: int| 0 <= k < j ==> method_wf(#[trigger] c.class_methods@[k]),
        decreases c.class_methods@.len() - j,
    {
        if !method_wf_check(&c.class_methods[j]) {
            proof {
                assert(!method_wf(c.class_methods@[j as int]));
            }
            return false;
        }
        j = j + 1;
    }
    if c.instance_methods.len() >= 0xffff_fff0 {
        return false;
    }
    if c.class_methods.len() >= 0xffff_fff0 {
        return false;
    }
    if c.is_root != c.superclass.is_none() {
        return false;
    }
    if c.is_root && !c.root_class.eq(c.runtime_name_str()) {
        return false;
    }
    true
}

/// One annotated `impl` block as the front end hands it over: the class it
/// belongs to, and — when the block overlays a capability interface onto the
/// class instead of being its primary declaration — that interface's name.
#[derive(Debug)]
pub struct Declaration {
    pub class: ClassDescriptor,
    /// `Some(name)` when this declaration is a category overlay conforming
    /// to the capability interface `name`; `None` for a primary class
    /// declaration.
    pub category: Option<String>,
}

/// Well-formedness of a declaration.
pub open spec fn decl_wf(d: Declaration) -> bool {
    class_wf(d.class)
}

/// Decides [`decl_wf`], so an unverified caller can test a descriptor
/// before handing it to synthesis.
pub fn decl_wf_check(d: &Declaration) -> (r: bool)
    ensures
        r == decl_wf(*d),
{
    class_wf_check(&d.class)
}

} // verus!
