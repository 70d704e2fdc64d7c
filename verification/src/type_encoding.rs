//! The type-encoding engine: for one type descriptor it yields the runtime's
//! legacy encoding characters and the byte size used for stack-frame offset
//! arithmetic.  Shapes the engine cannot classify degrade to the conservative
//! `?` encoding; there is no failure path.

use vstd::prelude::*;

use crate::text::ascii_text;
use crate::text::dec_chars;
use crate::text::lemma_dec_chars_ascii;
use crate::text::push_dec;

verus! {

/// Largest byte size a well-formed type may have; keeps frame arithmetic
/// within machine integers on every target.
pub const MAX_TYPE_SIZE: u32 = 0x7fff_ffff;

/// The semantic shape of a parameter or return type, as derived from the
/// source type at compile time.  It determines both the encoding characters
/// and the byte size entering frame-offset arithmetic.
#[derive(Debug)]
pub enum TypeDesc {
    /// A pointer to an object managed by the runtime: `@`.
    ObjectPointer,
    /// A pointer to a class object: `#`.
    ClassPointer,
    /// The empty type: `v`.
    Void,
    /// One-byte boolean: `B`.
    Bool,
    /// Signed one-byte scalar: `c`.
    SignedByte,
    /// Unsigned one-byte scalar: `C`.
    UnsignedByte,
    /// Signed two-byte scalar: `s`.
    SignedShort,
    /// Unsigned two-byte scalar: `S`.
    UnsignedShort,
    /// Signed four-byte scalar: `i`.
    SignedInt,
    /// Unsigned four-byte scalar: `I`.
    UnsignedInt,
    /// Signed eight-byte scalar: `q`.
    SignedLongLong,
    /// Unsigned eight-byte scalar: `Q`.
    UnsignedLongLong,
    /// A pointer to a non-object type: `^` followed by the pointee's
    /// encoding, or `^?` when the pointee is unknown.
    Pointer(Option<Box<TypeDesc>>),
    /// A fixed-size array of N elements: `[<N><element encoding>]`.
    Array(u32, Box<TypeDesc>),
    /// A structural aggregate or any shape the engine cannot classify, with
    /// its known byte size: the conservative `?` encoding, never an error.
    Opaque(u32),
}

/// The byte size of a value of the described type.
pub open spec fn type_size(t: TypeDesc) -> nat
    decreases t,
{
    match t {
        TypeDesc::ObjectPointer => 8,
        TypeDesc::ClassPointer => 8,
        TypeDesc::Void => 0,
        TypeDesc::Bool => 1,
        TypeDesc::SignedByte => 1,
        TypeDesc::UnsignedByte => 1,
        TypeDesc::SignedShort => 2,
        TypeDesc::UnsignedShort => 2,
        TypeDesc::SignedInt => 4,
        TypeDesc::UnsignedInt => 4,
        TypeDesc::SignedLongLong => 8,
        TypeDesc::UnsignedLongLong => 8,
        TypeDesc::Pointer(_) => 8,
        TypeDesc::Array(n, e) => n as nat * type_size(*e),
        TypeDesc::Opaque(sz) => sz as nat,
    }
}

/// Well-formedness of a type descriptor: every size stays within
/// [`MAX_TYPE_SIZE`], so frame offsets never overflow.
pub open spec fn type_wf(t: TypeDesc) -> bool
    decreases t,
{
    match t {
        TypeDesc::Pointer(Some(e)) => type_wf(*e),
        TypeDesc::Array(n, e) => type_wf(*e) && n as nat * type_size(*e) <= MAX_TYPE_SIZE,
        TypeDesc::Opaque(sz) => sz <= MAX_TYPE_SIZE,
        _ => true,
    }
}

/// A well-formed type's size is bounded by [`MAX_TYPE_SIZE`].
pub proof fn lemma_type_size_bounded(t: TypeDesc)
    requires
        type_wf(t),
    ensures
        type_size(t) <= MAX_TYPE_SIZE,
{
}

/// Decides [`type_wf`].
pub fn type_wf_check(t: &TypeDesc) -> (r: bool)
    ensures
        r == type_wf(*t),
    decreases *t,
{
    match t {
        TypeDesc::Pointer(Some(e)) => type_wf_check(e),
        TypeDesc::Array(n, e) => {
            if !type_wf_check(e) {
                return false;
            }
            let elem = type_size_bytes(e);
            let count = *n as u64;
            let width = elem as u64;
            proof {
                lemma_type_size_bounded(**e);
                assert(count * width <= 0xffff_ffff * 0x7fff_ffff) by (nonlinear_arith)
                    requires
                        count <= 0xffff_ffff,
                        width <= 0x7fff_ffff,
                ;
            }
            count * width <= MAX_TYPE_SIZE as u64
        },
        TypeDesc::Opaque(sz) => *sz <= MAX_TYPE_SIZE,
        _ => true,
    }
}

/// The encoding characters for the described type, per the runtime's legacy
/// type-encoding grammar.
pub open spec fn type_encoding(t: TypeDesc) -> Seq<char>
    decreases t,
{
    match t {
        TypeDesc::ObjectPointer => seq!['@'],
        TypeDesc::ClassPointer => seq!['#'],
        TypeDesc::Void => seq!['v'],
        TypeDesc::Bool => seq!['B'],
        TypeDesc::SignedByte => seq!['c'],
        TypeDesc::UnsignedByte => seq!['C'],
        TypeDesc::SignedShort => seq!['s'],
        TypeDesc::UnsignedShort => seq!['S'],
        TypeDesc::SignedInt => seq!['i'],
        TypeDesc::UnsignedInt => seq!['I'],
        TypeDesc::SignedLongLong => seq!['q'],
        TypeDesc::UnsignedLongLong => seq!['Q'],
        TypeDesc::Pointer(None) => seq!['^', '?'],
        TypeDesc::Pointer(Some(e)) => seq!['^'] + type_encoding(*e),
        TypeDesc::Array(n, e) => seq!['['] + dec_chars(n as nat) + type_encoding(*e) + seq![']'],
        TypeDesc::Opaque(_) => seq!['?'],
    }
}

/// A type encoding is never empty and consists of ASCII characters only.
pub proof fn lemma_type_encoding_ascii(t: TypeDesc)
    ensures
        type_encoding(t).len() >= 1,
        ascii_text(type_encoding(t)),
    decreases t,
{
    match t {
        TypeDesc::Pointer(Some(e)) => {
            lemma_type_encoding_ascii(*e);
        },
        TypeDesc::Array(n, e) => {
            lemma_dec_chars_ascii(n as nat);
            lemma_type_encoding_ascii(*e);
        },
        _ => {},
    }
}

/// The byte size of the described type, for frame-offset arithmetic.
pub fn type_size_bytes(t: &TypeDesc) -> (r: usize)
    requires
        type_wf(*t),
    ensures
        r == type_size(*t),
    decreases *t,
{
    match t {
        TypeDesc::ObjectPointer => 8,
        TypeDesc::ClassPointer => 8,
        TypeDesc::Void => 0,
        TypeDesc::Bool => 1,
        TypeDesc::SignedByte => 1,
        TypeDesc::UnsignedByte => 1,
        TypeDesc::SignedShort => 2,
        TypeDesc::UnsignedShort => 2,
        TypeDesc::SignedInt => 4,
        TypeDesc::UnsignedInt => 4,
        TypeDesc::SignedLongLong => 8,
        TypeDesc::UnsignedLongLong => 8,
        TypeDesc::Pointer(_) => 8,
        TypeDesc::Array(n, e) => {
            let elem = type_size_bytes(e);
            (*n as usize) * elem
        },
        TypeDesc::Opaque(sz) => *sz as usize,
    }
}

/// Appends the encoding of `t` to `out`.
pub fn push_type_encoding(out: &mut String, t: &TypeDesc)
    ensures
        final(out)@ == old(out)@ + type_encoding(*t),
    decreases *t,
{
    proof {
        reveal_strlit("@");
        reveal_strlit("#");
        reveal_strlit("v");
        reveal_strlit("B");
        reveal_strlit("c");
        reveal_strlit("C");
        reveal_strlit("s");
        reveal_strlit("S");
        reveal_strlit("i");
        reveal_strlit("I");
        reveal_strlit("q");
        reveal_strlit("Q");
        reveal_strlit("^");
        reveal_strlit("^?");
        reveal_strlit("[");
        reveal_strlit("]");
        reveal_strlit("?");
    }
    match t {
        TypeDesc::ObjectPointer => out.append("@"),
        TypeDesc::ClassPointer => out.append("#"),
        TypeDesc::Void => out.append("v"),
        TypeDesc::Bool => out.append("B"),
        TypeDesc::SignedByte => out.append("c"),
        TypeDesc::UnsignedByte => out.append("C"),
        TypeDesc::SignedShort => out.append("s"),
        TypeDesc::UnsignedShort => out.append("S"),
        TypeDesc::SignedInt => out.append("i"),
        TypeDesc::UnsignedInt => out.append("I"),
        TypeDesc::SignedLongLong => out.append("q"),
        TypeDesc::UnsignedLongLong => out.append("Q"),
        TypeDesc::Pointer(None) => out.append("^?"),
        TypeDesc::Pointer(Some(e)) => {
            out.append("^");
            push_type_encoding(out, e);
        },
        TypeDesc::Array(n, e) => {
            out.append("[");
            push_dec(out, *n as usize);
            push_type_encoding(out, e);
            out.append("]");
        },
        TypeDesc::Opaque(_) => out.append("?"),
    }
    proof {
        assert(out@ =~= old(out)@ + type_encoding(*t));
    }
}

} // verus!
