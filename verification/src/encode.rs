//! The method-descriptor encoder: for one method it builds the two
//! NUL-terminated string literals the runtime reads textually — the selector
//! name and the encoded type — each emitted as a distinct named constant in
//! the conventional metadata-string section.
//!
//! The encoded-type literal is, left to right: the return type's encoding,
//! the total frame size in decimal, then for the receiver and selector the
//! fixed `<kind>0:8` prefix, then each parameter's encoding followed by its
//! decimal frame offset, and a terminating NUL.

use vstd::prelude::*;

use crate::descriptor::frame_offset;
use crate::descriptor::method_wf;
use crate::descriptor::total_frame;
use crate::descriptor::MethodDescriptor;
use crate::descriptor::ReceiverKind;
use crate::records::Artifact;
use crate::records::ArtifactView;
use crate::records::Section;
use crate::symbols::sym_meth_var_name;
use crate::symbols::sym_meth_var_type;
use crate::symbols::meth_var_name_symbol;
use crate::symbols::meth_var_type_symbol;
use crate::text::ascii_text;
use crate::text::dec_chars;
use crate::text::lemma_dec_chars_ascii;
use crate::text::push_dec;
use crate::type_encoding::lemma_type_encoding_ascii;
use crate::type_encoding::push_type_encoding;
use crate::type_encoding::type_encoding;
use crate::type_encoding::type_size_bytes;
use crate::type_encoding::TypeDesc;

verus! {

/// `s` as a NUL-terminated C string.
pub open spec fn cstr(s: Seq<char>) -> Seq<char> {
    s + seq!['\u{0}']
}

/// The encoding character of the implicit receiver: an object pointer for an
/// instance method, a class pointer for a class method.
pub open spec fn recv_code(k: ReceiverKind) -> char {
    match k {
        ReceiverKind::Instance => '@',
        ReceiverKind::Class => '#',
    }
}

/// The fixed four characters describing the receiver and selector slots:
/// the receiver's encoding at offset 0, the selector (`:`) at offset 8 — one
/// pointer size, written as the single digit `'0' + 8`.
pub open spec fn args_head(k: ReceiverKind) -> Seq<char> {
    seq![recv_code(k), '0', ':', '8']
}

/// The encoding-and-offset pieces of the first `n` parameters, concatenated.
pub open spec fn args_upto(params: Seq<TypeDesc>, n: int) -> Seq<char>
    decreases n,
{
    if n <= 0 {
        Seq::empty()
    } else {
        args_upto(params, n - 1) + type_encoding(params[n - 1]) + dec_chars(
            frame_offset(params, n - 1),
        )
    }
}

/// The argument portion of the encoded type: the fixed receiver/selector
/// prefix, each parameter's encoding and offset, and the terminating NUL.
/// For a method with no parameters this is exactly the five characters
/// `<kind>0:8` plus NUL.
pub open spec fn args_text(k: ReceiverKind, params: Seq<TypeDesc>) -> Seq<char> {
    args_head(k) + args_upto(params, params.len() as int) + seq!['\u{0}']
}

/// The complete encoded-type string of a method, NUL terminator included.
pub open spec fn encoded_type(m: MethodDescriptor) -> Seq<char> {
    type_encoding(m.ret) + dec_chars(total_frame(m.params@)) + args_text(m.receiver, m.params@)
}

/// For a method with only the receiver and selector parameters, the argument
/// portion is exactly five bytes: `<kind><'0'><':'><'0' + 8><NUL>`, the
/// fourth being the pointer size as a single decimal digit.
pub proof fn lemma_niladic_args_five_bytes(k: ReceiverKind, params: Seq<TypeDesc>)
    requires
        params.len() == 0,
    ensures
        args_text(k, params) =~= seq![recv_code(k), '0', ':', '8', '\u{0}'],
        args_text(k, params).len() == 5,
        args_text(k, params)[3] == crate::text::dec_digit(crate::descriptor::POINTER_SIZE as nat),
{
}

/// For a well-formed method with at least one parameter after the receiver
/// and selector, the frame offsets are strictly increasing, and the last
/// offset plus the last parameter's size is exactly the total frame size
/// that the encoded string embeds after the return encoding.
pub proof fn lemma_frame_offsets(m: MethodDescriptor)
    requires
        method_wf(m),
        m.params@.len() > 0,
    ensures
        forall|i: int, j: int|
            0 <= i < j < m.params@.len() ==> frame_offset(m.params@, i) < frame_offset(
                m.params@,
                j,
            ),
        frame_offset(m.params@, m.params@.len() - 1) + crate::type_encoding::type_size(
            m.params@[m.params@.len() - 1],
        ) == total_frame(m.params@),
        encoded_type(m) == type_encoding(m.ret) + dec_chars(total_frame(m.params@)) + args_text(
            m.receiver,
            m.params@,
        ),
{
    assert forall|i: int, j: int| 0 <= i < j < m.params@.len() implies frame_offset(m.params@, i)
        < frame_offset(m.params@, j) by {
        crate::descriptor::lemma_frame_offset_strictly_increasing(m.params@, i, j);
    }
    crate::descriptor::lemma_total_frame_last(m.params@);
}

/// Sum of the lengths of the per-parameter pieces of the first `n`
/// parameters: each parameter contributes its encoding and its decimal
/// offset.
pub open spec fn args_pieces_len(params: Seq<TypeDesc>, n: int) -> nat
    decreases n,
{
    if n <= 0 {
        0
    } else {
        args_pieces_len(params, n - 1) + type_encoding(params[n - 1]).len() + dec_chars(
            frame_offset(params, n - 1),
        ).len()
    }
}

proof fn lemma_args_upto_len(params: Seq<TypeDesc>, n: int)
    ensures
        args_upto(params, n).len() == args_pieces_len(params, n),
    decreases n,
{
    if n > 0 {
        lemma_args_upto_len(params, n - 1);
    }
}

/// The byte size of the encoded-type string is exactly the sum of its
/// constituent sub-string lengths, the NUL terminator included: the return
/// encoding, the decimal total frame size, the four fixed receiver/selector
/// characters, each parameter's encoding and decimal offset, and one NUL.
pub proof fn lemma_encoded_type_len(m: MethodDescriptor)
    ensures
        encoded_type(m).len() == type_encoding(m.ret).len() + dec_chars(
            total_frame(m.params@),
        ).len() + 4 + args_pieces_len(m.params@, m.params@.len() as int) + 1,
{
    lemma_args_upto_len(m.params@, m.params@.len() as int);
}

proof fn lemma_args_upto_ascii(params: Seq<TypeDesc>, n: int)
    ensures
        ascii_text(args_upto(params, n)),
    decreases n,
{
    if n > 0 {
        lemma_args_upto_ascii(params, n - 1);
        lemma_type_encoding_ascii(params[n - 1]);
        lemma_dec_chars_ascii(frame_offset(params, n - 1));
    }
}

/// Every character of an encoded-type string is ASCII, so its character
/// count is its byte size.
pub proof fn lemma_encoded_type_ascii(m: MethodDescriptor)
    ensures
        ascii_text(encoded_type(m)),
{
    lemma_type_encoding_ascii(m.ret);
    lemma_dec_chars_ascii(total_frame(m.params@));
    lemma_args_upto_ascii(m.params@, m.params@.len() as int);
    assert forall|i: int| 0 <= i < encoded_type(m).len() implies #[trigger] encoded_type(m)[i]
        <= '\u{7f}' by {
        let e = encoded_type(m);
        let a = type_encoding(m.ret);
        let b = dec_chars(total_frame(m.params@));
        let h = args_head(m.receiver);
        let u = args_upto(m.params@, m.params@.len() as int);
        assert(e =~= a + b + h + u + seq!['\u{0}']);
    }
}

/// Builds the encoded-type string of one well-formed method.
pub fn encoded_type_string(m: &MethodDescriptor) -> (r: String)
    requires
        method_wf(*m),
    ensures
        r@ == encoded_type(*m),
{
    proof {
        reveal_strlit("@0:8");
        reveal_strlit("#0:8");
        reveal_strlit("\u{0}");
    }
    let head = match m.receiver {
        ReceiverKind::Instance => "@0:8",
        ReceiverKind::Class => "#0:8",
    };
    let mut args = String::from_str(head);
    proof {
        assert(args@ =~= args_head(m.receiver) + args_upto(m.params@, 0));
    }
    let n = m.params.len();
    let mut off: usize = 16;
    let mut i: usize = 0;
    while i < n
        invariant
            method_wf(*m),
            n == m.params@.len(),
            i <= n,
            args@ == args_head(m.receiver) + args_upto(m.params@, i as int),
            off == frame_offset(m.params@, i as int),
        decreases n - i,
    {
        proof {
            crate::descriptor::lemma_frame_offset_monotone(m.params@, i + 1, n as int);
        }
        push_type_encoding(&mut args, &m.params[i]);
        push_dec(&mut args, off);
        let sz = type_size_bytes(&m.params[i]);
        off = off + sz;
        i = i + 1;
        proof {
            assert(args@ =~= args_head(m.receiver) + args_upto(m.params@, i as int));
        }
    }
    args.append("\u{0}");
    let mut r = String::new();
    push_type_encoding(&mut r, &m.ret);
    push_dec(&mut r, off);
    r.append(args.as_str());
    proof {
        assert(r@ =~= encoded_type(*m));
    }
    r
}

/// The emitted selector-name literal of one method: the selector string,
/// NUL terminated, in the selector-name section, under the method's
/// metadata-string symbol.
pub open spec fn selector_literal_view(class: Seq<char>, m: MethodDescriptor) -> ArtifactView<
    Seq<char>,
> {
    ArtifactView {
        symbol: sym_meth_var_name(class, m.fn_name@),
        section: Section::MethodNames,
        keep_alive: false,
        value: cstr(m.selector@),
    }
}

/// Builds the selector-name literal of one method.
pub fn selector_literal(class: &str, m: &MethodDescriptor) -> (r: Artifact<String>)
    ensures
        r@ == selector_literal_view(class@, *m),
{
    proof {
        reveal_strlit("\u{0}");
    }
    let mut value = m.selector.clone();
    value.append("\u{0}");
    proof {
        assert(value@ =~= cstr(m.selector@));
    }
    Artifact {
        symbol: meth_var_name_symbol(class, m.fn_name.as_str()),
        section: Section::MethodNames,
        keep_alive: false,
        value,
    }
}

/// The emitted encoded-type literal of one method, in the method-type
/// section, under the method's metadata-string symbol.
pub open spec fn type_literal_view(class: Seq<char>, m: MethodDescriptor) -> ArtifactView<
    Seq<char>,
> {
    ArtifactView {
        symbol: sym_meth_var_type(class, m.fn_name@),
        section: Section::MethodTypes,
        keep_alive: false,
        value: encoded_type(m),
    }
}

/// Builds the encoded-type literal of one well-formed method.
pub fn type_literal(class: &str, m: &MethodDescriptor) -> (r: Artifact<String>)
    requires
        method_wf(*m),
    ensures
        r@ == type_literal_view(class@, *m),
{
    Artifact {
        symbol: meth_var_type_symbol(class, m.fn_name.as_str()),
        section: Section::MethodTypes,
        keep_alive: false,
        value: encoded_type_string(m),
    }
}

} // verus!
