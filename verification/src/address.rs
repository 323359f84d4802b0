//! Typed compound-address parts and their `key=value` token encoding.

use vstd::prelude::*;
use vstd::string::*;
use crate::codec::{
    append_dec_i32, append_hex_bytes_lower, dec_chars_int, hex_chars_lower,
};
use crate::guid::{braced_of, Guid};

verus! {

/// An identifier, or one of the symbolic aliases the external tool accepts
/// in place of certain identifiers. An alias and the identifier it denotes
/// are distinct values; they compare equal only after resolution.
pub enum DPGUIDOrNamed {
    /// Any identifier.
    GUID(Guid),
    /// One of the named aliases supported by the external tool.
    Named(String),
}

/// The textual argument form of an identifier-or-alias: the braced rendering
/// of the identifier, or the alias text verbatim.
pub open spec fn key_chars(k: DPGUIDOrNamed) -> Seq<char> {
    match k {
        DPGUIDOrNamed::GUID(g) => braced_of(g@),
        DPGUIDOrNamed::Named(s) => s@,
    }
}

impl DPGUIDOrNamed {
    /// The tool's textual argument form, without consuming the value.
    pub fn to_arg_string(&self) -> (r: String)
        ensures
            r@ == key_chars(*self),
    {
        match self {
            DPGUIDOrNamed::GUID(g) => g.to_braced(),
            DPGUIDOrNamed::Named(s) => s.clone(),
        }
    }

    /// Turns this identifier-or-alias into the tool's textual argument form.
    pub fn into_string(self) -> (r: String)
        ensures
            r@ == key_chars(self),
    {
        match self {
            DPGUIDOrNamed::GUID(g) => g.to_braced(),
            DPGUIDOrNamed::Named(s) => s,
        }
    }
}

/// An address value: a signed 32-bit integer, text, or raw bytes. The
/// external grammar infers the type from a one-character prefix at encode
/// time; the value itself carries no tag in the encoded form.
pub enum DPAddressValue {
    /// A numeric address value.
    Number(i32),
    /// A textual address value.
    String(String),
    /// A binary address value.
    Binary(Vec<u8>),
}

/// One part of a compound address: a typed key and a value. Order among
/// parts is significant and preserved as inserted.
pub struct DPAddressPart {
    /// The data type of this part, an identifier or alias.
    pub data_type: DPGUIDOrNamed,
    /// The value of this part.
    pub value: DPAddressValue,
}

/// The rendering of an address value: `i:` and signed decimal for integers,
/// the text verbatim with no prefix, or `b:` and lowercase hex for bytes.
pub open spec fn value_chars(v: DPAddressValue) -> Seq<char> {
    match v {
        DPAddressValue::Number(n) => seq!['i', ':'] + dec_chars_int(n as int),
        DPAddressValue::String(s) => s@,
        DPAddressValue::Binary(b) => seq!['b', ':'] + hex_chars_lower(b@),
    }
}

/// The encoded form of one address part: `<key>=<value rendering>`.
pub open spec fn encoded_part(p: DPAddressPart) -> Seq<char> {
    key_chars(p.data_type) + seq!['='] + value_chars(p.value)
}

/// Encodes one address part as a single `key=value` token.
pub fn encode_part(p: &DPAddressPart) -> (r: String)
    ensures
        r@ == encoded_part(*p),
{
    proof {
        reveal_strlit("=");
        reveal_strlit("i:");
        reveal_strlit("b:");
    }
    let mut s = p.data_type.to_arg_string();
    s.append("=");
    match &p.value {
        DPAddressValue::Number(n) => {
            s.append("i:");
            append_dec_i32(&mut s, *n);
        },
        DPAddressValue::String(v) => {
            s.append(v.as_str());
        },
        DPAddressValue::Binary(b) => {
            s.append("b:");
            append_hex_bytes_lower(&mut s, b);
        },
    }
    proof {
        assert(s@ =~= encoded_part(*p));
    }
    s
}

} // verus!
