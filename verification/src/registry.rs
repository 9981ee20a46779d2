//! What all protocol registries share: a table of named codes, open to codes
//! that have no name yet.

use crate::codec::{Codec, InvalidMessage, Reader};
use crate::text::{push_char, push_hex, spec_hex};
use vstd::prelude::*;
use vstd::string::StringExecFns;

verus! {

/// An unsigned integer in which a registry writes its codes.
pub trait WireInt: Codec + Copy {
    /// The integer's value.
    spec fn spec_value(self) -> nat;

    /// An integer is what its own bytes decode to.
    proof fn lemma_decodes_to_itself(self)
        ensures
            Self::unwire(self.wire()) == self,
    ;

    /// The integer, widened to sixteen bits.
    fn value(self) -> (v: u16)
        ensures
            v == self.spec_value(),
    ;
}

impl WireInt for u8 {
    open spec fn spec_value(self) -> nat {
        self as nat
    }

    proof fn lemma_decodes_to_itself(self) {
    }

    fn value(self) -> (v: u16) {
        self as u16
    }
}

impl WireInt for u16 {
    open spec fn spec_value(self) -> nat {
        self as nat
    }

    proof fn lemma_decodes_to_itself(self) {
    }

    fn value(self) -> (v: u16) {
        self
    }
}

/// A protocol registry: named codes of a fixed width, and `Unknown(code)`
/// for every code that has no name.
pub trait ProtocolEnum: Copy {
    /// The integer type of the registry's codes.
    type Code: WireInt;

    /// The registry's own name.
    spec fn spec_registry() -> &'static str;

    /// The code that a value stands for.
    spec fn spec_code(self) -> Self::Code;

    /// The value that a code decodes to: the named one where the code has a
    /// name, `Unknown(code)` otherwise.
    spec fn spec_from_code(code: Self::Code) -> Self;

    /// The symbolic name of the value's code, where the code has one. The
    /// name goes by the code, however the value was made.
    spec fn spec_as_str(self) -> Option<&'static str>;

    /// Whether the name of the value's code is kept out of trace output, so
    /// that the value is shown by its code.
    spec fn spec_quiet(self) -> bool;

    /// Every code decodes to a value that stands for that code.
    proof fn lemma_code_of_decoded(code: Self::Code)
        ensures
            Self::spec_from_code(code).spec_code() == code,
    ;

    /// A value has no identity beyond its code: two values that stand for
    /// the same code have the same name, or both have none, and are kept
    /// out of trace output or not together.
    proof fn lemma_goes_by_code(a: Self, b: Self)
        requires
            a.spec_code() == b.spec_code(),
        ensures
            a.spec_as_str() == b.spec_as_str(),
            a.spec_quiet() == b.spec_quiet(),
    ;

    /// The registry's own name.
    fn registry() -> (name: &'static str)
        ensures
            name == Self::spec_registry(),
    ;

    /// The code that the value stands for.
    fn code(self) -> (code: Self::Code)
        ensures
            code == self.spec_code(),
    ;

    /// The value that `code` decodes to. Every code decodes.
    fn from_code(code: Self::Code) -> (v: Self)
        ensures
            v == Self::spec_from_code(code),
    ;

    /// The symbolic name of the value's code, where the code has one.
    fn as_str(&self) -> (name: Option<&'static str>)
        ensures
            name == self.spec_as_str(),
    ;

    /// Whether the name of the value's code is kept out of trace output.
    fn quiet(&self) -> (quiet: bool)
        ensures
            quiet == self.spec_quiet(),
    ;
}

/// How a value is shown in trace output.
pub trait Render {
    /// The text that `render` gives.
    spec fn spec_render(&self) -> Seq<char>;

    /// The value as text for trace output.
    fn render(&self) -> (text: String)
        ensures
            text@ == self.spec_render(),
    ;
}

/// A registry value is shown by its name, or as `Unknown(0x..)`, with its
/// code in hexadecimal, where it has no name or the name is kept out.
impl<T: ProtocolEnum> Render for T {
    open spec fn spec_render(&self) -> Seq<char> {
        match self.spec_as_str() {
            Some(name) if !self.spec_quiet() => name@,
            _ => "Unknown(0x"@ + spec_hex(self.spec_code().spec_value()) + seq![')'],
        }
    }

    fn render(&self) -> (text: String) {
        match self.as_str() {
            Some(name) if !self.quiet() => String::from_str(name),
            _ => {
                let mut text = String::from_str("Unknown(0x");
                push_hex(&mut text, self.code().value());
                push_char(&mut text, ')');
                text
            },
        }
    }
}

impl<T: ProtocolEnum> Codec for T {
    open spec fn width() -> nat {
        T::Code::width()
    }

    open spec fn label() -> &'static str {
        T::spec_registry()
    }

    open spec fn wire(&self) -> Seq<u8> {
        self.spec_code().wire()
    }

    open spec fn unwire(bytes: Seq<u8>) -> Self {
        T::spec_from_code(T::Code::unwire(bytes))
    }

    proof fn lemma_wire_len(&self) {
        self.spec_code().lemma_wire_len();
    }

    proof fn lemma_round_trip(bytes: Seq<u8>) {
        T::lemma_code_of_decoded(T::Code::unwire(bytes));
        T::Code::lemma_round_trip(bytes);
    }

    fn encode(&self, bytes: &mut Vec<u8>) {
        self.code().encode(bytes);
    }

    fn read(r: &mut Reader<'_>) -> (res: Result<Self, InvalidMessage>) {
        match T::Code::read(r) {
            Ok(code) => Ok(T::from_code(code)),
            Err(_) => Err(InvalidMessage::MissingData(T::registry())),
        }
    }
}

/// Whether a value is the one that its own code decodes to. Every value
/// that comes out of decoding is; `Unknown(code)` with a code that has a
/// name is not.
pub open spec fn canonical<T: ProtocolEnum>(value: T) -> bool {
    T::spec_from_code(value.spec_code()) == value
}

/// What decoding gives is canonical.
pub proof fn lemma_decoded_is_canonical<T: ProtocolEnum>(code: T::Code)
    ensures
        canonical(T::spec_from_code(code)),
{
    T::lemma_code_of_decoded(code);
}

/// A value has no identity beyond its code: canonical values with the same
/// code are the same value.
pub proof fn lemma_canonical_values_differ_by_code<T: ProtocolEnum>(a: T, b: T)
    requires
        canonical(a),
        canonical(b),
    ensures
        (a.spec_code() == b.spec_code()) <==> a == b,
{
}

/// How a value is shown goes by its code and by nothing else.
pub proof fn lemma_render_goes_by_code<T: ProtocolEnum>(a: T, b: T)
    requires
        a.spec_code() == b.spec_code(),
    ensures
        a.spec_render() == b.spec_render(),
{
    T::lemma_goes_by_code(a, b);
}

/// Decoding an encoded value gives the value back, up to its canonical form:
/// the result stands for the same code.
pub proof fn lemma_encode_then_decode<T: ProtocolEnum>(value: T)
    ensures
        T::unwire(value.wire()).spec_code() == value.spec_code(),
        canonical(value) ==> T::unwire(value.wire()) == value,
{
    value.spec_code().lemma_decodes_to_itself();
    T::lemma_code_of_decoded(value.spec_code());
}

} // verus!
