//! Reading and writing fixed-width items of the TLS wire format.

use vstd::prelude::*;
use vstd::slice::slice_subrange;

verus! {

/// Why a message could not be decoded.
#[derive(Debug, Clone, Copy, PartialEq, Eq)]
pub enum InvalidMessage {
    /// The input ended before the named item was complete.
    MissingData(&'static str),
}

/// A cursor over a byte buffer that hands the bytes out front to back.
pub struct Reader<'a> {
    buffer: &'a [u8],
    cursor: usize,
}

impl<'a> Reader<'a> {
    #[verifier::type_invariant]
    spec fn inv(self) -> bool {
        self.cursor <= self.buffer@.len()
    }

    /// The whole buffer, read and unread.
    pub closed spec fn spec_buffer(self) -> Seq<u8> {
        self.buffer@
    }

    /// How many bytes have been handed out.
    pub closed spec fn spec_used(self) -> nat {
        self.cursor as nat
    }

    /// The bytes not yet handed out.
    pub open spec fn spec_rest(self) -> Seq<u8> {
        self.spec_buffer().skip(self.spec_used() as int)
    }

    /// A reader at the start of `bytes`.
    pub fn init(bytes: &'a [u8]) -> (r: Self)
        ensures
            r.spec_buffer() == bytes@,
            r.spec_used() == 0,
            r.spec_rest() == bytes@,
    {
        Reader { buffer: bytes, cursor: 0 }
    }

    /// Hands out the next `length` bytes, or nothing (and stays put) when
    /// fewer are left.
    pub fn take(&mut self, length: usize) -> (res: Option<&'a [u8]>)
        ensures
            final(self).spec_buffer() == old(self).spec_buffer(),
            match res {
                Some(bytes) => {
                    &&& length <= old(self).spec_rest().len()
                    &&& bytes@ == old(self).spec_rest().take(length as int)
                    &&& final(self).spec_used() == old(self).spec_used() + length
                    &&& final(self).spec_rest() == old(self).spec_rest().skip(length as int)
                },
                None => {
                    &&& length > old(self).spec_rest().len()
                    &&& final(self).spec_used() == old(self).spec_used()
                },
            },
    {
        proof {
            use_type_invariant(&*self);
        }
        if self.buffer.len() - self.cursor < length {
            return None;
        }
        let start = self.cursor;
        let bytes = slice_subrange(self.buffer, start, start + length);
        self.cursor = start + length;
        proof {
            assert(bytes@ == old(self).spec_rest().take(length as int));
            assert(self.spec_rest() == old(self).spec_rest().skip(length as int));
        }
        Some(bytes)
    }

    /// How many bytes are left.
    pub fn left(&self) -> (n: usize)
        ensures
            n == self.spec_rest().len(),
    {
        proof {
            use_type_invariant(self);
        }
        self.buffer.len() - self.cursor
    }

    /// How many bytes have been handed out.
    pub fn used(&self) -> (n: usize)
        ensures
            n == self.spec_used(),
    {
        self.cursor
    }

    /// Whether any byte is left.
    pub fn any_left(&self) -> (b: bool)
        ensures
            b == (self.spec_rest().len() > 0),
    {
        proof {
            use_type_invariant(self);
        }
        self.cursor < self.buffer.len()
    }
}

/// An item that takes a fixed number of bytes on the wire.
pub trait Codec: Sized {
    /// How many bytes the item takes.
    spec fn width() -> nat;

    /// The name under which a truncated item is reported.
    spec fn label() -> &'static str;

    /// The bytes that stand for the item.
    spec fn wire(&self) -> Seq<u8>;

    /// The item that `width()` bytes stand for.
    spec fn unwire(bytes: Seq<u8>) -> Self;

    /// Every item is written in exactly `width()` bytes.
    proof fn lemma_wire_len(&self)
        ensures
            self.wire().len() == Self::width(),
    ;

    /// Decoding and then encoding gives back the bytes, whatever they hold.
    proof fn lemma_round_trip(bytes: Seq<u8>)
        requires
            bytes.len() == Self::width(),
        ensures
            Self::unwire(bytes).wire() == bytes,
    ;

    /// Appends the item's bytes to `bytes`.
    fn encode(&self, bytes: &mut Vec<u8>)
        ensures
            final(bytes)@ == old(bytes)@ + self.wire(),
    ;

    /// Decodes one item from the front of what `r` has left. Fails only
    /// when fewer than `width()` bytes are left, and then leaves `r` as it
    /// was.
    fn read(r: &mut Reader<'_>) -> (res: Result<Self, InvalidMessage>)
        ensures
            final(r).spec_buffer() == old(r).spec_buffer(),
            if old(r).spec_rest().len() >= Self::width() {
                &&& res == Ok::<Self, InvalidMessage>(
                    Self::unwire(old(r).spec_rest().take(Self::width() as int)),
                )
                &&& final(r).spec_rest() == old(r).spec_rest().skip(Self::width() as int)
                &&& final(r).spec_used() == old(r).spec_used() + Self::width()
            } else {
                &&& res == Err::<Self, InvalidMessage>(
                    InvalidMessage::MissingData(Self::label()),
                )
                &&& final(r).spec_used() == old(r).spec_used()
            },
    ;

    /// The item's bytes, in a vector of their own.
    fn get_encoding(&self) -> (bytes: Vec<u8>)
        ensures
            bytes@ == self.wire(),
    {
        let mut bytes = Vec::new();
        self.encode(&mut bytes);
        bytes
    }

    /// Decodes one item from the front of `bytes`; what follows the item is
    /// not looked at.
    fn read_bytes(bytes: &[u8]) -> (res: Result<Self, InvalidMessage>)
        ensures
            if bytes@.len() >= Self::width() {
                res == Ok::<Self, InvalidMessage>(Self::unwire(bytes@.take(Self::width() as int)))
            } else {
                res == Err::<Self, InvalidMessage>(InvalidMessage::MissingData(Self::label()))
            },
    {
        let mut reader = Reader::init(bytes);
        Self::read(&mut reader)
    }
}

/// What decoding one item from the front of `bytes` gives: the item and the
/// bytes after it, or nothing when `bytes` is too short to hold the item.
/// This is what `read` does to what its reader has left, and what
/// `read_bytes` does to its argument.
pub open spec fn decode<T: Codec>(bytes: Seq<u8>) -> Option<(T, Seq<u8>)> {
    if bytes.len() >= T::width() {
        Some((T::unwire(bytes.take(T::width() as int)), bytes.skip(T::width() as int)))
    } else {
        None
    }
}

/// Decoding fails on truncated input and on nothing else: whatever the bytes
/// hold, an item comes out as soon as there are enough of them.
pub proof fn lemma_decode_fails_only_when_truncated<T: Codec>(bytes: Seq<u8>)
    ensures
        decode::<T>(bytes) is None <==> bytes.len() < T::width(),
{
}

/// Decoding and then encoding gives back exactly the bytes that were taken,
/// for every bit pattern: the encoding of the item, followed by the rest, is
/// the input.
pub proof fn lemma_decode_then_encode<T: Codec>(bytes: Seq<u8>)
    ensures
        decode::<T>(bytes) matches Some((item, rest)) ==> item.wire() + rest == bytes,
{
    if bytes.len() >= T::width() {
        let front = bytes.take(T::width() as int);
        T::lemma_round_trip(front);
        assert(front + bytes.skip(T::width() as int) =~= bytes);
    }
}

impl Codec for u8 {
    open spec fn width() -> nat {
        1
    }

    open spec fn label() -> &'static str {
        "u8"
    }

    open spec fn wire(&self) -> Seq<u8> {
        seq![*self]
    }

    open spec fn unwire(bytes: Seq<u8>) -> Self {
        bytes[0]
    }

    proof fn lemma_wire_len(&self) {
    }

    proof fn lemma_round_trip(bytes: Seq<u8>) {
        assert(seq![bytes[0]] =~= bytes);
    }

    fn encode(&self, bytes: &mut Vec<u8>) {
        bytes.push(*self);
    }

    fn read(r: &mut Reader<'_>) -> (res: Result<Self, InvalidMessage>) {
        match r.take(1) {
            Some(bytes) => Ok(bytes[0]),
            None => Err(InvalidMessage::MissingData("u8")),
        }
    }
}

impl Codec for u16 {
    open spec fn width() -> nat {
        2
    }

    open spec fn label() -> &'static str {
        "u16"
    }

    /// Big-endian: the high byte first.
    open spec fn wire(&self) -> Seq<u8> {
        seq![(*self / 256) as u8, (*self % 256) as u8]
    }

    open spec fn unwire(bytes: Seq<u8>) -> Self {
        (bytes[0] * 256 + bytes[1]) as u16
    }

    proof fn lemma_wire_len(&self) {
    }

    proof fn lemma_round_trip(bytes: Seq<u8>) {
        let x = Self::unwire(bytes);
        assert(x == bytes[0] * 256 + bytes[1]);
        assert(x.wire() =~= bytes);
    }

    fn encode(&self, bytes: &mut Vec<u8>) {
        let high: u8 = (*self / 256) as u8;
        let low: u8 = (*self % 256) as u8;
        bytes.push(high);
        bytes.push(low);
        assert(bytes@ == old(bytes)@ + self.wire());
    }

    fn read(r: &mut Reader<'_>) -> (res: Result<Self, InvalidMessage>) {
        match r.take(2) {
            Some(bytes) => {
                let high: u16 = bytes[0] as u16;
                let low: u16 = bytes[1] as u16;
                Ok(high * 256 + low)
            },
            None => Err(InvalidMessage::MissingData("u16")),
        }
    }
}

} // verus!
