//! The wire format of platform messages.
//!
//! Fixed-width integers are written least significant byte first; signed
//! integers in two's complement; strings as their UTF-8 bytes behind an
//! eight-byte length. Floating-point fields travel as their IEEE-754 bit
//! patterns, that is as unsigned integers of the same width.

use vstd::prelude::*;

verus! {

/// Why a decode failed.
#[derive(Clone, Copy, Debug, PartialEq, Eq, Structural)]
pub enum CodecError {
    /// The stream ended before the value was complete.
    UnexpectedEof,
    /// Bytes were left over after the last field of a message.
    TrailingData,
    /// A string's bytes were not valid UTF-8.
    InvalidUtf8,
    /// A field held a number that stands for no value of its type.
    InvalidValue,
}

/// `256` to the power `n`.
pub open spec fn pow256(n: nat) -> nat
    decreases n,
{
    if n == 0 {
        1
    } else {
        256 * pow256((n - 1) as nat)
    }
}

/// The `width` low-order bytes of `value`, least significant first.
pub open spec fn le_bytes(value: nat, width: nat) -> Seq<u8>
    decreases width,
{
    if width == 0 {
        Seq::empty()
    } else {
        seq![(value % 256) as u8] + le_bytes(value / 256, (width - 1) as nat)
    }
}

/// The number that `bytes` spell, least significant byte first.
pub open spec fn le_value(bytes: Seq<u8>) -> nat
    decreases bytes.len(),
{
    if bytes.len() == 0 {
        0
    } else {
        bytes[0] as nat + 256 * le_value(bytes.skip(1))
    }
}

/// A number written in `width` bytes takes `width` bytes.
pub proof fn lemma_le_bytes_len(value: nat, width: nat)
    ensures
        le_bytes(value, width).len() == width,
    decreases width,
{
    if width > 0 {
        lemma_le_bytes_len(value / 256, (width - 1) as nat);
    }
}

/// What `n` bytes spell is below `256^n`.
pub proof fn lemma_le_value_bound(bytes: Seq<u8>)
    ensures
        le_value(bytes) < pow256(bytes.len()),
    decreases bytes.len(),
{
    if bytes.len() > 0 {
        lemma_le_value_bound(bytes.skip(1));
    }
}

/// Reading back what was written gives the number again, as long as it fits
/// the width.
pub proof fn lemma_le_round_trip(value: nat, width: nat)
    requires
        value < pow256(width),
    ensures
        le_value(le_bytes(value, width)) == value,
    decreases width,
{
    if width > 0 {
        let rest = le_bytes(value / 256, (width - 1) as nat);
        lemma_le_round_trip(value / 256, (width - 1) as nat);
        assert(le_bytes(value, width).skip(1) =~= rest);
    }
}

/// Writing what was read gives the bytes again.
pub proof fn lemma_le_bytes_of_value(bytes: Seq<u8>)
    ensures
        le_bytes(le_value(bytes), bytes.len()) == bytes,
    decreases bytes.len(),
{
    if bytes.len() > 0 {
        lemma_le_bytes_of_value(bytes.skip(1));
        let v = le_value(bytes);
        assert(v % 256 == bytes[0] as nat);
        assert(v / 256 == le_value(bytes.skip(1)));
        assert(le_bytes(v, bytes.len()) =~= bytes);
    }
}

/// The powers of 256 that fit the widths of the machine's integers.
pub proof fn lemma_pow256_values()
    ensures
        pow256(0) == 1,
        pow256(1) == 0x100,
        pow256(2) == 0x1_0000,
        pow256(3) == 0x100_0000,
        pow256(4) == 0x1_0000_0000,
        pow256(5) == 0x100_0000_0000,
        pow256(6) == 0x1_0000_0000_0000,
        pow256(7) == 0x100_0000_0000_0000,
        pow256(8) == 0x1_0000_0000_0000_0000,
{
    reveal_with_fuel(pow256, 10);
}

/// An unsigned integer that fits its width is read back as itself, whatever
/// follows it in the stream.
pub proof fn lemma_uint_round_trip(value: nat, width: nat, rest: Seq<u8>)
    requires
        value < pow256(width),
    ensures
        uint_parse(le_bytes(value, width) + rest, width) == Ok::<(nat, nat), CodecError>(
            (value, width),
        ),
{
    lemma_le_bytes_len(value, width);
    lemma_le_round_trip(value, width);
    assert((le_bytes(value, width) + rest).take(width as int) =~= le_bytes(value, width));
}

/// A value whose encoding decodes to itself.
pub trait BinaryCodec: BinaryEncodable + BinaryDecodable {
    /// Decoding the encoding of `value`, whatever follows it in the stream,
    /// gives `value` again and uses exactly the bytes of the encoding.
    proof fn lemma_round_trip(value: Self, rest: Seq<u8>)
        ensures
            Self::parse(value.encoding() + rest) == Ok::<(Self, nat), CodecError>(
                (value, value.encoding().len()),
            ),
    ;
}

/// An append-only byte stream that values are encoded into.
pub struct BinaryWriter {
    stream: Vec<u8>,
}

impl View for BinaryWriter {
    type V = Seq<u8>;

    closed spec fn view(&self) -> Seq<u8> {
        self.stream@
    }
}

/// A value with a canonical byte representation.
pub trait BinaryEncodable {
    /// The bytes that stand for this value.
    spec fn encoding(&self) -> Seq<u8>;

    /// Appends `self.encoding()` to the writer.
    fn encode(&self, writer: &mut BinaryWriter)
        ensures
            final(writer)@ == old(writer)@ + self.encoding(),
    ;
}

impl BinaryWriter {
    /// A writer that holds no bytes yet.
    pub fn new() -> (writer: Self)
        ensures
            writer@ == Seq::<u8>::empty(),
    {
        BinaryWriter { stream: Vec::new() }
    }

    /// The bytes written so far.
    pub fn into_bytes(self) -> (bytes: Vec<u8>)
        ensures
            bytes@ == self@,
    {
        self.stream
    }

    /// Appends `bytes` as they are.
    pub fn write_bytes(&mut self, bytes: &[u8])
        ensures
            final(self)@ == old(self)@ + bytes@,
    {
        let mut i: usize = 0;
        while i < bytes.len()
            invariant
                i <= bytes.len(),
                self.stream@ == old(self).stream@ + bytes@.take(i as int),
            decreases bytes.len() - i,
        {
            self.stream.push(bytes[i]);
            assert(bytes@.take(i + 1) =~= bytes@.take(i as int).push(bytes@[i as int]));
            i += 1;
        }
        assert(bytes@.take(i as int) =~= bytes@);
    }

    /// Appends the `width` low-order bytes of `value`, least significant
    /// first.
    pub fn write_uint(&mut self, value: u64, width: usize)
        requires
            width <= 8,
        ensures
            final(self)@ == old(self)@ + le_bytes(value as nat, width as nat),
    {
        let mut rest: u64 = value;
        let mut i: usize = 0;
        while i < width
            invariant
                i <= width,
                self.stream@ + le_bytes(rest as nat, (width - i) as nat) == old(self).stream@
                    + le_bytes(value as nat, width as nat),
            decreases width - i,
        {
            let ghost before = self.stream@;
            let ghost tail = le_bytes((rest / 256) as nat, (width - i - 1) as nat);
            self.stream.push((rest % 256) as u8);
            assert(self.stream@ + tail =~= before + le_bytes(rest as nat, (width - i) as nat));
            rest = rest / 256;
            i += 1;
        }
        assert(self.stream@ + Seq::<u8>::empty() =~= self.stream@);
    }

    /// Appends the encoding of `value`.
    pub fn write<T: BinaryEncodable>(&mut self, value: &T)
        ensures
            final(self)@ == old(self)@ + value.encoding(),
    {
        value.encode(self)
    }

    /// Appends the encodings of the elements of `slice`, in order and with
    /// no length in front.
    pub fn write_slice<T: BinaryEncodable>(&mut self, slice: &[T])
        ensures
            final(self)@ == old(self)@ + slice_encoding(slice@),
    {
        let mut i: usize = 0;
        assert(slice@.take(0) =~= Seq::<T>::empty());
        assert(old(self)@ + Seq::<u8>::empty() =~= old(self)@);
        while i < slice.len()
            invariant
                i <= slice.len(),
                self@ == old(self)@ + slice_encoding(slice@.take(i as int)),
            decreases slice.len() - i,
        {
            let ghost before = self@;
            slice[i].encode(self);
            proof {
                let next = slice@.take(i + 1);
                assert(next.drop_last() =~= slice@.take(i as int));
                assert(next.last() == slice@[i as int]);
                assert(self@ =~= old(self)@ + slice_encoding(next));
            }
            i += 1;
        }
        assert(slice@.take(i as int) =~= slice@);
    }

    /// Appends the length of the string's UTF-8 form as eight bytes, then
    /// that form itself.
    pub fn write_string(&mut self, string: &str)
        ensures
            final(self)@ == old(self)@ + string_encoding(string@),
    {
        let bytes = string.as_bytes();
        let length: usize = bytes.len();
        self.write_uint(length as u64, 8);
        self.write_bytes(bytes);
        assert(self@ =~= old(self)@ + string_encoding(string@));
    }
}

/// The encodings of the elements of `items`, one after the other.
pub open spec fn slice_encoding<T: BinaryEncodable>(items: Seq<T>) -> Seq<u8>
    decreases items.len(),
{
    if items.len() == 0 {
        Seq::empty()
    } else {
        slice_encoding(items.drop_last()) + items.last().encoding()
    }
}

/// The encoding of a string: the byte length of its UTF-8 form, then the
/// form.
pub open spec fn string_encoding(chars: Seq<char>) -> Seq<u8> {
    le_bytes(vstd::utf8::encode_utf8(chars).len(), 8) + vstd::utf8::encode_utf8(chars)
}


/// The powers of 256 rise with their exponent.
pub proof fn lemma_pow256_monotonic(a: nat, b: nat)
    requires
        a <= b,
    ensures
        pow256(a) <= pow256(b),
    decreases b,
{
    if a < b {
        lemma_pow256_monotonic(a, (b - 1) as nat);
    }
}

/// What reading an unsigned integer of `width` bytes from the front of
/// `input` gives: the number and the count of bytes used.
pub open spec fn uint_parse(input: Seq<u8>, width: nat) -> Result<(nat, nat), CodecError> {
    if input.len() < width {
        Err(CodecError::UnexpectedEof)
    } else {
        Ok((le_value(input.take(width as int)), width))
    }
}

/// A parse that has to use up its whole input of `len` bytes: where bytes
/// are left over behind the value, it fails as trailing data.
pub open spec fn exhaustive<T>(parsed: Result<(T, nat), CodecError>, len: nat) -> Result<
    (T, nat),
    CodecError,
> {
    match parsed {
        Err(e) => Err(e),
        Ok((value, used)) => if used == len {
            Ok((value, used))
        } else {
            Err(CodecError::TrailingData)
        },
    }
}

/// A parse that has to use up its input succeeds only where it used all of
/// it, fails as trailing data where it used less, and fails as the parse
/// itself where that fails.
pub proof fn lemma_exhaustive<T>(parsed: Result<(T, nat), CodecError>, len: nat)
    ensures
        parsed matches Ok((_, used)) && used != len ==> exhaustive(parsed, len) == Err::<
            (T, nat),
            CodecError,
        >(CodecError::TrailingData),
        exhaustive(parsed, len) is Ok ==> exhaustive(parsed, len) == parsed && parsed.unwrap().1
            == len,
        parsed matches Err(e) ==> exhaustive(parsed, len) == Err::<(T, nat), CodecError>(e),
{
}

/// What reading a string from the front of `input` gives.
pub open spec fn string_parse(input: Seq<u8>) -> Result<(Seq<char>, nat), CodecError> {
    match uint_parse(input, 8) {
        Err(e) => Err(e),
        Ok((len, _)) => if input.len() - 8 < len {
            Err(CodecError::UnexpectedEof)
        } else {
            let body = input.subrange(8, 8 + len as int);
            if vstd::utf8::valid_utf8(body) {
                Ok((vstd::utf8::decode_utf8(body), 8 + len))
            } else {
                Err(CodecError::InvalidUtf8)
            }
        },
    }
}

/// What reading `count` values of `T` in a row from the front of `input`
/// gives.
pub open spec fn many_parse<T: BinaryDecodable>(input: Seq<u8>, count: nat) -> Result<
    (Seq<T>, nat),
    CodecError,
>
    decreases count,
{
    if count == 0 {
        Ok((Seq::empty(), 0))
    } else {
        match many_parse::<T>(input, (count - 1) as nat) {
            Err(e) => Err(e),
            Ok((items, used)) => match T::parse(input.skip(used as int)) {
                Err(e) => Err(e),
                Ok((item, more)) => Ok((items.push(item), used + more)),
            },
        }
    }
}

/// A value that can be read back from its byte representation.
pub trait BinaryDecodable: Sized {
    /// What decoding from the front of `input` gives: the value and the
    /// count of bytes used, or the reason for the failure.
    spec fn parse(input: Seq<u8>) -> Result<(Self, nat), CodecError>;

    /// Reads one value at the reader's position and moves past it. On a
    /// failure nothing of the value is handed out.
    fn decode(reader: &mut BinaryReader) -> (r: Result<Self, CodecError>)
        ensures
            final(reader).bytes() == old(reader).bytes(),
            match Self::parse(old(reader).remaining()) {
                Ok((value, used)) => r == Ok::<Self, CodecError>(value) && advanced(
                    *old(reader),
                    *final(reader),
                    used,
                ),
                Err(e) => r == Err::<Self, CodecError>(e),
            },
    ;
}

/// The reader `after` stands `used` bytes behind `before` in the same
/// message.
pub open spec fn advanced(before: BinaryReader, after: BinaryReader, used: nat) -> bool {
    &&& after.bytes() == before.bytes()
    &&& after.position() == before.position() + used
    &&& after.position() <= after.bytes().len()
    &&& after.remaining() == before.remaining().skip(used as int)
}

/// A cursor over the bytes of one message.
pub struct BinaryReader<'a> {
    stream: &'a [u8],
    position: usize,
}

impl<'a> BinaryReader<'a> {
    #[verifier::type_invariant]
    spec fn in_bounds(self) -> bool {
        self.position <= self.stream@.len()
    }

    /// All the bytes of the message.
    pub closed spec fn bytes(&self) -> Seq<u8> {
        self.stream@
    }

    /// How many bytes have been read.
    pub closed spec fn position(&self) -> nat {
        self.position as nat
    }

    /// The bytes that have not been read yet.
    pub open spec fn remaining(&self) -> Seq<u8> {
        self.bytes().skip(self.position() as int)
    }

    /// How many bytes are left to read.
    pub fn remaining_len(&self) -> (len: usize)
        ensures
            len == self.remaining().len(),
            self.position() + len == self.bytes().len(),
    {
        proof {
            use_type_invariant(self);
        }
        self.stream.len() - self.position
    }

    /// A reader at the start of `stream`.
    pub fn new(stream: &'a [u8]) -> (reader: Self)
        ensures
            reader.bytes() == stream@,
            reader.position() == 0,
            reader.remaining() == stream@,
    {
        assert(stream@.skip(0) =~= stream@);
        BinaryReader { stream, position: 0 }
    }

    /// Succeeds when every byte has been read. Leaves the reader at the end
    /// of the message either way.
    pub fn assert_finished(&mut self) -> (r: Result<(), CodecError>)
        ensures
            final(self).bytes() == old(self).bytes(),
            final(self).position() == old(self).bytes().len(),
            old(self).position() <= old(self).bytes().len(),
            old(self).position() == old(self).bytes().len() ==> r == Ok::<(), CodecError>(()),
            old(self).position() != old(self).bytes().len() ==> r == Err::<(), CodecError>(
                CodecError::TrailingData,
            ),
    {
        proof {
            use_type_invariant(&*self);
        }
        let current = self.position;
        let end = self.stream.len();
        self.position = end;
        if current == end {
            Ok(())
        } else {
            Err(CodecError::TrailingData)
        }
    }

    /// Reads exactly `len` bytes. Where fewer are left, fails and leaves the
    /// reader at the end of the message.
    pub fn fill_bytes(&mut self, len: usize) -> (r: Result<Vec<u8>, CodecError>)
        ensures
            final(self).bytes() == old(self).bytes(),
            old(self).remaining().len() >= len ==> advanced(*old(self), *final(self), len as nat)
                && r.is_ok() && r.unwrap()@ == old(self).remaining().take(len as int),
            old(self).remaining().len() < len ==> final(self).position() == old(self).bytes().len()
                && r == Err::<Vec<u8>, CodecError>(CodecError::UnexpectedEof),
    {
        proof {
            use_type_invariant(&*self);
        }
        if self.stream.len() - self.position < len {
            self.position = self.stream.len();
            return Err(CodecError::UnexpectedEof);
        }
        let start = self.position;
        let mut out: Vec<u8> = Vec::new();
        let mut i: usize = 0;
        while i < len
            invariant
                i <= len,
                start + len <= self.stream@.len() <= usize::MAX,
                out@ == self.stream@.subrange(start as int, start + i),
            decreases len - i,
        {
            out.push(self.stream[start + i]);
            assert(out@ =~= self.stream@.subrange(start as int, start + i + 1));
            i += 1;
        }
        self.position = start + len;
        assert(out@ =~= old(self).remaining().take(len as int));
        assert(self.remaining() =~= old(self).remaining().skip(len as int));
        Ok(out)
    }

    /// Reads an unsigned integer of `width` bytes, least significant byte
    /// first. Where fewer bytes are left, fails and leaves the reader at the
    /// end of the message.
    pub fn read_uint(&mut self, width: usize) -> (r: Result<u64, CodecError>)
        requires
            width <= 8,
        ensures
            final(self).bytes() == old(self).bytes(),
            match uint_parse(old(self).remaining(), width as nat) {
                Ok((value, used)) => r == Ok::<u64, CodecError>(value as u64) && value < pow256(
                    width as nat,
                ) && value <= u64::MAX && advanced(*old(self), *final(self), used),
                Err(e) => r == Err::<u64, CodecError>(e) && final(self).position() == old(
                    self,
                ).bytes().len(),
            },
    {
        proof {
            use_type_invariant(&*self);
        }
        if self.stream.len() - self.position < width {
            self.position = self.stream.len();
            return Err(CodecError::UnexpectedEof);
        }
        let start = self.position;
        let ghost field = self.stream@.subrange(start as int, start + width);
        let mut acc: u64 = 0;
        let mut i: usize = width;
        assert(field.skip(width as int) =~= Seq::<u8>::empty());
        while i > 0
            invariant
                i <= width <= 8,
                start + width <= self.stream@.len() <= usize::MAX,
                field == self.stream@.subrange(start as int, start + width),
                acc as nat == le_value(field.skip(i as int)),
            decreases i,
        {
            proof {
                lemma_le_value_bound(field.skip(i as int));
                lemma_pow256_monotonic((width - i) as nat, 7);
                lemma_pow256_values();
                assert(field.skip(i - 1).skip(1) =~= field.skip(i as int));
            }
            i -= 1;
            acc = acc * 256 + self.stream[start + i] as u64;
        }
        self.position = start + width;
        proof {
            lemma_le_value_bound(field);
            lemma_pow256_monotonic(width as nat, 8);
            lemma_pow256_values();
            assert(field.skip(0) =~= field);
            assert(field =~= old(self).remaining().take(width as int));
            assert(self.remaining() =~= old(self).remaining().skip(width as int));
        }
        Ok(acc)
    }

    /// Reads one value of `T`.
    pub fn read<T: BinaryDecodable>(&mut self) -> (r: Result<T, CodecError>)
        ensures
            final(self).bytes() == old(self).bytes(),
            match T::parse(old(self).remaining()) {
                Ok((value, used)) => r == Ok::<T, CodecError>(value) && advanced(
                    *old(self),
                    *final(self),
                    used,
                ),
                Err(e) => r == Err::<T, CodecError>(e),
            },
    {
        T::decode(self)
    }

    /// Reads a string: its byte length as eight bytes, then that many bytes
    /// of UTF-8.
    pub fn read_string(&mut self) -> (r: Result<String, CodecError>)
        ensures
            final(self).bytes() == old(self).bytes(),
            match string_parse(old(self).remaining()) {
                Ok((chars, used)) => r.is_ok() && r.unwrap()@ == chars && advanced(
                    *old(self),
                    *final(self),
                    used,
                ),
                Err(e) => r == Err::<String, CodecError>(e),
            },
    {
        proof {
            use_type_invariant(&*self);
        }
        let len = match self.read_uint(8) {
            Ok(len) => len,
            Err(e) => {
                return Err(e);
            },
        };
        proof {
            use_type_invariant(&*self);
        }
        let left: usize = self.stream.len() - self.position;
        if len > left as u64 {
            return Err(CodecError::UnexpectedEof);
        }
        let body = match self.fill_bytes(len as usize) {
            Ok(body) => body,
            Err(e) => {
                return Err(e);
            },
        };
        assert(body@ =~= old(self).remaining().subrange(8, 8 + len));
        assert(self.remaining() =~= old(self).remaining().skip(8 + len));
        match string_from_utf8(body) {
            Some(string) => Ok(string),
            None => Err(CodecError::InvalidUtf8),
        }
    }

    /// Reads `len` values of `T` in a row. On a failure the values read so
    /// far are dropped.
    pub fn read_vec<T: BinaryDecodable>(&mut self, len: usize) -> (r: Result<Vec<T>, CodecError>)
        ensures
            final(self).bytes() == old(self).bytes(),
            match many_parse::<T>(old(self).remaining(), len as nat) {
                Ok((items, used)) => r.is_ok() && r.unwrap()@ == items && advanced(
                    *old(self),
                    *final(self),
                    used,
                ),
                Err(e) => r == Err::<Vec<T>, CodecError>(e),
            },
    {
        let ghost input = self.remaining();
        let mut vec: Vec<T> = Vec::new();
        let mut i: usize = 0;
        proof {
            use_type_invariant(&*self);
            assert(input.skip(0) =~= input);
        }
        while i < len
            invariant
                i <= len,
                self.bytes() == old(self).bytes(),
                input == old(self).remaining(),
                many_parse::<T>(input, i as nat) == Ok::<(Seq<T>, nat), CodecError>(
                    (vec@, (self.position() - old(self).position()) as nat),
                ),
                self.position() >= old(self).position(),
                advanced(*old(self), *self, (self.position() - old(self).position()) as nat),
            decreases len - i,
        {
            match T::decode(self) {
                Ok(item) => {
                    vec.push(item);
                    assert(self.remaining() =~= input.skip(
                        self.position() - old(self).position(),
                    ));
                },
                Err(e) => {
                    proof {
                        lemma_many_parse_fails_on::<T>(input, (i + 1) as nat, len as nat);
                    }
                    return Err(e);
                },
            }
            i += 1;
        }
        Ok(vec)
    }

    /// Reads `N` values of `T` in a row into an array. On a failure no
    /// element is handed out.
    pub fn read_array<T: BinaryDecodable, const N: usize>(&mut self) -> (r: Result<
        [T; N],
        CodecError,
    >)
        ensures
            final(self).bytes() == old(self).bytes(),
            match many_parse::<T>(old(self).remaining(), N as nat) {
                Ok((items, used)) => r.is_ok() && r.unwrap()@ == items && advanced(
                    *old(self),
                    *final(self),
                    used,
                ),
                Err(e) => r == Err::<[T; N], CodecError>(e),
            },
    {
        proof {
            lemma_many_parse_len::<T>(self.remaining(), N as nat);
        }
        match self.read_vec::<T>(N) {
            Ok(vec) => match array_from_vec(vec) {
                Some(array) => Ok(array),
                None => Err(CodecError::UnexpectedEof),
            },
            Err(e) => Err(e),
        }
    }
}

/// A run that parses holds as many values as were asked for.
pub proof fn lemma_many_parse_len<T: BinaryDecodable>(input: Seq<u8>, count: nat)
    ensures
        many_parse::<T>(input, count) matches Ok((items, _)) ==> items.len() == count,
    decreases count,
{
    if count > 0 {
        lemma_many_parse_len::<T>(input, (count - 1) as nat);
    }
}

/// Once a prefix of a run fails to parse, so does every longer run, with the
/// same error.
pub proof fn lemma_many_parse_fails_on<T: BinaryDecodable>(input: Seq<u8>, at: nat, count: nat)
    requires
        at <= count,
        many_parse::<T>(input, at) is Err,
    ensures
        many_parse::<T>(input, count) == many_parse::<T>(input, at),
    decreases count,
{
    if at < count {
        lemma_many_parse_fails_on::<T>(input, at, (count - 1) as nat);
    }
}

/// `String::from_utf8` of std: the string is handed out exactly when the
/// bytes are well-formed UTF-8, and then holds the characters they spell.
#[verifier::external_body]
fn string_from_utf8(bytes: Vec<u8>) -> (r: Option<String>)
    ensures
        r.is_some() == vstd::utf8::valid_utf8(bytes@),
        r matches Some(string) ==> string@ == vstd::utf8::decode_utf8(bytes@),
{
    String::from_utf8(bytes).ok()
}

/// `TryFrom<Vec<T>>` of std for arrays: the conversion succeeds exactly when
/// the vector holds `N` elements, and the array then holds the same elements
/// in the same order.
#[verifier::external_body]
fn array_from_vec<T, const N: usize>(vec: Vec<T>) -> (r: Option<[T; N]>)
    ensures
        r.is_some() == (vec@.len() == N),
        r matches Some(array) ==> array@ == vec@,
{
    vec.try_into().ok()
}

/// A string is read back as itself, whatever follows it in the stream.
pub proof fn lemma_string_round_trip(chars: Seq<char>, rest: Seq<u8>)
    requires
        vstd::utf8::encode_utf8(chars).len() <= u64::MAX,
    ensures
        string_parse(string_encoding(chars) + rest) == Ok::<(Seq<char>, nat), CodecError>(
            (chars, string_encoding(chars).len()),
        ),
{
    let body = vstd::utf8::encode_utf8(chars);
    let input = string_encoding(chars) + rest;
    lemma_pow256_values();
    lemma_le_bytes_len(body.len(), 8);
    lemma_uint_round_trip(body.len(), 8, body + rest);
    assert(input =~= le_bytes(body.len(), 8) + (body + rest));
    assert(input.subrange(8, 8 + body.len() as int) =~= body);
    vstd::utf8::encode_utf8_valid_utf8(chars);
    vstd::utf8::encode_utf8_decode_utf8(chars);
}

} // verus!
