//! The codec of the fixed-width integers.
//!
//! A floating-point field is carried as the unsigned integer of the same
//! width that holds its IEEE-754 bit pattern.

use vstd::prelude::*;
use crate::platform_message::binary::{
    BinaryCodec, BinaryDecodable, BinaryEncodable, BinaryReader, BinaryWriter, CodecError,
    le_bytes, lemma_le_bytes_len, lemma_pow256_values, lemma_uint_round_trip, uint_parse,
};

verus! {

impl BinaryEncodable for u8 {
    open spec fn encoding(&self) -> Seq<u8> {
        le_bytes(*self as nat, 1)
    }

    fn encode(&self, writer: &mut BinaryWriter) {
        writer.write_uint(*self as u64, 1)
    }
}

impl BinaryDecodable for u8 {
    open spec fn parse(input: Seq<u8>) -> Result<(Self, nat), CodecError> {
        match uint_parse(input, 1) {
            Ok((value, used)) => Ok((value as u8, used)),
            Err(e) => Err(e),
        }
    }

    fn decode(reader: &mut BinaryReader) -> (r: Result<Self, CodecError>) {
        proof {
            lemma_pow256_values();
        }
        match reader.read_uint(1) {
            Ok(value) => Ok(value as u8),
            Err(e) => Err(e),
        }
    }
}

impl BinaryCodec for u8 {
    proof fn lemma_round_trip(value: Self, rest: Seq<u8>) {
        lemma_pow256_values();
        lemma_le_bytes_len(value as nat, 1);
        lemma_uint_round_trip(value as nat, 1, rest);
    }
}

impl BinaryEncodable for u16 {
    open spec fn encoding(&self) -> Seq<u8> {
        le_bytes(*self as nat, 2)
    }

    fn encode(&self, writer: &mut BinaryWriter) {
        writer.write_uint(*self as u64, 2)
    }
}

impl BinaryDecodable for u16 {
    open spec fn parse(input: Seq<u8>) -> Result<(Self, nat), CodecError> {
        match uint_parse(input, 2) {
            Ok((value, used)) => Ok((value as u16, used)),
            Err(e) => Err(e),
        }
    }

    fn decode(reader: &mut BinaryReader) -> (r: Result<Self, CodecError>) {
        proof {
            lemma_pow256_values();
        }
        match reader.read_uint(2) {
            Ok(value) => Ok(value as u16),
            Err(e) => Err(e),
        }
    }
}

impl BinaryCodec for u16 {
    proof fn lemma_round_trip(value: Self, rest: Seq<u8>) {
        lemma_pow256_values();
        lemma_le_bytes_len(value as nat, 2);
        lemma_uint_round_trip(value as nat, 2, rest);
    }
}

impl BinaryEncodable for u32 {
    open spec fn encoding(&self) -> Seq<u8> {
        le_bytes(*self as nat, 4)
    }

    fn encode(&self, writer: &mut BinaryWriter) {
        writer.write_uint(*self as u64, 4)
    }
}

impl BinaryDecodable for u32 {
    open spec fn parse(input: Seq<u8>) -> Result<(Self, nat), CodecError> {
        match uint_parse(input, 4) {
            Ok((value, used)) => Ok((value as u32, used)),
            Err(e) => Err(e),
        }
    }

    fn decode(reader: &mut BinaryReader) -> (r: Result<Self, CodecError>) {
        proof {
            lemma_pow256_values();
        }
        match reader.read_uint(4) {
            Ok(value) => Ok(value as u32),
            Err(e) => Err(e),
        }
    }
}

impl BinaryCodec for u32 {
    proof fn lemma_round_trip(value: Self, rest: Seq<u8>) {
        lemma_pow256_values();
        lemma_le_bytes_len(value as nat, 4);
        lemma_uint_round_trip(value as nat, 4, rest);
    }
}

impl BinaryEncodable for u64 {
    open spec fn encoding(&self) -> Seq<u8> {
        le_bytes(*self as nat, 8)
    }

    fn encode(&self, writer: &mut BinaryWriter) {
        writer.write_uint(*self as u64, 8)
    }
}

impl BinaryDecodable for u64 {
    open spec fn parse(input: Seq<u8>) -> Result<(Self, nat), CodecError> {
        match uint_parse(input, 8) {
            Ok((value, used)) => Ok((value as u64, used)),
            Err(e) => Err(e),
        }
    }

    fn decode(reader: &mut BinaryReader) -> (r: Result<Self, CodecError>) {
        proof {
            lemma_pow256_values();
        }
        match reader.read_uint(8) {
            Ok(value) => Ok(value as u64),
            Err(e) => Err(e),
        }
    }
}

impl BinaryCodec for u64 {
    proof fn lemma_round_trip(value: Self, rest: Seq<u8>) {
        lemma_pow256_values();
        lemma_le_bytes_len(value as nat, 8);
        lemma_uint_round_trip(value as nat, 8, rest);
    }
}

impl BinaryEncodable for i8 {
    open spec fn encoding(&self) -> Seq<u8> {
        le_bytes((*self as u8) as nat, 1)
    }

    fn encode(&self, writer: &mut BinaryWriter) {
        let raw: u8 = #[verifier::truncate] (*self as u8);
        writer.write_uint(raw as u64, 1)
    }
}

impl BinaryDecodable for i8 {
    open spec fn parse(input: Seq<u8>) -> Result<(Self, nat), CodecError> {
        match uint_parse(input, 1) {
            Ok((value, used)) => Ok(((value as u8) as i8, used)),
            Err(e) => Err(e),
        }
    }

    fn decode(reader: &mut BinaryReader) -> (r: Result<Self, CodecError>) {
        proof {
            lemma_pow256_values();
        }
        match reader.read_uint(1) {
            Ok(value) => {
                let raw: u8 = value as u8;
                Ok(#[verifier::truncate] (raw as i8))
            },
            Err(e) => Err(e),
        }
    }
}

impl BinaryCodec for i8 {
    proof fn lemma_round_trip(value: Self, rest: Seq<u8>) {
        let raw = value as u8;
        assert((raw as i8) == value) by (bit_vector)
            requires
                raw == value as u8,
        ;
        lemma_pow256_values();
        lemma_le_bytes_len(raw as nat, 1);
        lemma_uint_round_trip(raw as nat, 1, rest);
    }
}

impl BinaryEncodable for i16 {
    open spec fn encoding(&self) -> Seq<u8> {
        le_bytes((*self as u16) as nat, 2)
    }

    fn encode(&self, writer: &mut BinaryWriter) {
        let raw: u16 = #[verifier::truncate] (*self as u16);
        writer.write_uint(raw as u64, 2)
    }
}

impl BinaryDecodable for i16 {
    open spec fn parse(input: Seq<u8>) -> Result<(Self, nat), CodecError> {
        match uint_parse(input, 2) {
            Ok((value, used)) => Ok(((value as u16) as i16, used)),
            Err(e) => Err(e),
        }
    }

    fn decode(reader: &mut BinaryReader) -> (r: Result<Self, CodecError>) {
        proof {
            lemma_pow256_values();
        }
        match reader.read_uint(2) {
            Ok(value) => {
                let raw: u16 = value as u16;
                Ok(#[verifier::truncate] (raw as i16))
            },
            Err(e) => Err(e),
        }
    }
}

impl BinaryCodec for i16 {
    proof fn lemma_round_trip(value: Self, rest: Seq<u8>) {
        let raw = value as u16;
        assert((raw as i16) == value) by (bit_vector)
            requires
                raw == value as u16,
        ;
        lemma_pow256_values();
        lemma_le_bytes_len(raw as nat, 2);
        lemma_uint_round_trip(raw as nat, 2, rest);
    }
}

impl BinaryEncodable for i32 {
    open spec fn encoding(&self) -> Seq<u8> {
        le_bytes((*self as u32) as nat, 4)
    }

    fn encode(&self, writer: &mut BinaryWriter) {
        let raw: u32 = #[verifier::truncate] (*self as u32);
        writer.write_uint(raw as u64, 4)
    }
}

impl BinaryDecodable for i32 {
    open spec fn parse(input: Seq<u8>) -> Result<(Self, nat), CodecError> {
        match uint_parse(input, 4) {
            Ok((value, used)) => Ok(((value as u32) as i32, used)),
            Err(e) => Err(e),
        }
    }

    fn decode(reader: &mut BinaryReader) -> (r: Result<Self, CodecError>) {
        proof {
            lemma_pow256_values();
        }
        match reader.read_uint(4) {
            Ok(value) => {
                let raw: u32 = value as u32;
                Ok(#[verifier::truncate] (raw as i32))
            },
            Err(e) => Err(e),
        }
    }
}

impl BinaryCodec for i32 {
    proof fn lemma_round_trip(value: Self, rest: Seq<u8>) {
        let raw = value as u32;
        assert((raw as i32) == value) by (bit_vector)
            requires
                raw == value as u32,
        ;
        lemma_pow256_values();
        lemma_le_bytes_len(raw as nat, 4);
        lemma_uint_round_trip(raw as nat, 4, rest);
    }
}

impl BinaryEncodable for i64 {
    open spec fn encoding(&self) -> Seq<u8> {
        le_bytes((*self as u64) as nat, 8)
    }

    fn encode(&self, writer: &mut BinaryWriter) {
        let raw: u64 = #[verifier::truncate] (*self as u64);
        writer.write_uint(raw as u64, 8)
    }
}

impl BinaryDecodable for i64 {
    open spec fn parse(input: Seq<u8>) -> Result<(Self, nat), CodecError> {
        match uint_parse(input, 8) {
            Ok((value, used)) => Ok(((value as u64) as i64, used)),
            Err(e) => Err(e),
        }
    }

    fn decode(reader: &mut BinaryReader) -> (r: Result<Self, CodecError>) {
        proof {
            lemma_pow256_values();
        }
        match reader.read_uint(8) {
            Ok(value) => {
                let raw: u64 = value as u64;
                Ok(#[verifier::truncate] (raw as i64))
            },
            Err(e) => Err(e),
        }
    }
}

impl BinaryCodec for i64 {
    proof fn lemma_round_trip(value: Self, rest: Seq<u8>) {
        let raw = value as u64;
        assert((raw as i64) == value) by (bit_vector)
            requires
                raw == value as u64,
        ;
        lemma_pow256_values();
        lemma_le_bytes_len(raw as nat, 8);
        lemma_uint_round_trip(raw as nat, 8, rest);
    }
}

} // verus!
