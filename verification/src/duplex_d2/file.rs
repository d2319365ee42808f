//! Files exchanged with the modem.
//!
//! On the wire a file is `GU`, the length of its name in three decimal
//! digits, the length of its body in six, the name (UTF-8), the body, and
//! the CRC-16/XMODEM of everything before it, big-endian.

use vstd::prelude::*;
use vstd::utf8::{
    decode_utf8, encode_utf8, encode_utf8_decode_utf8, encode_utf8_valid_utf8, valid_utf8,
};
use crate::bytes::push_all;
use crate::checksum::{crc16_xmodem, crc16_xmodem_of};
use crate::duplex_d2::decimal::{
    decimal_field_value, lemma_padded_decimal_roundtrip, padded_decimal, parse_decimal_field, pow10,
    push_padded_decimal,
};
use crate::duplex_d2::{after_gu, skip_to_gu};
use crate::radio::{ErrorKind, ParseError, ParseResult};
use crate::text::utf8_text;

verus! {

/// A file: its name and its contents.
#[derive(Clone, Debug, PartialEq, Eq)]
pub struct File {
    /// Name of file
    pub name: String,
    /// Contents of file
    pub body: Vec<u8>,
}

/// `GU`, then the two lengths, the name bytes and the body: the part of a
/// file's encoding that its checksum covers.
pub open spec fn file_frame(name: Seq<u8>, body: Seq<u8>) -> Seq<u8> {
    seq![0x47u8, 0x55u8] + padded_decimal(name.len(), 3) + padded_decimal(body.len(), 6) + name
        + body
}

/// The encoding of a file with the given name bytes and body: its frame
/// and the frame's CRC-16/XMODEM, high byte first.
pub open spec fn file_encoding(name: Seq<u8>, body: Seq<u8>) -> Seq<u8> {
    let f = file_frame(name, body);
    let crc = crc16_xmodem_of(f);
    f + seq![(crc / 256) as u8, (crc % 256) as u8]
}

/// What parsing `input` as a file gives: the error, or the index where the
/// rest of the input starts, the name and the body.
///
/// Everything before the first `GU` is skipped. Input that ends before a
/// field does is incomplete; a length field that is not a decimal number,
/// or a name that is not UTF-8, is an error. The checksum bytes must be
/// there but are not checked.
pub open spec fn file_parse(input: Seq<u8>) -> Result<(int, Seq<char>, Seq<u8>), ParseError> {
    match after_gu(input) {
        None => Err(ParseError::Incomplete),
        Some(k) => if input.len() < k + 3 {
            Err(ParseError::Incomplete)
        } else {
            match decimal_field_value(input.subrange(k, k + 3)) {
                None => Err(ParseError::Error(ErrorKind::MapRes)),
                Some(nl) => if input.len() < k + 9 {
                    Err(ParseError::Incomplete)
                } else {
                    match decimal_field_value(input.subrange(k + 3, k + 9)) {
                        None => Err(ParseError::Error(ErrorKind::MapRes)),
                        Some(bl) => {
                            let p = k + 9;
                            let q = p + nl;
                            let e = q + bl;
                            if input.len() < q {
                                Err(ParseError::Incomplete)
                            } else if !valid_utf8(input.subrange(p, q)) {
                                Err(ParseError::Error(ErrorKind::MapRes))
                            } else if input.len() < e + 2 {
                                Err(ParseError::Incomplete)
                            } else {
                                Ok((e + 2, decode_utf8(input.subrange(p, q)), input.subrange(q, e)))
                            }
                        },
                    }
                },
            }
        },
    }
}

/// Parsing the encoding of a file, followed by anything, gives back its
/// name and body and consumes exactly the encoding, whenever the name takes
/// at most 999 bytes and the body at most 999999 (the widths of the two
/// length fields).
pub proof fn lemma_file_roundtrip(name: Seq<char>, body: Seq<u8>, rest: Seq<u8>)
    requires
        encode_utf8(name).len() <= 999,
        body.len() <= 999999,
    ensures
        ({
            let e = file_encoding(encode_utf8(name), body);
            file_parse(e + rest) == Ok::<(int, Seq<char>, Seq<u8>), ParseError>((e.len() as int, name, body))
        }),
{
    let nb = encode_utf8(name);
    let nl = nb.len() as int;
    let bl = body.len() as int;
    let e = file_encoding(nb, body);
    let s = e + rest;
    assert(pow10(3) == 1000 && pow10(6) == 1000000) by {
        reveal_with_fuel(pow10, 7);
    }
    lemma_padded_decimal_roundtrip(nl as nat, 3);
    lemma_padded_decimal_roundtrip(bl as nat, 6);
    let a = padded_decimal(nl as nat, 3);
    let b = padded_decimal(bl as nat, 6);
    assert(e.len() == 11 + nl + bl + 2);
    assert(s[0] == 0x47u8 && s[1] == 0x55u8);
    assert(after_gu(s) == Some(2int));
    assert(s.subrange(2, 5) =~= a);
    assert(s.subrange(5, 11) =~= b);
    assert(s.subrange(11, 11 + nl) =~= nb);
    assert(s.subrange(11 + nl, 11 + nl + bl) =~= body);
    encode_utf8_valid_utf8(name);
    encode_utf8_decode_utf8(name);
}

impl File {
    /// The bytes of the file's name.
    pub open spec fn name_bytes(&self) -> Seq<u8> {
        encode_utf8(self.name@)
    }

    /// Create a new file object by copying name and body.
    pub fn new(name: &str, body: &[u8]) -> (r: File)
        ensures
            r.name@ == name@,
            r.body@ == body@,
    {
        File { name: name.to_owned(), body: vstd::slice::slice_to_vec(body) }
    }

    /// Create a new file object by parsing raw serial data.
    pub fn parse(input: &[u8]) -> (r: ParseResult<File>)
        ensures
            match file_parse(input@) {
                Err(e) => r == Err::<(&[u8], File), ParseError>(e),
                Ok((end, name, body)) => r matches Ok((rest, f)) && rest@ == input@.subrange(
                    end,
                    input@.len() as int,
                ) && f.name@ == name && f.body@ == body,
            },
    {
        let n: usize = input.len();
        let k: usize = match skip_to_gu(input) {
            Some(k) => k,
            None => {
                return Err(ParseError::Incomplete);
            },
        };
        if n - k < 3 {
            return Err(ParseError::Incomplete);
        }
        let nl: usize = match parse_decimal_field(vstd::slice::slice_subrange(input, k, k + 3)) {
            Some(v) => v,
            None => {
                return Err(ParseError::Error(ErrorKind::MapRes));
            },
        };
        if n - k < 9 {
            return Err(ParseError::Incomplete);
        }
        let bl: usize = match parse_decimal_field(vstd::slice::slice_subrange(input, k + 3, k + 9)) {
            Some(v) => v,
            None => {
                return Err(ParseError::Error(ErrorKind::MapRes));
            },
        };
        let p: usize = k + 9;
        if n - p < nl {
            return Err(ParseError::Incomplete);
        }
        let q: usize = p + nl;
        let name: String = match utf8_text(vstd::slice::slice_subrange(input, p, q)) {
            Ok(s) => s,
            Err(_) => {
                return Err(ParseError::Error(ErrorKind::MapRes));
            },
        };
        if n - q < bl {
            return Err(ParseError::Incomplete);
        }
        let e: usize = q + bl;
        if n - e < 2 {
            return Err(ParseError::Incomplete);
        }
        let body: Vec<u8> = vstd::slice::slice_to_vec(vstd::slice::slice_subrange(input, q, e));
        Ok((vstd::slice::slice_subrange(input, e + 2, n), File { name, body }))
    }

    /// Encode a file object to raw serial data.
    pub fn encode(&self) -> (r: Vec<u8>)
        ensures
            r@ == file_encoding(self.name_bytes(), self.body@),
    {
        let mut output: Vec<u8> = Vec::new();
        let name: &[u8] = self.name.as_str().as_bytes();
        output.push(0x47);
        output.push(0x55);
        push_padded_decimal(&mut output, name.len(), 3);
        push_padded_decimal(&mut output, self.body.len(), 6);
        push_all(&mut output, name);
        push_all(&mut output, self.body.as_slice());
        assert(output@ =~= file_frame(self.name_bytes(), self.body@));
        let crc: u16 = crc16_xmodem(output.as_slice());
        output.push((crc / 256) as u8);
        output.push((crc % 256) as u8);
        output
    }
}

} // verus!
