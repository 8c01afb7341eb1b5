//! The wire format of a scraping request: a protocol-buffers message whose
//! field 1 is a repeated string, the product codes.
//!
//! A message is a run of fields. Each field starts with a key, a varint that
//! holds the field's tag and its wire type. Field 1 must be length-delimited
//! and hold UTF-8; every other field is skipped according to its wire type.

use vstd::prelude::*;
use vstd::slice::slice_subrange;
use vstd::utf8::{decode_utf8, valid_utf8};

verus! {

/// Why a run of bytes is not a scraping request.
#[derive(Debug, Clone, Copy, PartialEq, Eq, Structural)]
pub enum WireError {
    /// A varint runs past the end of the input, is longer than ten bytes, or
    /// does not fit in 64 bits.
    InvalidVarint,
    /// A key does not fit in 32 bits.
    InvalidKey,
    /// A key names a wire type above 5.
    InvalidWireType,
    /// A key names the tag 0.
    InvalidTag,
    /// The product code field is not length-delimited.
    UnexpectedWireType,
    /// A field claims more bytes than the input has left.
    BufferUnderflow,
    /// A product code is not UTF-8.
    InvalidUtf8,
    /// A group ends that was not open, or ends under another tag.
    UnexpectedEndGroup,
    /// Groups are nested deeper than `MAX_DEPTH`.
    RecursionLimit,
}

/// The tag of the product code field.
pub const PRODUCT_CODES_TAG: u32 = 1;

/// How many skipped fields may be nested in one another.
pub const MAX_DEPTH: u32 = 100;

/// The wire type of a field that is one varint.
pub const WIRE_VARINT: u8 = 0;

/// The wire type of a field of eight bytes.
pub const WIRE_SIXTY_FOUR_BIT: u8 = 1;

/// The wire type of a field that is a length, as a varint, and that many
/// bytes.
pub const WIRE_LENGTH_DELIMITED: u8 = 2;

/// The wire type of the key that opens a group.
pub const WIRE_START_GROUP: u8 = 3;

/// The wire type of the key that closes a group.
pub const WIRE_END_GROUP: u8 = 4;

/// The wire type of a field of four bytes.
pub const WIRE_THIRTY_TWO_BIT: u8 = 5;

/// The varint whose byte number `index` stands at `at`: its value from that
/// byte on, and the position after its last byte. Each byte gives seven bits,
/// lowest first, and its top bit says whether another byte follows. The tenth
/// byte may only be 0 or 1.
pub open spec fn varint_from(bytes: Seq<u8>, at: int, index: nat) -> Option<(nat, int)>
    decreases 10 - index,
{
    if index >= 10 || at < 0 || at >= bytes.len() {
        None
    } else if bytes[at] < 0x80 {
        if index == 9 && bytes[at] >= 2 {
            None
        } else {
            Some((bytes[at] as nat, at + 1))
        }
    } else {
        match varint_from(bytes, at + 1, index + 1) {
            None => None,
            Some((rest, next)) => Some(((bytes[at] - 0x80 + 128 * rest) as nat, next)),
        }
    }
}

/// The varint that starts at `at`, and the position after it.
pub open spec fn varint_at(bytes: Seq<u8>, at: int) -> Option<(nat, int)> {
    varint_from(bytes, at, 0)
}

/// An exclusive bound on the value of a varint from its byte `index` on.
pub open spec fn varint_bound(index: nat) -> nat {
    if index >= 9 {
        2
    } else if index == 8 {
        0x100
    } else if index == 7 {
        0x8000
    } else if index == 6 {
        0x40_0000
    } else if index == 5 {
        0x2000_0000
    } else if index == 4 {
        0x10_0000_0000
    } else if index == 3 {
        0x800_0000_0000
    } else if index == 2 {
        0x4_0000_0000_0000
    } else if index == 1 {
        0x200_0000_0000_0000
    } else {
        0x1_0000_0000_0000_0000
    }
}

/// A varint takes at least one byte, stays inside the input and stays under
/// its bound.
pub proof fn lemma_varint_from_bounds(bytes: Seq<u8>, at: int, index: nat)
    ensures
        match varint_from(bytes, at, index) {
            None => true,
            Some((value, next)) => at < next <= bytes.len() && next - at <= 10 - index && value
                < varint_bound(index),
        },
    decreases 10 - index,
{
    if index >= 10 || at < 0 || at >= bytes.len() {
    } else if bytes[at] < 0x80 {
    } else {
        lemma_varint_from_bounds(bytes, at + 1, index + 1);
    }
}

/// The key at `at`: the tag, the wire type, and the position after the key.
pub open spec fn key_at(bytes: Seq<u8>, at: int) -> Result<(nat, nat, int), WireError> {
    match varint_at(bytes, at) {
        None => Err(WireError::InvalidVarint),
        Some((key, next)) => if key > u32::MAX {
            Err(WireError::InvalidKey)
        } else if key % 8 > 5 {
            Err(WireError::InvalidWireType)
        } else if key / 8 < 1 {
            Err(WireError::InvalidTag)
        } else {
            Ok((key / 8, key % 8, next))
        },
    }
}

/// Where the field ends whose key, with tag `tag` and wire type `wire`, ends at
/// `at`, when `budget` levels of nesting are left.
pub open spec fn field_end(bytes: Seq<u8>, at: int, wire: nat, tag: nat, budget: nat) -> Result<
    int,
    WireError,
>
    decreases budget, bytes.len() - at, 1int,
{
    if budget == 0 {
        Err(WireError::RecursionLimit)
    } else if wire == 0 {
        match varint_at(bytes, at) {
            None => Err(WireError::InvalidVarint),
            Some((_, next)) => Ok(next),
        }
    } else if wire == 1 {
        if bytes.len() - at < 8 {
            Err(WireError::BufferUnderflow)
        } else {
            Ok(at + 8)
        }
    } else if wire == 5 {
        if bytes.len() - at < 4 {
            Err(WireError::BufferUnderflow)
        } else {
            Ok(at + 4)
        }
    } else if wire == 2 {
        match varint_at(bytes, at) {
            None => Err(WireError::InvalidVarint),
            Some((len, next)) => if len > bytes.len() - next {
                Err(WireError::BufferUnderflow)
            } else {
                Ok(next + len)
            },
        }
    } else if wire == 3 {
        group_end(bytes, at, tag, budget)
    } else {
        Err(WireError::UnexpectedEndGroup)
    }
}

/// Where the group with tag `tag` ends, of which the fields before `at` have
/// been passed: after the first end-group key at this level, which must carry
/// the same tag.
///
/// The test on `after` is there for the termination of this definition alone:
/// a field ends behind its key and inside the input
/// (`lemma_field_end_bounds`).
pub open spec fn group_end(bytes: Seq<u8>, at: int, tag: nat, budget: nat) -> Result<
    int,
    WireError,
>
    decreases budget, bytes.len() - at, 0int,
{
    match key_at(bytes, at) {
        Err(e) => Err(e),
        Ok((inner_tag, inner_wire, next)) => if inner_wire == 4 {
            if inner_tag == tag {
                Ok(next)
            } else {
                Err(WireError::UnexpectedEndGroup)
            }
        } else if budget == 0 {
            Err(WireError::RecursionLimit)
        } else {
            match field_end(bytes, next, inner_wire, inner_tag, (budget - 1) as nat) {
                Err(e) => Err(e),
                Ok(after) => if at < after <= bytes.len() {
                    group_end(bytes, after, tag, budget)
                } else {
                    Err(WireError::BufferUnderflow)
                },
            }
        },
    }
}

/// The product code whose key, with wire type `wire`, ends at `at`, and the
/// position after it.
pub open spec fn product_code_at(bytes: Seq<u8>, at: int, wire: nat) -> Result<
    (Seq<char>, int),
    WireError,
> {
    if wire != 2 {
        Err(WireError::UnexpectedWireType)
    } else {
        match varint_at(bytes, at) {
            None => Err(WireError::InvalidVarint),
            Some((len, next)) => if len > bytes.len() - next {
                Err(WireError::BufferUnderflow)
            } else if !valid_utf8(bytes.subrange(next, next + len)) {
                Err(WireError::InvalidUtf8)
            } else {
                Ok((decode_utf8(bytes.subrange(next, next + len)), next + len))
            },
        }
    }
}

/// `first` before whatever `rest` holds; the error of `rest`, if it is one.
pub open spec fn codes_then(first: Seq<Seq<char>>, rest: Result<Seq<Seq<char>>, WireError>) -> Result<
    Seq<Seq<char>>,
    WireError,
> {
    match rest {
        Err(e) => Err(e),
        Ok(codes) => Ok(first + codes),
    }
}

/// The product codes of the fields from `at` on, in the order of the fields,
/// or the first fault met.
///
/// The tests on `after` are there for the termination of this definition
/// alone: a field ends behind its key and inside the input.
pub open spec fn product_codes_from(bytes: Seq<u8>, at: int) -> Result<Seq<Seq<char>>, WireError>
    decreases bytes.len() - at,
{
    if at < 0 || at >= bytes.len() {
        Ok(Seq::empty())
    } else {
        match key_at(bytes, at) {
            Err(e) => Err(e),
            Ok((tag, wire, next)) => if tag == 1 {
                match product_code_at(bytes, next, wire) {
                    Err(e) => Err(e),
                    Ok((code, after)) => if at < after <= bytes.len() {
                        codes_then(seq![code], product_codes_from(bytes, after))
                    } else {
                        Err(WireError::BufferUnderflow)
                    },
                }
            } else {
                match field_end(bytes, next, wire, tag, 100) {
                    Err(e) => Err(e),
                    Ok(after) => if at < after <= bytes.len() {
                        product_codes_from(bytes, after)
                    } else {
                        Err(WireError::BufferUnderflow)
                    },
                }
            },
        }
    }
}

/// The product codes that a message holds, or why it is no message.
pub open spec fn product_codes_of(bytes: Seq<u8>) -> Result<Seq<Seq<char>>, WireError> {
    product_codes_from(bytes, 0)
}

/// A field that ends stays inside the input and behind its key.
pub proof fn lemma_field_end_bounds(bytes: Seq<u8>, at: int, wire: nat, tag: nat, budget: nat)
    requires
        0 <= at <= bytes.len(),
    ensures
        field_end(bytes, at, wire, tag, budget) is Ok ==> at <= field_end(
            bytes,
            at,
            wire,
            tag,
            budget,
        ).unwrap() <= bytes.len(),
    decreases budget, bytes.len() - at, 1int,
{
    lemma_varint_from_bounds(bytes, at, 0);
    if budget > 0 && wire == 3 {
        lemma_group_end_bounds(bytes, at, tag, budget);
    }
}

/// A group that ends stays inside the input and ends behind its first key.
pub proof fn lemma_group_end_bounds(bytes: Seq<u8>, at: int, tag: nat, budget: nat)
    requires
        0 <= at <= bytes.len(),
    ensures
        group_end(bytes, at, tag, budget) is Ok ==> at < group_end(bytes, at, tag, budget).unwrap()
            <= bytes.len(),
    decreases budget, bytes.len() - at, 0int,
{
    lemma_varint_from_bounds(bytes, at, 0);
    match key_at(bytes, at) {
        Err(_) => {},
        Ok((inner_tag, inner_wire, next)) => {
            if inner_wire != 4 && budget > 0 {
                lemma_field_end_bounds(bytes, next, inner_wire, inner_tag, (budget - 1) as nat);
                match field_end(bytes, next, inner_wire, inner_tag, (budget - 1) as nat) {
                    Err(_) => {},
                    Ok(after) => {
                        lemma_group_end_bounds(bytes, after, tag, budget);
                    },
                }
            }
        },
    }
}

fn read_varint(bytes: &[u8], at: usize, index: u8) -> (r: Option<(u64, usize)>)
    ensures
        match r {
            None => varint_from(bytes@, at as int, index as nat) is None,
            Some((value, next)) => varint_from(bytes@, at as int, index as nat) == Some(
                (value as nat, next as int),
            ) && at < next <= bytes.len() && value < varint_bound(index as nat),
        },
    decreases 10 - index,
{
    if index >= 10 || at >= bytes.len() {
        return None;
    }
    let byte: u8 = bytes[at];
    if byte < 0x80 {
        if index == 9 && byte >= 2 {
            None
        } else {
            Some((byte as u64, at + 1))
        }
    } else {
        match read_varint(bytes, at + 1, index + 1) {
            None => None,
            Some((rest, next)) => {
                let low: u64 = (byte - 0x80) as u64;
                Some((low + 128 * rest, next))
            },
        }
    }
}

/// Reads the varint that starts at `at`: its value and the position after it.
pub fn decode_varint(bytes: &[u8], at: usize) -> (r: Result<(u64, usize), WireError>)
    ensures
        match r {
            Err(e) => e == WireError::InvalidVarint && varint_at(bytes@, at as int) is None,
            Ok((value, next)) => varint_at(bytes@, at as int) == Some((value as nat, next as int))
                && at < next <= bytes.len(),
        },
{
    match read_varint(bytes, at, 0) {
        None => Err(WireError::InvalidVarint),
        Some(found) => Ok(found),
    }
}

/// Reads the key that starts at `at`: the tag, the wire type and the position
/// after the key.
pub fn decode_key(bytes: &[u8], at: usize) -> (r: Result<(u32, u8, usize), WireError>)
    ensures
        match r {
            Err(e) => key_at(bytes@, at as int) == Err::<(nat, nat, int), WireError>(e),
            Ok((tag, wire, next)) => key_at(bytes@, at as int) == Ok::<
                (nat, nat, int),
                WireError,
            >((tag as nat, wire as nat, next as int)) && at < next <= bytes.len() && tag >= 1
                && wire <= 5,
        },
{
    match decode_varint(bytes, at) {
        Err(e) => Err(e),
        Ok((key, next)) => {
            if key > 0xffff_ffff {
                Err(WireError::InvalidKey)
            } else if key % 8 > 5 {
                Err(WireError::InvalidWireType)
            } else if key / 8 < 1 {
                Err(WireError::InvalidTag)
            } else {
                Ok(((key / 8) as u32, (key % 8) as u8, next))
            }
        },
    }
}

/// Passes over the field whose key, with tag `tag` and wire type `wire`, ends
/// at `at`, and returns the position after the field. `budget` is the number
/// of levels of nesting that are left.
pub fn skip_field(bytes: &[u8], at: usize, wire: u8, tag: u32, budget: u32) -> (r: Result<
    usize,
    WireError,
>)
    requires
        at <= bytes.len(),
    ensures
        match r {
            Err(e) => field_end(bytes@, at as int, wire as nat, tag as nat, budget as nat) == Err::<
                int,
                WireError,
            >(e),
            Ok(after) => field_end(bytes@, at as int, wire as nat, tag as nat, budget as nat)
                == Ok::<int, WireError>(after as int) && at <= after <= bytes.len(),
        },
    decreases budget, bytes.len() - at,
{
    if budget == 0 {
        return Err(WireError::RecursionLimit);
    }
    if wire == WIRE_VARINT {
        match decode_varint(bytes, at) {
            Err(e) => Err(e),
            Ok((_, next)) => Ok(next),
        }
    } else if wire == WIRE_SIXTY_FOUR_BIT {
        if bytes.len() - at < 8 {
            Err(WireError::BufferUnderflow)
        } else {
            Ok(at + 8)
        }
    } else if wire == WIRE_THIRTY_TWO_BIT {
        if bytes.len() - at < 4 {
            Err(WireError::BufferUnderflow)
        } else {
            Ok(at + 4)
        }
    } else if wire == WIRE_LENGTH_DELIMITED {
        match decode_varint(bytes, at) {
            Err(e) => Err(e),
            Ok((len, next)) => {
                if len > (bytes.len() - next) as u64 {
                    Err(WireError::BufferUnderflow)
                } else {
                    Ok(next + len as usize)
                }
            },
        }
    } else if wire == WIRE_START_GROUP {
        let mut position: usize = at;
        loop
            invariant
                at <= position <= bytes.len(),
                budget > 0,
                wire == 3,
                group_end(bytes@, at as int, tag as nat, budget as nat) == group_end(
                    bytes@,
                    position as int,
                    tag as nat,
                    budget as nat,
                ),
            decreases bytes.len() - position,
        {
            match decode_key(bytes, position) {
                Err(e) => {
                    return Err(e);
                },
                Ok((inner_tag, inner_wire, next)) => {
                    if inner_wire == WIRE_END_GROUP {
                        if inner_tag == tag {
                            return Ok(next);
                        } else {
                            return Err(WireError::UnexpectedEndGroup);
                        }
                    }
                    match skip_field(bytes, next, inner_wire, inner_tag, budget - 1) {
                        Err(e) => {
                            return Err(e);
                        },
                        Ok(after) => {
                            position = after;
                        },
                    }
                },
            }
        }
    } else {
        Err(WireError::UnexpectedEndGroup)
    }
}

/// `std::str::from_utf8`: the bytes as text where they are well-formed UTF-8,
/// and nothing where they are not.
#[verifier::external_body]
fn utf8_text(bytes: &[u8]) -> (text: Option<&str>)
    ensures
        text is Some <==> valid_utf8(bytes@),
        text is Some ==> text.unwrap()@ == decode_utf8(bytes@),
{
    std::str::from_utf8(bytes).ok()
}

/// Reads the product code whose key, with wire type `wire`, ends at `at`, and
/// returns it with the position after it.
pub fn decode_product_code(bytes: &[u8], at: usize, wire: u8) -> (r: Result<
    (String, usize),
    WireError,
>)
    requires
        at <= bytes.len(),
    ensures
        match r {
            Err(e) => product_code_at(bytes@, at as int, wire as nat) == Err::<
                (Seq<char>, int),
                WireError,
            >(e),
            Ok((code, after)) => product_code_at(bytes@, at as int, wire as nat) == Ok::<
                (Seq<char>, int),
                WireError,
            >((code@, after as int)) && at < after <= bytes.len(),
        },
{
    if wire != WIRE_LENGTH_DELIMITED {
        return Err(WireError::UnexpectedWireType);
    }
    match decode_varint(bytes, at) {
        Err(e) => Err(e),
        Ok((len, next)) => {
            if len > (bytes.len() - next) as u64 {
                return Err(WireError::BufferUnderflow);
            }
            let end: usize = next + len as usize;
            match utf8_text(slice_subrange(bytes, next, end)) {
                None => Err(WireError::InvalidUtf8),
                Some(text) => Ok((text.to_owned(), end)),
            }
        },
    }
}

/// A scraping request: the product codes to scrape, in the order asked.
#[derive(Debug)]
pub struct AmznScrapingRequest {
    pub product_codes: Vec<String>,
}

impl View for AmznScrapingRequest {
    type V = Seq<Seq<char>>;

    open spec fn view(&self) -> Seq<Seq<char>> {
        Seq::new(self.product_codes@.len(), |i: int| self.product_codes@[i]@)
    }
}

impl AmznScrapingRequest {
    /// Decodes a message. A message without fields is the empty request.
    pub fn decode(bytes: &[u8]) -> (r: Result<AmznScrapingRequest, WireError>)
        ensures
            match r {
                Err(e) => product_codes_of(bytes@) == Err::<Seq<Seq<char>>, WireError>(e),
                Ok(request) => product_codes_of(bytes@) == Ok::<Seq<Seq<char>>, WireError>(
                    request@,
                ),
            },
    {
        let mut request = AmznScrapingRequest { product_codes: Vec::new() };
        let mut at: usize = 0;
        while at < bytes.len()
            invariant
                at <= bytes.len(),
                product_codes_of(bytes@) == codes_then(
                    request@,
                    product_codes_from(bytes@, at as int),
                ),
            decreases bytes.len() - at,
        {
            let ghost before = request@;
            match decode_key(bytes, at) {
                Err(e) => {
                    return Err(e);
                },
                Ok((tag, wire, next)) => {
                    if tag == PRODUCT_CODES_TAG {
                        match decode_product_code(bytes, next, wire) {
                            Err(e) => {
                                return Err(e);
                            },
                            Ok((code, after)) => {
                                request.product_codes.push(code);
                                proof {
                                    let rest = product_codes_from(bytes@, after as int);
                                    assert(request@ =~= before + seq![code@]);
                                    if rest is Ok {
                                        assert(before + (seq![code@] + rest.unwrap()) =~= request@
                                            + rest.unwrap());
                                    }
                                }
                                at = after;
                            },
                        }
                    } else {
                        match skip_field(bytes, next, wire, tag, MAX_DEPTH) {
                            Err(e) => {
                                return Err(e);
                            },
                            Ok(after) => {
                                at = after;
                            },
                        }
                    }
                },
            }
        }
        proof {
            assert(request@ + Seq::<Seq<char>>::empty() =~= request@);
        }
        Ok(request)
    }
}

/// A message without bytes is the request for no product.
pub proof fn lemma_empty_message_is_empty_request()
    ensures
        product_codes_of(Seq::<u8>::empty()) == Ok::<Seq<Seq<char>>, WireError>(Seq::empty()),
{
}

} // verus!
