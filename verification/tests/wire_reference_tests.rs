use amzn_scraper::wire::{AmznScrapingRequest, WireError};
use prost::bytes::{Buf, BufMut};
use prost::encoding::{DecodeContext, WireType};
use prost::Message;

#[derive(Debug, Default)]
struct Reference {
    product_codes: Vec<String>,
}

impl Message for Reference {
    fn encode_raw<B>(&self, buf: &mut B)
    where
        B: BufMut,
    {
        prost::encoding::string::encode_repeated(1, &self.product_codes, buf);
    }

    fn merge_field<B>(
        &mut self,
        tag: u32,
        wire_type: WireType,
        buf: &mut B,
        ctx: DecodeContext,
    ) -> Result<(), prost::DecodeError>
    where
        B: Buf,
    {
        if tag == 1 {
            prost::encoding::string::merge_repeated(wire_type, &mut self.product_codes, buf, ctx)
        } else {
            prost::encoding::skip_field(wire_type, tag, buf, ctx)
        }
    }

    fn encoded_len(&self) -> usize {
        prost::encoding::string::encoded_len_repeated(1, &self.product_codes)
    }

    fn clear(&mut self) {
        self.product_codes.clear();
    }
}

fn phrase(error: WireError) -> &'static str {
    match error {
        WireError::InvalidVarint => "invalid varint",
        WireError::InvalidKey => "invalid key value",
        WireError::InvalidWireType => "invalid wire type value",
        WireError::InvalidTag => "invalid tag value: 0",
        WireError::UnexpectedWireType => "(expected LengthDelimited)",
        WireError::BufferUnderflow => "buffer underflow",
        WireError::InvalidUtf8 => "data is not UTF-8 encoded",
        WireError::UnexpectedEndGroup => "unexpected end group tag",
        WireError::RecursionLimit => "recursion limit reached",
    }
}

fn agree(bytes: &[u8]) {
    let own = AmznScrapingRequest::decode(bytes);
    let reference = Reference::decode(bytes);
    match (own, reference) {
        (Ok(request), Ok(expected)) => {
            assert_eq!(request.product_codes, expected.product_codes, "{:?}", bytes)
        }
        (Err(error), Err(expected)) => {
            let text = expected.to_string();
            assert!(text.contains(phrase(error)), "{:?}: {:?} against {:?}", bytes, error, text);
        }
        (own, reference) => panic!("{:?}: {:?} against {:?}", bytes, own, reference),
    }
}

struct Dice(u64);

impl Dice {
    fn roll(&mut self) -> u64 {
        self.0 = self.0.wrapping_mul(6364136223846793005).wrapping_add(1442695040888963407);
        self.0 >> 33
    }

    fn below(&mut self, bound: u64) -> u64 {
        self.roll() % bound
    }
}

#[test]
fn decoding_agrees_with_prost_on_short_inputs() {
    for a in 0..=255u8 {
        agree(&[a]);
        for b in [0u8, 1, 2, 3, 4, 0x0a, 0x7f, 0x80, 0xc3, 0xff] {
            agree(&[a, b]);
            agree(&[a, b, 0x61]);
            agree(&[0x0a, a, b]);
            agree(&[a, b, 0x80, 0x01]);
        }
    }
}

#[test]
fn decoding_agrees_with_prost_on_random_bytes() {
    let mut dice = Dice(7);
    for _ in 0..20000 {
        let len = dice.below(24) as usize;
        let bytes: Vec<u8> = (0..len).map(|_| dice.roll() as u8).collect();
        agree(&bytes);
    }
}

#[test]
fn decoding_agrees_with_prost_on_biased_bytes() {
    let pool: [u8; 16] =
        [0x0a, 0x0a, 0x00, 0x01, 0x02, 0x03, 0x13, 0x14, 0x1b, 0x1c, 0x61, 0x80, 0xff, 0x10, 0x15, 0x11];
    let mut dice = Dice(11);
    for _ in 0..40000 {
        let len = dice.below(16) as usize;
        let bytes: Vec<u8> = (0..len).map(|_| pool[dice.below(16) as usize]).collect();
        agree(&bytes);
    }
}

#[test]
fn decoding_agrees_with_prost_on_damaged_messages() {
    let mut dice = Dice(13);
    for _ in 0..5000 {
        let count = dice.below(4) as usize;
        let message = Reference {
            product_codes: (0..count)
                .map(|_| {
                    let len = dice.below(6) as usize;
                    (0..len).map(|_| char::from(b'A' + dice.below(26) as u8)).collect()
                })
                .collect(),
        };
        let mut bytes = message.encode_to_vec();
        agree(&bytes);
        if !bytes.is_empty() {
            let at = dice.below(bytes.len() as u64) as usize;
            bytes[at] = dice.roll() as u8;
            agree(&bytes);
            bytes.truncate(at);
            agree(&bytes);
        }
    }
}

#[test]
fn decoding_agrees_with_prost_on_nested_groups() {
    for depth in [1usize, 2, 50, 99, 100, 101, 102, 150] {
        let mut bytes = Vec::new();
        for _ in 0..depth {
            prost::encoding::encode_key(2, WireType::StartGroup, &mut bytes);
        }
        agree(&bytes);
        for _ in 0..depth {
            prost::encoding::encode_key(2, WireType::EndGroup, &mut bytes);
        }
        agree(&bytes);
        prost::encoding::encode_key(3, WireType::EndGroup, &mut bytes);
        agree(&bytes);
    }
}

#[test]
fn decoding_agrees_with_prost_on_long_varints() {
    for len in 1..=12usize {
        for last in [0x00u8, 0x01, 0x02, 0x7f, 0x80] {
            let mut bytes = vec![0x10];
            bytes.extend(std::iter::repeat(0xff).take(len - 1));
            bytes.push(last);
            agree(&bytes);
            bytes.extend([0x0a, 0x01, 0x61]);
            agree(&bytes);
        }
    }
}
