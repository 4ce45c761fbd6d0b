use crate::mbc::licensee::{new_licensee_spec, old_licensee_spec, Licensee};
use crate::mbc::mode::{cart_type_of, CartTypes};
use vstd::prelude::*;

verus! {

/// What `String::from_utf8_lossy` makes of a byte string: its UTF-8
/// decoding, each invalid sequence replaced by U+FFFD.
pub uninterp spec fn utf8_lossy(bytes: Seq<u8>) -> Seq<char>;

/// `String::from_utf8_lossy`, made an owned `String`. Claimed: the result is
/// `utf8_lossy` of the bytes, and bytes that are all ASCII come out as the
/// same characters (valid UTF-8 is copied unchanged).
#[verifier::external_body]
fn from_utf8_lossy(bytes: &[u8]) -> (s: String)
    ensures
        s@ == utf8_lossy(bytes@),
        (forall|i: int| 0 <= i < bytes@.len() ==> #[trigger] bytes@[i] < 0x80) ==> s@ == bytes@.map_values(
            |b: u8| b as char,
        ),
{
    String::from_utf8_lossy(bytes).into_owned()
}

/// The bytes `buffer[from..to]`.
fn bytes_between(buffer: &Vec<u8>, from: usize, to: usize) -> (r: Vec<u8>)
    requires
        from <= to <= buffer.len(),
    ensures
        r@ == buffer@.subrange(from as int, to as int),
{
    let mut r: Vec<u8> = Vec::new();
    let mut i = from;
    while i < to
        invariant
            from <= i <= to <= buffer.len(),
            r@ == buffer@.subrange(from as int, i as int),
        decreases to - i,
    {
        r.push(buffer[i]);
        i += 1;
    }
    r
}

/// The destination byte (0x014A).
#[derive(Clone, Copy, PartialEq, Eq, Structural, Debug)]
pub enum Destination {
    Japan,
    Oveseas,
}

/// The CGB flag byte (0x0143): 0x80 runs on both models, 0xC0 only on CGB,
/// anything else is a DMG cartridge.
#[derive(Clone, Copy, PartialEq, Eq, Structural, Debug)]
pub enum CGBFlag {
    BackwardsCompatible,
    CGBOnly,
    DMGOnly,
}

pub open spec fn cgb_flag_of(v: u8) -> CGBFlag {
    if v == 0x80 {
        CGBFlag::BackwardsCompatible
    } else if v == 0xC0 {
        CGBFlag::CGBOnly
    } else {
        CGBFlag::DMGOnly
    }
}

/// The licensee: the old code at 0x014B, unless it is 0x33, which defers to
/// the two-character new code at 0x0144-0x0145.
pub open spec fn header_licensee(b: Seq<u8>) -> Licensee {
    match old_licensee_spec(b[0x14B]) {
        Some(l) => l,
        None => new_licensee_spec(utf8_lossy(b.subrange(0x144, 0x146))),
    }
}

/// The cartridge header at 0x0134-0x014F of the ROM.
#[derive(Clone, Debug)]
pub struct Header {
    pub cart_type: CartTypes,
    pub licensee: Licensee,
    pub destination: Destination,
    pub rom_size: u8,
    pub ram_size: u8,
    pub title: String,
    pub manufacturer_code: String,
    pub cgb_flag: CGBFlag,
    pub sgb_flag: bool,
}

impl Header {
    /// Parses the header of a ROM image. The image must reach past the
    /// header, name a known cartridge type and a destination of 0 or 1.
    pub fn new(buffer: Vec<u8>) -> (r: Self)
        requires
            buffer.len() >= 0x150,
            cart_type_of(buffer@[0x147]) is Some,
            buffer@[0x14A] <= 1,
        ensures
            Some(r.cart_type) == cart_type_of(buffer@[0x147]),
            r.licensee == header_licensee(buffer@),
            r.destination == (if buffer@[0x14A] == 0 { Destination::Japan } else { Destination::Oveseas }),
            r.rom_size == buffer@[0x148],
            r.ram_size == buffer@[0x149],
            r.title@ == utf8_lossy(buffer@.subrange(0x134, 0x13F)),
            r.manufacturer_code@ == utf8_lossy(buffer@.subrange(0x13F, 0x143)),
            r.cgb_flag == cgb_flag_of(buffer@[0x143]),
            r.sgb_flag == (buffer@[0x146] == 0x03),
    {
        let cart_type = match CartTypes::from_u8(buffer[0x0147]) {
            Some(t) => t,
            None => CartTypes::RomOnly,
        };
        let licensee = match Licensee::old_licensee(buffer[0x014B]) {
            Some(code) => code,
            None => {
                let code_bytes = bytes_between(&buffer, 0x0144, 0x0146);
                let string = from_utf8_lossy(code_bytes.as_slice());
                Licensee::new_licensee(string.as_str())
            },
        };
        let destination = if buffer[0x014A] == 0x00 { Destination::Japan } else { Destination::Oveseas };

        let rom_size = buffer[0x0148];
        let ram_size = buffer[0x0149];

        let title_bytes = bytes_between(&buffer, 0x0134, 0x013F);
        let title = from_utf8_lossy(title_bytes.as_slice());
        let code_bytes = bytes_between(&buffer, 0x013F, 0x0143);
        let manufacturer_code = from_utf8_lossy(code_bytes.as_slice());

        let cgb_flag = match buffer[0x0143] {
            0x80 => CGBFlag::BackwardsCompatible,
            0xC0 => CGBFlag::CGBOnly,
            _ => CGBFlag::DMGOnly,
        };
        let sgb_flag = buffer[0x0146] == 0x03;

        Self {
            cart_type,
            licensee,
            destination,
            rom_size,
            ram_size,
            title,
            manufacturer_code,
            cgb_flag,
            sgb_flag,
        }
    }
}

} // verus!
