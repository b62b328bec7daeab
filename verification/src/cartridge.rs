//! Parsing of ROM images in the canonical iNES layout.
//!
//! The caller reads the file; this module checks the magic, the header
//! fields and the declared bank sizes, and slices out the PRG and CHR
//! banks. Only the flat mapping of mapper 0 is supported, so the PRG part
//! must be one or two 16 KiB banks.

use vstd::prelude::*;

verus! {

#[derive(Clone, Copy, Debug, PartialEq, Eq, Structural)]
pub enum CartridgeError {
    /// The image does not start with the iNES magic bytes.
    NotInes,
    /// The image is shorter than its header says it should be.
    TooShort,
    /// The PRG part is not one or two 16 KiB banks.
    UnsupportedPrgSize,
}

pub struct Cartridge {
    /// Program ROM: 16 KiB or 32 KiB.
    pub prg: Vec<u8>,
    /// Character ROM holding the pattern tables.
    pub chr: Vec<u8>,
    /// Nametable mirroring: byte 6 bit 0 of the header.
    pub vertical_mirror: bool,
    /// Mapper id from the two header nibbles.
    pub mapper: u8,
}

impl Cartridge {
    pub open spec fn wf(&self) -> bool {
        self.prg@.len() == 0x4000 || self.prg@.len() == 0x8000
    }
}

/// Whether the image is long enough to look at the header at all.
pub open spec fn has_header(bytes: Seq<u8>) -> bool {
    bytes.len() >= 16
}

pub open spec fn magic_ok(bytes: Seq<u8>) -> bool {
    &&& bytes[0] == 0x4E
    &&& bytes[1] == 0x45
    &&& bytes[2] == 0x53
    &&& bytes[3] == 0x1A
}

/// Offset of the PRG banks: past the header and an optional 512-byte
/// trainer flagged by byte 6 bit 2.
pub open spec fn prg_offset(bytes: Seq<u8>) -> int {
    if bytes[6] & 0x04 == 0 {
        16int
    } else {
        16 + 512int
    }
}

pub open spec fn prg_len(bytes: Seq<u8>) -> int {
    bytes[4] * 0x4000
}

pub open spec fn chr_len(bytes: Seq<u8>) -> int {
    bytes[5] * 0x2000
}

pub open spec fn long_enough(bytes: Seq<u8>) -> bool {
    bytes.len() >= prg_offset(bytes) + prg_len(bytes) + chr_len(bytes)
}

pub open spec fn prg_banks_ok(bytes: Seq<u8>) -> bool {
    bytes[4] == 1 || bytes[4] == 2
}

pub open spec fn parse_ok(bytes: Seq<u8>) -> bool {
    &&& has_header(bytes)
    &&& magic_ok(bytes)
    &&& long_enough(bytes)
    &&& prg_banks_ok(bytes)
}

/// Parse an iNES image. Succeeds exactly on well-formed images whose PRG
/// part is one or two banks; each error names the first check that failed,
/// in the order magic, length, bank count.
pub fn parse_ines(bytes: &Vec<u8>) -> (r: Result<Cartridge, CartridgeError>)
    ensures
        r is Ok <==> parse_ok(bytes@),
        r == Err::<Cartridge, _>(CartridgeError::NotInes) <==> !(has_header(bytes@) && magic_ok(
            bytes@,
        )),
        r == Err::<Cartridge, _>(CartridgeError::TooShort) <==> (has_header(bytes@) && magic_ok(
            bytes@,
        ) && !long_enough(bytes@)),
        r == Err::<Cartridge, _>(CartridgeError::UnsupportedPrgSize) <==> (has_header(bytes@)
            && magic_ok(bytes@) && long_enough(bytes@) && !prg_banks_ok(bytes@)),
        r is Ok ==> {
            let c = r->Ok_0;
            &&& c.wf()
            &&& c.prg@ == bytes@.subrange(prg_offset(bytes@), prg_offset(bytes@) + prg_len(bytes@))
            &&& c.chr@ == bytes@.subrange(
                prg_offset(bytes@) + prg_len(bytes@),
                prg_offset(bytes@) + prg_len(bytes@) + chr_len(bytes@),
            )
            &&& c.vertical_mirror == (bytes@[6] & 0x01 != 0)
            &&& c.mapper == (bytes@[7] & 0xF0) | (bytes@[6] >> 4)
        },
{
    if bytes.len() < 16 {
        return Err(CartridgeError::NotInes);
    }
    if !(bytes[0] == 0x4E && bytes[1] == 0x45 && bytes[2] == 0x53 && bytes[3] == 0x1A) {
        return Err(CartridgeError::NotInes);
    }
    let offset: usize = if bytes[6] & 0x04 == 0 {
        16
    } else {
        16 + 512
    };
    let prg_banks: usize = bytes[4] as usize;
    let chr_banks: usize = bytes[5] as usize;
    let prg_bytes: usize = prg_banks * 0x4000;
    let chr_bytes: usize = chr_banks * 0x2000;
    if bytes.len() < offset + prg_bytes + chr_bytes {
        return Err(CartridgeError::TooShort);
    }
    if !(prg_banks == 1 || prg_banks == 2) {
        return Err(CartridgeError::UnsupportedPrgSize);
    }
    let prg = copy_range(bytes, offset, prg_bytes);
    let chr = copy_range(bytes, offset + prg_bytes, chr_bytes);
    let vertical_mirror = bytes[6] & 0x01 != 0;
    let mapper = (bytes[7] & 0xF0) | (bytes[6] >> 4);
    Ok(Cartridge { prg, chr, vertical_mirror, mapper })
}

/// A copy of `src[start .. start + len]`.
fn copy_range(src: &Vec<u8>, start: usize, len: usize) -> (r: Vec<u8>)
    requires
        start + len <= src@.len(),
    ensures
        r@ == src@.subrange(start as int, start + len),
{
    let n = src.len();
    let mut r: Vec<u8> = Vec::new();
    let mut i: usize = 0;
    while i < len
        invariant
            start + len <= n,
            n == src@.len(),
            i <= len,
            r@ == src@.subrange(start as int, start + i),
        decreases len - i,
    {
        r.push(src[start + i]);
        i += 1;
        proof {
            assert(r@ =~= src@.subrange(start as int, start + i));
        }
    }
    r
}

} // verus!
