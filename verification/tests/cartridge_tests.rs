//! ROM image parsing: the magic check, length accounting with and
//! without a trainer, bank-count limits, and each error.

use nes_core::cartridge::{parse_ines, CartridgeError};

fn header(prg_banks: u8, chr_banks: u8, flag6: u8, flag7: u8) -> Vec<u8> {
    let mut v = vec![0x4E, 0x45, 0x53, 0x1A, prg_banks, chr_banks, flag6, flag7];
    v.extend(std::iter::repeat(0).take(8));
    v
}

#[test]
fn parse_accepts_one_bank_image() {
    let mut img = header(1, 1, 0x00, 0x00);
    let mut prg = vec![0u8; 0x4000];
    prg[0] = 0xA9;
    img.extend(&prg);
    let mut chr = vec![0u8; 0x2000];
    chr[5] = 0x77;
    img.extend(&chr);
    let c = parse_ines(&img).expect("well-formed image");
    assert_eq!(c.prg.len(), 0x4000);
    assert_eq!(c.prg[0], 0xA9);
    assert_eq!(c.chr.len(), 0x2000);
    assert_eq!(c.chr[5], 0x77);
    assert!(!c.vertical_mirror);
    assert_eq!(c.mapper, 0);
}

#[test]
fn parse_reads_mirror_and_mapper_nibbles() {
    let mut img = header(1, 0, 0x01 | 0x30, 0x20);
    img.extend(vec![0u8; 0x4000]);
    let c = parse_ines(&img).expect("well-formed image");
    assert!(c.vertical_mirror);
    assert_eq!(c.mapper, 0x23);
}

#[test]
fn parse_skips_a_trainer() {
    let mut img = header(1, 0, 0x04, 0x00);
    img.extend(vec![0xEEu8; 512]);
    let mut prg = vec![0u8; 0x4000];
    prg[0] = 0x60;
    img.extend(&prg);
    let c = parse_ines(&img).expect("trainer image parses");
    assert_eq!(c.prg[0], 0x60, "PRG starts after the trainer");
}

#[test]
fn parse_rejects_bad_magic() {
    let mut img = header(1, 0, 0, 0);
    img[0] = 0x4D;
    img.extend(vec![0u8; 0x4000]);
    assert!(matches!(parse_ines(&img), Err(CartridgeError::NotInes)));
    assert!(matches!(parse_ines(&vec![0x4E, 0x45]), Err(CartridgeError::NotInes)));
}

#[test]
fn parse_rejects_short_image() {
    let mut img = header(2, 1, 0, 0);
    img.extend(vec![0u8; 0x4000]); // header promises 0xA000 bytes more
    assert!(matches!(parse_ines(&img), Err(CartridgeError::TooShort)));
}

#[test]
fn parse_rejects_unsupported_bank_count() {
    let mut img = header(4, 0, 0, 0);
    img.extend(vec![0u8; 4 * 0x4000]);
    assert!(matches!(parse_ines(&img), Err(CartridgeError::UnsupportedPrgSize)));
    let img0 = header(0, 0, 0, 0);
    assert!(matches!(parse_ines(&img0), Err(CartridgeError::UnsupportedPrgSize)));
}
