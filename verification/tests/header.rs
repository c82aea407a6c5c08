use gbrom::rom::{CgbFlag, Rom, RomLoadError, SgbFlag};

const LOGO: [u8; 48] = [
    0xCE, 0xED, 0x66, 0x66, 0xCC, 0x0D, 0x00, 0x0B, 0x03, 0x73, 0x00, 0x83, 0x00, 0x0C, 0x00, 0x0D,
    0x00, 0x08, 0x11, 0x1F, 0x88, 0x89, 0x00, 0x0E, 0xDC, 0xCC, 0x6E, 0xE6, 0xDD, 0xDD, 0xD9, 0x99,
    0xBB, 0xBB, 0x67, 0x63, 0x6E, 0x0E, 0xEC, 0xCC, 0xDD, 0xDC, 0x99, 0x9F, 0xBB, 0xB9, 0x33, 0x3E,
];

/// A minimal old-style buffer of 0x150 zero bytes that decodes successfully.
fn zero_buffer() -> Vec<u8> {
    vec![0u8; 0x150]
}

fn format_message(r: Result<Rom, RomLoadError>) -> String {
    match r {
        Err(RomLoadError::FormatError(m)) => m,
        Err(RomLoadError::IoError(m)) => panic!("unexpected IO error: {}", m),
        Ok(_) => panic!("decode unexpectedly succeeded"),
    }
}

/// Recomputes the header checksum exactly as the format defines it:
/// a 16-bit accumulator that subtracts each byte of the title-to-checksum
/// range and then one more, with wraparound.
fn recompute_header_checksum(buf: &[u8]) -> u16 {
    let mut acc = 0u16;
    for i in 0x134..0x14D {
        acc = acc.wrapping_sub(buf[i] as u16).wrapping_sub(1);
    }
    acc
}

/// Recomputes the global checksum exactly as the format defines it: the
/// wrapping 16-bit sum of every byte except the two stored checksum bytes.
fn recompute_global_checksum(buf: &[u8]) -> u16 {
    let mut acc = 0u16;
    for (i, x) in buf.iter().enumerate() {
        if i != 0x14E && i != 0x14F {
            acc = acc.wrapping_add(*x as u16);
        }
    }
    acc
}

#[test]
fn too_small_buffer_rejected() {
    let msg = format_message(Rom::from_buffer(vec![0u8; 0x14F]));
    assert_eq!(msg, "ROM file is too small. Size: 335 bytes");

    let msg = format_message(Rom::from_buffer(Vec::new()));
    assert_eq!(msg, "ROM file is too small. Size: 0 bytes");

    // content is irrelevant to the size check
    let msg = format_message(Rom::from_buffer(vec![0xFFu8; 10]));
    assert_eq!(msg, "ROM file is too small. Size: 10 bytes");

    // exactly the minimum length is accepted
    assert!(Rom::from_buffer(vec![0u8; 0x150]).is_ok());
}

#[test]
fn new_format_flag_detection() {
    let rom = Rom::from_buffer(zero_buffer()).unwrap();
    assert!(!rom.new_cartridge);
    assert_eq!(rom.old_licensee_code, 0x00);

    let mut buf = zero_buffer();
    buf[0x14B] = 0x33;
    let rom = Rom::from_buffer(buf).unwrap();
    assert!(rom.new_cartridge);
    assert_eq!(rom.old_licensee_code, 0x33);
}

#[test]
fn old_format_forces_empty_new_fields() {
    let mut buf = zero_buffer();
    // invalid UTF-8 at the new licensee code offsets, an out-of-domain code
    // at the color-support offset: both must be ignored in the old layout
    buf[0x144] = 0xFF;
    buf[0x145] = 0xFE;
    buf[0x143] = 0x41;
    let rom = Rom::from_buffer(buf).unwrap();
    assert!(!rom.new_cartridge);
    assert_eq!(rom.manufacturer_code, "");
    assert_eq!(rom.new_licensee_code, "");
    assert_eq!(rom.cgb_flag, CgbFlag::NoCgb);
}

#[test]
fn invalid_utf8_title_rejected() {
    let mut buf = zero_buffer();
    buf[0x138] = 0xFF;
    let msg = format_message(Rom::from_buffer(buf));
    assert_eq!(msg, "Invalid UTF-8 in title");
}

#[test]
fn invalid_utf8_new_style_text_fields_rejected() {
    let mut buf = zero_buffer();
    buf[0x14B] = 0x33;
    // 0x13F..0x143 is the manufacturer code in the new layout, past the
    // shortened title
    buf[0x140] = 0xFF;
    let msg = format_message(Rom::from_buffer(buf.clone()));
    assert_eq!(msg, "Invalid UTF-8 in manufacturer code");

    buf[0x140] = 0x00;
    buf[0x145] = 0xFF;
    let msg = format_message(Rom::from_buffer(buf));
    assert_eq!(msg, "Invalid UTF-8 in new licensee code");
}

#[test]
fn invalid_enum_codes_rejected() {
    // color-support flag, validated only in the new-style layout
    let mut buf = zero_buffer();
    buf[0x14B] = 0x33;
    buf[0x143] = 0x41;
    let msg = format_message(Rom::from_buffer(buf));
    assert_eq!(msg, "Invalid CGB flag: 0x41");

    let mut buf = zero_buffer();
    buf[0x146] = 0x42;
    let msg = format_message(Rom::from_buffer(buf));
    assert_eq!(msg, "Invalid SGB flag: 0x42");

    let mut buf = zero_buffer();
    buf[0x147] = 0x04;
    let msg = format_message(Rom::from_buffer(buf));
    assert_eq!(msg, "Invalid cartridge type flag: 0x4");

    let mut buf = zero_buffer();
    buf[0x148] = 0xAB;
    let msg = format_message(Rom::from_buffer(buf));
    assert_eq!(msg, "Invalid ROM size flag: 0xAB");

    let mut buf = zero_buffer();
    buf[0x149] = 0x06;
    let msg = format_message(Rom::from_buffer(buf));
    assert_eq!(msg, "Invalid RAM size flag: 0x6");

    let mut buf = zero_buffer();
    buf[0x14A] = 0x02;
    let msg = format_message(Rom::from_buffer(buf));
    assert_eq!(msg, "Invalid destination code: 0x2");
}

#[test]
fn decode_fails_fast_on_first_invalid_field() {
    // several fields are invalid at once; the title text step comes first
    let mut buf = zero_buffer();
    buf[0x137] = 0xFF;
    buf[0x146] = 0x42;
    buf[0x14A] = 0x02;
    let msg = format_message(Rom::from_buffer(buf));
    assert_eq!(msg, "Invalid UTF-8 in title");

    // among the enumerated fields the super-support flag comes before the
    // destination code
    let mut buf = zero_buffer();
    buf[0x146] = 0x42;
    buf[0x14A] = 0x02;
    let msg = format_message(Rom::from_buffer(buf));
    assert_eq!(msg, "Invalid SGB flag: 0x42");
}

#[test]
fn new_format_zero_buffer_scenario() {
    let mut buf = zero_buffer();
    buf[0x14B] = 0x33;
    let rom = Rom::from_buffer(buf).unwrap();
    assert!(rom.new_cartridge);
    // eleven zero bytes are valid UTF-8 and decode to eleven NUL characters
    assert_eq!(rom.title, String::from_utf8(vec![0u8; 11]).unwrap());
    assert_eq!(rom.manufacturer_code, String::from_utf8(vec![0u8; 4]).unwrap());
    assert_eq!(rom.sgb_flag, SgbFlag::NoSgbSupport);
    // accumulator: zero minus the 0x33 byte in range, minus one per each of
    // the 25 iterations, wrapping at 16 bits: 0xFFB4, low byte 0xB4
    assert_eq!(recompute_header_checksum(&rom.rom_data), 0xFFB4);
    assert!(!rom.is_header_checksum_valid());

    let mut buf = zero_buffer();
    buf[0x14B] = 0x33;
    buf[0x14D] = 0xB4;
    let rom = Rom::from_buffer(buf).unwrap();
    assert!(rom.is_header_checksum_valid());
}

#[test]
fn logo_validation() {
    let mut buf = zero_buffer();
    buf[0x104..0x134].copy_from_slice(&LOGO);
    let rom = Rom::from_buffer(buf.clone()).unwrap();
    assert!(rom.is_nintendo_logo_valid());
    assert_eq!(rom.nintendo_logo, LOGO);

    // flipping any single logo byte must invalidate it
    for i in 0..48 {
        let mut flipped = buf.clone();
        flipped[0x104 + i] ^= 0x01;
        let rom = Rom::from_buffer(flipped).unwrap();
        assert!(!rom.is_nintendo_logo_valid());
    }

    let rom = Rom::from_buffer(zero_buffer()).unwrap();
    assert!(!rom.is_nintendo_logo_valid());
}

#[test]
fn global_checksum_scenario() {
    let mut buf = zero_buffer();
    buf[0x134..0x139].copy_from_slice(b"HELLO");
    let sum = recompute_global_checksum(&buf);
    buf[0x14E] = (sum >> 8) as u8;
    buf[0x14F] = (sum & 0xFF) as u8;
    // the stored checksum bytes themselves are excluded from the sum
    assert_eq!(recompute_global_checksum(&buf), sum);
    let rom = Rom::from_buffer(buf.clone()).unwrap();
    assert_eq!(rom.global_checksum, sum);
    assert!(rom.is_global_checksum_valid());

    // incrementing a non-checksum byte without updating the stored value
    // must invalidate it
    for &i in &[0x000usize, 0x042, 0x100, 0x134, 0x14C] {
        let mut bumped = buf.clone();
        bumped[i] = bumped[i].wrapping_add(1);
        let rom = Rom::from_buffer(bumped).unwrap();
        assert!(!rom.is_global_checksum_valid());
    }
}

#[test]
fn checksum_queries_deterministic() {
    let mut buf = zero_buffer();
    buf[0x134..0x139].copy_from_slice(b"HELLO");
    let rom = Rom::from_buffer(buf).unwrap();
    let h1 = rom.is_header_checksum_valid();
    let g1 = rom.is_global_checksum_valid();
    let l1 = rom.is_nintendo_logo_valid();
    // repeated queries, in any order, yield the same results
    assert_eq!(rom.is_global_checksum_valid(), g1);
    assert_eq!(rom.is_header_checksum_valid(), h1);
    assert_eq!(rom.is_header_checksum_valid(), h1);
    assert_eq!(rom.is_nintendo_logo_valid(), l1);
}

#[test]
fn checksums_independently_recomputed() {
    // a deterministic pseudo-random image, larger than the bare header
    let mut state = 0x12345678u32;
    let mut buf: Vec<u8> = (0..0x200)
        .map(|_| {
            state = state.wrapping_mul(1664525).wrapping_add(1013904223);
            (state >> 24) as u8
        })
        .collect();
    // pin the parsed fields to valid values
    for b in buf[0x134..0x146].iter_mut() {
        *b = b'A';
    }
    buf[0x146] = 0x03; // SgbSupport
    buf[0x147] = 0x19; // Mbc5
    buf[0x148] = 0x05;
    buf[0x149] = 0x04;
    buf[0x14A] = 0x01;
    buf[0x14B] = 0x77; // old-style
    let header = recompute_header_checksum(&buf);
    buf[0x14D] = (header & 0xFF) as u8;
    let global = recompute_global_checksum(&buf);
    buf[0x14E] = (global >> 8) as u8;
    buf[0x14F] = (global & 0xFF) as u8;

    let rom = Rom::from_buffer(buf.clone()).unwrap();
    // the record retains the raw bytes unchanged
    assert_eq!(rom.rom_data, buf);
    // re-summing the retained bytes in this harness agrees with the record's
    // own verdicts
    assert_eq!((recompute_header_checksum(&rom.rom_data) & 0xFF) as u8, rom.header_checksum);
    assert_eq!(recompute_global_checksum(&rom.rom_data), rom.global_checksum);
    assert!(rom.is_header_checksum_valid());
    assert!(rom.is_global_checksum_valid());
}
