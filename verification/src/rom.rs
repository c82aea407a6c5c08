//! The cartridge header decoder and validator.
//!
//! A cartridge image carries a fixed-layout metadata block starting at offset
//! 0x0100. [`Rom::from_buffer`] extracts every field of that block at its
//! fixed offset, maps raw byte codes into closed enumerated domains (rejecting
//! every unrecognized code), and keeps the whole image so that the checksum
//! predicates can be evaluated later.

use vstd::prelude::*;
use vstd::slice::slice_subrange;
use vstd::string::StringExecFns;
use vstd::utf8::decode_utf8;
use vstd::utf8::valid_utf8;
use vstd::wrapping::u16_specs;

use crate::util;

verus! {

// Header address constants
pub const ENTRY_POINT_ADDR: usize = 0x0100;
pub const NINTENDO_LOGO_ADDR: usize = 0x0104;
pub const TITLE_ADDR: usize = 0x0134;
pub const MANUFACTURER_CODE_ADDR: usize = 0x013F;
pub const CGB_FLAG_ADDR: usize = 0x0143;
pub const NEW_LICENSEE_CODE_ADDR: usize = 0x0144;
pub const SGB_FLAG_ADDR: usize = 0x0146;
pub const CARTRIDGE_TYPE_ADDR: usize = 0x0147;
pub const ROM_SIZE_ADDR: usize = 0x0148;
pub const RAM_SIZE_ADDR: usize = 0x0149;
pub const DESTINATION_CODE_ADDR: usize = 0x014A;
pub const OLD_LICENSEE_CODE_ADDR: usize = 0x014B;
pub const MASK_ROM_VERSION_NUMBER_ADDR: usize = 0x014C;
pub const HEADER_CHECKSUM_ADDR: usize = 0x014D;
pub const GLOBAL_CHECKSUM_ADDR: usize = 0x014E;

/// Flag that says a cartridge is the new format
pub const NEW_CARTRIDGE_FLAG: u8 = 0x33;

/// The character standing for the base-16 digit `d`.
pub open spec fn spec_digit_char(d: u8) -> char
    recommends
        d < 16,
{
    if d == 0 {
        '0'
    } else if d == 1 {
        '1'
    } else if d == 2 {
        '2'
    } else if d == 3 {
        '3'
    } else if d == 4 {
        '4'
    } else if d == 5 {
        '5'
    } else if d == 6 {
        '6'
    } else if d == 7 {
        '7'
    } else if d == 8 {
        '8'
    } else if d == 9 {
        '9'
    } else if d == 10 {
        'A'
    } else if d == 11 {
        'B'
    } else if d == 12 {
        'C'
    } else if d == 13 {
        'D'
    } else if d == 14 {
        'E'
    } else {
        'F'
    }
}

/// The byte `n` written in hexadecimal with a `0x` prefix and no leading
/// zeros, e.g. `0x5` or `0xAB`.
pub open spec fn spec_hex_code(n: u8) -> Seq<char> {
    if n < 16 {
        "0x"@ + seq![spec_digit_char(n)]
    } else {
        "0x"@ + seq![spec_digit_char(n / 16), spec_digit_char(n % 16)]
    }
}

/// The number `n` written in decimal without leading zeros.
pub open spec fn spec_decimal_digits(n: nat) -> Seq<char>
    decreases n,
{
    if n < 10 {
        seq![spec_digit_char(n as u8)]
    } else {
        spec_decimal_digits(n / 10).push(spec_digit_char((n % 10) as u8))
    }
}

fn digit_str(d: u8) -> (s: &'static str)
    requires
        d < 16,
    ensures
        s@ == seq![spec_digit_char(d)],
{
    proof {
        reveal_strlit("0");
        reveal_strlit("1");
        reveal_strlit("2");
        reveal_strlit("3");
        reveal_strlit("4");
        reveal_strlit("5");
        reveal_strlit("6");
        reveal_strlit("7");
        reveal_strlit("8");
        reveal_strlit("9");
        reveal_strlit("A");
        reveal_strlit("B");
        reveal_strlit("C");
        reveal_strlit("D");
        reveal_strlit("E");
        reveal_strlit("F");
    }
    let s = match d {
        0 => "0",
        1 => "1",
        2 => "2",
        3 => "3",
        4 => "4",
        5 => "5",
        6 => "6",
        7 => "7",
        8 => "8",
        9 => "9",
        10 => "A",
        11 => "B",
        12 => "C",
        13 => "D",
        14 => "E",
        _ => "F",
    };
    proof {
        assert(s@ =~= seq![spec_digit_char(d)]);
    }
    s
}

fn hex_code_string(n: u8) -> (s: String)
    ensures
        s@ == spec_hex_code(n),
{
    let mut s = "0x".to_owned();
    if n < 16 {
        s.append(digit_str(n));
    } else {
        s.append(digit_str(n / 16));
        s.append(digit_str(n % 16));
        proof {
            assert(s@ =~= spec_hex_code(n));
        }
    }
    s
}

fn decimal_string(n: usize) -> (s: String)
    ensures
        s@ == spec_decimal_digits(n as nat),
    decreases n,
{
    if n < 10 {
        digit_str(n as u8).to_owned()
    } else {
        let mut s = decimal_string(n / 10);
        s.append(digit_str((n % 10) as u8));
        proof {
            assert(s@ =~= spec_decimal_digits(n as nat));
        }
        s
    }
}

/// The message carried by the failure on a buffer of `len` bytes that is too
/// short to hold the whole header.
pub open spec fn spec_size_error_message(len: nat) -> Seq<char> {
    "ROM file is too small. Size: "@ + spec_decimal_digits(len) + " bytes"@
}

fn size_error_message(len: usize) -> (s: String)
    ensures
        s@ == spec_size_error_message(len as nat),
{
    let mut s = "ROM file is too small. Size: ".to_owned();
    s.append(decimal_string(len).as_str());
    s.append(" bytes");
    proof {
        assert(s@ =~= spec_size_error_message(len as nat));
    }
    s
}

/// The message carried by the failure on an enumerated field whose raw byte
/// `code` lies outside the field's closed domain; `prefix` names the field.
pub open spec fn spec_invalid_code_message(prefix: Seq<char>, code: u8) -> Seq<char> {
    prefix + spec_hex_code(code)
}

fn invalid_code_message(prefix: &str, code: u8) -> (s: String)
    ensures
        s@ == spec_invalid_code_message(prefix@, code),
{
    let mut s = prefix.to_owned();
    s.append(hex_code_string(code).as_str());
    s
}

/// Failure to turn a byte buffer into a [`Rom`].
#[derive(Debug)]
pub enum RomLoadError {
    /// IO error while reading the ROM image, reported by the byte source
    IoError(String),
    /// The ROM image has an invalid format
    FormatError(String),
}

/// Represents the flags that specify GameBoy Color functionality
#[derive(Debug, Clone, Copy, PartialEq, Eq, Structural)]
pub enum CgbFlag {
    NoCgb,
    SupportsCgb,
    CgbOnly,
}

impl CgbFlag {
    /// The variant encoded by `n`, if `n` lies in the closed domain
    /// {0x00, 0x80, 0xC0}.
    pub open spec fn spec_from_u8(n: u8) -> Option<CgbFlag> {
        match n {
            0x00 => Some(CgbFlag::NoCgb),
            0x80 => Some(CgbFlag::SupportsCgb),
            0xC0 => Some(CgbFlag::CgbOnly),
            _ => None,
        }
    }

    pub fn from_u8(n: u8) -> (r: Option<CgbFlag>)
        ensures
            r == CgbFlag::spec_from_u8(n),
    {
        match n {
            0x00 => Some(CgbFlag::NoCgb),
            0x80 => Some(CgbFlag::SupportsCgb),
            0xC0 => Some(CgbFlag::CgbOnly),
            _ => None,
        }
    }
}

/// Represents the flags that specify Super GameBoy functionality
#[derive(Debug, Clone, Copy, PartialEq, Eq, Structural)]
pub enum SgbFlag {
    NoSgbSupport,
    SgbSupport,
}

impl SgbFlag {
    /// The variant encoded by `n`, if `n` lies in the closed domain
    /// {0x00, 0x03}.
    pub open spec fn spec_from_u8(n: u8) -> Option<SgbFlag> {
        match n {
            0x00 => Some(SgbFlag::NoSgbSupport),
            0x03 => Some(SgbFlag::SgbSupport),
            _ => None,
        }
    }

    pub fn from_u8(n: u8) -> (r: Option<SgbFlag>)
        ensures
            r == SgbFlag::spec_from_u8(n),
    {
        match n {
            0x00 => Some(SgbFlag::NoSgbSupport),
            0x03 => Some(SgbFlag::SgbSupport),
            _ => None,
        }
    }
}

/// Represents the various cartridge types that exist
#[derive(Debug, Clone, Copy, PartialEq, Eq, Structural)]
pub enum CartridgeType {
    Rom,
    Mbc1,
    Mbc1Ram,
    Mbc1RamBattery,
    Mbc2,
    Mbc2Battery,
    RomRam,
    RomRamBattery,
    Mmm01,
    Mmm01Ram,
    Mmm01RamBattery,
    Mbc3TimerBattery,
    Mbc3TimerRamBattery,
    Mbc3,
    Mbc3Ram,
    Mbc3RamBattery,
    Mbc4,
    Mbc4Ram,
    Mbc4RamBattery,
    Mbc5,
    Mbc5Ram,
    Mbc5RamBattery,
    Mbc5Rumble,
    Mbc5RumbleRam,
    Mbc5RumbleRamBattery,
    Mbc6,
    Mbc7SensorRumbleRamBattery,
    PocketCamera,
    BandaiTama5,
    HuC3,
    HuC1RamBattery,
}

impl CartridgeType {
    /// The variant encoded by `n`, if `n` lies in the closed domain of
    /// defined cartridge type codes.
    pub open spec fn spec_from_u8(n: u8) -> Option<CartridgeType> {
        match n {
            0x00 => Some(CartridgeType::Rom),
            0x01 => Some(CartridgeType::Mbc1),
            0x02 => Some(CartridgeType::Mbc1Ram),
            0x03 => Some(CartridgeType::Mbc1RamBattery),
            0x05 => Some(CartridgeType::Mbc2),
            0x06 => Some(CartridgeType::Mbc2Battery),
            0x08 => Some(CartridgeType::RomRam),
            0x09 => Some(CartridgeType::RomRamBattery),
            0x0B => Some(CartridgeType::Mmm01),
            0x0C => Some(CartridgeType::Mmm01Ram),
            0x0D => Some(CartridgeType::Mmm01RamBattery),
            0x0F => Some(CartridgeType::Mbc3TimerBattery),
            0x10 => Some(CartridgeType::Mbc3TimerRamBattery),
            0x11 => Some(CartridgeType::Mbc3),
            0x12 => Some(CartridgeType::Mbc3Ram),
            0x13 => Some(CartridgeType::Mbc3RamBattery),
            0x15 => Some(CartridgeType::Mbc4),
            0x16 => Some(CartridgeType::Mbc4Ram),
            0x17 => Some(CartridgeType::Mbc4RamBattery),
            0x19 => Some(CartridgeType::Mbc5),
            0x1A => Some(CartridgeType::Mbc5Ram),
            0x1B => Some(CartridgeType::Mbc5RamBattery),
            0x1C => Some(CartridgeType::Mbc5Rumble),
            0x1D => Some(CartridgeType::Mbc5RumbleRam),
            0x1E => Some(CartridgeType::Mbc5RumbleRamBattery),
            0x20 => Some(CartridgeType::Mbc6),
            0x22 => Some(CartridgeType::Mbc7SensorRumbleRamBattery),
            0xFC => Some(CartridgeType::PocketCamera),
            0xFD => Some(CartridgeType::BandaiTama5),
            0xFE => Some(CartridgeType::HuC3),
            0xFF => Some(CartridgeType::HuC1RamBattery),
            _ => None,
        }
    }

    pub fn from_u8(n: u8) -> (r: Option<CartridgeType>)
        ensures
            r == CartridgeType::spec_from_u8(n),
    {
        match n {
            0x00 => Some(CartridgeType::Rom),
            0x01 => Some(CartridgeType::Mbc1),
            0x02 => Some(CartridgeType::Mbc1Ram),
            0x03 => Some(CartridgeType::Mbc1RamBattery),
            0x05 => Some(CartridgeType::Mbc2),
            0x06 => Some(CartridgeType::Mbc2Battery),
            0x08 => Some(CartridgeType::RomRam),
            0x09 => Some(CartridgeType::RomRamBattery),
            0x0B => Some(CartridgeType::Mmm01),
            0x0C => Some(CartridgeType::Mmm01Ram),
            0x0D => Some(CartridgeType::Mmm01RamBattery),
            0x0F => Some(CartridgeType::Mbc3TimerBattery),
            0x10 => Some(CartridgeType::Mbc3TimerRamBattery),
            0x11 => Some(CartridgeType::Mbc3),
            0x12 => Some(CartridgeType::Mbc3Ram),
            0x13 => Some(CartridgeType::Mbc3RamBattery),
            0x15 => Some(CartridgeType::Mbc4),
            0x16 => Some(CartridgeType::Mbc4Ram),
            0x17 => Some(CartridgeType::Mbc4RamBattery),
            0x19 => Some(CartridgeType::Mbc5),
            0x1A => Some(CartridgeType::Mbc5Ram),
            0x1B => Some(CartridgeType::Mbc5RamBattery),
            0x1C => Some(CartridgeType::Mbc5Rumble),
            0x1D => Some(CartridgeType::Mbc5RumbleRam),
            0x1E => Some(CartridgeType::Mbc5RumbleRamBattery),
            0x20 => Some(CartridgeType::Mbc6),
            0x22 => Some(CartridgeType::Mbc7SensorRumbleRamBattery),
            0xFC => Some(CartridgeType::PocketCamera),
            0xFD => Some(CartridgeType::BandaiTama5),
            0xFE => Some(CartridgeType::HuC3),
            0xFF => Some(CartridgeType::HuC1RamBattery),
            _ => None,
        }
    }
}

/// Represents the varying amounts of ROM sizes that exist
#[derive(Debug, Clone, Copy, PartialEq, Eq, Structural)]
pub enum RomSize {
    RomBanks0,
    RomBanks4,
    RomBanks8,
    RomBanks16,
    RomBanks32,
    RomBanks64,
    RomBanks128,
    RomBanks256,
    RomBanks72,
    RomBanks80,
    RomBanks96,
}

impl RomSize {
    /// The variant encoded by `n`, if `n` lies in the closed domain of
    /// defined ROM size codes.
    pub open spec fn spec_from_u8(n: u8) -> Option<RomSize> {
        match n {
            0x00 => Some(RomSize::RomBanks0),
            0x01 => Some(RomSize::RomBanks4),
            0x02 => Some(RomSize::RomBanks8),
            0x03 => Some(RomSize::RomBanks16),
            0x04 => Some(RomSize::RomBanks32),
            0x05 => Some(RomSize::RomBanks64),
            0x06 => Some(RomSize::RomBanks128),
            0x07 => Some(RomSize::RomBanks256),
            0x52 => Some(RomSize::RomBanks72),
            0x53 => Some(RomSize::RomBanks80),
            0x54 => Some(RomSize::RomBanks96),
            _ => None,
        }
    }

    pub fn from_u8(n: u8) -> (r: Option<RomSize>)
        ensures
            r == RomSize::spec_from_u8(n),
    {
        match n {
            0x00 => Some(RomSize::RomBanks0),
            0x01 => Some(RomSize::RomBanks4),
            0x02 => Some(RomSize::RomBanks8),
            0x03 => Some(RomSize::RomBanks16),
            0x04 => Some(RomSize::RomBanks32),
            0x05 => Some(RomSize::RomBanks64),
            0x06 => Some(RomSize::RomBanks128),
            0x07 => Some(RomSize::RomBanks256),
            0x52 => Some(RomSize::RomBanks72),
            0x53 => Some(RomSize::RomBanks80),
            0x54 => Some(RomSize::RomBanks96),
            _ => None,
        }
    }

    /// The total ROM capacity this bank-count class stands for, as text.
    pub open spec fn spec_description(self) -> Seq<char> {
        match self {
            RomSize::RomBanks0 => "32KByte"@,
            RomSize::RomBanks4 => "64KByte"@,
            RomSize::RomBanks8 => "128KByte"@,
            RomSize::RomBanks16 => "256KByte"@,
            RomSize::RomBanks32 => "512KByte"@,
            RomSize::RomBanks64 => "1MByte"@,
            RomSize::RomBanks128 => "2MByte"@,
            RomSize::RomBanks256 => "4MByte"@,
            RomSize::RomBanks72 => "1.1MByte"@,
            RomSize::RomBanks80 => "1.2MByte"@,
            RomSize::RomBanks96 => "1.5MByte"@,
        }
    }

    pub fn description(&self) -> (s: String)
        ensures
            s@ == self.spec_description(),
    {
        match self {
            RomSize::RomBanks0 => "32KByte".to_owned(),
            RomSize::RomBanks4 => "64KByte".to_owned(),
            RomSize::RomBanks8 => "128KByte".to_owned(),
            RomSize::RomBanks16 => "256KByte".to_owned(),
            RomSize::RomBanks32 => "512KByte".to_owned(),
            RomSize::RomBanks64 => "1MByte".to_owned(),
            RomSize::RomBanks128 => "2MByte".to_owned(),
            RomSize::RomBanks256 => "4MByte".to_owned(),
            RomSize::RomBanks72 => "1.1MByte".to_owned(),
            RomSize::RomBanks80 => "1.2MByte".to_owned(),
            RomSize::RomBanks96 => "1.5MByte".to_owned(),
        }
    }
}

/// Represents the varying amounts of on-cartridge RAM sizes that exist
#[derive(Debug, Clone, Copy, PartialEq, Eq, Structural)]
pub enum RamSize {
    RamNone,
    Ram2K,
    Ram8K,
    Ram32K,
    Ram64K,
    Ram128K,
}

impl RamSize {
    /// The variant encoded by `n`, if `n` lies in the closed domain of
    /// defined RAM size codes.
    pub open spec fn spec_from_u8(n: u8) -> Option<RamSize> {
        match n {
            0x00 => Some(RamSize::RamNone),
            0x01 => Some(RamSize::Ram2K),
            0x02 => Some(RamSize::Ram8K),
            0x03 => Some(RamSize::Ram32K),
            0x04 => Some(RamSize::Ram128K),
            0x05 => Some(RamSize::Ram64K),
            _ => None,
        }
    }

    pub fn from_u8(n: u8) -> (r: Option<RamSize>)
        ensures
            r == RamSize::spec_from_u8(n),
    {
        match n {
            0x00 => Some(RamSize::RamNone),
            0x01 => Some(RamSize::Ram2K),
            0x02 => Some(RamSize::Ram8K),
            0x03 => Some(RamSize::Ram32K),
            0x04 => Some(RamSize::Ram128K),
            0x05 => Some(RamSize::Ram64K),
            _ => None,
        }
    }

    /// The RAM capacity this class stands for, as text.
    pub open spec fn spec_description(self) -> Seq<char> {
        match self {
            RamSize::RamNone => "None"@,
            RamSize::Ram2K => "2KByte"@,
            RamSize::Ram8K => "8KByte"@,
            RamSize::Ram32K => "32KByte"@,
            RamSize::Ram64K => "64KByte"@,
            RamSize::Ram128K => "128KByte"@,
        }
    }

    pub fn description(&self) -> (s: String)
        ensures
            s@ == self.spec_description(),
    {
        match self {
            RamSize::RamNone => "None".to_owned(),
            RamSize::Ram2K => "2KByte".to_owned(),
            RamSize::Ram8K => "8KByte".to_owned(),
            RamSize::Ram32K => "32KByte".to_owned(),
            RamSize::Ram64K => "64KByte".to_owned(),
            RamSize::Ram128K => "128KByte".to_owned(),
        }
    }
}

/// Represents the ROM's destination code
#[derive(Debug, Clone, Copy, PartialEq, Eq, Structural)]
pub enum DestinationCode {
    Japanese,
    NonJapanese,
}

impl DestinationCode {
    /// The variant encoded by `n`, if `n` lies in the closed domain
    /// {0x00, 0x01}.
    pub open spec fn spec_from_u8(n: u8) -> Option<DestinationCode> {
        match n {
            0x00 => Some(DestinationCode::Japanese),
            0x01 => Some(DestinationCode::NonJapanese),
            _ => None,
        }
    }

    pub fn from_u8(n: u8) -> (r: Option<DestinationCode>)
        ensures
            r == DestinationCode::spec_from_u8(n),
    {
        match n {
            0x00 => Some(DestinationCode::Japanese),
            0x01 => Some(DestinationCode::NonJapanese),
            _ => None,
        }
    }
}

/// Nintendo logo constant -- the header should contain this
pub const VALID_NINTENDO_LOGO: [u8; 48] = [
    0xCE, 0xED, 0x66, 0x66, 0xCC, 0x0D, 0x00, 0x0B, 0x03, 0x73, 0x00, 0x83, 0x00, 0x0C, 0x00, 0x0D,
    0x00, 0x08, 0x11, 0x1F, 0x88, 0x89, 0x00, 0x0E, 0xDC, 0xCC, 0x6E, 0xE6, 0xDD, 0xDD, 0xD9, 0x99,
    0xBB, 0xBB, 0x67, 0x63, 0x6E, 0x0E, 0xEC, 0xCC, 0xDD, 0xDC, 0x99, 0x9F, 0xBB, 0xB9, 0x33, 0x3E,
];

/// True when the buffer is long enough to hold the whole header: its length
/// must exceed the address of the last header byte.
pub open spec fn spec_size_ok(b: Seq<u8>) -> bool {
    b.len() > GLOBAL_CHECKSUM_ADDR + 1
}

/// True when the buffer declares the new-style header layout: the byte at the
/// old licensee code offset equals the new-format flag.
pub open spec fn spec_is_new_format(b: Seq<u8>) -> bool
    recommends
        spec_size_ok(b),
{
    b[OLD_LICENSEE_CODE_ADDR as int] == NEW_CARTRIDGE_FLAG
}

/// The offset one past the end of the title field: the title runs up to the
/// manufacturer code in the new layout and up to the new licensee code in the
/// old one.
pub open spec fn spec_title_end_addr(b: Seq<u8>) -> int
    recommends
        spec_size_ok(b),
{
    if spec_is_new_format(b) {
        MANUFACTURER_CODE_ADDR as int
    } else {
        NEW_LICENSEE_CODE_ADDR as int
    }
}

/// The raw bytes of the title field.
pub open spec fn spec_title_bytes(b: Seq<u8>) -> Seq<u8>
    recommends
        spec_size_ok(b),
{
    b.subrange(TITLE_ADDR as int, spec_title_end_addr(b))
}

/// The raw bytes of the manufacturer code field (meaningful only in the
/// new-style layout).
pub open spec fn spec_manufacturer_bytes(b: Seq<u8>) -> Seq<u8>
    recommends
        spec_size_ok(b),
{
    b.subrange(MANUFACTURER_CODE_ADDR as int, CGB_FLAG_ADDR as int)
}

/// The raw bytes of the new licensee code field (meaningful only in the
/// new-style layout).
pub open spec fn spec_new_licensee_bytes(b: Seq<u8>) -> Seq<u8>
    recommends
        spec_size_ok(b),
{
    b.subrange(NEW_LICENSEE_CODE_ADDR as int, SGB_FLAG_ADDR as int)
}

/// True when every text field that the layout makes meaningful holds valid
/// UTF-8.
pub open spec fn spec_texts_ok(b: Seq<u8>) -> bool
    recommends
        spec_size_ok(b),
{
    &&& valid_utf8(spec_title_bytes(b))
    &&& (spec_is_new_format(b) ==> valid_utf8(spec_manufacturer_bytes(b)))
    &&& (spec_is_new_format(b) ==> valid_utf8(spec_new_licensee_bytes(b)))
}

/// True when every enumerated field's raw byte lies in its closed domain.
/// The color-support flag is consulted only in the new-style layout.
pub open spec fn spec_codes_ok(b: Seq<u8>) -> bool
    recommends
        spec_size_ok(b),
{
    &&& (spec_is_new_format(b) ==> CgbFlag::spec_from_u8(b[CGB_FLAG_ADDR as int]) is Some)
    &&& SgbFlag::spec_from_u8(b[SGB_FLAG_ADDR as int]) is Some
    &&& CartridgeType::spec_from_u8(b[CARTRIDGE_TYPE_ADDR as int]) is Some
    &&& RomSize::spec_from_u8(b[ROM_SIZE_ADDR as int]) is Some
    &&& RamSize::spec_from_u8(b[RAM_SIZE_ADDR as int]) is Some
    &&& DestinationCode::spec_from_u8(b[DESTINATION_CODE_ADDR as int]) is Some
}

/// True exactly when [`Rom::from_buffer`] accepts the buffer.
pub open spec fn spec_decodes(b: Seq<u8>) -> bool {
    spec_size_ok(b) && spec_texts_ok(b) && spec_codes_ok(b)
}

/// The message of the format failure that [`Rom::from_buffer`] reports on a
/// rejected buffer: decoding fails fast, so the message belongs to the first
/// check that fails, in the order size, title text, manufacturer code text,
/// new licensee code text, then the enumerated fields.
pub open spec fn spec_decode_error_message(b: Seq<u8>) -> Seq<char>
    recommends
        !spec_decodes(b),
{
    if !spec_size_ok(b) {
        spec_size_error_message(b.len())
    } else if !valid_utf8(spec_title_bytes(b)) {
        "Invalid UTF-8 in title"@
    } else if spec_is_new_format(b) && !valid_utf8(spec_manufacturer_bytes(b)) {
        "Invalid UTF-8 in manufacturer code"@
    } else if spec_is_new_format(b) && !valid_utf8(spec_new_licensee_bytes(b)) {
        "Invalid UTF-8 in new licensee code"@
    } else if spec_is_new_format(b) && CgbFlag::spec_from_u8(b[CGB_FLAG_ADDR as int]) is None {
        spec_invalid_code_message("Invalid CGB flag: "@, b[CGB_FLAG_ADDR as int])
    } else if SgbFlag::spec_from_u8(b[SGB_FLAG_ADDR as int]) is None {
        spec_invalid_code_message("Invalid SGB flag: "@, b[SGB_FLAG_ADDR as int])
    } else if CartridgeType::spec_from_u8(b[CARTRIDGE_TYPE_ADDR as int]) is None {
        spec_invalid_code_message("Invalid cartridge type flag: "@, b[CARTRIDGE_TYPE_ADDR as int])
    } else if RomSize::spec_from_u8(b[ROM_SIZE_ADDR as int]) is None {
        spec_invalid_code_message("Invalid ROM size flag: "@, b[ROM_SIZE_ADDR as int])
    } else if RamSize::spec_from_u8(b[RAM_SIZE_ADDR as int]) is None {
        spec_invalid_code_message("Invalid RAM size flag: "@, b[RAM_SIZE_ADDR as int])
    } else if DestinationCode::spec_from_u8(b[DESTINATION_CODE_ADDR as int]) is None {
        spec_invalid_code_message("Invalid destination code: "@, b[DESTINATION_CODE_ADDR as int])
    } else {
        Seq::<char>::empty()
    }
}

/// The 16-bit header checksum accumulator after the bytes at offsets
/// `TITLE_ADDR .. n` have been folded in: for each byte the accumulator
/// subtracts the byte and then one more, wrapping at 16 bits on every step.
pub open spec fn spec_header_checksum_acc(b: Seq<u8>, n: int) -> u16
    recommends
        n <= b.len(),
    decreases n - TITLE_ADDR,
{
    if n <= TITLE_ADDR {
        0u16
    } else {
        u16_specs::wrapping_sub(
            u16_specs::wrapping_sub(spec_header_checksum_acc(b, n - 1), b[n - 1] as u16),
            1u16,
        )
    }
}

/// The computed header checksum of the buffer: the accumulator over the bytes
/// from the title offset up to (excluding) the header checksum offset.
pub open spec fn spec_computed_header_checksum(b: Seq<u8>) -> u16
    recommends
        b.len() >= HEADER_CHECKSUM_ADDR,
{
    spec_header_checksum_acc(b, HEADER_CHECKSUM_ADDR as int)
}

/// The 16-bit global checksum accumulator after the bytes at offsets
/// `0 .. n` have been folded in: every byte is added with 16-bit wraparound,
/// except the two bytes of the stored global checksum, which are skipped.
pub open spec fn spec_global_checksum_acc(b: Seq<u8>, n: int) -> u16
    recommends
        n <= b.len(),
    decreases n,
{
    if n <= 0 {
        0u16
    } else if n - 1 == GLOBAL_CHECKSUM_ADDR || n - 1 == GLOBAL_CHECKSUM_ADDR + 1 {
        spec_global_checksum_acc(b, n - 1)
    } else {
        u16_specs::wrapping_add(spec_global_checksum_acc(b, n - 1), b[n - 1] as u16)
    }
}

/// The computed global checksum of the buffer: the wrapping sum of every byte
/// except the two stored global checksum bytes.
pub open spec fn spec_computed_global_checksum(b: Seq<u8>) -> u16 {
    spec_global_checksum_acc(b, b.len() as int)
}

/// Represents a ROM file and its header metadata
pub struct Rom {
    pub entry_point: [u8; 4],
    pub nintendo_logo: [u8; 48],
    pub title: String,
    pub manufacturer_code: String,
    pub cgb_flag: CgbFlag,
    pub new_licensee_code: String,
    pub sgb_flag: SgbFlag,
    pub cartridge_type: CartridgeType,
    pub rom_size: RomSize,
    pub ram_size: RamSize,
    pub destination_code: DestinationCode,
    pub old_licensee_code: u8,
    pub mask_rom_version_number: u8,
    pub header_checksum: u8,
    pub global_checksum: u16,
    pub new_cartridge: bool,
    pub rom_data: Vec<u8>,
}

impl Rom {
    /// Well-formedness: the retained buffer decodes, and every field holds
    /// exactly what the header layout assigns to it at its fixed offset.
    /// [`Rom::from_buffer`] establishes this and no field is ever mutated
    /// afterwards.
    pub open spec fn wf(self) -> bool {
        let b = self.rom_data@;
        &&& spec_decodes(b)
        &&& self.entry_point@ == b.subrange(ENTRY_POINT_ADDR as int, ENTRY_POINT_ADDR as int + 4)
        &&& self.nintendo_logo@ == b.subrange(
            NINTENDO_LOGO_ADDR as int,
            NINTENDO_LOGO_ADDR as int + 48,
        )
        &&& self.new_cartridge == spec_is_new_format(b)
        &&& self.title@ == decode_utf8(spec_title_bytes(b))
        &&& self.manufacturer_code@ == (if spec_is_new_format(b) {
            decode_utf8(spec_manufacturer_bytes(b))
        } else {
            Seq::<char>::empty()
        })
        &&& self.new_licensee_code@ == (if spec_is_new_format(b) {
            decode_utf8(spec_new_licensee_bytes(b))
        } else {
            Seq::<char>::empty()
        })
        &&& (if spec_is_new_format(b) {
            CgbFlag::spec_from_u8(b[CGB_FLAG_ADDR as int]) == Some(self.cgb_flag)
        } else {
            self.cgb_flag == CgbFlag::NoCgb
        })
        &&& SgbFlag::spec_from_u8(b[SGB_FLAG_ADDR as int]) == Some(self.sgb_flag)
        &&& CartridgeType::spec_from_u8(b[CARTRIDGE_TYPE_ADDR as int]) == Some(self.cartridge_type)
        &&& RomSize::spec_from_u8(b[ROM_SIZE_ADDR as int]) == Some(self.rom_size)
        &&& RamSize::spec_from_u8(b[RAM_SIZE_ADDR as int]) == Some(self.ram_size)
        &&& DestinationCode::spec_from_u8(b[DESTINATION_CODE_ADDR as int]) == Some(
            self.destination_code,
        )
        &&& self.old_licensee_code == b[OLD_LICENSEE_CODE_ADDR as int]
        &&& self.mask_rom_version_number == b[MASK_ROM_VERSION_NUMBER_ADDR as int]
        &&& self.header_checksum == b[HEADER_CHECKSUM_ADDR as int]
        &&& self.global_checksum == b[GLOBAL_CHECKSUM_ADDR as int] * 256 + b[GLOBAL_CHECKSUM_ADDR
            as int + 1]
    }

    /// Takes in a u8 vector and returns a Rom structure.
    ///
    /// The buffer is accepted exactly when it is long enough, every
    /// meaningful text field is valid UTF-8, and every enumerated field's
    /// byte lies in its closed domain; the record then retains the whole
    /// buffer and holds each field of the header. A rejected buffer yields a
    /// format failure whose message names the first check that failed.
    pub fn from_buffer(buf: Vec<u8>) -> (r: Result<Rom, RomLoadError>)
        ensures
            r is Ok <==> spec_decodes(buf@),
            r matches Ok(rom) ==> rom.wf() && rom.rom_data@ == buf@,
            r matches Err(e) ==> (e matches RomLoadError::FormatError(m) && m@
                == spec_decode_error_message(buf@)),
    {
        // if the ROM size is less than or equal to the size needed to simply
        // store the cartridge header, then it's invalid
        if buf.len() <= GLOBAL_CHECKSUM_ADDR + 1 {
            return Err(RomLoadError::FormatError(size_error_message(buf.len())));
        }
        // see if this cartridge is new-style or old-style
        let new_cartridge = buf[OLD_LICENSEE_CODE_ADDR] == NEW_CARTRIDGE_FLAG;
        let title_end_addr = if new_cartridge {
            MANUFACTURER_CODE_ADDR
        } else {
            NEW_LICENSEE_CODE_ADDR
        };
        // read the multi-byte values into our buffers
        let mut entry_point: [u8; 4] = [0u8; 4];
        let mut nintendo_logo: [u8; 48] = [0u8; 48];
        util::get_subarray_of_vector(&mut entry_point, &buf, ENTRY_POINT_ADDR);
        util::get_subarray_of_vector(&mut nintendo_logo, &buf, NINTENDO_LOGO_ADDR);
        // decode the text fields; the manufacturer and licensee offsets carry
        // text only in the new-style layout
        let title = match util::bytes_to_string(
            slice_subrange(buf.as_slice(), TITLE_ADDR, title_end_addr),
        ) {
            Some(s) => s,
            None => {
                return Err(RomLoadError::FormatError("Invalid UTF-8 in title".to_owned()));
            },
        };
        let manufacturer_code = if new_cartridge {
            match util::bytes_to_string(
                slice_subrange(buf.as_slice(), MANUFACTURER_CODE_ADDR, CGB_FLAG_ADDR),
            ) {
                Some(s) => s,
                None => {
                    return Err(
                        RomLoadError::FormatError("Invalid UTF-8 in manufacturer code".to_owned()),
                    );
                },
            }
        } else {
            String::new()
        };
        let new_licensee_code = if new_cartridge {
            match util::bytes_to_string(
                slice_subrange(buf.as_slice(), NEW_LICENSEE_CODE_ADDR, SGB_FLAG_ADDR),
            ) {
                Some(s) => s,
                None => {
                    return Err(
                        RomLoadError::FormatError("Invalid UTF-8 in new licensee code".to_owned()),
                    );
                },
            }
        } else {
            String::new()
        };
        // read the enum flags
        let cgb_flag = if new_cartridge {
            match CgbFlag::from_u8(buf[CGB_FLAG_ADDR]) {
                Some(f) => f,
                None => {
                    return Err(
                        RomLoadError::FormatError(
                            invalid_code_message("Invalid CGB flag: ", buf[CGB_FLAG_ADDR]),
                        ),
                    );
                },
            }
        } else {
            CgbFlag::NoCgb
        };
        let sgb_flag = match SgbFlag::from_u8(buf[SGB_FLAG_ADDR]) {
            Some(f) => f,
            None => {
                return Err(
                    RomLoadError::FormatError(
                        invalid_code_message("Invalid SGB flag: ", buf[SGB_FLAG_ADDR]),
                    ),
                );
            },
        };
        let cartridge_type = match CartridgeType::from_u8(buf[CARTRIDGE_TYPE_ADDR]) {
            Some(f) => f,
            None => {
                return Err(
                    RomLoadError::FormatError(
                        invalid_code_message(
                            "Invalid cartridge type flag: ",
                            buf[CARTRIDGE_TYPE_ADDR],
                        ),
                    ),
                );
            },
        };
        let rom_size = match RomSize::from_u8(buf[ROM_SIZE_ADDR]) {
            Some(f) => f,
            None => {
                return Err(
                    RomLoadError::FormatError(
                        invalid_code_message("Invalid ROM size flag: ", buf[ROM_SIZE_ADDR]),
                    ),
                );
            },
        };
        let ram_size = match RamSize::from_u8(buf[RAM_SIZE_ADDR]) {
            Some(f) => f,
            None => {
                return Err(
                    RomLoadError::FormatError(
                        invalid_code_message("Invalid RAM size flag: ", buf[RAM_SIZE_ADDR]),
                    ),
                );
            },
        };
        let destination_code = match DestinationCode::from_u8(buf[DESTINATION_CODE_ADDR]) {
            Some(f) => f,
            None => {
                return Err(
                    RomLoadError::FormatError(
                        invalid_code_message(
                            "Invalid destination code: ",
                            buf[DESTINATION_CODE_ADDR],
                        ),
                    ),
                );
            },
        };
        let global_checksum: u16 = (buf[GLOBAL_CHECKSUM_ADDR] as u16) * 256 + (buf[
            GLOBAL_CHECKSUM_ADDR + 1] as u16);
        Ok(
            Rom {
                entry_point,
                nintendo_logo,
                title,
                manufacturer_code,
                new_licensee_code,
                cgb_flag,
                sgb_flag,
                cartridge_type,
                rom_size,
                ram_size,
                destination_code,
                old_licensee_code: buf[OLD_LICENSEE_CODE_ADDR],
                mask_rom_version_number: buf[MASK_ROM_VERSION_NUMBER_ADDR],
                header_checksum: buf[HEADER_CHECKSUM_ADDR],
                global_checksum,
                new_cartridge,
                rom_data: buf,
            },
        )
    }

    /// Says whether the header checksum is valid: the low 8 bits of the
    /// computed header checksum must equal the stored header checksum byte.
    /// The result is a pure function of the retained buffer and the stored
    /// byte, so repeated calls agree.
    pub fn is_header_checksum_valid(&self) -> (r: bool)
        requires
            self.rom_data@.len() >= HEADER_CHECKSUM_ADDR,
        ensures
            r == (spec_computed_header_checksum(self.rom_data@) as u8 == self.header_checksum),
    {
        let mut calculated_header_checksum = 0u16;
        let mut i: usize = TITLE_ADDR;
        while i < HEADER_CHECKSUM_ADDR
            invariant
                TITLE_ADDR <= i <= HEADER_CHECKSUM_ADDR,
                self.rom_data@.len() >= HEADER_CHECKSUM_ADDR,
                calculated_header_checksum == spec_header_checksum_acc(self.rom_data@, i as int),
            decreases HEADER_CHECKSUM_ADDR - i,
        {
            calculated_header_checksum = calculated_header_checksum.wrapping_sub(
                self.rom_data[i] as u16,
            ).wrapping_sub(1);
            i += 1;
        }
        (calculated_header_checksum as u8) == self.header_checksum
    }

    /// Says whether the global checksum is valid: the wrapping sum of every
    /// buffer byte outside the stored global checksum field must equal the
    /// stored global checksum. The result is a pure function of the retained
    /// buffer and the stored value, so repeated calls agree.
    pub fn is_global_checksum_valid(&self) -> (r: bool)
        ensures
            r == (spec_computed_global_checksum(self.rom_data@) == self.global_checksum),
    {
        let mut calculated_global_checksum = 0u16;
        let len = self.rom_data.len();
        let mut i: usize = 0;
        while i < len
            invariant
                i <= len,
                len == self.rom_data@.len(),
                calculated_global_checksum == spec_global_checksum_acc(self.rom_data@, i as int),
            decreases len - i,
        {
            if i != GLOBAL_CHECKSUM_ADDR && i != GLOBAL_CHECKSUM_ADDR + 1 {
                calculated_global_checksum = calculated_global_checksum.wrapping_add(
                    self.rom_data[i] as u16,
                );
            }
            i += 1;
        }
        calculated_global_checksum == self.global_checksum
    }

    /// Says whether the Nintendo logo is valid: the logo bitmap kept in the
    /// record must match the 48-byte reference constant byte for byte.
    pub fn is_nintendo_logo_valid(&self) -> (r: bool)
        ensures
            r == (self.nintendo_logo@ == VALID_NINTENDO_LOGO@),
    {
        let mut i: usize = 0;
        while i < 48
            invariant
                i <= 48,
                forall|j: int| 0 <= j < i ==> self.nintendo_logo@[j] == VALID_NINTENDO_LOGO@[j],
            decreases 48 - i,
        {
            if self.nintendo_logo[i] != VALID_NINTENDO_LOGO[i] {
                return false;
            }
            i += 1;
        }
        proof {
            assert(self.nintendo_logo@ =~= VALID_NINTENDO_LOGO@);
        }
        true
    }
}

/// Law: a buffer too short to hold the whole header is rejected, whatever
/// its content, and the failure carries the size message.
pub proof fn lemma_short_buffer_rejected(b: Seq<u8>)
    requires
        b.len() <= GLOBAL_CHECKSUM_ADDR + 1,
    ensures
        !spec_decodes(b),
        spec_decode_error_message(b) == spec_size_error_message(b.len()),
{
}

/// Law: a long-enough buffer with any enumerated field's byte outside that
/// field's closed domain is rejected.
pub proof fn lemma_invalid_code_rejected(b: Seq<u8>)
    requires
        spec_size_ok(b),
        !spec_codes_ok(b),
    ensures
        !spec_decodes(b),
{
}

/// Law: a well-formed record is new-format exactly when the retained byte at
/// the old licensee code offset equals the new-format flag.
pub proof fn lemma_new_format_flag(rom: Rom)
    requires
        rom.wf(),
    ensures
        rom.new_cartridge <==> rom.rom_data@[OLD_LICENSEE_CODE_ADDR as int] == NEW_CARTRIDGE_FLAG,
{
}

/// Law: an old-format record holds the empty manufacturer code, the empty
/// new licensee code and no color support, whatever bytes sit at those
/// offsets in the retained buffer.
pub proof fn lemma_old_format_fields(rom: Rom)
    requires
        rom.wf(),
        !rom.new_cartridge,
    ensures
        rom.manufacturer_code@ == Seq::<char>::empty(),
        rom.new_licensee_code@ == Seq::<char>::empty(),
        rom.cgb_flag == CgbFlag::NoCgb,
{
}

} // verus!
