//! Explicit Set-1 Windows scan code to Linux input-event-code mapping.

use vstd::prelude::*;
use crate::protocol::MAX_LINUX_KEY_CODE;

verus! {

/// The Linux key code of a Set-1 scan code: `extended` tells whether the key
/// came with the E0 prefix. `None` for scan codes the bridge does not carry.
pub open spec fn linux_code(scan: u32, extended: bool) -> Option<u16> {
    if extended {
        match scan {
            0x1c => Some(96u16),
            0x1d => Some(97u16),
            0x35 => Some(98u16),
            0x37 => Some(99u16),
            0x38 => Some(100u16),
            0x47 => Some(102u16),
            0x48 => Some(103u16),
            0x49 => Some(104u16),
            0x4b => Some(105u16),
            0x4d => Some(106u16),
            0x4f => Some(107u16),
            0x50 => Some(108u16),
            0x51 => Some(109u16),
            0x52 => Some(110u16),
            0x53 => Some(111u16),
            0x5b => Some(125u16),
            0x5c => Some(126u16),
            0x5d => Some(127u16),
            0x10 => Some(165u16),
            0x19 => Some(163u16),
            0x20 => Some(113u16),
            0x21 => Some(115u16),
            0x22 => Some(164u16),
            0x24 => Some(114u16),
            0x2e => Some(116u16),
            0x30 => Some(166u16),
            0x32 => Some(172u16),
            0x65 => Some(217u16),
            0x66 => Some(158u16),
            0x67 => Some(159u16),
            0x6a => Some(173u16),
            0x6b => Some(128u16),
            0x6c => Some(167u16),
            0x6d => Some(208u16),
            0x6e => Some(168u16),
            0x6f => Some(207u16),
            _ => None,
        }
    } else {
        match scan {
            0x01 => Some(1u16),
            0x02 => Some(2u16),
            0x03 => Some(3u16),
            0x04 => Some(4u16),
            0x05 => Some(5u16),
            0x06 => Some(6u16),
            0x07 => Some(7u16),
            0x08 => Some(8u16),
            0x09 => Some(9u16),
            0x0a => Some(10u16),
            0x0b => Some(11u16),
            0x0c => Some(12u16),
            0x0d => Some(13u16),
            0x0e => Some(14u16),
            0x0f => Some(15u16),
            0x10 => Some(16u16),
            0x11 => Some(17u16),
            0x12 => Some(18u16),
            0x13 => Some(19u16),
            0x14 => Some(20u16),
            0x15 => Some(21u16),
            0x16 => Some(22u16),
            0x17 => Some(23u16),
            0x18 => Some(24u16),
            0x19 => Some(25u16),
            0x1a => Some(26u16),
            0x1b => Some(27u16),
            0x1c => Some(28u16),
            0x1d => Some(29u16),
            0x1e => Some(30u16),
            0x1f => Some(31u16),
            0x20 => Some(32u16),
            0x21 => Some(33u16),
            0x22 => Some(34u16),
            0x23 => Some(35u16),
            0x24 => Some(36u16),
            0x25 => Some(37u16),
            0x26 => Some(38u16),
            0x27 => Some(39u16),
            0x28 => Some(40u16),
            0x29 => Some(41u16),
            0x2a => Some(42u16),
            0x2b => Some(43u16),
            0x2c => Some(44u16),
            0x2d => Some(45u16),
            0x2e => Some(46u16),
            0x2f => Some(47u16),
            0x30 => Some(48u16),
            0x31 => Some(49u16),
            0x32 => Some(50u16),
            0x33 => Some(51u16),
            0x34 => Some(52u16),
            0x35 => Some(53u16),
            0x36 => Some(54u16),
            0x37 => Some(55u16),
            0x38 => Some(56u16),
            0x39 => Some(57u16),
            0x3a => Some(58u16),
            0x3b => Some(59u16),
            0x3c => Some(60u16),
            0x3d => Some(61u16),
            0x3e => Some(62u16),
            0x3f => Some(63u16),
            0x40 => Some(64u16),
            0x41 => Some(65u16),
            0x42 => Some(66u16),
            0x43 => Some(67u16),
            0x44 => Some(68u16),
            0x45 => Some(69u16),
            0x46 => Some(70u16),
            0x47 => Some(71u16),
            0x48 => Some(72u16),
            0x49 => Some(73u16),
            0x4a => Some(74u16),
            0x4b => Some(75u16),
            0x4c => Some(76u16),
            0x4d => Some(77u16),
            0x4e => Some(78u16),
            0x4f => Some(79u16),
            0x50 => Some(80u16),
            0x51 => Some(81u16),
            0x52 => Some(82u16),
            0x53 => Some(83u16),
            0x56 => Some(86u16),
            0x57 => Some(87u16),
            0x58 => Some(88u16),
            0x59 => Some(89u16),
            0x64 => Some(183u16),
            0x65 => Some(184u16),
            0x66 => Some(185u16),
            0x67 => Some(186u16),
            0x68 => Some(187u16),
            0x69 => Some(188u16),
            0x6a => Some(189u16),
            0x6b => Some(190u16),
            0x6c => Some(191u16),
            0x6d => Some(192u16),
            0x6e => Some(193u16),
            0x6f => Some(194u16),
            _ => None,
        }
    }
}

/// The physical key (scan code and E0 prefix) behind each Linux code that
/// `linux_code` produces.
pub open spec fn physical_key(code: u16) -> Option<(u32, bool)> {
    match code {
        1 => Some((0x01u32, false)),
        2 => Some((0x02u32, false)),
        3 => Some((0x03u32, false)),
        4 => Some((0x04u32, false)),
        5 => Some((0x05u32, false)),
        6 => Some((0x06u32, false)),
        7 => Some((0x07u32, false)),
        8 => Some((0x08u32, false)),
        9 => Some((0x09u32, false)),
        10 => Some((0x0au32, false)),
        11 => Some((0x0bu32, false)),
        12 => Some((0x0cu32, false)),
        13 => Some((0x0du32, false)),
        14 => Some((0x0eu32, false)),
        15 => Some((0x0fu32, false)),
        16 => Some((0x10u32, false)),
        17 => Some((0x11u32, false)),
        18 => Some((0x12u32, false)),
        19 => Some((0x13u32, false)),
        20 => Some((0x14u32, false)),
        21 => Some((0x15u32, false)),
        22 => Some((0x16u32, false)),
        23 => Some((0x17u32, false)),
        24 => Some((0x18u32, false)),
        25 => Some((0x19u32, false)),
        26 => Some((0x1au32, false)),
        27 => Some((0x1bu32, false)),
        28 => Some((0x1cu32, false)),
        29 => Some((0x1du32, false)),
        30 => Some((0x1eu32, false)),
        31 => Some((0x1fu32, false)),
        32 => Some((0x20u32, false)),
        33 => Some((0x21u32, false)),
        34 => Some((0x22u32, false)),
        35 => Some((0x23u32, false)),
        36 => Some((0x24u32, false)),
        37 => Some((0x25u32, false)),
        38 => Some((0x26u32, false)),
        39 => Some((0x27u32, false)),
        40 => Some((0x28u32, false)),
        41 => Some((0x29u32, false)),
        42 => Some((0x2au32, false)),
        43 => Some((0x2bu32, false)),
        44 => Some((0x2cu32, false)),
        45 => Some((0x2du32, false)),
        46 => Some((0x2eu32, false)),
        47 => Some((0x2fu32, false)),
        48 => Some((0x30u32, false)),
        49 => Some((0x31u32, false)),
        50 => Some((0x32u32, false)),
        51 => Some((0x33u32, false)),
        52 => Some((0x34u32, false)),
        53 => Some((0x35u32, false)),
        54 => Some((0x36u32, false)),
        55 => Some((0x37u32, false)),
        56 => Some((0x38u32, false)),
        57 => Some((0x39u32, false)),
        58 => Some((0x3au32, false)),
        59 => Some((0x3bu32, false)),
        60 => Some((0x3cu32, false)),
        61 => Some((0x3du32, false)),
        62 => Some((0x3eu32, false)),
        63 => Some((0x3fu32, false)),
        64 => Some((0x40u32, false)),
        65 => Some((0x41u32, false)),
        66 => Some((0x42u32, false)),
        67 => Some((0x43u32, false)),
        68 => Some((0x44u32, false)),
        69 => Some((0x45u32, false)),
        70 => Some((0x46u32, false)),
        71 => Some((0x47u32, false)),
        72 => Some((0x48u32, false)),
        73 => Some((0x49u32, false)),
        74 => Some((0x4au32, false)),
        75 => Some((0x4bu32, false)),
        76 => Some((0x4cu32, false)),
        77 => Some((0x4du32, false)),
        78 => Some((0x4eu32, false)),
        79 => Some((0x4fu32, false)),
        80 => Some((0x50u32, false)),
        81 => Some((0x51u32, false)),
        82 => Some((0x52u32, false)),
        83 => Some((0x53u32, false)),
        86 => Some((0x56u32, false)),
        87 => Some((0x57u32, false)),
        88 => Some((0x58u32, false)),
        89 => Some((0x59u32, false)),
        96 => Some((0x1cu32, true)),
        97 => Some((0x1du32, true)),
        98 => Some((0x35u32, true)),
        99 => Some((0x37u32, true)),
        100 => Some((0x38u32, true)),
        102 => Some((0x47u32, true)),
        103 => Some((0x48u32, true)),
        104 => Some((0x49u32, true)),
        105 => Some((0x4bu32, true)),
        106 => Some((0x4du32, true)),
        107 => Some((0x4fu32, true)),
        108 => Some((0x50u32, true)),
        109 => Some((0x51u32, true)),
        110 => Some((0x52u32, true)),
        111 => Some((0x53u32, true)),
        113 => Some((0x20u32, true)),
        114 => Some((0x24u32, true)),
        115 => Some((0x21u32, true)),
        116 => Some((0x2eu32, true)),
        125 => Some((0x5bu32, true)),
        126 => Some((0x5cu32, true)),
        127 => Some((0x5du32, true)),
        128 => Some((0x6bu32, true)),
        158 => Some((0x66u32, true)),
        159 => Some((0x67u32, true)),
        163 => Some((0x19u32, true)),
        164 => Some((0x22u32, true)),
        165 => Some((0x10u32, true)),
        166 => Some((0x30u32, true)),
        167 => Some((0x6cu32, true)),
        168 => Some((0x6eu32, true)),
        172 => Some((0x32u32, true)),
        173 => Some((0x6au32, true)),
        183 => Some((0x64u32, false)),
        184 => Some((0x65u32, false)),
        185 => Some((0x66u32, false)),
        186 => Some((0x67u32, false)),
        187 => Some((0x68u32, false)),
        188 => Some((0x69u32, false)),
        189 => Some((0x6au32, false)),
        190 => Some((0x6bu32, false)),
        191 => Some((0x6cu32, false)),
        192 => Some((0x6du32, false)),
        193 => Some((0x6eu32, false)),
        194 => Some((0x6fu32, false)),
        207 => Some((0x6fu32, true)),
        208 => Some((0x6du32, true)),
        217 => Some((0x65u32, true)),
        _ => None,
    }
}

/// Maps a scan code to the Linux key code at the same physical position.
pub fn to_linux(scan: u32, extended: bool) -> (r: Option<u16>)
    ensures
        r == linux_code(scan, extended),
{
    if extended {
        return Some(match scan {
            0x1c => 96,
            0x1d => 97,
            0x35 => 98,
            0x37 => 99,
            0x38 => 100,
            0x47 => 102,
            0x48 => 103,
            0x49 => 104,
            0x4b => 105,
            0x4d => 106,
            0x4f => 107,
            0x50 => 108,
            0x51 => 109,
            0x52 => 110,
            0x53 => 111,
            0x5b => 125,
            0x5c => 126,
            0x5d => 127,
            0x10 => 165,
            0x19 => 163,
            0x20 => 113,
            0x21 => 115,
            0x22 => 164,
            0x24 => 114,
            0x2e => 116,
            0x30 => 166,
            0x32 => 172,
            0x65 => 217,
            0x66 => 158,
            0x67 => 159,
            0x6a => 173,
            0x6b => 128,
            0x6c => 167,
            0x6d => 208,
            0x6e => 168,
            0x6f => 207,
            _ => return None,
        });
    }
    Some(match scan {
            0x01 => 1,
            0x02 => 2,
            0x03 => 3,
            0x04 => 4,
            0x05 => 5,
            0x06 => 6,
            0x07 => 7,
            0x08 => 8,
            0x09 => 9,
            0x0a => 10,
            0x0b => 11,
            0x0c => 12,
            0x0d => 13,
            0x0e => 14,
            0x0f => 15,
            0x10 => 16,
            0x11 => 17,
            0x12 => 18,
            0x13 => 19,
            0x14 => 20,
            0x15 => 21,
            0x16 => 22,
            0x17 => 23,
            0x18 => 24,
            0x19 => 25,
            0x1a => 26,
            0x1b => 27,
            0x1c => 28,
            0x1d => 29,
            0x1e => 30,
            0x1f => 31,
            0x20 => 32,
            0x21 => 33,
            0x22 => 34,
            0x23 => 35,
            0x24 => 36,
            0x25 => 37,
            0x26 => 38,
            0x27 => 39,
            0x28 => 40,
            0x29 => 41,
            0x2a => 42,
            0x2b => 43,
            0x2c => 44,
            0x2d => 45,
            0x2e => 46,
            0x2f => 47,
            0x30 => 48,
            0x31 => 49,
            0x32 => 50,
            0x33 => 51,
            0x34 => 52,
            0x35 => 53,
            0x36 => 54,
            0x37 => 55,
            0x38 => 56,
            0x39 => 57,
            0x3a => 58,
            0x3b => 59,
            0x3c => 60,
            0x3d => 61,
            0x3e => 62,
            0x3f => 63,
            0x40 => 64,
            0x41 => 65,
            0x42 => 66,
            0x43 => 67,
            0x44 => 68,
            0x45 => 69,
            0x46 => 70,
            0x47 => 71,
            0x48 => 72,
            0x49 => 73,
            0x4a => 74,
            0x4b => 75,
            0x4c => 76,
            0x4d => 77,
            0x4e => 78,
            0x4f => 79,
            0x50 => 80,
            0x51 => 81,
            0x52 => 82,
            0x53 => 83,
            0x56 => 86,
            0x57 => 87,
            0x58 => 88,
            0x59 => 89,
            0x64 => 183,
            0x65 => 184,
            0x66 => 185,
            0x67 => 186,
            0x68 => 187,
            0x69 => 188,
            0x6a => 189,
            0x6b => 190,
            0x6c => 191,
            0x6d => 192,
            0x6e => 193,
            0x6f => 194,
        _ => return None,
    })
}

/// The Linux key code of Pause, which Windows reports with the E1 prefix.
pub open spec fn pause_code() -> u16 {
    119
}

/// The Linux key code of Pause.
pub fn pause() -> (code: u16)
    ensures
        code == pause_code(),
{
    119
}

/// The mapping keeps physical keys apart: every code it produces names
/// exactly one scan code with one prefix, so no two keys collide.
pub proof fn lemma_to_linux_injective(scan: u32, extended: bool)
    ensures
        linux_code(scan, extended) matches Some(code) ==> physical_key(code) == Some((scan, extended)),
{
}

/// Two physical keys that both map give the same code only if they are the
/// same key.
pub proof fn lemma_distinct_keys_distinct_codes(s1: u32, e1: bool, s2: u32, e2: bool)
    requires
        linux_code(s1, e1) is Some,
        linux_code(s1, e1) == linux_code(s2, e2),
    ensures
        s1 == s2 && e1 == e2,
{
    lemma_to_linux_injective(s1, e1);
    lemma_to_linux_injective(s2, e2);
}

/// Every mapped code, and the Pause code, is a key code that a key-event
/// frame may carry, and Pause collides with no mapped key.
pub proof fn lemma_codes_in_range(scan: u32, extended: bool)
    ensures
        linux_code(scan, extended) matches Some(code) ==> 1 <= code <= MAX_LINUX_KEY_CODE
            && code != pause_code(),
        1 <= pause_code() <= MAX_LINUX_KEY_CODE,
{
}

} // verus!
