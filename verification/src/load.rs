use vstd::prelude::*;

verus! {

use crate::binary_utils::{validate_120bit, validate_6bit_array};
use crate::digits::push_char;
use crate::save_data::SaveData;
use crate::status::Flags;
use crate::text::{kana_seq, kana_table, password_index_of, password_position, password_seq};
use vstd::string::StrSliceExecFns;
use vstd::string::StringExecFns;

/// The 6-bit value of the `i`-th password character.
pub open spec fn spec_pw_val(s: Seq<char>, i: int) -> int {
    password_index_of(s[i])
}

/// The `i`-th value with the rolling offset removed.
pub open spec fn spec_undone(s: Seq<char>, i: int) -> int {
    if i == 0 {
        (spec_pw_val(s, 0) + 60) % 64
    } else {
        (spec_pw_val(s, i) + 316 - spec_pw_val(s, i - 1)) % 64
    }
}

/// The `j`-th record byte as rebuilt from twenty reordered 6-bit values.
pub open spec fn spec_block_byte(raw: Seq<u8>, j: int) -> int {
    let b = j / 3;
    let t = j % 3;
    let q0 = raw[4 * b] as int % 64;
    let q1 = raw[4 * b + 1] as int % 64;
    let q2 = raw[4 * b + 2] as int % 64;
    let q3 = raw[4 * b + 3] as int % 64;
    if t == 0 {
        (q1 % 4) * 64 + q0
    } else if t == 1 {
        (q2 % 16) * 16 + q1 / 4
    } else {
        q3 * 4 + q2 / 16
    }
}

/// The `j`-th record byte recovered from a password's characters.
pub open spec fn spec_decoded_byte(s: Seq<char>, j: int) -> int {
    let b = j / 3;
    let t = j % 3;
    let q0 = spec_undone(s, 4 * b);
    let q1 = spec_undone(s, 4 * b + 1);
    let q2 = spec_undone(s, 4 * b + 2);
    let q3 = spec_undone(s, 4 * b + 3);
    if t == 0 {
        (q1 % 4) * 64 + q0
    } else if t == 1 {
        (q2 % 16) * 16 + q1 / 4
    } else {
        q3 * 4 + q2 / 16
    }
}

/// Each password character as its 6-bit value; fails exactly when the
/// string is not twenty characters of the password alphabet.
pub fn decode_password_string(s: &str) -> (r: Result<Vec<u8>, String>)
    ensures
        match r {
            Result::Ok(v) => s@.len() == 20 && (forall|i: int|
                0 <= i < 20 ==> password_seq().contains(#[trigger] s@[i])) && v@.len() == 20 && (
            forall|i: int| 0 <= i < 20 ==> #[trigger] v@[i] as int == spec_pw_val(s@, i) && v@[i]
                < 64),
            Result::Err(e) => (s@.len() != 20 && e@
                == "ふっかつのじゅもんは20文字である必要があります"@) || (s@.len() == 20 && (exists|
                i: int,
            | 0 <= i < 20 && !password_seq().contains(#[trigger] s@[i])) && e@
                == "未対応の文字が含まれています"@),
        },
{
    let n = s.unicode_len();
    if n != 20 {
        return Err(String::from_str("ふっかつのじゅもんは20文字である必要があります"));
    }
    let mut v: Vec<u8> = Vec::new();
    let mut i: usize = 0;
    while i < 20
        invariant
            i <= 20,
            s@.len() == 20,
            v@.len() == i,
            forall|j: int| 0 <= j < i ==> password_seq().contains(#[trigger] s@[j]),
            forall|j: int| 0 <= j < i ==> #[trigger] v@[j] as int == spec_pw_val(s@, j) && v@[j]
                < 64,
        decreases 20 - i,
    {
        match password_position(s.get_char(i)) {
            Some(p) => { v.push(p); },
            None => {
                return Err(String::from_str("未対応の文字が含まれています"));
            },
        }
        i = i + 1;
    }
    Ok(v)
}

/// Strips the rolling offset from twenty 6-bit values; fails exactly when
/// the count is off.
pub fn undo_password_addition(values: &[u8]) -> (r: Result<Vec<u8>, String>)
    ensures
        match r {
            Result::Ok(v) => values@.len() == 20 && v@.len() == 20 && v@[0] as int == (
            values@[0] as int + 60) % 64 && (forall|i: int|
                1 <= i < 20 ==> #[trigger] v@[i] as int == (values@[i] as int + 316
                    - values@[i - 1] as int) % 64),
            Result::Err(_) => values@.len() != 20,
        },
{
    match validate_6bit_array(values) {
        Ok(_) => {},
        Err(e) => { return Err(e); },
    }
    let mut v: Vec<u8> = Vec::new();
    let mut i: usize = 0;
    while i < 20
        invariant
            i <= 20,
            values@.len() == 20,
            v@.len() == i,
            i > 0 ==> v@[0] as int == (values@[0] as int + 60) % 64,
            forall|j: int|
                1 <= j < i ==> #[trigger] v@[j] as int == (values@[j] as int + 316
                    - values@[j - 1] as int) % 64,
        decreases 20 - i,
    {
        let x: u16 = if i == 0 {
            ((values[0] as u16) + 60) % 64
        } else {
            ((values[i] as u16) + 316 - (values[i - 1] as u16)) % 64
        };
        v.push(x as u8);
        i = i + 1;
    }
    Ok(v)
}

/// Restores the fifteen record bytes from the twenty reordered 6-bit
/// values; fails exactly when the count is off. Values are read modulo 64.
pub fn reorder_blocks_back(bits: &[u8]) -> (r: Result<Vec<u8>, String>)
    ensures
        match r {
            Result::Ok(v) => bits@.len() == 20 && v@.len() == 15 && (forall|j: int|
                0 <= j < 15 ==> #[trigger] v@[j] as int == spec_block_byte(bits@, j)),
            Result::Err(_) => bits@.len() != 20,
        },
{
    match validate_6bit_array(bits) {
        Ok(_) => {},
        Err(e) => { return Err(e); },
    }
    let mut v: Vec<u8> = Vec::new();
    let mut b: usize = 0;
    while b < 5
        invariant
            b <= 5,
            bits@.len() == 20,
            v@.len() == 3 * b,
            forall|j: int| 0 <= j < 3 * b ==> #[trigger] v@[j] as int == spec_block_byte(bits@, j),
        decreases 5 - b,
    {
        let q0 = bits[4 * b] % 64;
        let q1 = bits[4 * b + 1] % 64;
        let q2 = bits[4 * b + 2] % 64;
        let q3 = bits[4 * b + 3] % 64;
        v.push((q1 % 4) * 64 + q0);
        v.push((q2 % 16) * 16 + q1 / 4);
        v.push(q3 * 4 + q2 / 16);
        proof {
            let bi = b as int;
            assert((3 * bi) / 3 == bi && (3 * bi) % 3 == 0);
            assert((3 * bi + 1) / 3 == bi && (3 * bi + 1) % 3 == 1);
            assert((3 * bi + 2) / 3 == bi && (3 * bi + 2) % 3 == 2);
            assert(v@[3 * bi] as int == spec_block_byte(bits@, 3 * bi));
            assert(v@[3 * bi + 1] as int == spec_block_byte(bits@, 3 * bi + 1));
            assert(v@[3 * bi + 2] as int == spec_block_byte(bits@, 3 * bi + 2));
        }
        b = b + 1;
    }
    Ok(v)
}

/// The four name characters read back from the record bytes.
pub fn extract_name_from_bits(bits: &[u8]) -> (r: Result<String, String>)
    ensures
        match r {
            Result::Ok(name) => bits@.len() == 15 && name@.len() == 4 && name@[0] == kana_seq()[(
            bits@[5] as int / 4) % 64] && name@[1] == kana_seq()[(bits@[13] as int / 2) % 64]
                && name@[2] == kana_seq()[bits@[2] as int % 64] && name@[3] == kana_seq()[
            bits@[7] as int % 64],
            Result::Err(_) => bits@.len() != 15,
        },
{
    match validate_120bit(bits) {
        Ok(_) => {},
        Err(e) => { return Err(e); },
    }
    let table = kana_table();
    let mut name = String::new();
    push_char(&mut name, table[((bits[5] / 4) % 64) as usize]);
    push_char(&mut name, table[((bits[13] / 2) % 64) as usize]);
    push_char(&mut name, table[(bits[2] % 64) as usize]);
    push_char(&mut name, table[(bits[7] % 64) as usize]);
    Ok(name)
}

/// The experience read back from its two record bytes.
pub fn extract_experience_from_bits(bits: &[u8]) -> (r: Result<u16, String>)
    ensures
        match r {
            Result::Ok(v) => bits@.len() == 15 && v as int == bits@[12] as int * 256
                + bits@[1] as int,
            Result::Err(_) => bits@.len() != 15,
        },
{
    match validate_120bit(bits) {
        Ok(_) => {},
        Err(e) => { return Err(e); },
    }
    Ok((bits[12] as u16) * 256 + (bits[1] as u16))
}

/// The gold read back from its two record bytes.
pub fn extract_gold_from_bits(bits: &[u8]) -> (r: Result<u16, String>)
    ensures
        match r {
            Result::Ok(v) => bits@.len() == 15 && v as int == bits@[9] as int * 256
                + bits@[4] as int,
            Result::Err(_) => bits@.len() != 15,
        },
{
    match validate_120bit(bits) {
        Ok(_) => {},
        Err(e) => { return Err(e); },
    }
    Ok((bits[9] as u16) * 256 + (bits[4] as u16))
}

/// The weapon read back from the equipment byte.
pub fn extract_weapon_from_bits(bits: &[u8]) -> (r: Result<u8, String>)
    ensures
        match r {
            Result::Ok(v) => bits@.len() == 15 && v as int == (bits@[8] as int / 32) % 8,
            Result::Err(_) => bits@.len() != 15,
        },
{
    match validate_120bit(bits) {
        Ok(_) => {},
        Err(e) => { return Err(e); },
    }
    Ok((bits[8] / 32) % 8)
}

/// The armor read back from the equipment byte.
pub fn extract_armor_from_bits(bits: &[u8]) -> (r: Result<u8, String>)
    ensures
        match r {
            Result::Ok(v) => bits@.len() == 15 && v as int == (bits@[8] as int / 4) % 8,
            Result::Err(_) => bits@.len() != 15,
        },
{
    match validate_120bit(bits) {
        Ok(_) => {},
        Err(e) => { return Err(e); },
    }
    Ok((bits[8] / 4) % 8)
}

/// The shield read back from the equipment byte.
pub fn extract_shield_from_bits(bits: &[u8]) -> (r: Result<u8, String>)
    ensures
        match r {
            Result::Ok(v) => bits@.len() == 15 && v as int == bits@[8] as int % 4,
            Result::Err(_) => bits@.len() != 15,
        },
{
    match validate_120bit(bits) {
        Ok(_) => {},
        Err(e) => { return Err(e); },
    }
    Ok(bits[8] % 4)
}

/// The eight item slots read back from their four record bytes.
pub fn extract_items_from_bits(bits: &[u8]) -> (r: Result<[u8; 8], String>)
    ensures
        match r {
            Result::Ok(v) => bits@.len() == 15 && v@[0] as int == bits@[14] as int % 16
                && v@[1] as int == bits@[14] as int / 16 && v@[2] as int == bits@[3] as int % 16
                && v@[3] as int == bits@[3] as int / 16 && v@[4] as int == bits@[11] as int % 16
                && v@[5] as int == bits@[11] as int / 16 && v@[6] as int == bits@[6] as int % 16
                && v@[7] as int == bits@[6] as int / 16,
            Result::Err(_) => bits@.len() != 15,
        },
{
    match validate_120bit(bits) {
        Ok(_) => {},
        Err(e) => { return Err(e); },
    }
    Ok(
        [
            bits[14] % 16,
            bits[14] / 16,
            bits[3] % 16,
            bits[3] / 16,
            bits[11] % 16,
            bits[11] / 16,
            bits[6] % 16,
            bits[6] / 16,
        ],
    )
}

/// The five story flags read back from their scattered bits.
pub fn extract_flags_from_bits(bits: &[u8]) -> (r: Result<Flags, String>)
    ensures
        match r {
            Result::Ok(f) => bits@.len() == 15 && f.has_dragon_scale == (bits@[13] as int / 128 == 1)
                && f.has_warrior_ring == (bits@[13] as int % 2 == 1) && f.has_cursed_necklace == ((
            bits@[2] as int / 64) % 2 == 1) && f.defeated_dragon == ((bits@[7] as int / 64) % 2
                == 1) && f.defeated_golem == ((bits@[5] as int / 2) % 2 == 1),
            Result::Err(_) => bits@.len() != 15,
        },
{
    match validate_120bit(bits) {
        Ok(_) => {},
        Err(e) => { return Err(e); },
    }
    Ok(
        Flags {
            has_dragon_scale: bits[13] / 128 == 1,
            has_warrior_ring: bits[13] % 2 == 1,
            has_cursed_necklace: (bits[2] / 64) % 2 == 1,
            defeated_dragon: (bits[7] / 64) % 2 == 1,
            defeated_golem: (bits[5] / 2) % 2 == 1,
        },
    )
}

/// The battle pattern read back from its three scattered bits.
pub fn extract_pattern_from_bits(bits: &[u8]) -> (r: Result<u8, String>)
    ensures
        match r {
            Result::Ok(v) => bits@.len() == 15 && v as int == bits@[7] as int / 128 + (
            bits@[5] as int % 2) * 2 + (bits@[2] as int / 128) * 4,
            Result::Err(_) => bits@.len() != 15,
        },
{
    match validate_120bit(bits) {
        Ok(_) => {},
        Err(e) => { return Err(e); },
    }
    Ok(bits[7] / 128 + (bits[5] % 2) * 2 + (bits[2] / 128) * 4)
}

/// The herb and key counts read back from their shared byte.
pub fn extract_herbs_and_keys_from_bits(bits: &[u8]) -> (r: Result<(u8, u8), String>)
    ensures
        match r {
            Result::Ok(v) => bits@.len() == 15 && v.0 as int == bits@[10] as int % 16
                && v.1 as int == bits@[10] as int / 16,
            Result::Err(_) => bits@.len() != 15,
        },
{
    match validate_120bit(bits) {
        Ok(_) => {},
        Err(e) => { return Err(e); },
    }
    Ok((bits[10] % 16, (bits[10] / 16) % 16))
}

/// A whole save record read back from fifteen record bytes; fails exactly
/// when the count is off.
pub fn parse_bitstring_to_save_data(bits: &[u8]) -> (r: Result<SaveData, String>)
    ensures
        match r {
            Result::Ok(sd) => bits@.len() == 15 && sd.name@.len() == 4 && sd.name@[0] == kana_seq()[(
            bits@[5] as int / 4) % 64] && sd.name@[1] == kana_seq()[(bits@[13] as int / 2) % 64]
                && sd.name@[2] == kana_seq()[bits@[2] as int % 64] && sd.name@[3] == kana_seq()[
            bits@[7] as int % 64] && sd.experience as int == bits@[12] as int * 256
                + bits@[1] as int && sd.gold as int == bits@[9] as int * 256 + bits@[4] as int
                && sd.weapon as int == (bits@[8] as int / 32) % 8 && sd.armor as int == (
            bits@[8] as int / 4) % 8 && sd.shield as int == bits@[8] as int % 4
                && sd.items@[0] as int == bits@[14] as int % 16 && sd.items@[1] as int
                == bits@[14] as int / 16 && sd.items@[2] as int == bits@[3] as int % 16
                && sd.items@[3] as int == bits@[3] as int / 16 && sd.items@[4] as int
                == bits@[11] as int % 16 && sd.items@[5] as int == bits@[11] as int / 16
                && sd.items@[6] as int == bits@[6] as int % 16 && sd.items@[7] as int
                == bits@[6] as int / 16 && sd.herbs as int == bits@[10] as int % 16
                && sd.keys as int == bits@[10] as int / 16 && sd.has_dragon_scale == (
            bits@[13] as int / 128 == 1) && sd.has_warrior_ring == (bits@[13] as int % 2 == 1)
                && sd.has_cursed_necklace == ((bits@[2] as int / 64) % 2 == 1)
                && sd.defeated_dragon == ((bits@[7] as int / 64) % 2 == 1) && sd.defeated_golem == ((
            bits@[5] as int / 2) % 2 == 1) && sd.pattern as int == bits@[7] as int / 128 + (
            bits@[5] as int % 2) * 2 + (bits@[2] as int / 128) * 4,
            Result::Err(_) => bits@.len() != 15,
        },
{
    match validate_120bit(bits) {
        Ok(_) => {},
        Err(e) => { return Err(e); },
    }
    let flags = match extract_flags_from_bits(bits) {
        Ok(f) => f,
        Err(e) => { return Err(e); },
    };
    let (herbs, keys) = match extract_herbs_and_keys_from_bits(bits) {
        Ok(p) => p,
        Err(e) => { return Err(e); },
    };
    let name = match extract_name_from_bits(bits) {
        Ok(n) => n,
        Err(e) => { return Err(e); },
    };
    let experience = match extract_experience_from_bits(bits) {
        Ok(v) => v,
        Err(e) => { return Err(e); },
    };
    let gold = match extract_gold_from_bits(bits) {
        Ok(v) => v,
        Err(e) => { return Err(e); },
    };
    let weapon = match extract_weapon_from_bits(bits) {
        Ok(v) => v,
        Err(e) => { return Err(e); },
    };
    let armor = match extract_armor_from_bits(bits) {
        Ok(v) => v,
        Err(e) => { return Err(e); },
    };
    let shield = match extract_shield_from_bits(bits) {
        Ok(v) => v,
        Err(e) => { return Err(e); },
    };
    let items = match extract_items_from_bits(bits) {
        Ok(v) => v,
        Err(e) => { return Err(e); },
    };
    let pattern = match extract_pattern_from_bits(bits) {
        Ok(v) => v,
        Err(e) => { return Err(e); },
    };
    Ok(
        SaveData {
            name,
            experience,
            gold,
            weapon,
            armor,
            shield,
            items,
            herbs,
            keys,
            has_dragon_scale: flags.has_dragon_scale,
            has_warrior_ring: flags.has_warrior_ring,
            has_cursed_necklace: flags.has_cursed_necklace,
            defeated_dragon: flags.defeated_dragon,
            defeated_golem: flags.defeated_golem,
            pattern,
        },
    )
}

/// Decodes a whole password back into a save record; fails exactly when
/// the password is not twenty characters of the password alphabet.
pub fn decode_from_password_string(password: &str) -> (r: Result<SaveData, String>)
    ensures
        match r {
            Result::Ok(sd) => password@.len() == 20 && (forall|i: int|
                0 <= i < 20 ==> password_seq().contains(#[trigger] password@[i]))
                && sd.experience as int == spec_decoded_byte(password@, 12) * 256
                + spec_decoded_byte(password@, 1) && sd.gold as int == spec_decoded_byte(
                password@,
                9,
            ) * 256 + spec_decoded_byte(password@, 4) && sd.name@.len() == 4 && sd.name@[0]
                == kana_seq()[(spec_decoded_byte(password@, 5) / 4) % 64] && sd.name@[1]
                == kana_seq()[(spec_decoded_byte(password@, 13) / 2) % 64] && sd.name@[2]
                == kana_seq()[spec_decoded_byte(password@, 2) % 64] && sd.name@[3] == kana_seq()[
            spec_decoded_byte(password@, 7) % 64] && sd.herbs as int == spec_decoded_byte(
                password@,
                10,
            ) % 16 && sd.keys as int == spec_decoded_byte(password@, 10) / 16,
            Result::Err(e) => (password@.len() != 20 && e@
                == "ふっかつのじゅもんは20文字である必要があります"@) || (password@.len() == 20 && (
            exists|i: int| 0 <= i < 20 && !password_seq().contains(#[trigger] password@[i])) && e@
                == "未対応の文字が含まれています"@),
        },
{
    let encoded = match decode_password_string(password) {
        Ok(v) => v,
        Err(e) => { return Err(e); },
    };
    let raw = match undo_password_addition(encoded.as_slice()) {
        Ok(v) => v,
        Err(e) => { return Err(e); },
    };
    let bit_block = match reorder_blocks_back(raw.as_slice()) {
        Ok(v) => v,
        Err(e) => { return Err(e); },
    };
    proof {
        assert forall|j: int| 0 <= j < 15 implies #[trigger] bit_block@[j] as int
            == spec_decoded_byte(password@, j) by {
            lemma_decoded_byte(password@, encoded@, raw@, bit_block@, j);
        }
    }
    parse_bitstring_to_save_data(bit_block.as_slice())
}

/// Chains the three decode stages: the recovered bytes match the spec
/// formula over the password characters.
#[verifier::rlimit(100)]
#[verifier::spinoff_prover]
proof fn lemma_decoded_byte(s: Seq<char>, encoded: Seq<u8>, raw: Seq<u8>, bytes: Seq<u8>, j: int)
    requires
        0 <= j < 15,
        encoded.len() == 20,
        raw.len() == 20,
        bytes.len() == 15,
        forall|i: int| 0 <= i < 20 ==> #[trigger] encoded[i] as int == spec_pw_val(s, i),
        raw[0] as int == (encoded[0] as int + 60) % 64,
        forall|i: int|
            1 <= i < 20 ==> #[trigger] raw[i] as int == (encoded[i] as int + 316 - encoded[i
                - 1] as int) % 64,
        forall|i: int| 0 <= i < 15 ==> #[trigger] bytes[i] as int == spec_block_byte(raw, i),
    ensures
        bytes[j] as int == spec_decoded_byte(s, j),
{
    let b = j / 3;
    assert(0 <= b < 5);
    assert(forall|i: int| 0 <= i < 20 ==> #[trigger] raw[i] as int == spec_undone(s, i));
    assert(bytes[j] as int == spec_block_byte(raw, j));
    assert(0 <= 4 * b && 4 * b + 3 < 20);
    assert(raw[4 * b] as int == spec_undone(s, 4 * b));
    assert(raw[4 * b + 1] as int == spec_undone(s, 4 * b + 1));
    assert(raw[4 * b + 2] as int == spec_undone(s, 4 * b + 2));
    assert(raw[4 * b + 3] as int == spec_undone(s, 4 * b + 3));
    assert(0 <= spec_undone(s, 4 * b) < 64);
    assert(0 <= spec_undone(s, 4 * b + 1) < 64);
    assert(0 <= spec_undone(s, 4 * b + 2) < 64);
    assert(0 <= spec_undone(s, 4 * b + 3) < 64);
}

} // verus!
