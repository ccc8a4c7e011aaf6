use vstd::prelude::*;

verus! {

broadcast use vstd::array::group_array_axioms;

use crate::binary_utils::{combine_bits, spec_combined, spec_total_width};
use crate::digits::{bin_string, spec_bin};
use crate::save_data::SaveData;
use crate::string_utils::{kana_index, nth_char};
use crate::text::{kana_index_of, kana_seq, wf_name};
use vstd::string::StrSliceExecFns;
use vstd::string::StringExecFns;

/// The bit `1`, `2` or `3` of the battle-pattern value, counted from the
/// least significant end.
pub open spec fn spec_pattern_bit(p: u8, bit: int) -> int {
    if bit == 1 {
        (p as int) % 2
    } else if bit == 2 {
        ((p as int) / 2) % 2
    } else {
        ((p as int) / 4) % 2
    }
}

/// A flag as the single bit it is stored as.
pub open spec fn bool_bit(b: bool) -> int {
    if b {
        1
    } else {
        0
    }
}

/// The 24-bit packing of the first `n` name characters, each as its 6-bit
/// table index, first character in the highest bits.
pub open spec fn spec_name_bits_n(name: Seq<char>, n: int) -> int {
    (if n >= 1 { kana_index_of(name[0]) * 0x40000 } else { 0 })
    + (if n >= 2 { kana_index_of(name[1]) * 0x1000 } else { 0 })
    + (if n >= 3 { kana_index_of(name[2]) * 0x40 } else { 0 })
    + (if n >= 4 { kana_index_of(name[3]) } else { 0 })
}

/// The 24-bit packing of a full four-character name.
pub open spec fn spec_name_bits(name: Seq<char>) -> int {
    spec_name_bits_n(name, 4)
}

/// The fifteen bytes of the password record before the checksum is filled
/// in; byte 0 is the checksum slot and reads zero here.
pub open spec fn spec_base_byte(sd: SaveData, i: int) -> int {
    if i == 0 {
        0
    } else if i == 1 {
        sd.experience as int % 256
    } else if i == 2 {
        spec_pattern_bit(sd.pattern, 3) * 128 + bool_bit(sd.has_cursed_necklace) * 64
            + kana_index_of(sd.name@[2])
    } else if i == 3 {
        (sd.items@[3] as int % 16) * 16 + sd.items@[2] as int % 16
    } else if i == 4 {
        sd.gold as int % 256
    } else if i == 5 {
        kana_index_of(sd.name@[0]) * 4 + bool_bit(sd.defeated_golem) * 2 + spec_pattern_bit(
            sd.pattern,
            2,
        )
    } else if i == 6 {
        (sd.items@[7] as int % 16) * 16 + sd.items@[6] as int % 16
    } else if i == 7 {
        spec_pattern_bit(sd.pattern, 1) * 128 + bool_bit(sd.defeated_dragon) * 64 + kana_index_of(
            sd.name@[3],
        )
    } else if i == 8 {
        (sd.weapon as int % 8) * 32 + (sd.armor as int % 8) * 4 + sd.shield as int % 4
    } else if i == 9 {
        sd.gold as int / 256
    } else if i == 10 {
        (sd.keys as int % 16) * 16 + sd.herbs as int % 16
    } else if i == 11 {
        (sd.items@[5] as int % 16) * 16 + sd.items@[4] as int % 16
    } else if i == 12 {
        sd.experience as int / 256
    } else if i == 13 {
        bool_bit(sd.has_dragon_scale) * 128 + kana_index_of(sd.name@[1]) * 2 + bool_bit(
            sd.has_warrior_ring,
        )
    } else {
        (sd.items@[1] as int % 16) * 16 + sd.items@[0] as int % 16
    }
}

impl SaveData {
    /// The checksum placeholder: eight zero bits.
    pub fn check_code(&self) -> (r: String)
        ensures
            r@ == spec_bin(0, 8),
    {
        bin_string(0, 8)
    }

    /// The name as a 24-bit value, six bits per character; fails exactly
    /// when a character is not in the table.
    pub fn encode_name_to_bits(&self) -> (r: Result<u32, String>)
        requires
            self.name@.len() <= 4,
        ensures
            match r {
                Result::Ok(v) => (forall|i: int|
                    0 <= i < self.name@.len() ==> kana_seq().contains(#[trigger] self.name@[i]))
                    && v as int == spec_name_bits_n(self.name@, self.name@.len() as int),
                Result::Err(_) => exists|i: int|
                    0 <= i < self.name@.len() && !kana_seq().contains(#[trigger] self.name@[i]),
            },
    {
        let n = self.name.as_str().unicode_len();
        let mut result: u32 = 0;
        if n >= 1 {
            match kana_index(self.name.as_str().get_char(0)) {
                Ok(i) => { result = result + (i as u32) * 0x40000; },
                Err(e) => { return Err(e); },
            }
        }
        if n >= 2 {
            match kana_index(self.name.as_str().get_char(1)) {
                Ok(i) => { result = result + (i as u32) * 0x1000; },
                Err(e) => { return Err(e); },
            }
        }
        if n >= 3 {
            match kana_index(self.name.as_str().get_char(2)) {
                Ok(i) => { result = result + (i as u32) * 0x40; },
                Err(e) => { return Err(e); },
            }
        }
        if n >= 4 {
            match kana_index(self.name.as_str().get_char(3)) {
                Ok(i) => { result = result + (i as u32); },
                Err(e) => { return Err(e); },
            }
        }
        proof {
            if self.name@.len() >= 1 {
                kana_seq().index_of_first_ensures(self.name@[0]);
            }
            if self.name@.len() >= 2 {
                kana_seq().index_of_first_ensures(self.name@[1]);
            }
            if self.name@.len() >= 3 {
                kana_seq().index_of_first_ensures(self.name@[2]);
            }
            if self.name@.len() >= 4 {
                kana_seq().index_of_first_ensures(self.name@[3]);
            }
        }
        Ok(result)
    }

    /// The name as 24 binary characters.
    pub fn name_as_binary(&self) -> (r: String)
        requires
            wf_name(self.name@),
        ensures
            r@ == spec_bin(spec_name_bits(self.name@), 24),
    {
        match self.encode_name_to_bits() {
            Ok(v) => bin_string(v, 24),
            Err(_) => {
                proof {
                    assert(false);
                }
                bin_string(0, 24)
            },
        }
    }

    /// The experience as 16 binary characters.
    pub fn ex_as_binary(&self) -> (r: String)
        ensures
            r@ == spec_bin(self.experience as int, 16),
    {
        bin_string(self.experience as u32, 16)
    }

    /// The gold as 16 binary characters.
    pub fn gold_as_binary(&self) -> (r: String)
        ensures
            r@ == spec_bin(self.gold as int, 16),
    {
        bin_string(self.gold as u32, 16)
    }

    /// The weapon as 3 binary characters.
    pub fn weapon_as_binary(&self) -> (r: String)
        ensures
            r@ == spec_bin(self.weapon as int, 3),
    {
        bin_string(self.weapon as u32, 3)
    }

    /// The armor as 3 binary characters.
    pub fn armor_as_binary(&self) -> (r: String)
        ensures
            r@ == spec_bin(self.armor as int, 3),
    {
        bin_string(self.armor as u32, 3)
    }

    /// The shield as 2 binary characters.
    pub fn shield_as_binary(&self) -> (r: String)
        ensures
            r@ == spec_bin(self.shield as int, 2),
    {
        bin_string(self.shield as u32, 2)
    }

    /// All eight item slots, four binary characters each, in slot order.
    pub fn items_as_binary(&self) -> (r: String)
        ensures
            r@ == spec_bin(self.items@[0] as int, 4) + spec_bin(self.items@[1] as int, 4)
                + spec_bin(self.items@[2] as int, 4) + spec_bin(self.items@[3] as int, 4)
                + spec_bin(self.items@[4] as int, 4) + spec_bin(self.items@[5] as int, 4)
                + spec_bin(self.items@[6] as int, 4) + spec_bin(self.items@[7] as int, 4),
    {
        let mut r = bin_string(self.items[0] as u32, 4);
        r.append(bin_string(self.items[1] as u32, 4).as_str());
        r.append(bin_string(self.items[2] as u32, 4).as_str());
        r.append(bin_string(self.items[3] as u32, 4).as_str());
        r.append(bin_string(self.items[4] as u32, 4).as_str());
        r.append(bin_string(self.items[5] as u32, 4).as_str());
        r.append(bin_string(self.items[6] as u32, 4).as_str());
        r.append(bin_string(self.items[7] as u32, 4).as_str());
        r
    }

    /// The herb count as 4 binary characters.
    pub fn herbs_as_binary(&self) -> (r: String)
        ensures
            r@ == spec_bin(self.herbs as int, 4),
    {
        bin_string(self.herbs as u32, 4)
    }

    /// The key count as 4 binary characters.
    pub fn keys_as_binary(&self) -> (r: String)
        ensures
            r@ == spec_bin(self.keys as int, 4),
    {
        bin_string(self.keys as u32, 4)
    }

    /// The five flags as five binary characters, scale first.
    pub fn flags_as_binary(&self) -> (r: String)
        ensures
            r@ == spec_bin(bool_bit(self.has_dragon_scale), 1) + spec_bin(
                bool_bit(self.has_warrior_ring),
                1,
            ) + spec_bin(bool_bit(self.has_cursed_necklace), 1) + spec_bin(
                bool_bit(self.defeated_dragon),
                1,
            ) + spec_bin(bool_bit(self.defeated_golem), 1),
    {
        let mut r = bin_string(if self.has_dragon_scale { 1 } else { 0 }, 1);
        r.append(bin_string(if self.has_warrior_ring { 1 } else { 0 }, 1).as_str());
        r.append(bin_string(if self.has_cursed_necklace { 1 } else { 0 }, 1).as_str());
        r.append(bin_string(if self.defeated_dragon { 1 } else { 0 }, 1).as_str());
        r.append(bin_string(if self.defeated_golem { 1 } else { 0 }, 1).as_str());
        r
    }

    /// The battle pattern as 3 binary characters.
    pub fn pattern_as_binary(&self) -> (r: String)
        ensures
            r@ == spec_bin(self.pattern as int, 3),
    {
        bin_string(self.pattern as u32, 3)
    }

    /// The whole record as 120 binary characters, field by field; this
    /// flat layout is not the password layout.
    #[verifier::rlimit(100)]
    #[verifier::spinoff_prover]
    pub fn full_bitstring(&self) -> (r: Result<String, String>)
        requires
            self.wf(),
        ensures
            r matches Ok(s) ==> s@ == spec_bin(0, 8) + spec_bin(spec_name_bits(self.name@), 24)
                + spec_bin(self.experience as int, 16) + spec_bin(self.gold as int, 16) + spec_bin(
                self.weapon as int,
                3,
            ) + spec_bin(self.armor as int, 3) + spec_bin(self.shield as int, 2) + spec_bin(
                self.items@[0] as int,
                4,
            ) + spec_bin(self.items@[1] as int, 4) + spec_bin(self.items@[2] as int, 4) + spec_bin(
                self.items@[3] as int,
                4,
            ) + spec_bin(self.items@[4] as int, 4) + spec_bin(self.items@[5] as int, 4) + spec_bin(
                self.items@[6] as int,
                4,
            ) + spec_bin(self.items@[7] as int, 4) + spec_bin(self.herbs as int, 4) + spec_bin(
                self.keys as int,
                4,
            ) + spec_bin(bool_bit(self.has_dragon_scale), 1) + spec_bin(
                bool_bit(self.has_warrior_ring),
                1,
            ) + spec_bin(bool_bit(self.has_cursed_necklace), 1) + spec_bin(
                bool_bit(self.defeated_dragon),
                1,
            ) + spec_bin(bool_bit(self.defeated_golem), 1) + spec_bin(self.pattern as int, 3),
            r is Ok,
    {
        let mut s = self.check_code();
        s.append(self.name_as_binary().as_str());
        s.append(self.ex_as_binary().as_str());
        s.append(self.gold_as_binary().as_str());
        s.append(self.weapon_as_binary().as_str());
        s.append(self.armor_as_binary().as_str());
        s.append(self.shield_as_binary().as_str());
        s.append(self.items_as_binary().as_str());
        s.append(self.herbs_as_binary().as_str());
        s.append(self.keys_as_binary().as_str());
        s.append(self.flags_as_binary().as_str());
        s.append(self.pattern_as_binary().as_str());
        Ok(s)
    }

    /// The low byte of the experience value.
    pub fn experience_low_byte(&self) -> (r: u8)
        ensures
            r as int == self.experience as int % 256,
    {
        (self.experience % 256) as u8
    }

    /// The high byte of the experience value.
    pub fn experience_high_byte(&self) -> (r: u8)
        ensures
            r as int == self.experience as int / 256,
    {
        (self.experience / 256) as u8
    }

    /// The low byte of the gold value.
    pub fn gold_low_byte(&self) -> (r: u8)
        ensures
            r as int == self.gold as int % 256,
    {
        (self.gold % 256) as u8
    }

    /// The high byte of the gold value.
    pub fn gold_high_byte(&self) -> (r: u8)
        ensures
            r as int == self.gold as int / 256,
    {
        (self.gold / 256) as u8
    }

    /// The table index of the name character at the one-based `position`;
    /// fails exactly when the position is out of `1..=4`, past the end of
    /// the name, or names a character outside the table.
    pub fn get_name_char_index(&self, position: usize) -> (r: Result<u8, String>)
        ensures
            match r {
                Result::Ok(i) => 1 <= position <= 4 && position <= self.name@.len() && kana_seq()
                    .contains(self.name@[position - 1]) && i as int == kana_index_of(
                    self.name@[position - 1],
                ) && i < 64,
                Result::Err(_) => position == 0 || position > 4 || position > self.name@.len()
                    || (1 <= position <= self.name@.len() && !kana_seq().contains(
                    self.name@[position - 1],
                )),
            },
    {
        if position == 0 || position > 4 {
            return Err(String::from_str("position must be 1 to 4"));
        }
        match nth_char(self.name.as_str(), position) {
            Ok(c) => {
                proof {
                    kana_seq().index_of_first_ensures(self.name@[position - 1]);
                }
                kana_index(c)
            },
            Err(e) => Err(e),
        }
    }

    /// The same index as six binary characters.
    pub fn get_name_char_binary(&self, position: usize) -> (r: String)
        requires
            self.wf(),
            1 <= position <= 4,
        ensures
            r@ == spec_bin(kana_index_of(self.name@[position - 1]), 6),
    {
        match self.get_name_char_index(position) {
            Ok(i) => bin_string(i as u32, 6),
            Err(_) => {
                proof {
                    assert(false);
                }
                bin_string(0, 6)
            },
        }
    }

    /// One bit of the battle pattern, positions `1` to `3` from the least
    /// significant end; fails exactly on any other position.
    pub fn pattern_bit_index(&self, bit: u8) -> (r: Result<u8, String>)
        ensures
            match r {
                Result::Ok(b) => 1 <= bit <= 3 && b as int == spec_pattern_bit(self.pattern, bit as int),
                Result::Err(_) => bit == 0 || bit > 3,
            },
    {
        match bit {
            1 => Ok(self.pattern % 2),
            2 => Ok((self.pattern / 2) % 2),
            3 => Ok((self.pattern / 4) % 2),
            _ => Err(String::from_str("無効なbit位置です。1〜3を指定してください")),
        }
    }

    fn get_item_value(&self, position: usize) -> (r: Result<u8, String>)
        ensures
            match r {
                Result::Ok(v) => 1 <= position <= 8 && v as int == self.items@[position - 1] as int
                    % 16,
                Result::Err(_) => position == 0 || position > 8,
            },
    {
        if position == 0 || position > 8 {
            return Err(String::from_str("無効なアイテム位置です"));
        }
        Ok(self.items[position - 1] % 16)
    }

    /// One item slot, one-based, as four binary characters; fails exactly
    /// when the position is out of `1..=8`.
    pub fn item_index_binary(&self, position: usize) -> (r: Result<String, String>)
        ensures
            match r {
                Result::Ok(s) => 1 <= position <= 8 && s@ == spec_bin(
                    self.items@[position - 1] as int,
                    4,
                ),
                Result::Err(_) => position == 0 || position > 8,
            },
    {
        match self.get_item_value(position) {
            Ok(v) => {
                proof {
                    crate::digits::lemma_bin_mod16(self.items@[position - 1] as int);
                }
                Ok(bin_string(v as u32, 4))
            },
            Err(e) => Err(e),
        }
    }

    /// Two item slots joined into eight binary characters, the first slot
    /// in the high four bits; fails exactly when either position is out of
    /// `1..=8`.
    pub fn sum_item_index_binary(&self, pos1: usize, pos2: usize) -> (r: Result<String, String>)
        ensures
            match r {
                Result::Ok(s) => 1 <= pos1 <= 8 && 1 <= pos2 <= 8 && s@ == spec_bin(
                    (self.items@[pos1 - 1] as int % 16) * 16 + self.items@[pos2 - 1] as int % 16,
                    8,
                ),
                Result::Err(_) => pos1 == 0 || pos1 > 8 || pos2 == 0 || pos2 > 8,
            },
    {
        let high = match self.get_item_value(pos1) {
            Ok(v) => v,
            Err(e) => { return Err(e); },
        };
        let low = match self.get_item_value(pos2) {
            Ok(v) => v,
            Err(e) => { return Err(e); },
        };
        Ok(bin_string((high as u32) * 16 + (low as u32), 8))
    }

    /// Pattern bit 3, the cursed-necklace flag, and the third name
    /// character packed into one byte.
    #[verifier::spinoff_prover]
    #[verifier::rlimit(50)]
    pub fn cursed_check_code(&self) -> (r: Result<u8, String>)
        ensures
            match r {
                Result::Ok(v) => self.name@.len() >= 3 && kana_seq().contains(self.name@[2])
                    && v as int == spec_base_byte(*self, 2),
                Result::Err(_) => self.name@.len() < 3 || !kana_seq().contains(self.name@[2]),
            },
    {
        let pattern_bit = match self.pattern_bit_index(3) {
            Ok(b) => b,
            Err(e) => { return Err(e); },
        };
        let cursed_bit: u8 = if self.has_cursed_necklace { 1 } else { 0 };
        let c = match nth_char(self.name.as_str(), 3) {
            Ok(c) => c,
            Err(e) => { return Err(e); },
        };
        let idx = match kana_index(c) {
            Ok(i) => i,
            Err(e) => { return Err(e); },
        };
        proof {
            kana_seq().index_of_first_ensures(self.name@[2]);
        }
        let arr = [(pattern_bit, 1u8), (cursed_bit, 1u8), (idx, 6u8)];
        match combine_bits(arr.as_slice()) {
            Ok(v) => {
                proof {
                    assert(arr@.len() == 3);
                    assert(arr@[0] == (pattern_bit, 1u8));
                    assert(arr@[1] == (cursed_bit, 1u8));
                    assert(arr@[2] == (idx, 6u8));
                    lemma_combined3(arr@);
                    reveal_with_fuel(crate::digits::pow2_int, 8);
                    assert(crate::digits::pow2_int(1) == 2);
                    assert(crate::digits::pow2_int(6) == 64);
                    assert(idx < 64);
                    assert(idx as int == kana_index_of(self.name@[2]));
                    assert(pattern_bit as int == spec_pattern_bit(self.pattern, 3));
                    assert(pattern_bit <= 1);
                    assert(cursed_bit <= 1);
                    assert(v as int == spec_combined(arr@));
                    assert(spec_combined(arr@) == (((pattern_bit as int) % 2) * 2 + (
                    cursed_bit as int) % 2) * 64 + (idx as int) % 64);
                }
                Ok(v)
            },
            Err(_) => {
                proof {
                    lemma_width3(arr@);
                }
                Err(String::from_str("ビット合成に失敗しました"))
            },
        }
    }

    /// The first name character, the golem flag, and pattern bit 2 packed
    /// into one byte.
    #[verifier::spinoff_prover]
    #[verifier::rlimit(50)]
    pub fn golem_check_code(&self) -> (r: Result<u8, String>)
        ensures
            match r {
                Result::Ok(v) => self.name@.len() >= 1 && kana_seq().contains(self.name@[0])
                    && v as int == spec_base_byte(*self, 5),
                Result::Err(_) => self.name@.len() < 1 || !kana_seq().contains(self.name@[0]),
            },
    {
        let c = match nth_char(self.name.as_str(), 1) {
            Ok(c) => c,
            Err(e) => { return Err(e); },
        };
        let idx = match kana_index(c) {
            Ok(i) => i,
            Err(e) => { return Err(e); },
        };
        let golem_bit: u8 = if self.defeated_golem { 1 } else { 0 };
        let pattern_bit = match self.pattern_bit_index(2) {
            Ok(b) => b,
            Err(e) => { return Err(e); },
        };
        proof {
            kana_seq().index_of_first_ensures(self.name@[0]);
        }
        let arr = [(idx, 6u8), (golem_bit, 1u8), (pattern_bit, 1u8)];
        match combine_bits(arr.as_slice()) {
            Ok(v) => {
                proof {
                    assert(arr@.len() == 3);
                    assert(arr@[0] == (idx, 6u8));
                    assert(arr@[1] == (golem_bit, 1u8));
                    assert(arr@[2] == (pattern_bit, 1u8));
                    lemma_combined3(arr@);
                    reveal_with_fuel(crate::digits::pow2_int, 8);
                    assert(crate::digits::pow2_int(1) == 2);
                    assert(crate::digits::pow2_int(6) == 64);
                    assert(idx < 64);
                    assert(idx as int == kana_index_of(self.name@[0]));
                    assert(pattern_bit as int == spec_pattern_bit(self.pattern, 2));
                    assert(v as int == spec_combined(arr@));
                    assert(spec_combined(arr@) == (((idx as int) % 64) * 2 + (golem_bit as int)
                        % 2) * 2 + (pattern_bit as int) % 2);
                }
                Ok(v)
            },
            Err(_) => {
                proof {
                    lemma_width3(arr@);
                }
                Err(String::from_str("ビット合成に失敗しました"))
            },
        }
    }

    /// Pattern bit 1, the dragon flag, and the fourth name character
    /// packed into one byte.
    #[verifier::spinoff_prover]
    #[verifier::rlimit(50)]
    pub fn dragon_check_code(&self) -> (r: Result<u8, String>)
        ensures
            match r {
                Result::Ok(v) => self.name@.len() >= 4 && kana_seq().contains(self.name@[3])
                    && v as int == spec_base_byte(*self, 7),
                Result::Err(_) => self.name@.len() < 4 || !kana_seq().contains(self.name@[3]),
            },
    {
        let pattern_bit = match self.pattern_bit_index(1) {
            Ok(b) => b,
            Err(e) => { return Err(e); },
        };
        let dragon_bit: u8 = if self.defeated_dragon { 1 } else { 0 };
        let c = match nth_char(self.name.as_str(), 4) {
            Ok(c) => c,
            Err(e) => { return Err(e); },
        };
        let idx = match kana_index(c) {
            Ok(i) => i,
            Err(e) => { return Err(e); },
        };
        proof {
            kana_seq().index_of_first_ensures(self.name@[3]);
        }
        let arr = [(pattern_bit, 1u8), (dragon_bit, 1u8), (idx, 6u8)];
        match combine_bits(arr.as_slice()) {
            Ok(v) => {
                proof {
                    assert(arr@.len() == 3);
                    assert(arr@[0] == (pattern_bit, 1u8));
                    assert(arr@[1] == (dragon_bit, 1u8));
                    assert(arr@[2] == (idx, 6u8));
                    lemma_combined3(arr@);
                    reveal_with_fuel(crate::digits::pow2_int, 8);
                    assert(crate::digits::pow2_int(1) == 2);
                    assert(crate::digits::pow2_int(6) == 64);
                    assert(idx < 64);
                    assert(idx as int == kana_index_of(self.name@[3]));
                    assert(v as int == spec_combined(arr@));
                    assert(spec_combined(arr@) == (((pattern_bit as int) % 2) * 2 + (
                    dragon_bit as int) % 2) * 64 + (idx as int) % 64);
                }
                Ok(v)
            },
            Err(_) => {
                proof {
                    lemma_width3(arr@);
                }
                Err(String::from_str("ビット合成に失敗しました"))
            },
        }
    }

    /// The scale flag, the second name character, and the ring flag packed
    /// into one byte.
    #[verifier::spinoff_prover]
    #[verifier::rlimit(50)]
    pub fn dragon_scale_check_code(&self) -> (r: Result<u8, String>)
        ensures
            match r {
                Result::Ok(v) => self.name@.len() >= 2 && kana_seq().contains(self.name@[1])
                    && v as int == spec_base_byte(*self, 13),
                Result::Err(_) => self.name@.len() < 2 || !kana_seq().contains(self.name@[1]),
            },
    {
        let dragon_scale_bit: u8 = if self.has_dragon_scale { 1 } else { 0 };
        let c = match nth_char(self.name.as_str(), 2) {
            Ok(c) => c,
            Err(e) => { return Err(e); },
        };
        let idx = match kana_index(c) {
            Ok(i) => i,
            Err(e) => { return Err(e); },
        };
        let warrior_ring_bit: u8 = if self.has_warrior_ring { 1 } else { 0 };
        proof {
            kana_seq().index_of_first_ensures(self.name@[1]);
        }
        let arr = [(dragon_scale_bit, 1u8), (idx, 6u8), (warrior_ring_bit, 1u8)];
        match combine_bits(arr.as_slice()) {
            Ok(v) => {
                proof {
                    assert(arr@.len() == 3);
                    assert(arr@[0] == (dragon_scale_bit, 1u8));
                    assert(arr@[1] == (idx, 6u8));
                    assert(arr@[2] == (warrior_ring_bit, 1u8));
                    lemma_combined3(arr@);
                    reveal_with_fuel(crate::digits::pow2_int, 8);
                    assert(crate::digits::pow2_int(1) == 2);
                    assert(crate::digits::pow2_int(6) == 64);
                    assert(idx < 64);
                    assert(kana_seq()[idx as int] == self.name@[1]);
                    assert(kana_seq().contains(self.name@[1]));
                    assert(idx as int == kana_index_of(self.name@[1]));
                    assert(v as int == spec_combined(arr@));
                    assert(spec_combined(arr@) == (((dragon_scale_bit as int) % 2) * 64 + (
                    idx as int) % 64) * 2 + (warrior_ring_bit as int) % 2);
                    assert((dragon_scale_bit as int) % 2 == dragon_scale_bit as int);
                    assert((idx as int) % 64 == idx as int);
                    assert((warrior_ring_bit as int) % 2 == warrior_ring_bit as int);
                    assert(((dragon_scale_bit as int) * 64 + (idx as int)) * 2 == (
                    dragon_scale_bit as int) * 128 + (idx as int) * 2) by (nonlinear_arith);
                    assert(v as int == (dragon_scale_bit as int) * 128 + (idx as int) * 2 + (
                    warrior_ring_bit as int));
                    assert(dragon_scale_bit as int == bool_bit(self.has_dragon_scale));
                    assert(warrior_ring_bit as int == bool_bit(self.has_warrior_ring));
                    assert(spec_base_byte(*self, 13) == bool_bit(self.has_dragon_scale) * 128
                        + kana_index_of(self.name@[1]) * 2 + bool_bit(self.has_warrior_ring));
                }
                Ok(v)
            },
            Err(_) => {
                proof {
                    lemma_width3(arr@);
                }
                Err(String::from_str("ビット合成に失敗しました"))
            },
        }
    }
}

/// Unfolds the packed value of exactly three fields.
proof fn lemma_combined3(s: Seq<(u8, u8)>)
    requires
        s.len() == 3,
    ensures
        spec_combined(s) == (((s[0].0 as int) % crate::digits::pow2_int(s[0].1 as nat)) * crate::digits::pow2_int(
            s[1].1 as nat,
        ) + (s[1].0 as int) % crate::digits::pow2_int(s[1].1 as nat)) * crate::digits::pow2_int(
            s[2].1 as nat,
        ) + (s[2].0 as int) % crate::digits::pow2_int(s[2].1 as nat),
{
    let s01 = s.drop_last();
    assert(s01.len() == 2 && s01.last() == s[1] && s01[0] == s[0]);
    let s0 = s01.drop_last();
    assert(s0.len() == 1 && s0.last() == s[0]);
    assert(s0.drop_last() =~= Seq::<(u8, u8)>::empty());
    assert(spec_combined(s0.drop_last()) == 0);
    assert(spec_combined(s0) == (s[0].0 as int) % crate::digits::pow2_int(s[0].1 as nat));
    assert(spec_combined(s01) == spec_combined(s0) * crate::digits::pow2_int(s[1].1 as nat) + (
    s[1].0 as int) % crate::digits::pow2_int(s[1].1 as nat));
    assert(spec_combined(s) == spec_combined(s01) * crate::digits::pow2_int(s[2].1 as nat) + (
    s[2].0 as int) % crate::digits::pow2_int(s[2].1 as nat));
}

/// Unfolds the total width of exactly three fields.
proof fn lemma_width3(s: Seq<(u8, u8)>)
    requires
        s.len() == 3,
    ensures
        spec_total_width(s) == s[0].1 + s[1].1 + s[2].1,
{
    let s01 = s.drop_last();
    assert(s01.len() == 2 && s01.last() == s[1] && s01[0] == s[0]);
    let s0 = s01.drop_last();
    assert(s0.len() == 1 && s0.last() == s[0]);
    assert(s0.drop_last() =~= Seq::<(u8, u8)>::empty());
    assert(spec_total_width(s0.drop_last()) == 0);
    assert(spec_total_width(s0) == s[0].1);
    assert(spec_total_width(s01) == s[0].1 + s[1].1);
}

} // verus!

verus! {

use crate::digits::{
    lemma_bin_roundtrip, lemma_bin_val_some, lemma_spec_bin_chars, lemma_spec_bin_len,
    parse_bin_u8, pow2_int, push_char, spec_bin_val,
};
use crate::save_data::SaveData as SD;
use crate::text::password_seq;
use crate::text::password_table;

/// One CRC step: `k` rounds of the shift-and-divide update over one input
/// byte, polynomial `0x1021`.
pub open spec fn spec_crc_shift(crc: u16, octet: u8, k: nat) -> u16
    decreases k,
{
    if k == 0 {
        crc
    } else {
        let carry = ((((crc >> 8) as u8) ^ octet) & 0x80) != 0;
        let crc2 = crc << 1;
        let crc3 = if carry {
            crc2 ^ 0x1021
        } else {
            crc2
        };
        spec_crc_shift(crc3, octet << 1, (k - 1) as nat)
    }
}

/// The checksum state after feeding record bytes `1` to `i - 1`.
pub open spec fn spec_crc_bytes(sd: SaveData, i: int) -> u16
    decreases i,
{
    if i <= 1 {
        0
    } else {
        spec_crc_shift(spec_crc_bytes(sd, i - 1), (spec_base_byte(sd, i - 1) % 256) as u8, 8)
    }
}

/// The checksum state after feeding the parsed values of strings `1` to
/// `i - 1`.
pub open spec fn spec_crc_of_strs(strs: Seq<String>, i: int) -> u16
    decreases i,
{
    if i <= 1 {
        0
    } else {
        spec_crc_shift(
            spec_crc_of_strs(strs, i - 1),
            ((spec_bin_val(strs[i - 1]@)->Some_0) % 256) as u8,
            8,
        )
    }
}

/// The low checksum byte of a record, the value written into byte 0.
pub open spec fn spec_record_crc(sd: SaveData) -> int {
    (spec_crc_bytes(sd, 15) & 0xff) as int
}

/// The fifteen bytes of the finished record, checksum filled in.
pub open spec fn spec_final_byte(sd: SaveData, i: int) -> int {
    if i == 0 {
        spec_record_crc(sd)
    } else {
        spec_base_byte(sd, i)
    }
}

/// The first `i` finished bytes written next to each other in binary.
pub open spec fn spec_password_bits_prefix(sd: SaveData, i: int) -> Seq<char>
    decreases i,
{
    if i <= 0 {
        Seq::empty()
    } else {
        spec_password_bits_prefix(sd, i - 1) + spec_bin(spec_final_byte(sd, i - 1), 8)
    }
}

/// The whole record as the 120 binary characters the password is built
/// from.
pub open spec fn spec_password_bitstring(sd: SaveData) -> Seq<char> {
    spec_password_bits_prefix(sd, 15)
}

/// The `j`-th of the twenty 6-character groups the 120 characters are
/// rearranged into.
pub open spec fn spec_piece(s: Seq<char>, j: int) -> Seq<char> {
    let b = 24 * (j / 4);
    let k = j % 4;
    if k == 0 {
        s.subrange(b + 2, b + 8)
    } else if k == 1 {
        s.subrange(b + 12, b + 16) + s.subrange(b, b + 2)
    } else if k == 2 {
        s.subrange(b + 22, b + 24) + s.subrange(b + 8, b + 12)
    } else {
        s.subrange(b + 16, b + 22)
    }
}

/// The value of the `j`-th 6-character group.
pub open spec fn spec_six_val(s: Seq<char>, j: int) -> int {
    spec_bin_val(spec_piece(s, j))->Some_0
}

/// The rolling-offset value of position `j`: each group value plus four
/// plus the previous output, modulo 64.
pub open spec fn spec_offset_val(s: Seq<char>, j: int) -> int
    decreases j,
{
    if j <= 0 {
        (spec_six_val(s, 0) + 4) % 64
    } else {
        (spec_six_val(s, j) + 4 + spec_offset_val(s, j - 1)) % 64
    }
}

/// The `j`-th character of the finished password.
pub open spec fn spec_password_char(sd: SaveData, j: int) -> char {
    password_seq()[spec_offset_val(spec_password_bitstring(sd), j)]
}

/// Every base byte of a well-formed record fits in one byte.
pub proof fn lemma_base_byte_bounds(sd: SaveData)
    requires
        sd.wf(),
    ensures
        forall|i: int| 0 <= i < 15 ==> 0 <= #[trigger] spec_base_byte(sd, i) < 256,
{
    kana_seq().index_of_first_ensures(sd.name@[0]);
    kana_seq().index_of_first_ensures(sd.name@[1]);
    kana_seq().index_of_first_ensures(sd.name@[2]);
    kana_seq().index_of_first_ensures(sd.name@[3]);
}

/// The checksum of the fifteen 8-character strings, as eight binary
/// characters; fails exactly when the count is off or a string is not a
/// non-empty byte in binary.
pub fn calculate_crc_from_bits(bits: &[String]) -> (r: Result<String, String>)
    ensures
        match r {
            Result::Ok(s) => bits@.len() == 15 && (forall|i: int|
                1 <= i < 15 ==> 1 <= #[trigger] bits@[i]@.len() <= 8 && spec_bin_val(bits@[i]@) is Some)
                && s@ == spec_bin((spec_crc_of_strs(bits@, 15) & 0xff) as int, 8),
            Result::Err(_) => bits@.len() != 15 || exists|i: int|
                1 <= i < 15 && (#[trigger] bits@[i]@.len() == 0 || bits@[i]@.len() > 8
                || spec_bin_val(bits@[i]@) is None),
        },
{
    if bits.len() != 15 {
        return Err(String::from_str("ビット列は15個必要です"));
    }
    let mut crc: u16 = 0;
    let mut i: usize = 1;
    while i < 15
        invariant
            1 <= i <= 15,
            bits@.len() == 15,
            crc == spec_crc_of_strs(bits@, i as int),
            forall|j: int|
                1 <= j < i ==> 1 <= #[trigger] bits@[j]@.len() <= 8 && spec_bin_val(bits@[j]@) is Some,
        decreases 15 - i,
    {
        let octet0 = match parse_bin_u8(bits[i].as_str()) {
            Some(v) => v,
            None => {
                return Err(String::from_str("無効な2進数です"));
            },
        };
        let ghost crc_enter = crc;
        let mut octet = octet0;
        let mut k: usize = 0;
        while k < 8
            invariant
                k <= 8,
                spec_crc_shift(crc, octet, (8 - k) as nat) == spec_crc_shift(crc_enter, octet0, 8),
            decreases 8 - k,
        {
            let carry = (((crc >> 8) as u8) ^ octet) & 0x80 != 0;
            crc = crc << 1;
            octet = octet << 1;
            if carry {
                crc = crc ^ 0x1021;
            }
            k = k + 1;
        }
        proof {
            assert(crc == spec_crc_shift(crc_enter, octet0, 8));
            assert((octet0 as int) % 256 == octet0 as int);
            assert(crc == spec_crc_of_strs(bits@, i + 1));
        }
        i = i + 1;
    }
    Ok(bin_string((crc & 0xff) as u32, 8))
}

/// Folding the checksum over the strings equals folding it over the bytes
/// they denote.
proof fn lemma_crc_strs_eq_bytes(sd: SaveData, strs: Seq<String>, i: int)
    requires
        1 <= i <= 15,
        strs.len() == 15,
        forall|j: int| 1 <= j < 15 ==> #[trigger] strs[j]@ == spec_bin(spec_base_byte(sd, j), 8),
        forall|j: int| 0 <= j < 15 ==> 0 <= #[trigger] spec_base_byte(sd, j) < 256,
    ensures
        spec_crc_of_strs(strs, i) == spec_crc_bytes(sd, i),
    decreases i,
{
    if i > 1 {
        lemma_crc_strs_eq_bytes(sd, strs, i - 1);
        lemma_bin_roundtrip(spec_base_byte(sd, i - 1), 8);
        assert(pow2_int(8) == 256) by {
            reveal_with_fuel(pow2_int, 9);
        }
    }
}

impl SaveData {
    /// The fifteen 8-character groups of the record, in password order,
    /// with the checksum slot still zero.
    pub fn build_password_base(&self) -> (r: Result<Vec<String>, String>)
        requires
            self.wf(),
        ensures
            r is Ok,
            r matches Ok(v) ==> v@.len() == 15 && (forall|i: int|
                0 <= i < 15 ==> #[trigger] v@[i]@ == spec_bin(spec_base_byte(*self, i), 8)),
    {
        let mut v: Vec<String> = Vec::new();
        v.push(self.check_code());
        v.push(bin_string(self.experience_low_byte() as u32, 8));
        match self.cursed_check_code() {
            Ok(b) => { v.push(bin_string(b as u32, 8)); },
            Err(_) => {
                proof {
                    assert(false);
                }
            },
        }
        match self.sum_item_index_binary(4, 3) {
            Ok(s) => { v.push(s); },
            Err(_) => {
                proof {
                    assert(false);
                }
            },
        }
        v.push(bin_string(self.gold_low_byte() as u32, 8));
        match self.golem_check_code() {
            Ok(b) => { v.push(bin_string(b as u32, 8)); },
            Err(_) => {
                proof {
                    assert(false);
                }
            },
        }
        match self.sum_item_index_binary(8, 7) {
            Ok(s) => { v.push(s); },
            Err(_) => {
                proof {
                    assert(false);
                }
            },
        }
        match self.dragon_check_code() {
            Ok(b) => { v.push(bin_string(b as u32, 8)); },
            Err(_) => {
                proof {
                    assert(false);
                }
            },
        }
        v.push(bin_string(((self.weapon % 8) as u32) * 32 + ((self.armor % 8) as u32) * 4 + (
        (self.shield % 4) as u32), 8));
        v.push(bin_string(self.gold_high_byte() as u32, 8));
        v.push(bin_string(((self.keys % 16) as u32) * 16 + ((self.herbs % 16) as u32), 8));
        match self.sum_item_index_binary(6, 5) {
            Ok(s) => { v.push(s); },
            Err(_) => {
                proof {
                    assert(false);
                }
            },
        }
        v.push(bin_string(self.experience_high_byte() as u32, 8));
        match self.dragon_scale_check_code() {
            Ok(b) => { v.push(bin_string(b as u32, 8)); },
            Err(_) => {
                proof {
                    assert(false);
                }
            },
        }
        match self.sum_item_index_binary(2, 1) {
            Ok(s) => { v.push(s); },
            Err(_) => {
                proof {
                    assert(false);
                }
            },
        }
        Ok(v)
    }

    /// The same fifteen groups with the checksum written into the first.
    pub fn build_password_bits(&self) -> (r: Result<Vec<String>, String>)
        requires
            self.wf(),
        ensures
            r is Ok,
            r matches Ok(v) ==> v@.len() == 15 && (forall|i: int|
                0 <= i < 15 ==> #[trigger] v@[i]@ == spec_bin(spec_final_byte(*self, i), 8)),
    {
        let base = match self.build_password_base() {
            Ok(v) => v,
            Err(e) => { return Err(e); },
        };
        proof {
            lemma_base_byte_bounds(*self);
            assert forall|i: int| 1 <= i < 15 implies #[trigger] base@[i]@.len() == 8 by {
                lemma_spec_bin_len(spec_base_byte(*self, i), 8);
            }
        }
        let checksum = match calculate_crc_from_bits(base.as_slice()) {
            Ok(s) => s,
            Err(_) => {
                proof {
                    assert forall|i: int|
                        1 <= i < 15 implies !(#[trigger] base@[i]@.len() == 0 || base@[i]@.len() > 8
                        || spec_bin_val(base@[i]@) is None) by {
                        lemma_spec_bin_len(spec_base_byte(*self, i), 8);
                        lemma_bin_roundtrip(spec_base_byte(*self, i), 8);
                    }
                    assert(false);
                }
                return Err(String::from_str("チェックサムを計算できません"));
            },
        };
        proof {
            lemma_crc_strs_eq_bytes(*self, base@, 15);
        }
        let mut v: Vec<String> = Vec::new();
        v.push(checksum);
        let mut i: usize = 1;
        while i < 15
            invariant
                1 <= i <= 15,
                base@.len() == 15,
                v@.len() == i,
                forall|j: int| 0 <= j < 15 ==> #[trigger] base@[j]@ == spec_bin(
                    spec_base_byte(*self, j),
                    8,
                ),
                v@[0]@ == spec_bin(spec_record_crc(*self), 8),
                forall|j: int| 1 <= j < i ==> #[trigger] v@[j]@ == spec_bin(
                    spec_base_byte(*self, j),
                    8,
                ),
            decreases 15 - i,
        {
            v.push(base[i].clone());
            i = i + 1;
        }
        Ok(v)
    }

    /// All 120 binary characters of the finished record in one string.
    pub fn build_password_bitstring(&self) -> (r: Result<String, String>)
        requires
            self.wf(),
        ensures
            r is Ok,
            r matches Ok(s) ==> s@ == spec_password_bitstring(*self),
    {
        let bits = match self.build_password_bits() {
            Ok(v) => v,
            Err(e) => { return Err(e); },
        };
        let mut s = String::new();
        let mut i: usize = 0;
        while i < 15
            invariant
                i <= 15,
                bits@.len() == 15,
                forall|j: int| 0 <= j < 15 ==> #[trigger] bits@[j]@ == spec_bin(
                    spec_final_byte(*self, j),
                    8,
                ),
                s@ == spec_password_bits_prefix(*self, i as int),
            decreases 15 - i,
        {
            s.append(bits[i].as_str());
            i = i + 1;
        }
        Ok(s)
    }

    /// The whole password: twenty characters of the password alphabet,
    /// pinned character by character by the record.
    pub fn to_password_string(&self) -> (r: Result<String, String>)
        requires
            self.wf(),
        ensures
            r is Ok,
            r matches Ok(p) ==> p@.len() == 20 && (forall|j: int|
                0 <= j < 20 ==> #[trigger] p@[j] == spec_password_char(*self, j)),
    {
        let bitstring = match self.build_password_bitstring() {
            Ok(s) => s,
            Err(e) => { return Err(e); },
        };
        proof {
            lemma_password_bits_len(*self, 15);
            lemma_password_bits_chars(*self, 15);
        }
        let reordered = match reorder_password_bits(bitstring.as_str()) {
            Ok(v) => v,
            Err(_) => {
                proof {
                    assert(false);
                }
                return Err(String::from_str("並べ替えに失敗しました"));
            },
        };
        let ghost s120 = spec_password_bitstring(*self);
        proof {
            assert forall|j: int| 0 <= j < 20 implies 1 <= #[trigger] reordered@[j]@.len() <= 8
                && spec_bin_val(reordered@[j]@) is Some by {
                lemma_piece_fine(s120, j);
            }
        }
        let offsets = match apply_password_offsets(reordered.as_slice()) {
            Ok(v) => v,
            Err(_) => {
                proof {
                    assert(false);
                }
                return Err(String::from_str("オフセット計算に失敗しました"));
            },
        };
        proof {
            assert forall|j: int| 0 <= j < 20 implies #[trigger] offsets@[j] as int
                == spec_offset_val(s120, j) by {
                lemma_offsets_match(offsets@, s120, j);
            }
        }
        match indices_to_password_kana(offsets.as_slice()) {
            Ok(p) => Ok(p),
            Err(_) => {
                proof {
                    assert(false);
                }
                Err(String::from_str("パスワード文字への変換に失敗しました"))
            },
        }
    }
}

/// The first `i` finished byte groups cover exactly `8 i` characters.
proof fn lemma_password_bits_len(sd: SaveData, i: int)
    requires
        0 <= i <= 15,
    ensures
        spec_password_bits_prefix(sd, i).len() == 8 * i,
    decreases i,
{
    if i > 0 {
        lemma_password_bits_len(sd, i - 1);
        lemma_spec_bin_len(spec_final_byte(sd, i - 1), 8);
    }
}

/// The finished bit string is made of `0` and `1` characters only.
proof fn lemma_password_bits_chars(sd: SaveData, i: int)
    requires
        0 <= i <= 15,
    ensures
        forall|k: int|
            0 <= k < spec_password_bits_prefix(sd, i).len() ==> (
            #[trigger] spec_password_bits_prefix(sd, i)[k] == '0' || spec_password_bits_prefix(
                sd,
                i,
            )[k] == '1'),
    decreases i,
{
    if i > 0 {
        lemma_password_bits_chars(sd, i - 1);
        lemma_spec_bin_chars(spec_final_byte(sd, i - 1), 8);
        let prev = spec_password_bits_prefix(sd, i - 1);
        let part = spec_bin(spec_final_byte(sd, i - 1), 8);
        let whole = spec_password_bits_prefix(sd, i);
        assert(whole == prev + part);
        assert forall|k: int| 0 <= k < whole.len() implies (#[trigger] whole[k] == '0' || whole[k]
            == '1') by {
            if k < prev.len() {
                assert(whole[k] == prev[k]);
            } else {
                assert(whole[k] == part[k - prev.len()]);
            }
        }
    }
}

/// Each 6-character group of a 120-character bit string is short and reads
/// as a value.
proof fn lemma_piece_fine(s: Seq<char>, j: int)
    requires
        s.len() == 120,
        0 <= j < 20,
        forall|k: int| 0 <= k < s.len() ==> (#[trigger] s[k] == '0' || s[k] == '1'),
    ensures
        spec_piece(s, j).len() == 6,
        spec_bin_val(spec_piece(s, j)) is Some,
{
    let p = spec_piece(s, j);
    assert(0 <= j / 4 < 5);
    assert(p.len() == 6);
    assert(forall|k: int| 0 <= k < p.len() ==> (#[trigger] p[k] == '0' || p[k] == '1'));
    lemma_bin_val_some(p);
}

/// A value list obeying the rolling recurrence agrees with the offset
/// spec at every position.
proof fn lemma_offsets_match(r: Seq<u8>, s: Seq<char>, j: int)
    requires
        r.len() == 20,
        0 <= j < 20,
        r[0] as int == (spec_six_val(s, 0) + 4) % 64,
        forall|i: int|
            1 <= i < 20 ==> #[trigger] r[i] as int == (spec_six_val(s, i) + 4 + r[i - 1]) % 64,
    ensures
        r[j] as int == spec_offset_val(s, j),
    decreases j,
{
    if j > 0 {
        lemma_offsets_match(r, s, j - 1);
    }
}

/// Rearranges 120 binary characters into the twenty 6-character groups of
/// the password layout; fails exactly when the length is off.
pub fn reorder_password_bits(bitstring: &str) -> (r: Result<Vec<String>, String>)
    ensures
        match r {
            Result::Ok(v) => bitstring@.len() == 120 && v@.len() == 20 && (forall|j: int|
                0 <= j < 20 ==> #[trigger] v@[j]@ == spec_piece(bitstring@, j)),
            Result::Err(_) => bitstring@.len() != 120,
        },
{
    let n = bitstring.unicode_len();
    if n != 120 {
        return Err(String::from_str("ビット列は120bit必要です"));
    }
    let mut v: Vec<String> = Vec::new();
    let mut b: usize = 0;
    while b < 5
        invariant
            b <= 5,
            bitstring@.len() == 120,
            v@.len() == 4 * b,
            forall|j: int| 0 <= j < 4 * b ==> #[trigger] v@[j]@ == spec_piece(bitstring@, j),
        decreases 5 - b,
    {
        let base = 24 * b;
        let p0 = String::from_str(bitstring.substring_char(base + 2, base + 8));
        let mut p1 = String::from_str(bitstring.substring_char(base + 12, base + 16));
        p1.append(bitstring.substring_char(base, base + 2));
        let mut p2 = String::from_str(bitstring.substring_char(base + 22, base + 24));
        p2.append(bitstring.substring_char(base + 8, base + 12));
        let p3 = String::from_str(bitstring.substring_char(base + 16, base + 22));
        proof {
            assert((4 * b as int) / 4 == b as int && (4 * b as int) % 4 == 0);
            assert((4 * b + 1 as int) / 4 == b as int && (4 * b + 1 as int) % 4 == 1);
            assert((4 * b + 2 as int) / 4 == b as int && (4 * b + 2 as int) % 4 == 2);
            assert((4 * b + 3 as int) / 4 == b as int && (4 * b + 3 as int) % 4 == 3);
            assert(p0@ == spec_piece(bitstring@, 4 * b as int));
            assert(p1@ == spec_piece(bitstring@, 4 * b + 1));
            assert(p2@ == spec_piece(bitstring@, 4 * b + 2));
            assert(p3@ == spec_piece(bitstring@, 4 * b + 3));
        }
        v.push(p0);
        v.push(p1);
        v.push(p2);
        v.push(p3);
        b = b + 1;
    }
    Ok(v)
}

/// Applies the rolling offset: each group value plus four plus the
/// previous output, modulo 64. Fails exactly when the count is off or a
/// group is not a non-empty byte in binary.
pub fn apply_password_offsets(base: &[String]) -> (r: Result<Vec<u8>, String>)
    ensures
        match r {
            Result::Ok(v) => base@.len() == 20 && (forall|i: int|
                0 <= i < 20 ==> 1 <= #[trigger] base@[i]@.len() <= 8 && spec_bin_val(base@[i]@) is Some)
                && v@.len() == 20 && v@[0] as int == (spec_bin_val(base@[0]@)->Some_0 + 4) % 64 && (
            forall|i: int|
                1 <= i < 20 ==> #[trigger] v@[i] as int == (spec_bin_val(base@[i]@)->Some_0 + 4
                    + v@[i - 1]) % 64),
            Result::Err(_) => base@.len() != 20 || exists|i: int|
                0 <= i < 20 && (#[trigger] base@[i]@.len() == 0 || base@[i]@.len() > 8
                || spec_bin_val(base@[i]@) is None),
        },
{
    if base.len() != 20 {
        return Err(String::from_str("6bit文字列は20個必要です"));
    }
    let mut v: Vec<u8> = Vec::new();
    let mut prev: u8 = 0;
    let mut i: usize = 0;
    while i < 20
        invariant
            i <= 20,
            base@.len() == 20,
            v@.len() == i,
            prev < 64 || i == 0,
            prev == if i == 0 { 0u8 } else { v@[i - 1] },
            forall|j: int|
                0 <= j < i ==> 1 <= #[trigger] base@[j]@.len() <= 8 && spec_bin_val(base@[j]@) is Some,
            i > 0 ==> v@[0] as int == (spec_bin_val(base@[0]@)->Some_0 + 4) % 64,
            forall|j: int|
                1 <= j < i ==> #[trigger] v@[j] as int == (spec_bin_val(base@[j]@)->Some_0 + 4
                    + v@[j - 1]) % 64,
        decreases 20 - i,
    {
        let val = match parse_bin_u8(base[i].as_str()) {
            Some(x) => x,
            None => {
                return Err(String::from_str("無効な2進数です"));
            },
        };
        let next = (((val as u16) + 4 + (prev as u16)) % 64) as u8;
        v.push(next);
        prev = next;
        i = i + 1;
    }
    Ok(v)
}

/// Turns twenty 6-bit values into password characters; fails exactly when
/// a value leaves the 64-entry alphabet.
pub fn indices_to_password_kana(indices: &[u8]) -> (r: Result<String, String>)
    ensures
        match r {
            Result::Ok(s) => (forall|i: int| 0 <= i < indices@.len() ==> #[trigger] indices@[i] < 64)
                && s@.len() == indices@.len() && (forall|i: int|
                0 <= i < indices@.len() ==> #[trigger] s@[i] == password_seq()[indices@[i] as int]),
            Result::Err(_) => exists|i: int| 0 <= i < indices@.len() && #[trigger] indices@[i] >= 64,
        },
{
    let table = password_table();
    let mut s = String::new();
    let mut i: usize = 0;
    while i < indices.len()
        invariant
            i <= indices@.len(),
            table@ == password_seq(),
            s@.len() == i,
            forall|j: int| 0 <= j < i ==> #[trigger] indices@[j] < 64,
            forall|j: int| 0 <= j < i ==> #[trigger] s@[j] == password_seq()[indices@[j] as int],
        decreases indices@.len() - i,
    {
        let idx = indices[i];
        if idx >= 64 {
            return Err(String::from_str("無効なインデックスです"));
        }
        push_char(&mut s, table[idx as usize]);
        i = i + 1;
    }
    Ok(s)
}

} // verus!
