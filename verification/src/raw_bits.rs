use vstd::prelude::*;

verus! {

use crate::digits::{lemma_bin_roundtrip, lemma_spec_bin_len, parse_bin_u8, pow2_int};
use crate::load::parse_bitstring_to_save_data;
use crate::save::{spec_base_byte, spec_crc_bytes, spec_crc_shift};
use crate::save_data::SaveData;
use crate::text::kana_seq;
use vstd::string::StringExecFns;

/// The 120-bit record between the password text and the save data: a
/// checksum byte followed by fourteen payload bytes.
#[derive(Debug, Clone, PartialEq, Eq)]
pub struct RawBits120(pub [u8; 15]);

impl RawBits120 {
    /// The checksum slot, the first byte.
    pub fn checksum(&self) -> (r: u8)
        ensures
            r == self.0@[0],
    {
        self.0[0]
    }

    /// The fourteen payload bytes after the checksum slot.
    pub fn payload(&self) -> (v: Vec<u8>)
        ensures
            v@ == self.0@.subrange(1, 15),
    {
        let mut v: Vec<u8> = Vec::new();
        let mut i: usize = 1;
        while i < 15
            invariant
                1 <= i <= 15,
                v@ == self.0@.subrange(1, i as int),
            decreases 15 - i,
        {
            v.push(self.0[i]);
            proof {
                assert(v@ =~= self.0@.subrange(1, i + 1));
            }
            i = i + 1;
        }
        v
    }

    /// Packs a save record into its fifteen bytes; the checksum slot
    /// stays zero here, as it does before the checksum pass.
    pub fn from_save_data(data: &SaveData) -> (r: Result<RawBits120, String>)
        requires
            data.wf(),
        ensures
            r is Ok,
            r matches Ok(raw) ==> forall|i: int|
                0 <= i < 15 ==> #[trigger] raw.0@[i] as int == spec_base_byte(*data, i),
    {
        let base = match data.build_password_base() {
            Ok(v) => v,
            Err(e) => {
                return Err(e);
            },
        };
        let mut bytes: [u8; 15] = [0; 15];
        let mut i: usize = 0;
        while i < 15
            invariant
                data.wf(),
                i <= 15,
                base@.len() == 15,
                forall|j: int| 0 <= j < 15 ==> #[trigger] base@[j]@ == crate::digits::spec_bin(
                    spec_base_byte(*data, j),
                    8,
                ),
                forall|j: int| 0 <= j < i ==> #[trigger] bytes@[j] as int == spec_base_byte(
                    *data,
                    j,
                ),
            decreases 15 - i,
        {
            proof {
                crate::save::lemma_base_byte_bounds(*data);
                lemma_spec_bin_len(spec_base_byte(*data, i as int), 8);
                lemma_bin_roundtrip(spec_base_byte(*data, i as int), 8);
                assert(pow2_int(8) == 256) by {
                    reveal_with_fuel(pow2_int, 9);
                }
            }
            let b = match parse_bin_u8(base[i].as_str()) {
                Some(v) => v,
                None => {
                    proof {
                        assert(false);
                    }
                    return Err(String::from_str("ビット列を読めません"));
                },
            };
            bytes[i] = b;
            i = i + 1;
        }
        Ok(RawBits120(bytes))
    }

    /// Reads the fifteen bytes back into a save record; the byte layout
    /// is the password layout, so this never fails.
    pub fn to_save_data(&self) -> (r: Result<SaveData, String>)
        ensures
            r is Ok,
            r matches Ok(sd) ==> {
                &&& sd.experience as int == self.0@[12] as int * 256 + self.0@[1] as int
                &&& sd.gold as int == self.0@[9] as int * 256 + self.0@[4] as int
                &&& sd.name@.len() == 4
                &&& sd.name@[0] == kana_seq()[(self.0@[5] as int / 4) % 64]
                &&& sd.herbs as int == self.0@[10] as int % 16
                &&& sd.keys as int == self.0@[10] as int / 16
                &&& sd.pattern as int == self.0@[7] as int / 128 + (self.0@[5] as int % 2) * 2 + (
                self.0@[2] as int / 128) * 4
            },
    {
        parse_bitstring_to_save_data(self.0.as_slice())
    }

    /// Whether the checksum slot matches the checksum of the payload.
    pub fn verify_crc(&self) -> (r: bool)
        ensures
            r == (self.0@[0] == (spec_crc_of_bytes(self.0@, 15) & 0xff) as u8),
    {
        let mut crc: u16 = 0;
        let mut i: usize = 1;
        while i < 15
            invariant
                1 <= i <= 15,
                crc == spec_crc_of_bytes(self.0@, i as int),
            decreases 15 - i,
        {
            let mut octet = self.0[i];
            let ghost crc_enter = crc;
            let ghost octet0 = octet;
            let mut k: usize = 0;
            while k < 8
                invariant
                    k <= 8,
                    spec_crc_shift(crc, octet, (8 - k) as nat) == spec_crc_shift(
                        crc_enter,
                        octet0,
                        8,
                    ),
                decreases 8 - k,
            {
                let carry = (((crc >> 8) as u8) ^ octet) & 0x80 != 0;
                crc = crc << 1;
                octet = octet << 1;
                if carry {
                    crc = crc ^ 0x1021;
                }
                k = k + 1;
            }
            i = i + 1;
        }
        self.0[0] == (crc & 0xff) as u8
    }
}

/// The checksum state after feeding bytes `1` to `i - 1` of a block.
pub open spec fn spec_crc_of_bytes(bytes: Seq<u8>, i: int) -> u16
    decreases i,
{
    if i <= 1 {
        0
    } else {
        spec_crc_shift(spec_crc_of_bytes(bytes, i - 1), bytes[i - 1], 8)
    }
}

} // verus!
