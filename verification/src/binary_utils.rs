use vstd::prelude::*;

verus! {

use crate::digits::{
    lemma_pow2_add, lemma_pow2_pos, parse_bin_chars, pow2_int, spec_bin_val,
};
use vstd::string::StrSliceExecFns;
use vstd::string::StringExecFns;

/// The number of bits a list of (value, width) fields covers in all.
pub open spec fn spec_total_width(bits: Seq<(u8, u8)>) -> int
    decreases bits.len(),
{
    if bits.len() == 0 {
        0
    } else {
        spec_total_width(bits.drop_last()) + bits.last().1
    }
}

/// The value of the fields packed next to each other, first field in the
/// highest bits; each value is cut to its width.
pub open spec fn spec_combined(bits: Seq<(u8, u8)>) -> int
    decreases bits.len(),
{
    if bits.len() == 0 {
        0
    } else {
        spec_combined(bits.drop_last()) * pow2_int(bits.last().1 as nat) + (
        bits.last().0 as int) % pow2_int(bits.last().1 as nat)
    }
}

proof fn lemma_total_width_take(bits: Seq<(u8, u8)>, i: int)
    requires
        0 <= i <= bits.len(),
    ensures
        spec_total_width(bits.take(i)) <= spec_total_width(bits),
    decreases bits.len() - i,
{
    if i == bits.len() {
        assert(bits.take(i) =~= bits);
    } else {
        lemma_total_width_take(bits, i + 1);
        assert(bits.take(i + 1).drop_last() =~= bits.take(i));
    }
}

proof fn lemma_total_width_nonneg(bits: Seq<(u8, u8)>)
    ensures
        spec_total_width(bits) >= 0,
    decreases bits.len(),
{
    if bits.len() > 0 {
        lemma_total_width_nonneg(bits.drop_last());
    }
}

fn small_pow2(w: u8) -> (r: u16)
    requires
        w <= 8,
    ensures
        r as int == pow2_int(w as nat),
        r >= 1,
{
    proof {
        reveal_with_fuel(pow2_int, 9);
    }
    if w == 0 { 1 }
    else if w == 1 { 2 }
    else if w == 2 { 4 }
    else if w == 3 { 8 }
    else if w == 4 { 16 }
    else if w == 5 { 32 }
    else if w == 6 { 64 }
    else if w == 7 { 128 }
    else { 256 }
}

/// Packs the given (value, width) fields into one byte, first field in the
/// highest bits; fails exactly when the widths cover more than eight bits.
pub fn combine_bits(bits: &[(u8, u8)]) -> (r: Result<u8, String>)
    ensures
        match r {
            Result::Ok(b) => spec_total_width(bits@) <= 8 && b as int == spec_combined(bits@),
            Result::Err(_) => spec_total_width(bits@) > 8,
        },
{
    let mut total: u32 = 0;
    let mut i: usize = 0;
    while i < bits.len()
        invariant
            i <= bits@.len(),
            total == spec_total_width(bits@.take(i as int)),
            total <= 8,
        decreases bits@.len() - i,
    {
        proof {
            assert(bits@.take(i + 1).drop_last() =~= bits@.take(i as int));
        }
        let w = bits[i].1;
        if total + (w as u32) > 8 {
            proof {
                lemma_total_width_take(bits@, i + 1);
            }
            return Err(String::from_str("合計ビット数が8を超えています"));
        }
        total = total + (w as u32);
        i = i + 1;
    }
    proof {
        assert(bits@.take(i as int) =~= bits@);
    }
    let ghost full_total = spec_total_width(bits@);
    let mut acc: u16 = 0;
    let mut j: usize = 0;
    while j < bits.len()
        invariant
            j <= bits@.len(),
            full_total == spec_total_width(bits@),
            full_total <= 8,
            acc as int == spec_combined(bits@.take(j as int)),
            (acc as int) < pow2_int(spec_total_width(bits@.take(j as int)) as nat),
            spec_total_width(bits@.take(j as int)) >= 0,
            spec_total_width(bits@.take(j as int)) <= full_total,
        decreases bits@.len() - j,
    {
        proof {
            assert(bits@.take(j + 1).drop_last() =~= bits@.take(j as int));
            lemma_total_width_take(bits@, j + 1);
            lemma_total_width_nonneg(bits@.take(j + 1));
        }
        let (v, w) = (bits[j].0, bits[j].1);
        let ghost tw = spec_total_width(bits@.take(j as int));
        proof {
            lemma_total_width_nonneg(bits@.take(j as int));
            assert(spec_total_width(bits@.take(j + 1)) == tw + w);
            assert(tw + w <= 8);
            lemma_pow2_add(tw as nat, w as nat);
            lemma_pow2_monotone_local((tw + w) as nat, 8);
            reveal_with_fuel(pow2_int, 9);
        }
        let pw = small_pow2(w);
        proof {
            vstd::arithmetic::mul::lemma_mul_inequality(
                acc as int,
                pow2_int(tw as nat) - 1,
                pw as int,
            );
            vstd::arithmetic::mul::lemma_mul_is_distributive_sub_other_way(
                pw as int,
                pow2_int(tw as nat),
                1,
            );
        }
        acc = acc * pw + (v as u16) % pw;
        j = j + 1;
    }
    proof {
        assert(bits@.take(j as int) =~= bits@);
        lemma_pow2_monotone_local(spec_total_width(bits@) as nat, 8);
        reveal_with_fuel(pow2_int, 9);
    }
    Ok(acc as u8)
}

proof fn lemma_pow2_monotone_local(a: nat, b: nat)
    requires
        a <= b,
    ensures
        pow2_int(a) <= pow2_int(b),
    decreases b,
{
    if a < b {
        lemma_pow2_monotone_local(a, (b - 1) as nat);
        lemma_pow2_pos((b - 1) as nat);
    }
}

/// Reads the character range `from..to` of a string of binary characters
/// as a value, highest bit first. Fails when the range leaves the string,
/// is empty or wider than 32 bits, or holds a character other than `0`/`1`.
pub fn get_bits(bit_string: &str, from: usize, to: usize) -> (r: Result<u32, String>)
    ensures
        match r {
            Result::Ok(v) => from <= to <= bit_string@.len() && 0 < to - from <= 32
                && spec_bin_val(bit_string@.subrange(from as int, to as int)) == Some(v as int),
            Result::Err(_) => from > to || to > bit_string@.len() || to == from || to - from > 32
                || spec_bin_val(bit_string@.subrange(from as int, to as int)) is None,
        },
{
    let n = bit_string.unicode_len();
    if from > to || to > n {
        return Err(String::from_str("bit range out of bounds"));
    }
    if to == from || to - from > 32 {
        return Err(String::from_str("bit parse error"));
    }
    let mut chars: Vec<char> = Vec::new();
    let mut i: usize = from;
    while i < to
        invariant
            from <= i <= to,
            to <= bit_string@.len(),
            chars@ == bit_string@.subrange(from as int, i as int),
        decreases to - i,
    {
        chars.push(bit_string.get_char(i));
        proof {
            assert(chars@ =~= bit_string@.subrange(from as int, i + 1));
        }
        i = i + 1;
    }
    match parse_bin_chars(&chars) {
        Some(v) => Ok(v),
        None => Err(String::from_str("bit parse error")),
    }
}

/// Accepts exactly a 15-byte block, the shape a 120-bit record takes.
pub fn validate_120bit(bits: &[u8]) -> (r: Result<(), String>)
    ensures
        r is Ok <==> bits@.len() == 15,
{
    if bits.len() != 15 {
        Err(String::from_str("ビット列は120bit（15バイト）である必要があります"))
    } else {
        Ok(())
    }
}

/// Accepts exactly twenty 6-bit entries.
pub fn validate_6bit_array(bits: &[u8]) -> (r: Result<(), String>)
    ensures
        r is Ok <==> bits@.len() == 20,
{
    if bits.len() != 20 {
        Err(String::from_str("6bit × 20個のビット列が必要です（長さ: 20）"))
    } else {
        Ok(())
    }
}

} // verus!
