use vstd::prelude::*;

verus! {

use vstd::string::StrSliceExecFns;

} // verus!

verus! {

/// The decimal digit character for a value below ten.
pub open spec fn digit_char(d: int) -> char {
    if d == 0 { '0' }
    else if d == 1 { '1' }
    else if d == 2 { '2' }
    else if d == 3 { '3' }
    else if d == 4 { '4' }
    else if d == 5 { '5' }
    else if d == 6 { '6' }
    else if d == 7 { '7' }
    else if d == 8 { '8' }
    else { '9' }
}

/// The decimal notation of a non-negative value, most significant digit first.
pub open spec fn spec_dec(n: int) -> Seq<char>
    decreases n,
{
    if n < 10 {
        seq![digit_char(n)]
    } else {
        spec_dec(n / 10).push(digit_char(n % 10))
    }
}

/// The binary notation of `v` over exactly `width` characters, most
/// significant bit first; bits of `v` above the width are cut off.
pub open spec fn spec_bin(v: int, width: nat) -> Seq<char>
    decreases width,
{
    if width == 0 {
        seq![]
    } else {
        spec_bin(v / 2, (width - 1) as nat).push(if v % 2 == 1 { '1' } else { '0' })
    }
}

/// The value a sequence of `0`/`1` characters denotes, or nothing when a
/// character out of that alphabet occurs.
pub open spec fn spec_bin_val(s: Seq<char>) -> Option<int>
    decreases s.len(),
{
    if s.len() == 0 {
        Some(0)
    } else {
        match spec_bin_val(s.drop_last()) {
            Option::Some(h) => {
                if s.last() == '0' {
                    Some(h * 2)
                } else if s.last() == '1' {
                    Some(h * 2 + 1)
                } else {
                    None
                }
            },
            Option::None => None,
        }
    }
}

/// Relies on `String::push`: appends exactly the one character.
#[verifier::external_body]
pub fn push_char(s: &mut String, c: char)
    ensures
        final(s)@ == old(s)@.push(c),
{
    s.push(c);
}

fn digit_char_exec(d: u16) -> (c: char)
    requires
        d < 10,
    ensures
        c == digit_char(d as int),
{
    if d == 0 { '0' }
    else if d == 1 { '1' }
    else if d == 2 { '2' }
    else if d == 3 { '3' }
    else if d == 4 { '4' }
    else if d == 5 { '5' }
    else if d == 6 { '6' }
    else if d == 7 { '7' }
    else if d == 8 { '8' }
    else { '9' }
}

/// Writes `n` in decimal.
pub fn u16_to_string(n: u16) -> (s: String)
    ensures
        s@ == spec_dec(n as int),
    decreases n,
{
    if n < 10 {
        let mut s = String::new();
        push_char(&mut s, digit_char_exec(n));
        s
    } else {
        let mut s = u16_to_string(n / 10);
        push_char(&mut s, digit_char_exec(n % 10));
        s
    }
}

/// Writes the low `width` bits of `v` in binary, zero-padded to `width`.
pub fn bin_string(v: u32, width: usize) -> (s: String)
    ensures
        s@ == spec_bin(v as int, width as nat),
    decreases width,
{
    if width == 0 {
        let s = String::new();
        assert(s@ =~= spec_bin(v as int, 0));
        s
    } else {
        let mut s = bin_string(v / 2, width - 1);
        push_char(&mut s, if v % 2 == 1 { '1' } else { '0' });
        s
    }
}

/// Reads a sequence of binary characters as a value, most significant bit
/// first; fails exactly when a character other than `0`/`1` occurs.
pub fn parse_bin_chars(s: &Vec<char>) -> (r: Option<u32>)
    requires
        s@.len() <= 32,
    ensures
        match r {
            Option::Some(v) => spec_bin_val(s@) == Some(v as int),
            Option::None => spec_bin_val(s@) is None,
        },
{
    let mut acc: u32 = 0;
    let mut i: usize = 0;
    while i < s.len()
        invariant
            i <= s@.len(),
            s@.len() <= 32,
            spec_bin_val(s@.take(i as int)) == Some(acc as int),
            (acc as int) < pow2_int(i as nat),
        decreases s@.len() - i,
    {
        let c = s[i];
        if c != '0' && c != '1' {
            proof {
                lemma_bin_val_prefix_none(s@, i as int);
            }
            return None;
        }
        proof {
            assert(s@.take(i + 1).drop_last() =~= s@.take(i as int));
            lemma_pow2_monotone(i as nat, 31);
            lemma_pow2_31();
        }
        acc = acc * 2 + (if c == '1' { 1 } else { 0 });
        i = i + 1;
    }
    proof {
        assert(s@.take(i as int) =~= s@);
    }
    Some(acc)
}

/// Two to the power `e`.
pub open spec fn pow2_int(e: nat) -> int
    decreases e,
{
    if e == 0 {
        1
    } else {
        2 * pow2_int((e - 1) as nat)
    }
}

pub proof fn lemma_pow2_pos(e: nat)
    ensures
        pow2_int(e) >= 1,
    decreases e,
{
    if e > 0 {
        lemma_pow2_pos((e - 1) as nat);
    }
}

pub proof fn lemma_pow2_monotone(a: nat, b: nat)
    requires
        a <= b,
    ensures
        pow2_int(a) <= pow2_int(b),
    decreases b,
{
    if a < b {
        lemma_pow2_monotone(a, (b - 1) as nat);
        lemma_pow2_pos((b - 1) as nat);
    }
}

pub proof fn lemma_pow2_31()
    ensures
        pow2_int(31) == 0x8000_0000,
{
    reveal_with_fuel(pow2_int, 32);
}

/// Once a prefix of the characters fails to read as binary, the whole
/// sequence fails too.
proof fn lemma_bin_val_prefix_none(s: Seq<char>, i: int)
    requires
        0 <= i < s.len(),
        s[i] != '0',
        s[i] != '1',
    ensures
        spec_bin_val(s) is None,
    decreases s.len(),
{
    if s.len() - 1 == i {
        if spec_bin_val(s.drop_last()) is Some {
        }
    } else {
        assert(s.drop_last()[i] == s[i]);
        lemma_bin_val_prefix_none(s.drop_last(), i);
    }
}

/// Powers of two multiply when exponents add.
pub proof fn lemma_pow2_add(a: nat, b: nat)
    ensures
        pow2_int(a + b) == pow2_int(a) * pow2_int(b),
    decreases b,
{
    if b == 0 {
    } else {
        lemma_pow2_add(a, (b - 1) as nat);
        assert(pow2_int(a + b) == 2 * pow2_int((a + b - 1) as nat));
        assert(2 * (pow2_int(a) * pow2_int((b - 1) as nat)) == pow2_int(a) * (2 * pow2_int(
        (b - 1) as nat))) by (nonlinear_arith);
    }
}

/// A four-bit notation only sees a value modulo sixteen.
pub proof fn lemma_bin_mod16(v: int)
    requires
        v >= 0,
    ensures
        spec_bin(v % 16, 4) == spec_bin(v, 4),
{
    assert(spec_bin(v % 16, 4) =~= spec_bin(v, 4)) by {
        assert((v % 16) % 2 == v % 2 && (v % 16) / 2 % 2 == v / 2 % 2 && (v % 16) / 4 % 2 == v / 4
            % 2 && (v % 16) / 8 % 2 == v / 8 % 2) by (nonlinear_arith)
            requires
                v >= 0,
        ;
        reveal_with_fuel(spec_bin, 5);
    }
}

/// A binary notation has exactly its width as length.
pub proof fn lemma_spec_bin_len(v: int, width: nat)
    ensures
        spec_bin(v, width).len() == width,
    decreases width,
{
    if width > 0 {
        lemma_spec_bin_len(v / 2, (width - 1) as nat);
    }
}

/// Reading the binary notation of a non-negative value gives the value
/// back, cut to the width.
pub proof fn lemma_bin_roundtrip(v: int, width: nat)
    requires
        v >= 0,
    ensures
        spec_bin_val(spec_bin(v, width)) == Some(v % pow2_int(width)),
    decreases width,
{
    if width == 0 {
        assert(spec_bin(v, 0) =~= Seq::<char>::empty());
        assert(v % 1 == 0);
    } else {
        lemma_bin_roundtrip(v / 2, (width - 1) as nat);
        lemma_spec_bin_len(v / 2, (width - 1) as nat);
        let inner = spec_bin(v / 2, (width - 1) as nat);
        let b = if v % 2 == 1 { '1' } else { '0' };
        assert(spec_bin(v, width) == inner.push(b));
        assert(inner.push(b).drop_last() =~= inner);
        assert(inner.push(b).last() == b);
        lemma_pow2_pos((width - 1) as nat);
        vstd::arithmetic::div_mod::lemma_mod_breakdown(v, 2, pow2_int((width - 1) as nat));
        assert(pow2_int(width) == 2 * pow2_int((width - 1) as nat));
    }
}

/// A value read from binary characters stays under two to their count.
pub proof fn lemma_bin_val_bound(s: Seq<char>)
    ensures
        spec_bin_val(s) matches Some(v) ==> 0 <= v < pow2_int(s.len()),
    decreases s.len(),
{
    if s.len() > 0 {
        lemma_bin_val_bound(s.drop_last());
    }
}

/// Binary notation is made of `0` and `1` characters only.
pub proof fn lemma_spec_bin_chars(v: int, width: nat)
    ensures
        forall|i: int|
            0 <= i < spec_bin(v, width).len() ==> (#[trigger] spec_bin(v, width)[i] == '0'
                || spec_bin(v, width)[i] == '1'),
    decreases width,
{
    if width > 0 {
        lemma_spec_bin_chars(v / 2, (width - 1) as nat);
        let inner = spec_bin(v / 2, (width - 1) as nat);
        let b = if v % 2 == 1 { '1' } else { '0' };
        assert(spec_bin(v, width) == inner.push(b));
        assert forall|i: int| 0 <= i < spec_bin(v, width).len() implies (#[trigger] spec_bin(
            v,
            width,
        )[i] == '0' || spec_bin(v, width)[i] == '1') by {
            if i < inner.len() {
                assert(spec_bin(v, width)[i] == inner[i]);
            } else {
                assert(spec_bin(v, width)[i] == b);
            }
        }
    }
}

/// A sequence of `0`/`1` characters always reads as a value.
pub proof fn lemma_bin_val_some(s: Seq<char>)
    requires
        forall|i: int| 0 <= i < s.len() ==> (#[trigger] s[i] == '0' || s[i] == '1'),
    ensures
        spec_bin_val(s) is Some,
    decreases s.len(),
{
    if s.len() > 0 {
        assert(forall|i: int|
            0 <= i < s.drop_last().len() ==> (#[trigger] s.drop_last()[i] == '0'
                || s.drop_last()[i] == '1'));
        lemma_bin_val_some(s.drop_last());
        assert(s.last() == s[s.len() - 1]);
    }
}

/// Reads a whole string of binary characters as a byte; fails exactly when
/// the string is empty, longer than eight characters, or holds a character
/// other than `0`/`1`.
pub fn parse_bin_u8(s: &str) -> (r: Option<u8>)
    ensures
        match r {
            Option::Some(v) => 1 <= s@.len() <= 8 && spec_bin_val(s@) == Some(v as int),
            Option::None => s@.len() == 0 || s@.len() > 8 || spec_bin_val(s@) is None,
        },
{
    let n = s.unicode_len();
    if n == 0 || n > 8 {
        return None;
    }
    let mut chars: Vec<char> = Vec::new();
    let mut i: usize = 0;
    while i < n
        invariant
            n == s@.len(),
            i <= n,
            chars@ == s@.take(i as int),
        decreases n - i,
    {
        chars.push(s.get_char(i));
        proof {
            assert(chars@ =~= s@.take(i + 1));
        }
        i = i + 1;
    }
    proof {
        assert(s@.take(n as int) =~= s@);
        lemma_bin_val_bound(s@);
        reveal_with_fuel(pow2_int, 9);
    }
    match parse_bin_chars(&chars) {
        Some(v) => Some(v as u8),
        None => None,
    }
}

} // verus!
