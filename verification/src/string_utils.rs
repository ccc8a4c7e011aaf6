use vstd::prelude::*;

verus! {

use crate::digits::push_char;
use crate::text::{
    dakuten_base, dakuten_base_of, handakuten_base, handakuten_base_of, is_name_char,
    kana_contains, kana_position, kana_seq, wf_name, NAME_MAX_LENGTH,
};
use vstd::string::StrSliceExecFns;
use vstd::string::StringExecFns;

/// The characters of `s` that count toward a name, in order.
pub open spec fn spec_filter_valid(s: Seq<char>) -> Seq<char>
    decreases s.len(),
{
    if s.len() == 0 {
        seq![]
    } else {
        let rest = spec_filter_valid(s.drop_last());
        if is_name_char(s.last()) {
            rest.push(s.last())
        } else {
            rest
        }
    }
}

/// What one character becomes under voiced-mark splitting.
pub open spec fn spec_split_one(c: char) -> Seq<char> {
    match dakuten_base_of(c) {
        Option::Some(b) => seq![b, '゛'],
        Option::None => match handakuten_base_of(c) {
            Option::Some(b) => seq![b, '゜'],
            Option::None => seq![c],
        },
    }
}

/// The whole sequence under voiced-mark splitting.
pub open spec fn spec_split_dakuten(s: Seq<char>) -> Seq<char>
    decreases s.len(),
{
    if s.len() == 0 {
        seq![]
    } else {
        spec_split_dakuten(s.drop_last()) + spec_split_one(s.last())
    }
}

/// The sequence cut or padded with full-width spaces to exactly four
/// characters.
pub open spec fn spec_normalize4(s: Seq<char>) -> Seq<char> {
    if s.len() >= 4 {
        s.take(4)
    } else {
        s + Seq::new((4 - s.len()) as nat, |i: int| '　')
    }
}

/// A name as the rest of the system sees it: invalid characters removed,
/// voiced characters split into base plus mark, then cut or padded to four.
pub open spec fn spec_name_normalize(s: Seq<char>) -> Seq<char> {
    spec_normalize4(spec_split_dakuten(spec_filter_valid(s)))
}

/// Keeps only the characters that count toward a name.
pub fn filter_valid_chars(input: &str) -> (r: String)
    ensures
        r@ == spec_filter_valid(input@),
{
    let n = input.unicode_len();
    let mut r = String::new();
    let mut i: usize = 0;
    while i < n
        invariant
            n == input@.len(),
            i <= n,
            r@ == spec_filter_valid(input@.take(i as int)),
        decreases n - i,
    {
        let c = input.get_char(i);
        proof {
            assert(input@.take(i + 1).drop_last() =~= input@.take(i as int));
            assert(input@.take(i + 1).last() == input@[i as int]);
        }
        let keep = kana_contains(c) || dakuten_base(c).is_some() || handakuten_base(c).is_some();
        if keep {
            push_char(&mut r, c);
        }
        i = i + 1;
    }
    proof {
        assert(input@.take(n as int) =~= input@);
    }
    r
}

/// Replaces each voiced or semi-voiced character by its base character
/// followed by the voicing mark.
pub fn split_dakuten(input: &str) -> (r: String)
    ensures
        r@ == spec_split_dakuten(input@),
{
    let n = input.unicode_len();
    let mut r = String::new();
    let mut i: usize = 0;
    while i < n
        invariant
            n == input@.len(),
            i <= n,
            r@ == spec_split_dakuten(input@.take(i as int)),
        decreases n - i,
    {
        let c = input.get_char(i);
        proof {
            assert(input@.take(i + 1).drop_last() =~= input@.take(i as int));
            assert(input@.take(i + 1).last() == input@[i as int]);
        }
        if let Some(b) = dakuten_base(c) {
            push_char(&mut r, b);
            push_char(&mut r, '゛');
        } else if let Some(b) = handakuten_base(c) {
            push_char(&mut r, b);
            push_char(&mut r, '゜');
        } else {
            push_char(&mut r, c);
        }
        proof {
            assert(r@ =~= spec_split_dakuten(input@.take(i + 1)));
        }
        i = i + 1;
    }
    proof {
        assert(input@.take(n as int) =~= input@);
    }
    r
}

/// Cuts the input after four characters, or pads it with full-width spaces
/// up to four.
pub fn normalize_to_4_chars(input: &str) -> (r: String)
    ensures
        r@ == spec_normalize4(input@),
{
    let n = input.unicode_len();
    let mut r = String::new();
    let mut i: usize = 0;
    let limit = if n < NAME_MAX_LENGTH { n } else { NAME_MAX_LENGTH };
    while i < limit
        invariant
            n == input@.len(),
            limit == if n < 4 { n as int } else { 4 },
            i <= limit,
            r@ == input@.take(i as int),
        decreases limit - i,
    {
        let c = input.get_char(i);
        push_char(&mut r, c);
        proof {
            assert(r@ =~= input@.take(i + 1));
        }
        i = i + 1;
    }
    while i < NAME_MAX_LENGTH
        invariant
            n == input@.len(),
            limit == if n < 4 { n as int } else { 4 },
            limit <= i <= 4,
            r@.len() == i,
            forall|j: int| 0 <= j < limit ==> r@[j] == input@[j],
            forall|j: int| limit <= j < i ==> r@[j] == '　',
        decreases NAME_MAX_LENGTH - i,
    {
        push_char(&mut r, '　');
        i = i + 1;
    }
    proof {
        assert(r@ =~= spec_normalize4(input@));
    }
    r
}

/// Normalizes a raw name: removes invalid characters, splits voiced
/// characters, and shapes the result to exactly four characters.
pub fn name_normalize(name: &str) -> (r: String)
    ensures
        r@ == spec_name_normalize(name@),
{
    let cleaned = filter_valid_chars(name);
    let split = split_dakuten(cleaned.as_str());
    normalize_to_4_chars(split.as_str())
}

/// The position of `c` in the character table; fails exactly when the
/// table does not hold `c`.
pub fn kana_index(c: char) -> (r: Result<u8, String>)
    ensures
        match r {
            Result::Ok(i) => i < 64 && kana_seq()[i as int] == c && (forall|j: int|
                0 <= j < i ==> kana_seq()[j] != c),
            Result::Err(_) => !kana_seq().contains(c),
        },
{
    match kana_position(c) {
        Some(i) => Ok(i),
        None => {
            let mut msg = String::from_str("文字 '");
            push_char(&mut msg, c);
            msg.append("' は かなの表にありません");
            Err(msg)
        },
    }
}

/// The character at the one-based `position`; fails exactly when the
/// position is zero or past the end.
pub fn nth_char(s: &str, position: usize) -> (r: Result<char, String>)
    ensures
        match r {
            Result::Ok(c) => 1 <= position <= s@.len() && c == s@[position - 1],
            Result::Err(_) => position == 0 || position > s@.len(),
        },
{
    if position == 0 {
        return Err(String::from_str("位置は1以上である必要があります"));
    }
    let n = s.unicode_len();
    if position > n {
        return Err(String::from_str("指定の位置の文字が見つかりません"));
    }
    Ok(s.get_char(position - 1))
}

/// Whether two string slices hold the same characters.
pub fn str_eq(a: &str, b: &str) -> (r: bool)
    ensures
        r == (a@ == b@),
{
    let na = a.unicode_len();
    let nb = b.unicode_len();
    if na != nb {
        return false;
    }
    let mut i: usize = 0;
    while i < na
        invariant
            na == a@.len(),
            na == b@.len(),
            i <= na,
            forall|j: int| 0 <= j < i ==> a@[j] == b@[j],
        decreases na - i,
    {
        if a.get_char(i) != b.get_char(i) {
            return false;
        }
        i = i + 1;
    }
    proof {
        assert(a@ =~= b@);
    }
    true
}

/// Every character the filter keeps counts toward a name.
pub proof fn lemma_filter_chars_valid(s: Seq<char>)
    ensures
        forall|i: int|
            0 <= i < spec_filter_valid(s).len() ==> is_name_char(#[trigger] spec_filter_valid(s)[i]),
    decreases s.len(),
{
    if s.len() > 0 {
        lemma_filter_chars_valid(s.drop_last());
        let rest = spec_filter_valid(s.drop_last());
        let whole = spec_filter_valid(s);
        if is_name_char(s.last()) {
            assert(whole == rest.push(s.last()));
            assert forall|i: int| 0 <= i < whole.len() implies is_name_char(#[trigger] whole[i]) by {
                if i < rest.len() {
                    assert(whole[i] == rest[i]);
                } else {
                    assert(whole[i] == s.last());
                }
            }
        } else {
            assert(whole == rest);
        }
    }
}

/// What one valid character splits into lies in the character table.
pub proof fn lemma_split_one_in_table(c: char)
    requires
        is_name_char(c),
    ensures
        forall|i: int|
            0 <= i < spec_split_one(c).len() ==> kana_seq().contains(#[trigger] spec_split_one(c)[i]),
{
    assert(kana_seq()[15] == 'か');
    assert(kana_seq()[16] == 'き');
    assert(kana_seq()[17] == 'く');
    assert(kana_seq()[18] == 'け');
    assert(kana_seq()[19] == 'こ');
    assert(kana_seq()[20] == 'さ');
    assert(kana_seq()[21] == 'し');
    assert(kana_seq()[22] == 'す');
    assert(kana_seq()[23] == 'せ');
    assert(kana_seq()[24] == 'そ');
    assert(kana_seq()[25] == 'た');
    assert(kana_seq()[26] == 'ち');
    assert(kana_seq()[27] == 'つ');
    assert(kana_seq()[28] == 'て');
    assert(kana_seq()[29] == 'と');
    assert(kana_seq()[35] == 'は');
    assert(kana_seq()[36] == 'ひ');
    assert(kana_seq()[37] == 'ふ');
    assert(kana_seq()[38] == 'へ');
    assert(kana_seq()[39] == 'ほ');
    assert(kana_seq()[60] == '゛');
    assert(kana_seq()[61] == '゜');
}

/// Splitting characters that count toward a name yields characters of the
/// table only.
pub proof fn lemma_split_chars_in_table(s: Seq<char>)
    requires
        forall|i: int| 0 <= i < s.len() ==> is_name_char(#[trigger] s[i]),
    ensures
        forall|i: int|
            0 <= i < spec_split_dakuten(s).len() ==> kana_seq().contains(
                #[trigger] spec_split_dakuten(s)[i],
            ),
    decreases s.len(),
{
    if s.len() > 0 {
        assert(forall|i: int| 0 <= i < s.drop_last().len() ==> is_name_char(
            #[trigger] s.drop_last()[i],
        ));
        lemma_split_chars_in_table(s.drop_last());
        lemma_split_one_in_table(s.last());
        let rest = spec_split_dakuten(s.drop_last());
        let one = spec_split_one(s.last());
        let whole = spec_split_dakuten(s);
        assert(whole == rest + one);
        assert forall|i: int| 0 <= i < whole.len() implies kana_seq().contains(
            #[trigger] whole[i],
        ) by {
            if i < rest.len() {
                assert(whole[i] == rest[i]);
            } else {
                assert(whole[i] == one[i - rest.len()]);
            }
        }
    }
}

/// A normalized name is well formed: four characters, each from the table.
pub proof fn lemma_name_normalize_wf(s: Seq<char>)
    ensures
        wf_name(spec_name_normalize(s)),
{
    lemma_filter_chars_valid(s);
    lemma_split_chars_in_table(spec_filter_valid(s));
    assert(kana_seq()[63] == '　');
    let sp = spec_split_dakuten(spec_filter_valid(s));
    let r = spec_name_normalize(s);
    assert(r.len() == 4);
    assert(forall|i: int| 0 <= i < 4 ==> kana_seq().contains(#[trigger] r[i]));
}

} // verus!
