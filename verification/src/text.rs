use vstd::prelude::*;

verus! {

/// The number of characters a normalized hero name holds.
pub const NAME_MAX_LENGTH: usize = 4;

/// The name a player or a save record gets when none is supplied.
pub fn default_name() -> (s: &'static str)
    ensures
        s@ == "ゆうてい"@,
{
    "ゆうてい"
}

/// The 64-entry character table: a normalized name is made of these
/// characters, and each 6-bit name index points into it.
pub open spec fn kana_seq() -> Seq<char> {
    seq![
        '０', '１', '２', '３', '４', '５', '６', '７', '８', '９',
        'あ', 'い', 'う', 'え', 'お', 'か', 'き', 'く', 'け', 'こ',
        'さ', 'し', 'す', 'せ', 'そ', 'た', 'ち', 'つ', 'て', 'と',
        'な', 'に', 'ぬ', 'ね', 'の', 'は', 'ひ', 'ふ', 'へ', 'ほ',
        'ま', 'み', 'む', 'め', 'も', 'や', 'ゆ', 'よ', 'ら', 'り',
        'る', 'れ', 'ろ', 'わ', 'を', 'ん', 'っ', 'ゃ', 'ゅ', 'ょ',
        '゛', '゜', '－', '　',
    ]
}

pub fn kana_table() -> (v: Vec<char>)
    ensures
        v@ == kana_seq(),
{
    let v: Vec<char> = vec![
        '０', '１', '２', '３', '４', '５', '６', '７', '８', '９',
        'あ', 'い', 'う', 'え', 'お', 'か', 'き', 'く', 'け', 'こ',
        'さ', 'し', 'す', 'せ', 'そ', 'た', 'ち', 'つ', 'て', 'と',
        'な', 'に', 'ぬ', 'ね', 'の', 'は', 'ひ', 'ふ', 'へ', 'ほ',
        'ま', 'み', 'む', 'め', 'も', 'や', 'ゆ', 'よ', 'ら', 'り',
        'る', 'れ', 'ろ', 'わ', 'を', 'ん', 'っ', 'ゃ', 'ゅ', 'ょ',
        '゛', '゜', '－', '　',
    ];
    assert(v@ =~= kana_seq());
    v
}

/// The 64-entry password alphabet: a password character with 6-bit value
/// `i` is the `i`-th entry of this table.
pub open spec fn password_seq() -> Seq<char> {
    seq![
        'あ', 'い', 'う', 'え', 'お', 'か', 'き', 'く', 'け', 'こ',
        'さ', 'し', 'す', 'せ', 'そ', 'た', 'ち', 'つ', 'て', 'と',
        'な', 'に', 'ぬ', 'ね', 'の', 'は', 'ひ', 'ふ', 'へ', 'ほ',
        'ま', 'み', 'む', 'め', 'も', 'や', 'ゆ', 'よ', 'ら', 'り',
        'る', 'れ', 'ろ', 'わ', 'が', 'ぎ', 'ぐ', 'げ', 'ご', 'ざ',
        'じ', 'ず', 'ぜ', 'ぞ', 'だ', 'ぢ', 'づ', 'で', 'ど', 'ば',
        'び', 'ぶ', 'べ', 'ぼ',
    ]
}

pub fn password_table() -> (v: Vec<char>)
    ensures
        v@ == password_seq(),
{
    let v: Vec<char> = vec![
        'あ', 'い', 'う', 'え', 'お', 'か', 'き', 'く', 'け', 'こ',
        'さ', 'し', 'す', 'せ', 'そ', 'た', 'ち', 'つ', 'て', 'と',
        'な', 'に', 'ぬ', 'ね', 'の', 'は', 'ひ', 'ふ', 'へ', 'ほ',
        'ま', 'み', 'む', 'め', 'も', 'や', 'ゆ', 'よ', 'ら', 'り',
        'る', 'れ', 'ろ', 'わ', 'が', 'ぎ', 'ぐ', 'げ', 'ご', 'ざ',
        'じ', 'ず', 'ぜ', 'ぞ', 'だ', 'ぢ', 'づ', 'で', 'ど', 'ば',
        'び', 'ぶ', 'べ', 'ぼ',
    ];
    assert(v@ =~= password_seq());
    v
}

/// Voiced characters paired with their base character: splitting replaces
/// the voiced character by the base followed by the mark `゛`.
pub open spec fn dakuten_seq() -> Seq<(char, char)> {
    seq![
        ('が', 'か'), ('ぎ', 'き'), ('ぐ', 'く'), ('げ', 'け'), ('ご', 'こ'),
        ('ざ', 'さ'), ('じ', 'し'), ('ず', 'す'), ('ぜ', 'せ'), ('ぞ', 'そ'),
        ('だ', 'た'), ('ぢ', 'ち'), ('づ', 'つ'), ('で', 'て'), ('ど', 'と'),
        ('ば', 'は'), ('び', 'ひ'), ('ぶ', 'ふ'), ('べ', 'へ'), ('ぼ', 'ほ'),
    ]
}

pub fn dakuten_pairs() -> (v: Vec<(char, char)>)
    ensures
        v@ == dakuten_seq(),
{
    let v: Vec<(char, char)> = vec![
        ('が', 'か'), ('ぎ', 'き'), ('ぐ', 'く'), ('げ', 'け'), ('ご', 'こ'),
        ('ざ', 'さ'), ('じ', 'し'), ('ず', 'す'), ('ぜ', 'せ'), ('ぞ', 'そ'),
        ('だ', 'た'), ('ぢ', 'ち'), ('づ', 'つ'), ('で', 'て'), ('ど', 'と'),
        ('ば', 'は'), ('び', 'ひ'), ('ぶ', 'ふ'), ('べ', 'へ'), ('ぼ', 'ほ'),
    ];
    assert(v@ =~= dakuten_seq());
    v
}

/// Semi-voiced characters paired with their base character: splitting
/// replaces the character by the base followed by the mark `゜`.
pub open spec fn handakuten_seq() -> Seq<(char, char)> {
    seq![('ぱ', 'は'), ('ぴ', 'ひ'), ('ぷ', 'ふ'), ('ぺ', 'へ'), ('ぽ', 'ほ')]
}

pub fn handakuten_pairs() -> (v: Vec<(char, char)>)
    ensures
        v@ == handakuten_seq(),
{
    let v: Vec<(char, char)> = vec![
        ('ぱ', 'は'), ('ぴ', 'ひ'), ('ぷ', 'ふ'), ('ぺ', 'へ'), ('ぽ', 'ほ'),
    ];
    assert(v@ =~= handakuten_seq());
    v
}

/// A character counts toward a name when the table holds it directly or a
/// split into base character plus mark exists for it.
pub open spec fn is_name_char(c: char) -> bool {
    kana_seq().contains(c) || dakuten_base_of(c) is Some || handakuten_base_of(c) is Some
}

/// A well-formed stored name: exactly four characters, each from the
/// character table.
pub open spec fn wf_name(s: Seq<char>) -> bool {
    s.len() == 4 && (forall|i: int| 0 <= i < 4 ==> kana_seq().contains(#[trigger] s[i]))
}

/// The first position of `c` in the character table, as a mathematical value.
pub open spec fn kana_index_of(c: char) -> int {
    kana_seq().index_of_first(c)->Some_0
}

} // verus!

verus! {

/// The base character the voiced character `c` splits into, if any.
pub open spec fn dakuten_base_of(c: char) -> Option<char> {
    if c == 'が' { Some('か') }
    else if c == 'ぎ' { Some('き') }
    else if c == 'ぐ' { Some('く') }
    else if c == 'げ' { Some('け') }
    else if c == 'ご' { Some('こ') }
    else if c == 'ざ' { Some('さ') }
    else if c == 'じ' { Some('し') }
    else if c == 'ず' { Some('す') }
    else if c == 'ぜ' { Some('せ') }
    else if c == 'ぞ' { Some('そ') }
    else if c == 'だ' { Some('た') }
    else if c == 'ぢ' { Some('ち') }
    else if c == 'づ' { Some('つ') }
    else if c == 'で' { Some('て') }
    else if c == 'ど' { Some('と') }
    else if c == 'ば' { Some('は') }
    else if c == 'び' { Some('ひ') }
    else if c == 'ぶ' { Some('ふ') }
    else if c == 'べ' { Some('へ') }
    else if c == 'ぼ' { Some('ほ') }
    else { None }
}

/// The base character the semi-voiced character `c` splits into, if any.
pub open spec fn handakuten_base_of(c: char) -> Option<char> {
    if c == 'ぱ' { Some('は') }
    else if c == 'ぴ' { Some('ひ') }
    else if c == 'ぷ' { Some('ふ') }
    else if c == 'ぺ' { Some('へ') }
    else if c == 'ぽ' { Some('ほ') }
    else { None }
}

pub fn dakuten_base(c: char) -> (r: Option<char>)
    ensures
        r == dakuten_base_of(c),
{
    if c == 'が' { Some('か') }
    else if c == 'ぎ' { Some('き') }
    else if c == 'ぐ' { Some('く') }
    else if c == 'げ' { Some('け') }
    else if c == 'ご' { Some('こ') }
    else if c == 'ざ' { Some('さ') }
    else if c == 'じ' { Some('し') }
    else if c == 'ず' { Some('す') }
    else if c == 'ぜ' { Some('せ') }
    else if c == 'ぞ' { Some('そ') }
    else if c == 'だ' { Some('た') }
    else if c == 'ぢ' { Some('ち') }
    else if c == 'づ' { Some('つ') }
    else if c == 'で' { Some('て') }
    else if c == 'ど' { Some('と') }
    else if c == 'ば' { Some('は') }
    else if c == 'び' { Some('ひ') }
    else if c == 'ぶ' { Some('ふ') }
    else if c == 'べ' { Some('へ') }
    else if c == 'ぼ' { Some('ほ') }
    else { None }
}

pub fn handakuten_base(c: char) -> (r: Option<char>)
    ensures
        r == handakuten_base_of(c),
{
    if c == 'ぱ' { Some('は') }
    else if c == 'ぴ' { Some('ひ') }
    else if c == 'ぷ' { Some('ふ') }
    else if c == 'ぺ' { Some('へ') }
    else if c == 'ぽ' { Some('ほ') }
    else { None }
}

/// Whether the character table holds `c`.
pub fn kana_contains(c: char) -> (b: bool)
    ensures
        b == kana_seq().contains(c),
{
    let table = kana_table();
    let mut i: usize = 0;
    while i < table.len()
        invariant
            table@ == kana_seq(),
            i <= table@.len(),
            forall|j: int| 0 <= j < i ==> kana_seq()[j] != c,
        decreases table@.len() - i,
    {
        if table[i] == c {
            assert(kana_seq().contains(c));
            return true;
        }
        i = i + 1;
    }
    assert(forall|j: int| 0 <= j < kana_seq().len() ==> kana_seq()[j] != c);
    false
}

/// The first position of `c` in the character table, or nothing when the
/// table does not hold it.
pub fn kana_position(c: char) -> (r: Option<u8>)
    ensures
        match r {
            Option::Some(i) => i < 64 && kana_seq()[i as int] == c && (forall|j: int|
                0 <= j < i ==> kana_seq()[j] != c) && kana_seq().contains(c) && i as int
                == kana_index_of(c),
            Option::None => !kana_seq().contains(c),
        },
{
    let table = kana_table();
    let mut i: usize = 0;
    while i < table.len()
        invariant
            table@ == kana_seq(),
            i <= table@.len(),
            forall|j: int| 0 <= j < i ==> kana_seq()[j] != c,
        decreases table@.len() - i,
    {
        if table[i] == c {
            proof {
                kana_seq().index_of_first_ensures(c);
            }
            return Some(i as u8);
        }
        i = i + 1;
    }
    assert(forall|j: int| 0 <= j < kana_seq().len() ==> kana_seq()[j] != c);
    None
}

} // verus!

verus! {

/// The first position of `c` in the password alphabet, as a mathematical
/// value.
pub open spec fn password_index_of(c: char) -> int {
    password_seq().index_of_first(c)->Some_0
}

/// The first position of `c` in the password alphabet, or nothing when
/// the alphabet does not hold it.
pub fn password_position(c: char) -> (r: Option<u8>)
    ensures
        match r {
            Option::Some(i) => i < 64 && password_seq()[i as int] == c && password_seq().contains(c)
                && i as int == password_index_of(c),
            Option::None => !password_seq().contains(c),
        },
{
    let table = password_table();
    let mut i: usize = 0;
    while i < table.len()
        invariant
            table@ == password_seq(),
            i <= table@.len(),
            forall|j: int| 0 <= j < i ==> password_seq()[j] != c,
        decreases table@.len() - i,
    {
        if table[i] == c {
            proof {
                password_seq().index_of_first_ensures(c);
            }
            return Some(i as u8);
        }
        i = i + 1;
    }
    assert(forall|j: int| 0 <= j < password_seq().len() ==> password_seq()[j] != c);
    None
}

} // verus!
