use damdara::binary_utils::{combine_bits, get_bits};
use damdara::load::{
    decode_password_string, reorder_blocks_back, undo_password_addition,
};
use damdara::save::{calculate_crc_from_bits, reorder_password_bits};
use damdara::save_data::SaveData;
use damdara::string_utils::{nth_char, normalize_to_4_chars, split_dakuten};

#[test]
fn test_encode_name_to_bits_exact_value() {
    let save = SaveData::new();
    let result = save.encode_name_to_bits().unwrap();
    assert_eq!(result, 12109579, "bit pattern for the default name is incorrect");
    assert_eq!(format!("{:024b}", result), "101110001100011100001011");
}

#[test]
fn test_name_as_binary() {
    let save = SaveData::new();
    let binary = save.name_as_binary();
    assert_eq!(binary, "101110001100011100001011");
}

#[test]
fn test_full_bitstring_length_is_120() {
    let save = SaveData::new();
    let bitstring = save.full_bitstring().unwrap();
    assert_eq!(bitstring.chars().count(), 120, "bitstring length is not 120");
}

#[test]
fn test_experience_bytes() {
    let save = SaveData { experience: 43981, ..Default::default() };
    assert_eq!(save.experience_low_byte(), 0xCD);
    assert_eq!(save.experience_high_byte(), 0xAB);
}

#[test]
fn test_gold_bytes() {
    let save = SaveData { gold: 64206, ..Default::default() };
    assert_eq!(save.gold_low_byte(), 0xCE);
    assert_eq!(save.gold_high_byte(), 0xFA);
}

#[test]
fn test_get_name_char_index() {
    let save = SaveData::new();
    assert_eq!(save.get_name_char_index(1), Ok(46));
    assert_eq!(save.get_name_char_index(2), Ok(12));
    assert_eq!(save.get_name_char_index(3), Ok(28));
    assert_eq!(save.get_name_char_index(4), Ok(11));
    assert!(save.get_name_char_index(0).is_err());
    assert!(save.get_name_char_index(5).is_err());
}

#[test]
fn test_get_name_char_binary() {
    let save = SaveData::new();
    assert_eq!(save.get_name_char_binary(1), "101110");
    assert_eq!(save.get_name_char_binary(2), "001100");
    assert_eq!(save.get_name_char_binary(3), "011100");
    assert_eq!(save.get_name_char_binary(4), "001011");
}

#[test]
fn test_pattern_bit_index() {
    let save = SaveData { pattern: 0b101, ..Default::default() };
    assert_eq!(save.pattern_bit_index(1), Ok(1));
    assert_eq!(save.pattern_bit_index(2), Ok(0));
    assert_eq!(save.pattern_bit_index(3), Ok(1));
    assert!(save.pattern_bit_index(0).is_err());
    assert!(save.pattern_bit_index(4).is_err());
}

#[test]
fn test_cursed_check_code() {
    let save = SaveData { pattern: 0b100, has_cursed_necklace: true, ..Default::default() };
    let result = save.cursed_check_code().unwrap();
    assert_eq!(result, 0b11011100);
}

#[test]
fn test_item_index_binary() {
    let save = SaveData { items: [1, 2, 3, 4, 0, 0, 0, 0], ..Default::default() };
    assert_eq!(save.item_index_binary(4), Ok("0100".to_string()));
    assert_eq!(save.item_index_binary(3), Ok("0011".to_string()));
    assert!(save.item_index_binary(0).is_err());
    assert!(save.item_index_binary(9).is_err());
}

#[test]
fn test_sum_item_index_binary() {
    let save = SaveData { items: [1, 2, 3, 4, 0, 0, 0, 0], ..Default::default() };
    assert_eq!(save.sum_item_index_binary(4, 3), Ok("01000011".to_string()));
    assert_eq!(save.sum_item_index_binary(1, 2), Ok("00010010".to_string()));
    assert!(save.sum_item_index_binary(0, 3).is_err());
    assert!(save.sum_item_index_binary(3, 9).is_err());
}

#[test]
fn test_build_password_base_bit_length() {
    let save = SaveData::new();
    let result = save.build_password_base().unwrap();
    assert_eq!(result.len(), 15, "the output does not hold 15 groups");
    let total_len: usize = result.iter().map(|s| s.chars().count()).sum();
    assert_eq!(total_len, 120, "the total bit length is not 120");
    for (i, s) in result.iter().enumerate() {
        assert_eq!(s.chars().count(), 8, "group {} is not 8 bits long", i);
        assert!(s.chars().all(|c| c == '0' || c == '1'), "group {} holds an invalid character", i);
    }
}

#[test]
fn test_calculate_crc_from_bits() {
    let dummy = vec![
        "00000000", "01010010", "00001101", "10010111", "00100111", "00010010", "01011100",
        "10011001", "01001100", "00111011", "00010100", "10100010", "00001011", "11001001",
        "01010000",
    ]
    .into_iter()
    .map(String::from)
    .collect::<Vec<_>>();
    let crc = calculate_crc_from_bits(&dummy).unwrap();
    assert_eq!(crc.chars().count(), 8);
    assert!(crc.chars().all(|c| c == '0' || c == '1'));
}

#[test]
fn test_reorder_block() {
    let input = "111011110011110100010001000000000000000000000000000000000000000000000000000000000000000000000000000000000000000000000000";
    let reordered = reorder_password_bits(input).unwrap();
    assert_eq!(reordered[0], "101111");
    assert_eq!(reordered[1], "110111");
    assert_eq!(reordered[2], "010011");
    assert_eq!(reordered[3], "000100");
    assert_eq!(reordered.len(), 20);
}

#[test]
fn test_to_password_string_is_20_chars() {
    let save = SaveData::new();
    let password = save.to_password_string().unwrap();
    assert_eq!(password.chars().count(), 20);
}

#[test]
fn test_valid_password_string() {
    let kana = "あいうえおかきくけこさしすせそたちつてと";
    let result = decode_password_string(kana).unwrap();
    assert_eq!(result.len(), 20);
    assert_eq!(result[0], 0);
    assert_eq!(result[1], 1);
    assert_eq!(result[4], 4);
    assert_eq!(result[15], 15);
}

#[test]
fn test_password_too_short() {
    let short = "あいうえお";
    let err = decode_password_string(short).unwrap_err();
    assert!(err.contains("20文字"));
}

#[test]
fn test_invalid_character() {
    let bad = "あいうえおかきくけこさしすせそたちつて💥";
    let err = decode_password_string(bad).unwrap_err();
    assert!(err.contains("未対応の文字"));
}

#[test]
fn test_undo_password_addition_normal_case() {
    let raw = vec![10, 20, 30, 40, 50, 12, 18, 24, 30, 36, 15, 23, 31, 39, 47, 5, 10, 20, 30, 40];
    let mut encoded = vec![0u8; 20];
    for i in 0..20 {
        encoded[i] = (raw[i] + 4 + if i > 0 { encoded[i - 1] } else { 0 }) % 64;
    }
    let decoded = undo_password_addition(&encoded).unwrap();
    assert_eq!(decoded, raw);
}

#[test]
fn test_undo_password_addition_invalid_length() {
    let too_short = vec![1, 2, 3];
    let result = undo_password_addition(&too_short);
    assert!(result.is_err());
    assert!(result.unwrap_err().contains("20個のビット列"));
}

#[test]
fn test_reorder_blocks_back_roundtrip() {
    let original_bytes: Vec<u8> = (0..15).collect();
    let mut encoded_bits = Vec::with_capacity(20);
    for chunk in original_bytes.chunks(3) {
        let byte1 = chunk[0];
        let byte2 = chunk[1];
        let byte3 = chunk[2];
        let block = ((byte3 as u32) << 16) | ((byte2 as u32) << 8) | (byte1 as u32);
        let b1 = ((block >> 18) & 0x3F) as u8;
        let b2 = ((block >> 12) & 0x3F) as u8;
        let b3 = ((block >> 6) & 0x3F) as u8;
        let b4 = (block & 0x3F) as u8;
        encoded_bits.push(b4);
        encoded_bits.push(b3);
        encoded_bits.push(b2);
        encoded_bits.push(b1);
    }
    let decoded = reorder_blocks_back(&encoded_bits).unwrap();
    assert_eq!(decoded, original_bytes);
}

#[test]
fn test_reorder_blocks_back_invalid_length() {
    let invalid_bits = vec![1, 2, 3];
    let result = reorder_blocks_back(&invalid_bits);
    assert!(result.is_err());
    assert!(result.unwrap_err().contains("20"));
}

#[test]
fn binary_utils_test_combine_bits_simple() {
    let byte = combine_bits(&[(0b101, 3), (0b011, 3), (0b10, 2)]).unwrap();
    assert_eq!(byte, 0b10101110);
}

#[test]
fn string_utils_test_combine_bits_simple() {
    let byte = combine_bits(&[(0b101, 3), (0b011, 3), (0b10, 2)]).unwrap();
    assert_eq!(byte, 0b10101110);
}

#[test]
fn test_get_bits_valid_range() {
    let bit_string = "1101010101110001";
    let value = get_bits(&bit_string, 4, 8).unwrap();
    assert_eq!(value, 5);
}

#[test]
fn test_get_bits_out_of_bounds() {
    let bit_string = "1010";
    let result = get_bits(&bit_string, 0, 8);
    assert!(result.is_err());
    assert!(result.unwrap_err().contains("bit range out of bounds"));
}

#[test]
fn test_get_bits_parse_error() {
    let bit_string = "1010XYZ101";
    let result = get_bits(&bit_string, 4, 7);
    assert!(result.is_err());
    assert!(result.unwrap_err().contains("bit parse error"));
}

#[test]
fn test_split_dakuten_simple() {
    assert_eq!(split_dakuten("だい"), "た゛い");
    assert_eq!(split_dakuten("がぎぐげご"), "か゛き゛く゛け゛こ゛");
    assert_eq!(split_dakuten("ぱぴぷぺぽ"), "は゜ひ゜ふ゜へ゜ほ゜");
}

#[test]
fn test_split_dakuten_mixed() {
    assert_eq!(split_dakuten("だいがく"), "た゛いか゛く");
    assert_eq!(split_dakuten("おはよう"), "おはよう");
    assert_eq!(split_dakuten("ばななとぱいん"), "は゛ななとは゜いん");
}

#[test]
fn test_split_dakuten_empty() {
    assert_eq!(split_dakuten(""), "");
}

#[test]
fn test_exactly_4_chars() {
    assert_eq!(normalize_to_4_chars("あいうえ"), "あいうえ");
}

#[test]
fn test_less_than_4_chars() {
    assert_eq!(normalize_to_4_chars("あい"), "あい　　");
    assert_eq!(normalize_to_4_chars("た"), "た　　　");
    assert_eq!(normalize_to_4_chars(""), "　　　　");
}

#[test]
fn test_more_than_4_chars() {
    assert_eq!(normalize_to_4_chars("あいうえお"), "あいうえ");
    assert_eq!(normalize_to_4_chars("だいがくせい"), "だいがく");
}

#[test]
fn test_combined_with_dakuten() {
    assert_eq!(normalize_to_4_chars("た゛い"), "た゛い　");
    assert_eq!(normalize_to_4_chars("た゛いた゛い"), "た゛いた");
}

#[test]
fn test_nth_char() {
    assert_eq!(nth_char("あいうえ", 1), Ok('あ'));
    assert_eq!(nth_char("あいうえ", 4), Ok('え'));
    assert!(nth_char("あい", 5).is_err());
    assert!(nth_char("うえ", 0).is_err());
}

#[test]
fn test_raw_bits_roundtrip_and_crc() {
    let save = SaveData::new();
    let raw = damdara::raw_bits::RawBits120::from_save_data(&save).unwrap();
    assert_eq!(raw.checksum(), 0, "the checksum slot starts empty");
    assert_eq!(raw.payload().len(), 14);
    assert!(!raw.verify_crc() || raw.checksum() == 0);
    let back = raw.to_save_data().unwrap();
    assert_eq!(back.name, save.name);
    assert_eq!(back.experience, save.experience);
    assert_eq!(back.gold, save.gold);
    assert_eq!(back.items, save.items);
}
