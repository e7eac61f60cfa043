use clavis::encoding::{encode_utf16, nt_password_value, to_le_bytes, unicode_pwd_value};

fn hex(bytes: &[u8]) -> String {
    bytes.iter().map(|b| format!("{:02x}", b)).collect()
}

#[test]
fn unicode_pwd_quotes_and_encodes_as_utf16le() {
    assert_eq!(unicode_pwd_value("ab"), vec![0x22, 0, 0x61, 0, 0x62, 0, 0x22, 0]);
    assert_eq!(unicode_pwd_value(""), vec![0x22, 0, 0x22, 0]);
    assert_eq!(unicode_pwd_value("ñ"), vec![0x22, 0, 0xf1, 0, 0x22, 0]);
}

#[test]
fn characters_outside_the_bmp_become_surrogate_pairs() {
    let units = encode_utf16(&vec!['😀', 'A', '€']);
    assert_eq!(units, vec![0xD83D, 0xDE00, 0x41, 0x20AC]);
    assert_eq!(to_le_bytes(&units), vec![0x3D, 0xD8, 0x00, 0xDE, 0x41, 0x00, 0xAC, 0x20]);
    let s: String = "😀A€".to_string();
    assert_eq!(units, s.encode_utf16().collect::<Vec<u16>>());
}

#[test]
fn nt_password_hash_matches_known_values() {
    assert_eq!(hex(&nt_password_value("password")), "8846f7eaee8fb117ad06bdd830b7586c");
    assert_eq!(hex(&nt_password_value("")), "31d6cfe0d16ae931b73c59d7e0c089c0");
    assert_eq!(nt_password_value("Abcdef1!").len(), 16);
}
