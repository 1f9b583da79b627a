use pcidss_oracle::canonical::canonical_message;

fn json_of(account_ids: &Vec<String>) -> Vec<u8> {
    serde_json::to_vec(account_ids).unwrap()
}

#[test]
fn canonical_message_is_the_json_encoding_of_each_character() {
    for code in 0u32..0x3000 {
        let character = char::from_u32(code).unwrap();
        let account_ids = vec![character.to_string()];
        assert_eq!(canonical_message(&account_ids).unwrap(), json_of(&account_ids));
    }
}

#[test]
fn canonical_message_is_the_json_encoding_of_characters_in_higher_planes() {
    for code in [0xd7ffu32, 0xe000, 0xfffd, 0xffff, 0x10000, 0x1f600, 0x10ffff] {
        let character = char::from_u32(code).unwrap();
        let account_ids = vec![format!("x{}y", character)];
        assert_eq!(canonical_message(&account_ids).unwrap(), json_of(&account_ids));
    }
}

#[test]
fn canonical_message_is_the_json_encoding_of_lists() {
    let lists: Vec<Vec<&str>> = vec![
        vec!["A", "B", "C"],
        vec![""],
        vec!["", ""],
        vec!["a\"b"],
        vec!["a", "b"],
        vec!["a\",\"b"],
        vec!["\\", "\\\\", "\\\""],
        vec!["line\nbreak", "tab\there", "\r\n", "\u{8}\u{c}"],
        vec!["\u{0}\u{1}\u{1f}", "\u{7f}", "/", "'"],
        vec!["d43593c715fdd31c61141abd04a99fd6822c8558854ccde39a5684e7a56da27d"],
        vec!["\u{e9}t\u{e9}", "\u{20ac}", "\u{1f600}"],
        vec![" ", "a b", "[", "]", ","],
    ];
    for list in lists {
        let account_ids: Vec<String> = list.iter().map(|id| id.to_string()).collect();
        assert_eq!(canonical_message(&account_ids).unwrap(), json_of(&account_ids));
    }
}
