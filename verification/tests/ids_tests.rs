use server_api::ids::create_id;

fn is_v4_uuid_text(s: &str) -> bool {
    let chars: Vec<char> = s.chars().collect();
    if chars.len() != 36 {
        return false;
    }
    for (i, c) in chars.iter().enumerate() {
        let hyphen = i == 8 || i == 13 || i == 18 || i == 23;
        if hyphen {
            if *c != '-' {
                return false;
            }
        } else if !(c.is_ascii_digit() || ('a'..='f').contains(c)) {
            return false;
        }
    }
    chars[14] == '4' && matches!(chars[19], '8' | '9' | 'a' | 'b')
}

#[test]
fn create_id_gives_v4_uuid_text() {
    for _ in 0..50 {
        let id = create_id();
        assert!(is_v4_uuid_text(&id), "not a v4 uuid: {}", id);
    }
}

#[test]
fn create_id_gives_fresh_ids() {
    assert_ne!(create_id(), create_id());
}
