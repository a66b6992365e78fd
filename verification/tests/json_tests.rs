use crud_api::user::{user_list_to_json, User};

fn user(id: Option<i32>, name: &str, email: &str) -> User {
    User { id, name: String::from(name), email: String::from(email) }
}

#[test]
fn writes_a_user_as_an_object() {
    assert_eq!(
        user(Some(1), "Ada", "ada@x.com").to_json(),
        "{\"id\":1,\"name\":\"Ada\",\"email\":\"ada@x.com\"}"
    );
    assert_eq!(
        user(Some(-12), "", "").to_json(),
        "{\"id\":-12,\"name\":\"\",\"email\":\"\"}"
    );
}

#[test]
fn writes_a_missing_id_as_null() {
    assert_eq!(
        user(None, "Ada", "ada@x.com").to_json(),
        "{\"id\":null,\"name\":\"Ada\",\"email\":\"ada@x.com\"}"
    );
}

#[test]
fn escapes_quotes_and_backslashes() {
    assert_eq!(
        user(Some(2), "a\"b", "c\\d").to_json(),
        "{\"id\":2,\"name\":\"a\\\"b\",\"email\":\"c\\\\d\"}"
    );
}

#[test]
fn escapes_control_characters() {
    assert_eq!(
        user(Some(3), "\u{8}\t\n\u{c}\r", "\u{0}\u{1}\u{b}\u{1f}").to_json(),
        "{\"id\":3,\"name\":\"\\b\\t\\n\\f\\r\",\"email\":\"\\u0000\\u0001\\u000b\\u001f\"}"
    );
}

#[test]
fn leaves_other_characters_alone() {
    assert_eq!(
        user(Some(4), "/ \u{7f} é ✓ 😀", "<a&b>'").to_json(),
        "{\"id\":4,\"name\":\"/ \u{7f} é ✓ 😀\",\"email\":\"<a&b>'\"}"
    );
}

#[test]
fn quotes_as_serde_json_does() {
    for text in ["", "plain", "a\"b\\c", "\u{0}\u{1f} \u{20}", "line\r\nbreak", "é✓😀\u{7f}\u{80}"] {
        let quoted = serde_json::to_string(text).unwrap();
        assert_eq!(
            user(Some(0), text, text).to_json(),
            format!("{{\"id\":0,\"name\":{},\"email\":{}}}", quoted, quoted)
        );
    }
}

#[test]
fn writes_an_empty_list() {
    assert_eq!(user_list_to_json(&Vec::new()), "[]");
}

#[test]
fn writes_a_list_in_order() {
    assert_eq!(
        user_list_to_json(&vec![user(Some(7), "a", "b")]),
        "[{\"id\":7,\"name\":\"a\",\"email\":\"b\"}]"
    );
    assert_eq!(
        user_list_to_json(&vec![
            user(Some(2), "b", "b@x"),
            user(Some(1), "a", "a@x"),
            user(None, "c", "c@x"),
        ]),
        "[{\"id\":2,\"name\":\"b\",\"email\":\"b@x\"},{\"id\":1,\"name\":\"a\",\"email\":\"a@x\"},{\"id\":null,\"name\":\"c\",\"email\":\"c@x\"}]"
    );
}

#[test]
fn what_is_written_is_json() {
    let list = vec![user(Some(1), "A \"quoted\" name", "a\\b@x\n"), user(None, "\u{1}", "é")];
    let value: serde_json::Value = serde_json::from_str(&user_list_to_json(&list)).unwrap();
    let items = value.as_array().unwrap();
    assert_eq!(items.len(), 2);
    assert_eq!(items[0].get("id").unwrap().as_i64(), Some(1));
    assert_eq!(items[0].get("name").unwrap().as_str(), Some("A \"quoted\" name"));
    assert_eq!(items[0].get("email").unwrap().as_str(), Some("a\\b@x\n"));
    assert!(items[1].get("id").unwrap().is_null());
    assert_eq!(items[1].get("name").unwrap().as_str(), Some("\u{1}"));
    assert_eq!(items[1].get("email").unwrap().as_str(), Some("é"));
}

/// A string between quotation marks, each character escaped by the rule the
/// library states for it.
fn quoted(text: &str) -> String {
    let mut out = String::from("\"");
    for c in text.chars() {
        match c {
            '"' => out.push_str("\\\""),
            '\\' => out.push_str("\\\\"),
            '\u{8}' => out.push_str("\\b"),
            '\t' => out.push_str("\\t"),
            '\n' => out.push_str("\\n"),
            '\u{c}' => out.push_str("\\f"),
            '\r' => out.push_str("\\r"),
            c if (c as u32) < 0x20 => {
                let digits = ['0', '1', '2', '3', '4', '5', '6', '7', '8', '9', 'a', 'b', 'c', 'd', 'e', 'f'];
                out.push_str("\\u00");
                out.push(digits[(c as usize) / 16]);
                out.push(digits[(c as usize) % 16]);
            }
            c => out.push(c),
        }
    }
    out.push('"');
    out
}

#[test]
fn every_character_is_escaped_by_the_stated_rule() {
    let mut codes: Vec<u32> = (0..0x3000).collect();
    codes.extend([0xd7ff, 0xe000, 0xfffd, 0xffff, 0x10000, 0x1f600, 0x10ffff]);
    for code in codes {
        let c = char::from_u32(code).unwrap();
        let alone = c.to_string();
        let within = format!("a{}b{}", c, c);
        for text in [alone, within] {
            assert_eq!(
                user(Some(5), &text, "e").to_json(),
                format!("{{\"id\":5,\"name\":{},\"email\":\"e\"}}", quoted(&text))
            );
        }
    }
}
