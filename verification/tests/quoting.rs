use dot_node::quote_string;

#[test]
fn plain_text_is_only_wrapped() {
    assert_eq!(quote_string(String::from("red")), "\"red\"");
    assert_eq!(quote_string(String::from("n1")), "\"n1\"");
    assert_eq!(quote_string(String::from("two words")), "\"two words\"");
}

#[test]
fn empty_text_gives_two_quotes() {
    assert_eq!(quote_string(String::new()), "\"\"");
}

#[test]
fn quoting_never_hands_the_text_back_as_it_is() {
    for text in ["", "a", "red", "\"", "\\", "a\"b"] {
        assert_ne!(quote_string(String::from(text)), text);
    }
}

#[test]
fn double_quote_is_escaped() {
    assert_eq!(quote_string(String::from("say \"hi\"")), "\"say \\\"hi\\\"\"");
    assert_eq!(quote_string(String::from("\"")), "\"\\\"\"");
}

#[test]
fn backslash_is_escaped() {
    assert_eq!(quote_string(String::from("a\\b")), "\"a\\\\b\"");
    assert_eq!(quote_string(String::from("\\")), "\"\\\\\"");
    assert_eq!(quote_string(String::from("\\\"")), "\"\\\\\\\"\"");
}

#[test]
fn line_feed_is_kept_behind_a_backslash() {
    assert_eq!(quote_string(String::from("one\ntwo")), "\"one\\\ntwo\"");
    assert_eq!(quote_string(String::from("\n")), "\"\\\n\"");
}

#[test]
fn other_characters_pass_through() {
    assert_eq!(quote_string(String::from("tab\there")), "\"tab\there\"");
    assert_eq!(quote_string(String::from("caf\u{e9} \u{1f600}")), "\"caf\u{e9} \u{1f600}\"");
    assert_eq!(quote_string(String::from("a'b<c>&d")), "\"a'b<c>&d\"");
    assert_eq!(quote_string(String::from("\r")), "\"\r\"");
}

#[test]
fn quoted_length_counts_one_more_for_each_escape() {
    let text = "a\"b\\c\nd";
    let quoted = quote_string(String::from(text));
    assert_eq!(quoted.chars().count(), text.chars().count() + 2 + 3);
}

/// Reads a quoted text back, taking the character after a backslash as it is.
fn read_back(quoted: &str) -> Option<String> {
    let chars: Vec<char> = quoted.chars().collect();
    if chars.len() < 2 || chars[0] != '"' || chars[chars.len() - 1] != '"' {
        return None;
    }
    let mut out = String::new();
    let mut i = 1;
    while i < chars.len() - 1 {
        if chars[i] == '\\' {
            if i + 1 >= chars.len() - 1 {
                return None;
            }
            out.push(chars[i + 1]);
            i += 2;
        } else if chars[i] == '"' {
            return None;
        } else {
            out.push(chars[i]);
            i += 1;
        }
    }
    Some(out)
}

#[test]
fn quoted_text_reads_back() {
    for text in [
        "",
        "plain",
        "\"",
        "\\",
        "\n",
        "\\\"",
        "\"\\",
        "\\\\",
        "ends with a backslash\\",
        "a \"quoted\" word\nand a second line with a \\ in it",
        "\"\"\"",
        "\\n",
    ] {
        assert_eq!(read_back(&quote_string(String::from(text))), Some(String::from(text)));
    }
}
