use dot_node::{check_name, new_name, NameError, Node};

#[test]
fn accepts_letters_underscore_and_dot_at_the_start() {
    for name in ["a", "z", "A", "Z", "m", "_", ".", "_x", ".hidden", "Node"] {
        assert_eq!(check_name(name), None);
        assert_eq!(new_name(name), name);
    }
}

#[test]
fn accepts_digits_after_the_start() {
    for name in ["n1", "a0", "z9", "A.b_c9", "x_1.2", "_0", ".9", "a1b2c3"] {
        assert_eq!(check_name(name), None);
        assert_eq!(new_name(name), name);
    }
}

#[test]
fn accepted_name_comes_back_unchanged() {
    assert_eq!(check_name("Some.Long_name.42"), None);
    let id: String = new_name("Some.Long_name.42");
    assert_eq!(id, "Some.Long_name.42");
}

#[test]
fn rejects_the_empty_name() {
    assert_eq!(check_name(""), Some(NameError::BadStart));
}

#[test]
fn rejects_a_leading_digit() {
    for name in ["0", "9", "1abc", "42", "7_"] {
        assert_eq!(check_name(name), Some(NameError::BadStart));
    }
}

#[test]
fn rejects_leading_punctuation_and_space() {
    for name in ["-x", " a", "\"a\"", "[n]", "<b>", "$v", "\\n", "\ta", "\na", "-", "@", "`", "{", "/"] {
        assert_eq!(check_name(name), Some(NameError::BadStart));
    }
}

#[test]
fn rejects_a_bad_character_after_the_start() {
    for name in ["a b", "a-b", "a\"b", "ab ", "a\\", "a\nb", "x[0]", "n1;", "a,b", "a:b", "a/b", "a@", "a`", "a{"] {
        assert_eq!(check_name(name), Some(NameError::BadConstituent));
    }
}

#[test]
fn rejects_letters_outside_ascii() {
    assert_eq!(check_name("\u{e9}t\u{e9}"), Some(NameError::BadStart));
    assert_eq!(check_name("caf\u{e9}"), Some(NameError::BadConstituent));
    assert_eq!(check_name("n\u{660}"), Some(NameError::BadConstituent));
    assert_eq!(check_name("\u{3b1}"), Some(NameError::BadStart));
}

#[test]
fn a_bad_start_is_reported_before_a_bad_later_character() {
    assert_eq!(check_name("1 2"), Some(NameError::BadStart));
    assert_eq!(check_name(" a b"), Some(NameError::BadStart));
}

#[test]
fn a_late_bad_character_is_found() {
    assert_eq!(check_name("abcdefghijklmnopqrstuvwxyz0123456789!"), Some(NameError::BadConstituent));
    assert_eq!(check_name("abcdefghijklmnopqrstuvwxyz0123456789"), None);
    assert_eq!(new_name("abcdefghijklmnopqrstuvwxyz0123456789"), "abcdefghijklmnopqrstuvwxyz0123456789");
}

#[test]
fn boundaries_of_the_accepted_ranges() {
    // the characters just outside 'a'..'z', 'A'..'Z' and '0'..'9'
    for c in ['`', '{', '@', '[', '/', ':'] {
        assert_eq!(check_name(&format!("{}", c)), Some(NameError::BadStart));
        assert_eq!(check_name(&format!("a{}", c)), Some(NameError::BadConstituent));
    }
    for c in ['a', 'z', 'A', 'Z'] {
        assert_eq!(check_name(&format!("{}", c)), None);
    }
    for c in ['0', '9'] {
        assert_eq!(check_name(&format!("{}", c)), Some(NameError::BadStart));
        assert_eq!(check_name(&format!("a{}", c)), None);
    }
}

#[test]
fn messages_tell_the_two_faults_apart() {
    assert_eq!(
        NameError::BadStart.message(),
        "The name of the node should start with a letter or underscore or dot"
    );
    assert_eq!(
        NameError::BadConstituent.message(),
        "The name of the node should only contain letter/number/underscore/dot"
    );
    assert_ne!(NameError::BadStart.message(), NameError::BadConstituent.message());
}

#[test]
fn a_refused_name_comes_with_the_message_of_its_fault() {
    let first = "The name of the node should start with a letter or underscore or dot";
    let later = "The name of the node should only contain letter/number/underscore/dot";
    assert_eq!(check_name("9x").map(|fault| fault.message()), Some(first));
    assert_eq!(check_name("").map(|fault| fault.message()), Some(first));
    assert_eq!(check_name("x-9").map(|fault| fault.message()), Some(later));
    assert_eq!(check_name("a\u{e9}").map(|fault| fault.message()), Some(later));
    assert_eq!(check_name("x9").map(|fault| fault.message()), None);
}

#[test]
fn node_keeps_the_name_it_was_made_with() {
    for name in ["a", "_x", ".hidden", "A.b_c9", "z0"] {
        assert_eq!(check_name(name), None);
        let node = Node::new(name);
        assert_eq!(node.name(), name);
    }
}

#[test]
fn setters_leave_the_name_alone() {
    let node = Node::new("n1")
        .label("another")
        .url(String::from("http://example.org"))
        .color(Some("red"))
        .shape(Some("box"));
    assert_eq!(node.name(), "n1");
}
