use tap_helper::name::{validate_interface_name, InterfaceName, NameError, MAX_NAME_LEN};

#[test]
fn accepts_simple_names() {
    assert_eq!(validate_interface_name("tap0"), Ok(()));
    assert_eq!(validate_interface_name("br0"), Ok(()));
    assert_eq!(validate_interface_name("agentc-tap0"), Ok(()));
    assert_eq!(validate_interface_name("a"), Ok(()));
    assert_eq!(validate_interface_name("A_b-9"), Ok(()));
}

#[test]
fn rejects_empty_name() {
    assert_eq!(validate_interface_name(""), Err(NameError::Empty));
}

#[test]
fn accepts_fourteen_and_rejects_fifteen_bytes() {
    let fourteen = "a".repeat(14);
    let fifteen = "a".repeat(15);
    let sixteen = "a".repeat(16);
    assert_eq!(MAX_NAME_LEN, 14);
    assert_eq!(validate_interface_name(&fourteen), Ok(()));
    assert_eq!(validate_interface_name(&fifteen), Err(NameError::TooLong));
    assert_eq!(validate_interface_name(&sixteen), Err(NameError::TooLong));
}

#[test]
fn rejects_names_that_do_not_start_with_a_letter() {
    assert_eq!(validate_interface_name("0tap"), Err(NameError::BadStart));
    assert_eq!(validate_interface_name("-tap"), Err(NameError::BadStart));
    assert_eq!(validate_interface_name("_tap"), Err(NameError::BadStart));
    assert_eq!(validate_interface_name(" tap"), Err(NameError::BadStart));
}

#[test]
fn rejects_characters_outside_the_alphabet() {
    assert_eq!(
        validate_interface_name("tap 0"),
        Err(NameError::BadCharacter { found: ' ' })
    );
    assert_eq!(
        validate_interface_name("tap;rm"),
        Err(NameError::BadCharacter { found: ';' })
    );
    assert_eq!(
        validate_interface_name("tap/0"),
        Err(NameError::BadCharacter { found: '/' })
    );
    assert_eq!(
        validate_interface_name("t\u{e9}"),
        Err(NameError::BadCharacter { found: '\u{e9}' })
    );
    assert_eq!(
        validate_interface_name("a.b$c"),
        Err(NameError::BadCharacter { found: '.' })
    );
}

#[test]
fn length_in_bytes_is_judged_before_the_characters() {
    // eight characters of two bytes each: sixteen bytes
    let name = "\u{e9}".repeat(8);
    assert_eq!(validate_interface_name(&name), Err(NameError::TooLong));
    // seven of them: fourteen bytes, so the first character decides
    let name = "\u{e9}".repeat(7);
    assert_eq!(validate_interface_name(&name), Err(NameError::BadStart));
}

#[test]
fn every_short_string_is_judged_by_the_pattern() {
    let alphabet = ['a', 'Z', '5', '-', '_', '.', ' ', '\u{e9}'];
    for &first in alphabet.iter() {
        for &second in alphabet.iter() {
            let name: String = [first, second].iter().collect();
            let fits = first.is_ascii_alphabetic()
                && (second.is_ascii_alphanumeric() || second == '-' || second == '_');
            assert_eq!(validate_interface_name(&name).is_ok(), fits, "{:?}", name);
        }
    }
}

#[test]
fn name_error_messages() {
    assert_eq!(NameError::Empty.message(), "Interface name cannot be empty");
    assert_eq!(
        NameError::TooLong.message(),
        "Interface name too long (max 14 chars)"
    );
    assert_eq!(
        NameError::BadStart.message(),
        "Interface name must start with a letter"
    );
    assert_eq!(
        NameError::BadCharacter { found: ';' }.message(),
        "Invalid character in interface name: ';'"
    );
}

#[test]
fn interface_name_keeps_its_text() {
    let name = InterfaceName::parse("tap0").unwrap();
    assert_eq!(name.as_str(), "tap0");
    assert_eq!(name.duplicate().as_str(), "tap0");
    assert!(matches!(InterfaceName::parse(""), Err(NameError::Empty)));
    assert!(matches!(
        InterfaceName::parse("br missing"),
        Err(NameError::BadCharacter { found: ' ' })
    ));
}
