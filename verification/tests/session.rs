use vargos_cli::agent::session::SessionManager;

#[test]
fn fresh_session_has_the_hyphenated_form() {
    let id = SessionManager::new_session();
    let chars: Vec<char> = id.chars().collect();
    assert_eq!(chars.len(), 36);
    for (i, c) in chars.iter().enumerate() {
        if i == 8 || i == 13 || i == 18 || i == 23 {
            assert_eq!(*c, '-');
        } else {
            assert!(c.is_ascii_digit() || ('a'..='f').contains(c));
        }
    }
    assert_eq!(chars[14], '4');
    assert!(matches!(chars[19], '8' | '9' | 'a' | 'b'));
}

#[test]
fn fresh_session_is_valid() {
    for _ in 0..32 {
        assert!(SessionManager::validate_session_id(&SessionManager::new_session()));
    }
}

#[test]
fn fresh_sessions_differ() {
    assert_ne!(SessionManager::new_session(), SessionManager::new_session());
}

#[test]
fn session_ids_are_uuids() {
    assert!(SessionManager::validate_session_id("550e8400-e29b-41d4-a716-446655440000"));
    assert!(SessionManager::validate_session_id("550E8400-E29B-41D4-A716-446655440000"));
    assert!(SessionManager::validate_session_id("550e8400e29b41d4a716446655440000"));
    assert!(SessionManager::validate_session_id("urn:uuid:550e8400-e29b-41d4-a716-446655440000"));
    assert!(!SessionManager::validate_session_id(""));
    assert!(!SessionManager::validate_session_id("not-a-uuid"));
    assert!(!SessionManager::validate_session_id("550e8400-e29b-41d4-a716-44665544000"));
    assert!(!SessionManager::validate_session_id("550e8400-e29b-41d4-a716-44665544000g"));
}

#[test]
fn every_form_of_a_uuid_is_accepted() {
    assert!(SessionManager::validate_session_id("{550e8400-e29b-41d4-a716-446655440000}"));
    assert!(SessionManager::validate_session_id("URN:UUID:550e8400-e29b-41d4-a716-446655440000"));
    assert!(SessionManager::validate_session_id("Urn:uUiD:550E8400-e29b-41D4-a716-44665544aBcD"));
    assert!(SessionManager::validate_session_id("00000000000000000000000000000000"));
    assert!(SessionManager::validate_session_id("ffffffff-ffff-ffff-ffff-ffffffffffff"));
    assert!(SessionManager::validate_session_id("ABCDEFabcdef0123456789ABCDEFabcd"));
}

#[test]
fn near_misses_are_refused() {
    // a hyphen out of place, or one too few
    assert!(!SessionManager::validate_session_id("550e8400e-29b-41d4-a716-446655440000"));
    assert!(!SessionManager::validate_session_id("550e8400-e29b-41d4-a716446655440000-"));
    assert!(!SessionManager::validate_session_id("550e8400-e29b-41d4-a716-4466-5544000"));
    // a hyphen where a digit belongs in the simple form
    assert!(!SessionManager::validate_session_id("550e8400e29b41d4a71644665544000-"));
    // digits beyond f
    assert!(!SessionManager::validate_session_id("g50e8400-e29b-41d4-a716-446655440000"));
    assert!(!SessionManager::validate_session_id("550e8400e29b41d4a716446655440g00"));
    assert!(!SessionManager::validate_session_id("550e8400-e29b-41d4-a716-44665544000G"));
    // the characters next to the digits and letters in the code table
    assert!(!SessionManager::validate_session_id("/50e8400-e29b-41d4-a716-446655440000"));
    assert!(!SessionManager::validate_session_id(":50e8400-e29b-41d4-a716-446655440000"));
    assert!(!SessionManager::validate_session_id("@50e8400-e29b-41d4-a716-446655440000"));
    assert!(!SessionManager::validate_session_id("`50e8400-e29b-41d4-a716-446655440000"));
    // braces that do not match, or hold the simple form
    assert!(!SessionManager::validate_session_id("{550e8400-e29b-41d4-a716-446655440000"));
    assert!(!SessionManager::validate_session_id("550e8400-e29b-41d4-a716-446655440000}"));
    assert!(!SessionManager::validate_session_id("(550e8400-e29b-41d4-a716-446655440000)"));
    assert!(!SessionManager::validate_session_id("{550e8400e29b41d4a716446655440000}"));
    assert!(!SessionManager::validate_session_id("{{550e8400-e29b-41d4-a716-4466554400}}"));
    // a prefix that is not the URN's, or the URN with another form
    assert!(!SessionManager::validate_session_id("urn:uuie:550e8400-e29b-41d4-a716-446655440000"));
    assert!(!SessionManager::validate_session_id("urn-uuid:550e8400-e29b-41d4-a716-446655440000"));
    assert!(!SessionManager::validate_session_id("urn:uuid:550e8400e29b41d4a716446655440000"));
    assert!(!SessionManager::validate_session_id("urn:uuid:{550e8400-e29b-41d4-a716-446655440000}"));
    // white space around it
    assert!(!SessionManager::validate_session_id(" 550e8400-e29b-41d4-a716-446655440000"));
    assert!(!SessionManager::validate_session_id("550e8400-e29b-41d4-a716-446655440000\n"));
}

#[test]
fn characters_count_not_bytes() {
    // 36 characters, one of which takes two bytes
    assert!(!SessionManager::validate_session_id("550e8400-e29b-41d4-a716-44665544000\u{e9}"));
    // 36 bytes, 35 characters
    assert!(!SessionManager::validate_session_id("550e8400-e29b-41d4-a716-4466554400\u{e9}"));
    // 32 bytes in 16 characters
    assert!(!SessionManager::validate_session_id(&"\u{e9}".repeat(16)));
    // full-width digits are no digits
    assert!(!SessionManager::validate_session_id(&"\u{ff10}".repeat(32)));
}
