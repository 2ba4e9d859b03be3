use jwt_session::session_key;

#[test]
fn it_works() {
    assert_eq!(2 + 2, 4);
}

#[test]
fn key_joins_subject_and_later_segments() {
    assert_eq!(session_key::derive("42", "aaa.bbb.ccc"), "42_bbbccc");
}

#[test]
fn key_is_the_same_for_the_same_inputs() {
    let first = session_key::derive("alice", "head.body.sign");
    let second = session_key::derive("alice", "head.body.sign");
    assert_eq!(first, second);
    assert_eq!(first, "alice_bodysign");
}

#[test]
fn key_of_a_token_without_separator_has_no_material() {
    assert_eq!(session_key::derive("7", "opaque"), "7_");
    assert_eq!(session_key::derive("7", ""), "7_");
}

#[test]
fn key_drops_the_first_segment_only() {
    assert_eq!(session_key::derive("7", "head.body"), "7_body");
    assert_eq!(session_key::derive("7", ".body"), "7_body");
    assert_eq!(session_key::derive("7", "head."), "7_");
    assert_eq!(session_key::derive("7", "a.b.c.d"), "7_bcd");
    assert_eq!(session_key::derive("7", "a..b"), "7_b");
}

#[test]
fn key_keeps_characters_outside_ascii() {
    assert_eq!(session_key::derive("zoë", "x.séance.ß"), "zoë_séanceß");
}

#[test]
fn keys_of_different_subjects_differ() {
    let token = "head.body.sign";
    assert_ne!(session_key::derive("1", token), session_key::derive("2", token));
    assert_ne!(
        session_key::derive("1", "head.one.sign"),
        session_key::derive("2", "head.two.sign")
    );
}

#[test]
fn keys_of_one_subject_differ_with_the_token() {
    assert_ne!(
        session_key::derive("1", "head.body.first"),
        session_key::derive("1", "head.body.second")
    );
}

#[test]
fn a_subject_that_extends_another_can_share_its_key() {
    assert_eq!(session_key::derive("x", "h.y_z"), session_key::derive("x_y", "h.z"));
}
