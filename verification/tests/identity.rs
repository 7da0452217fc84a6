use noodle::ident::{content_fingerprint, stable_vector_id, to_hex};

#[test]
fn fingerprint_known_value() {
    let fp = content_fingerprint(
        "Project X status",
        "alice@example.com",
        "We are blocked on vendor sign-off; need response by Friday",
    );
    assert_eq!(fp, "d618ac6409ed996fa5db0e56f35533334f0299f7940a9341ab9f06bd4caa1ba6");
    assert_eq!(fp.len(), 64);
}

#[test]
fn fingerprint_is_stable() {
    let a = content_fingerprint("s", "f", "b");
    let b = content_fingerprint("s", "f", "b");
    assert_eq!(a, b);
}

#[test]
fn fingerprint_changes_with_subject() {
    let base = content_fingerprint(
        "Project X status",
        "alice@example.com",
        "We are blocked on vendor sign-off; need response by Friday",
    );
    let changed = content_fingerprint(
        "Project Y status",
        "alice@example.com",
        "We are blocked on vendor sign-off; need response by Friday",
    );
    assert_ne!(base, changed);
    assert_eq!(changed, "c90177afd8a0bfaeec1e595884044c8edeec34217e9efcd36aacd4a992956652");
}

#[test]
fn fingerprint_changes_with_sender_and_body() {
    let base = content_fingerprint("subject", "sender", "body");
    assert_ne!(base, content_fingerprint("subject", "other", "body"));
    assert_ne!(base, content_fingerprint("subject", "sender", "other"));
}

#[test]
fn stable_vector_id_known_value() {
    assert_eq!(stable_vector_id("outlook", "entry-1"), 15953084373646506182u64);
    assert_eq!(stable_vector_id("outlook", "entry-2"), 7211068219938510965u64);
}

#[test]
fn stable_vector_id_is_pure() {
    let a = stable_vector_id("outlook", "entry-1");
    let b = stable_vector_id("outlook", "entry-1");
    assert_eq!(a, b);
}

#[test]
fn hex_rendering() {
    assert_eq!(to_hex(&[0x00u8, 0x0f, 0xa5, 0xff]), "000fa5ff");
    assert_eq!(to_hex(&[]), "");
}
