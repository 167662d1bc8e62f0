use daisyway::etsi014::{Etsi014Key, ResponseKey, ResponseKeys};
use daisyway::simulator::{
    find, handle_keys, key_response, next_key_id, BadRequest, KeyRequest, DEC_KEYS, ENC_KEYS,
    KEY_ID_PARAM,
};

const RFC_TEXT: &str = "a1a2a3a4-b1b2-c1c2-d1d2-d3d4d5d6d7d8";

fn le_id() -> [u8; 16] {
    [
        0xa4, 0xa3, 0xa2, 0xa1, 0xb2, 0xb1, 0xc2, 0xc1, 0xd1, 0xd2, 0xd3, 0xd4, 0xd5, 0xd6, 0xd7,
        0xd8,
    ]
}

#[test]
fn simulator_texts_are_what_they_say() {
    assert_eq!(DEC_KEYS.to_vec(), b"dec_keys".to_vec());
    assert_eq!(ENC_KEYS.to_vec(), b"enc_keys".to_vec());
    assert_eq!(KEY_ID_PARAM.to_vec(), b"key_ID=".to_vec());
}

#[test]
fn find_gives_the_first_position() {
    assert_eq!(find(b"abcabc", b"bc"), Some(1));
    assert_eq!(find(b"abcabc", b"abc"), Some(0));
    assert_eq!(find(b"abcabc", b"cab"), Some(2));
    assert_eq!(find(b"aaab", b"ab"), Some(2));
    assert_eq!(find(b"abc", b"abc"), Some(0));
}

#[test]
fn find_misses_what_is_not_there() {
    assert_eq!(find(b"abcabc", b"abd"), None);
    assert_eq!(find(b"ab", b"abc"), None);
    assert_eq!(find(b"", b"a"), None);
}

#[test]
fn find_of_nothing_is_at_the_start() {
    assert_eq!(find(b"abc", b""), Some(0));
    assert_eq!(find(b"", b""), Some(0));
}

#[test]
fn enc_keys_asks_for_any_key() {
    let res = handle_keys(b"/api/v1/keys/sae/enc_keys", Some(b"number=1&key_length=256"));
    assert!(matches!(res, Ok(KeyRequest::Enc)));
    let res = handle_keys(b"/api/v1/keys/sae/enc_keys", None);
    assert!(matches!(res, Ok(KeyRequest::Enc)));
}

#[test]
fn dec_keys_asks_for_the_named_key() {
    let query = format!("key_ID={}", RFC_TEXT);
    let res = handle_keys(b"/api/v1/keys/sae/dec_keys", Some(query.as_bytes()));
    assert!(matches!(res, Ok(KeyRequest::Dec(id)) if id == le_id()));

    let query = format!("x=1&key_ID={}", RFC_TEXT);
    let res = handle_keys(b"/api/v1/keys/sae/dec_keys", Some(query.as_bytes()));
    assert!(matches!(res, Ok(KeyRequest::Dec(id)) if id == le_id()));
}

#[test]
fn dec_keys_wins_over_enc_keys() {
    let query = format!("key_ID={}", RFC_TEXT);
    let res = handle_keys(b"/api/v1/keys/enc_keys/dec_keys", Some(query.as_bytes()));
    assert!(matches!(res, Ok(KeyRequest::Dec(_))));
    let res = handle_keys(b"/api/v1/keys/enc_keys/dec_keys", None);
    assert!(matches!(res, Err(BadRequest::MissingQuery)));
}

#[test]
fn bad_requests() {
    assert!(matches!(
        handle_keys(b"/api/v1/keys/sae/status", None),
        Err(BadRequest::UnknownEndpoint)
    ));
    assert!(matches!(
        handle_keys(b"/api/v1/keys/sae/dec_keys", None),
        Err(BadRequest::MissingQuery)
    ));
    assert!(matches!(
        handle_keys(b"/api/v1/keys/sae/dec_keys", Some(b"key_id=1")),
        Err(BadRequest::MissingKeyId)
    ));
    assert!(matches!(
        handle_keys(b"/api/v1/keys/sae/dec_keys", Some(b"key_ID=not-a-uuid")),
        Err(BadRequest::InvalidKeyId)
    ));
    // Everything after `key_ID=` has to be the identifier.
    let query = format!("key_ID={}&x=1", RFC_TEXT);
    assert!(matches!(
        handle_keys(b"/api/v1/keys/sae/dec_keys", Some(query.as_bytes())),
        Err(BadRequest::InvalidKeyId)
    ));
}

#[test]
fn bad_request_messages() {
    assert_eq!(
        BadRequest::UnknownEndpoint.message(),
        "Only one of /dec_keys or /enc_keys is allowed"
    );
    assert_eq!(BadRequest::MissingQuery.message(), "key_ID parameter is required");
    assert_eq!(BadRequest::MissingKeyId.message(), "Invalid key_ID format");
    assert_eq!(BadRequest::InvalidKeyId.message(), "Invalid key_ID format");
}

#[test]
fn counter_keys_are_numbered() {
    let mut one = [0u8; 16];
    one[15] = 1;
    assert_eq!(next_key_id(1), one);
    assert_eq!(next_key_id(0), [0u8; 16]);
    assert_eq!(
        next_key_id(0x0102030405060708),
        [0, 0, 0, 0, 0, 0, 0, 0, 1, 2, 3, 4, 5, 6, 7, 8]
    );
    assert_eq!(
        next_key_id(u64::MAX),
        [0, 0, 0, 0, 0, 0, 0, 0, 255, 255, 255, 255, 255, 255, 255, 255]
    );
}

#[test]
fn key_is_the_identifier_twice() {
    let response = key_response(&le_id());
    assert_eq!(response.key_id, RFC_TEXT);
    assert_eq!(response.key, "oaKjpLGywcLR0tPU1dbX2KGio6SxssHC0dLT1NXW19g=");

    let response = key_response(&next_key_id(1));
    assert_eq!(response.key_id, "00000000-0000-0000-0000-000000000001");
    assert_eq!(response.key, "AAAAAAAAAAAAAAAAAAAAAQAAAAAAAAAAAAAAAAAAAAE=");
}

#[test]
fn simulated_key_round_trips_through_the_daemon() {
    let response = key_response(&le_id());
    let keys = ResponseKeys { keys: vec![ResponseKey { id: le_id(), key: response.key }] };
    let key = Etsi014Key::try_from(keys).expect("the stand-in hands out keys of 32 octets");
    let rfc = [
        0xa1, 0xa2, 0xa3, 0xa4, 0xb1, 0xb2, 0xc1, 0xc2, 0xd1, 0xd2, 0xd3, 0xd4, 0xd5, 0xd6, 0xd7,
        0xd8,
    ];
    assert_eq!(key.key[..16].to_vec(), rfc.to_vec());
    assert_eq!(key.key[16..].to_vec(), rfc.to_vec());
}
