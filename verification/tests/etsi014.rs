use daisyway::etsi014::{
    status_is_success, CertVerification, ClientAuth, Etsi014Config, Etsi014Connection,
    Etsi014Error, Etsi014Key, NoServerNameVerification, ResponseKey, ResponseKeys,
    ServerCertVerdict,
};
use daisyway::util::Base64Error;

fn response(id: [u8; 16], key: &str) -> ResponseKey {
    ResponseKey { id, key: key.to_string() }
}

fn connection() -> Etsi014Connection<()> {
    Etsi014Connection::new("https://qkd.example:8443".to_string(), "sae-b".to_string(), ())
}

#[test]
fn empty_key_is_nil_and_zero() {
    let key = Etsi014Key::empty();
    assert_eq!(key.id, [0u8; 16]);
    assert_eq!(key.key, [0u8; 32]);
}

#[test]
fn any_key_uri_asks_for_one_key_of_256_bits() {
    assert_eq!(
        connection().fetch_any_key_uri(),
        "https://qkd.example:8443/api/v1/keys/sae-b/enc_keys?number=1&key_length=256"
    );
}

#[test]
fn specific_key_uri_names_the_key() {
    let id = [
        0xa1, 0xa2, 0xa3, 0xa4, 0xb1, 0xb2, 0xc1, 0xc2, 0xd1, 0xd2, 0xd3, 0xd4, 0xd5, 0xd6, 0xd7,
        0xd8,
    ];
    assert_eq!(
        connection().fetch_specific_key_uri(&id),
        "https://qkd.example:8443/api/v1/keys/sae-b/dec_keys?key_ID=a4a3a2a1-b2b1-c2c1-d1d2-d3d4d5d6d7d8"
    );
}

#[test]
fn specific_key_uri_of_small_and_large_octets() {
    let mut id = [0u8; 16];
    id[0] = 0x0f;
    id[15] = 0xf0;
    assert_eq!(
        Etsi014Connection::new(String::new(), String::new(), ()).fetch_specific_key_uri(&id),
        "/api/v1/keys//dec_keys?key_ID=0000000f-0000-0000-0000-0000000000f0"
    );
    assert_eq!(
        Etsi014Connection::new(String::new(), String::new(), ()).fetch_specific_key_uri(&[0xffu8; 16]),
        "/api/v1/keys//dec_keys?key_ID=ffffffff-ffff-ffff-ffff-ffffffffffff"
    );
}

#[test]
fn connection_from_config_takes_url_and_sae() {
    let config = Etsi014Config {
        url: "https://a".to_string(),
        remote_sae_id: "peer".to_string(),
        interval_secs: Some(5),
        tls_cacert: Some("ca.pem".to_string()),
        client_auth: Some(ClientAuth {
            tls_cert: "cert.pem".to_string(),
            tls_key: "key.pem".to_string(),
        }),
        danger_allow_insecure_no_server_name_certificates: true,
    };
    let connection = Etsi014Connection::from_config(&config, 17u8);
    assert_eq!(connection.url, "https://a");
    assert_eq!(connection.remote_sae_id, "peer");
    assert_eq!(connection.client, 17);
    assert_eq!(
        connection.fetch_any_key_uri(),
        "https://a/api/v1/keys/peer/enc_keys?number=1&key_length=256"
    );
}

#[test]
fn response_with_one_key_of_32_octets() {
    let keys = ResponseKeys {
        keys: vec![response([7u8; 16], "AAECAwQFBgcICQoLDA0ODxAREhMUFRYXGBkaGxwdHh8=")],
    };
    let key = Etsi014Key::try_from(keys).expect("one key of 32 octets");
    assert_eq!(key.id, [7u8; 16]);
    let mut expected = [0u8; 32];
    for (i, b) in expected.iter_mut().enumerate() {
        *b = i as u8;
    }
    assert_eq!(key.key, expected);
}

#[test]
fn response_key_alone() {
    let key = Etsi014Key::try_from(response(
        [1u8; 16],
        "AQEBAQEBAQEBAQEBAQEBAQEBAQEBAQEBAQEBAQEBAQE=",
    ))
    .expect("a key of 32 octets");
    assert_eq!(key.id, [1u8; 16]);
    assert_eq!(key.key, [1u8; 32]);
}

#[test]
fn response_with_no_key_or_two_keys() {
    let none = Etsi014Key::try_from(ResponseKeys { keys: vec![] });
    assert!(matches!(none, Err(Etsi014Error::UnexpectedKeyCount(0))));
    let good = "AQEBAQEBAQEBAQEBAQEBAQEBAQEBAQEBAQEBAQEBAQE=";
    let two = Etsi014Key::try_from(ResponseKeys {
        keys: vec![response([1u8; 16], good), response([2u8; 16], good)],
    });
    assert!(matches!(two, Err(Etsi014Error::UnexpectedKeyCount(2))));
}

#[test]
fn response_key_that_is_not_base64() {
    let res = Etsi014Key::try_from(response([1u8; 16], "not base64 at all!!!"));
    assert!(matches!(res, Err(Etsi014Error::InvalidKeyEncoding(Base64Error::InvalidEncoding))));
    let res = Etsi014Key::try_from(response([1u8; 16], "AQEBAQEBAQEBAQEBAQEBAQEBAQEBAQEBAQEBAQEBAQE"));
    assert!(matches!(res, Err(Etsi014Error::InvalidKeyEncoding(Base64Error::InvalidEncoding))));
}

#[test]
fn response_key_of_the_wrong_length() {
    let short = Etsi014Key::try_from(response([1u8; 16], "AAECAwQFBgcICQoLDA0ODw=="));
    assert!(matches!(short, Err(Etsi014Error::InvalidKeyLength(16))));
    let empty = Etsi014Key::try_from(response([1u8; 16], ""));
    assert!(matches!(empty, Err(Etsi014Error::InvalidKeyLength(0))));
    let long = Etsi014Key::try_from(response(
        [1u8; 16],
        "AAECAwQFBgcICQoLDA0ODxAREhMUFRYXGBkaGxwdHh8g",
    ));
    assert!(matches!(long, Err(Etsi014Error::InvalidKeyEncoding(Base64Error::InvalidLength))));
}

#[test]
fn only_2xx_is_success() {
    assert!(!status_is_success(0));
    assert!(!status_is_success(199));
    assert!(status_is_success(200));
    assert!(status_is_success(204));
    assert!(status_is_success(299));
    assert!(!status_is_success(300));
    assert!(!status_is_success(404));
    assert!(!status_is_success(503));
    assert!(!status_is_success(u16::MAX));
}

#[test]
fn only_a_name_mismatch_is_forgiven() {
    assert_eq!(
        NoServerNameVerification::verify_server_cert(CertVerification::Verified),
        ServerCertVerdict::Verified
    );
    assert_eq!(
        NoServerNameVerification::verify_server_cert(CertVerification::NotValidForName),
        ServerCertVerdict::AcceptedDespiteName
    );
    assert_eq!(
        NoServerNameVerification::verify_server_cert(CertVerification::NotValidForNameContext),
        ServerCertVerdict::AcceptedDespiteName
    );
    assert_eq!(
        NoServerNameVerification::verify_server_cert(CertVerification::OtherCertificateError),
        ServerCertVerdict::Rejected
    );
    assert_eq!(
        NoServerNameVerification::verify_server_cert(CertVerification::OtherError),
        ServerCertVerdict::Rejected
    );
}
