use daisyway::crypto::hash_domain::HashDomain;
use sha3::digest::{ExtendableOutput, Update, XofReader};
use sha3::Shake256;

fn hash_domain_hex(bytes: &[u8]) -> String {
    let mut s = String::new();
    for b in bytes {
        s.push_str(&format!("{:02x}", b));
    }
    s
}

fn counting_key() -> [u8; 32] {
    let mut key = [0u8; 32];
    for (i, b) in key.iter_mut().enumerate() {
        *b = i as u8;
    }
    key
}

fn shake(key: &[u8], data: &[u8], len: usize) -> Vec<u8> {
    let mut hasher = Shake256::default();
    hasher.update(key);
    hasher.update(data);
    let mut reader = hasher.finalize_xof();
    let mut out = vec![0u8; len];
    reader.read(&mut out);
    out
}

#[test]
fn zero_domain_has_zero_key() {
    assert_eq!(HashDomain::zero().key, [0u8; 32]);
    assert_eq!(HashDomain::zero().into_key(), [0u8; 32]);
}

#[test]
fn new_keeps_the_key() {
    let key = counting_key();
    assert_eq!(HashDomain::new(key).key, key);
    assert_eq!(HashDomain::new(key).into_key(), key);
}

#[test]
fn mix_is_shake256_of_key_then_data() {
    let mixed = HashDomain::zero().mix(b"abc");
    assert_eq!(
        hash_domain_hex(&mixed.key),
        "f668e888d8e0e9e012527788fd0a4d8ca1034a649f46b8025268b0ce800d0637"
    );
}

#[test]
fn mix_of_nothing_still_hashes_the_key() {
    let mixed = HashDomain::zero().mix(b"");
    assert_eq!(
        hash_domain_hex(&mixed.key),
        "f5977c8283546a63723bc31d2619124f11db4658643336741df81757d5ad3062"
    );
    assert_ne!(mixed.key, [0u8; 32]);
}

#[test]
fn mix_depends_on_key_and_data() {
    let a = HashDomain::zero().mix(b"abc").into_key();
    let b = HashDomain::zero().mix(b"abd").into_key();
    let c = HashDomain::new(counting_key()).mix(b"abc").into_key();
    assert_ne!(a, b);
    assert_ne!(a, c);
    assert_ne!(a.to_vec(), b"abc".to_vec());
}

#[test]
fn mix_agrees_with_streaming_shake256() {
    let key = counting_key();
    let data = b"some longer input that spans more than one block of the sponge, \
                 some longer input that spans more than one block of the sponge, \
                 some longer input that spans more than one block of the sponge";
    let mixed = HashDomain::new(key).mix(data);
    assert_eq!(mixed.key.to_vec(), shake(&key, data, 32));
}

#[test]
fn mix_read_returns_the_requested_length() {
    let out: [u8; 16] = HashDomain::new(counting_key()).mix_read(b"hello");
    assert_eq!(hash_domain_hex(&out), "80e770c23c2e24952dac5d7e5932dd6b");
    let none: [u8; 0] = HashDomain::new(counting_key()).mix_read(b"hello");
    assert_eq!(none.len(), 0);
}

#[test]
fn mix_read_into_fills_the_buffer() {
    let mut out = [0xffu8; 64];
    HashDomain::new(counting_key()).mix_read_into(b"hello", &mut out);
    assert_eq!(
        hash_domain_hex(&out),
        "80e770c23c2e24952dac5d7e5932dd6b4c902deecea3cb8e1d25c8cfc5dadd9d\
         84f5d9f63f68c46cdc7ebf8bb1bfd4b0dd9c7cd0a2518f4122b06cc6338b58da"
    );
}

#[test]
fn mix_fork_splits_64_octets_in_order() {
    let (a, b) = HashDomain::new(counting_key()).mix_fork(b"hello");
    assert_eq!(
        hash_domain_hex(&a.key),
        "80e770c23c2e24952dac5d7e5932dd6b4c902deecea3cb8e1d25c8cfc5dadd9d"
    );
    assert_eq!(
        hash_domain_hex(&b.key),
        "84f5d9f63f68c46cdc7ebf8bb1bfd4b0dd9c7cd0a2518f4122b06cc6338b58da"
    );
}

#[test]
fn mix_trifork_splits_96_octets_in_order() {
    let (a, b, c) = HashDomain::new(counting_key()).mix_trifork(b"hello");
    assert_eq!(
        hash_domain_hex(&a.key),
        "80e770c23c2e24952dac5d7e5932dd6b4c902deecea3cb8e1d25c8cfc5dadd9d"
    );
    assert_eq!(
        hash_domain_hex(&b.key),
        "84f5d9f63f68c46cdc7ebf8bb1bfd4b0dd9c7cd0a2518f4122b06cc6338b58da"
    );
    assert_eq!(
        hash_domain_hex(&c.key),
        "ef538b09ebbd3549d9fcd1c037e054b0565825999b430d41bcce65c829fe2b90"
    );
}

#[test]
fn fork_and_trifork_agree_with_streaming_shake256() {
    let key = [7u8; 32];
    let data = [9u8; 200];
    let expected = shake(&key, &data, 96);
    let (a, b) = HashDomain::new(key).mix_fork(&data);
    assert_eq!(a.key.to_vec(), expected[0..32].to_vec());
    assert_eq!(b.key.to_vec(), expected[32..64].to_vec());
    let (x, y, z) = HashDomain::new(key).mix_trifork(&data);
    assert_eq!(x.key.to_vec(), expected[0..32].to_vec());
    assert_eq!(y.key.to_vec(), expected[32..64].to_vec());
    assert_eq!(z.key.to_vec(), expected[64..96].to_vec());
}

#[test]
fn clone_keeps_the_key() {
    let domain = HashDomain::new(counting_key());
    assert_eq!(domain.clone().key, domain.key);
}
