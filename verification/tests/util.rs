use daisyway::util::{
    base64_to_key, key_from_base64_file, key_to_base64, run, Base64Error, CascadeExt, ConstLenExt,
    DiscardResultExt, OkExt, ReadExt, ReadOutcome, ReadStep, SomeExt,
};

fn counting() -> [u8; 32] {
    let mut key = [0u8; 32];
    for (i, b) in key.iter_mut().enumerate() {
        *b = i as u8;
    }
    key
}

const COUNTING_B64: &str = "AAECAwQFBgcICQoLDA0ODxAREhMUFRYXGBkaGxwdHh8=";

#[test]
fn base64_to_key_decodes_32_octets() {
    assert_eq!(base64_to_key(COUNTING_B64.as_bytes()), Ok(counting()));
    assert_eq!(
        base64_to_key(b"AAAAAAAAAAAAAAAAAAAAAAAAAAAAAAAAAAAAAAAAAAA="),
        Ok([0u8; 32])
    );
    assert_eq!(
        base64_to_key(b"//////////////////////////////////////////8="),
        Ok([255u8; 32])
    );
}

#[test]
fn base64_to_key_rejects_fewer_than_32_octets() {
    assert_eq!(base64_to_key(b"AQID"), Err(Base64Error::InvalidLength));
    assert_eq!(base64_to_key(b""), Err(Base64Error::InvalidLength));
    assert_eq!(
        base64_to_key(b"AAECAwQFBgcICQoLDA0ODw=="),
        Err(Base64Error::InvalidLength)
    );
    // 31 octets: one short of a key.
    assert_eq!(
        base64_to_key(b"AAECAwQFBgcICQoLDA0ODxAREhMUFRYXGBkaGxwdHg=="),
        Err(Base64Error::InvalidLength)
    );
}

#[test]
fn base64_to_key_rejects_what_is_not_base64() {
    assert_eq!(base64_to_key(b"!!!!"), Err(Base64Error::InvalidEncoding));
    assert_eq!(base64_to_key(b"AQI"), Err(Base64Error::InvalidEncoding));
    assert_eq!(
        base64_to_key(b"AAECAwQFBgcICQoLDA0ODxAREhMUFRYXGBkaGxwdHh8=\n"),
        Err(Base64Error::InvalidEncoding)
    );
}

#[test]
fn base64_to_key_rejects_more_than_32_octets() {
    assert_eq!(
        base64_to_key(b"AAECAwQFBgcICQoLDA0ODxAREhMUFRYXGBkaGxwdHh8g"),
        Err(Base64Error::InvalidLength)
    );
}

#[test]
fn key_to_base64_is_padded_standard_base64() {
    assert_eq!(key_to_base64(&counting()), COUNTING_B64);
    assert_eq!(key_to_base64(&[1u8; 32]), "AQEBAQEBAQEBAQEBAQEBAQEBAQEBAQEBAQEBAQEBAQE=");
    assert_eq!(base64_to_key(key_to_base64(&[0x5au8; 32]).as_bytes()), Ok([0x5au8; 32]));
}

#[test]
fn key_file_with_and_without_trailing_newline() {
    assert_eq!(key_from_base64_file(COUNTING_B64.as_bytes()), Ok(counting()));
    let with_newline = format!("{}\n", COUNTING_B64);
    assert_eq!(key_from_base64_file(with_newline.as_bytes()), Ok(counting()));
}

#[test]
fn key_file_trims_one_newline_only() {
    let two = format!("{}\n\n", COUNTING_B64);
    assert_eq!(key_from_base64_file(two.as_bytes()), Err(Base64Error::InvalidEncoding));
    let crlf = format!("{}\r\n", COUNTING_B64);
    assert_eq!(key_from_base64_file(crlf.as_bytes()), Err(Base64Error::InvalidEncoding));
}

#[test]
fn key_file_is_read_up_to_46_octets() {
    // 44 octets of key, a newline, and one more octet: 46 octets, the last is not a newline.
    let exact = format!("{}\nx", COUNTING_B64);
    assert_eq!(exact.len(), 46);
    assert_eq!(key_from_base64_file(exact.as_bytes()), Err(Base64Error::InvalidEncoding));

    // What lies beyond 46 octets is not looked at.
    let spaces = format!("{}\n\n{}", COUNTING_B64, "garbage beyond the limit");
    assert_eq!(
        key_from_base64_file(spaces.as_bytes()),
        key_from_base64_file(&spaces.as_bytes()[..46])
    );
    // A key, a newline, and then anything at all beyond the limit.
    let mut long = Vec::new();
    long.extend_from_slice(COUNTING_B64.as_bytes());
    long.push(b'\n');
    long.push(b'A');
    assert_eq!(long.len(), 46);
    let at_limit = key_from_base64_file(&long);
    long.extend_from_slice(&[b'!'; 60]);
    assert_eq!(key_from_base64_file(&long), at_limit);
    assert_eq!(at_limit, Err(Base64Error::InvalidEncoding));
}

#[test]
fn empty_or_short_key_file_holds_no_key() {
    assert_eq!(key_from_base64_file(b""), Err(Base64Error::InvalidLength));
    assert_eq!(key_from_base64_file(b"\n"), Err(Base64Error::InvalidLength));
    assert_eq!(key_from_base64_file(b"AQID\n"), Err(Base64Error::InvalidLength));
}

#[test]
fn read_fills_the_buffer() {
    let (mut progress, step) = ReadExt::read_to_end_up_to(10);
    assert_eq!(step, ReadStep::ReadAt(0));
    assert_eq!(progress.on_read(ReadOutcome::Read(4)), ReadStep::ReadAt(4));
    assert_eq!(progress.on_read(ReadOutcome::Interrupted), ReadStep::ReadAt(4));
    assert_eq!(progress.on_read(ReadOutcome::Read(6)), ReadStep::Done(10));
    assert_eq!(progress.octets_read(), 10);
}

#[test]
fn read_stops_at_the_end_of_the_input() {
    let (mut progress, _) = ReadExt::read_to_end_up_to(10);
    assert_eq!(progress.on_read(ReadOutcome::Read(3)), ReadStep::ReadAt(3));
    assert_eq!(progress.on_read(ReadOutcome::Read(0)), ReadStep::Done(3));
    assert_eq!(progress.octets_read(), 3);
}

#[test]
fn read_fails_with_the_error_of_the_attempt() {
    let (mut progress, _) = ReadExt::read_to_end_up_to(10);
    assert_eq!(progress.on_read(ReadOutcome::Read(3)), ReadStep::ReadAt(3));
    assert_eq!(progress.on_read(ReadOutcome::Failed), ReadStep::Failed);
    assert_eq!(progress.octets_read(), 3);
}

#[test]
fn read_into_no_room_is_done_at_once() {
    let (progress, step) = ReadExt::read_to_end_up_to(0);
    assert_eq!(step, ReadStep::Done(0));
    assert_eq!(progress.octets_read(), 0);
}

#[test]
fn run_calls_the_closure() {
    assert_eq!(run(|| 42), 42);
    let text = String::from("moved in");
    assert_eq!(run(move || text.len()), 8);
}

#[test]
fn ok_and_some_wrap() {
    let ok: Result<i32, &str> = 42.ok();
    assert_eq!(ok, Ok(42));
    let hello: Result<&str, &str> = "hello".ok();
    assert_eq!(hello, Ok("hello"));
    assert_eq!(42.some(), Some(42));
    assert_eq!("x".some(), Some("x"));
}

#[test]
fn cas_applies_the_change() {
    let sorted = [3, 1, 2].cas(|a| a.sort());
    assert_eq!(sorted, [1, 2, 3]);
    assert_eq!(5u8.cas(|v| *v += 1), 6);
}

#[test]
fn discard_result_lets_go() {
    let unit: () = (|| 42u32)().discard_result();
    assert_eq!(unit, ());
}

#[test]
fn const_len_of_arrays() {
    assert_eq!(<[u8; 32] as ConstLenExt>::LEN, 32);
    assert_eq!(<[u64; 0] as ConstLenExt>::LEN, 0);
    assert_eq!(<[char; 7] as ConstLenExt>::LEN, 7);
}
