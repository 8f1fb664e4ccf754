use moss_weights::digest::{to_hex_lower, Sha256Stream};

fn hex_of(chunks: &[&[u8]]) -> String {
    let mut s = Sha256Stream::new();
    for c in chunks {
        s.update(c);
    }
    s.finish_hex()
}

#[test]
fn sha256_of_nothing() {
    assert_eq!(
        hex_of(&[]),
        "e3b0c44298fc1c149afbf4c8996fb92427ae41e4649b934ca495991b7852b855"
    );
}

#[test]
fn sha256_of_abc() {
    assert_eq!(
        hex_of(&[b"abc"]),
        "ba7816bf8f01cfea414140de5dae2223b00361a396177a9cb410ff61f20015ad"
    );
}

#[test]
fn sha256_does_not_depend_on_chunking() {
    let whole = hex_of(&[b"hello world"]);
    assert_eq!(hex_of(&[b"hel", b"", b"lo wor", b"ld"]), whole);
    assert_eq!(
        whole,
        "b94d27b9934d3e08a52e52d7da7dabfac484efe37a5380ee9088f7ace2efcde9"
    );
}

#[test]
fn sha256_of_a_large_input_fed_in_megabyte_chunks() {
    let data = vec![0x61u8; 3 * 1024 * 1024 + 17];
    let one = hex_of(&[&data]);
    let chunks: Vec<&[u8]> = data.chunks(1024 * 1024).collect();
    assert_eq!(hex_of(&chunks), one);
    assert_eq!(one.len(), 64);
}

#[test]
fn hex_is_lower_case_two_digits_per_byte() {
    assert_eq!(to_hex_lower(&[0xbe, 0xef]), "beef");
    assert_eq!(to_hex_lower(&[0x00, 0x0f, 0xf0, 0xa5]), "000ff0a5");
    assert_eq!(to_hex_lower(&[]), "");
}
