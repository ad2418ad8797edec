use cargo_dist::checksum::{
    checksum_file_contents, checksum_of, to_hex, unified_checksum_entries,
};
use cargo_dist::config::ChecksumStyle;

fn s(x: &str) -> String {
    x.to_string()
}

#[test]
fn hex_is_two_lowercase_digits_per_byte() {
    assert_eq!(to_hex(&vec![0x00, 0x0f, 0xab, 0xff, 0x10]), "000fabff10");
    assert_eq!(to_hex(&vec![]), "");
}

#[test]
fn sha2_checksums() {
    assert_eq!(
        checksum_of(&ChecksumStyle::Sha256, b""),
        "e3b0c44298fc1c149afbf4c8996fb92427ae41e4649b934ca495991b7852b855"
    );
    assert_eq!(
        checksum_of(&ChecksumStyle::Sha256, b"abc"),
        "ba7816bf8f01cfea414140de5dae2223b00361a396177a9cb410ff61f20015ad"
    );
    assert_eq!(
        checksum_of(&ChecksumStyle::Sha512, b"abc"),
        "ddaf35a193617abacc417349ae20413112e6fa4e89a97ea20a9eeee64b55d39a2192992a274fc1a836ba3c23a3feebbd454d4423643ce80e2a9ac94fa54ca49f"
    );
}

#[test]
fn sha3_checksums() {
    assert_eq!(
        checksum_of(&ChecksumStyle::Sha3_256, b"abc"),
        "3a985da74fe225b2045c172d6bd390bd855f086e3e9d525b46bfe24511431532"
    );
    assert_eq!(
        checksum_of(&ChecksumStyle::Sha3_512, b"abc"),
        "b751850b1a57168a5693cd924b6b096e08f621827444f70d884f5d0240d2712e10e116e9192af3c91a7ec57647e3934057340b4cf408d5a56592f8274eec53f0"
    );
}

#[test]
fn blake2_checksums() {
    assert_eq!(
        checksum_of(&ChecksumStyle::Blake2s, b"abc"),
        "508c5e8c327c14e2e1a72ba34eeb452f37458b209ed63a294d999b4c86675982"
    );
    assert_eq!(
        checksum_of(&ChecksumStyle::Blake2b, b"abc"),
        "ba80a53f981c4d0d6a2797b69f12f6e94c212f14685ac4b74b12bb6fdbffa2d17d87c5392aab792dc252d5de4533cc9518d38aa8dbf1925ab92386edd4009923"
    );
}

#[test]
fn checksum_file_lists_binary_entries_with_trailing_newline() {
    let entries = vec![(s("app.tar.xz"), s("abc123")), (s("app.zip"), s("def456"))];
    assert_eq!(
        checksum_file_contents(&entries),
        "abc123 *app.tar.xz\ndef456 *app.zip\n\n"
    );
    assert_eq!(checksum_file_contents(&vec![]), "\n");
}

#[test]
fn unified_checksums_take_named_artifacts_of_the_kind() {
    let artifacts = vec![
        (
            Some(s("app.tar.xz")),
            vec![(s("sha256"), s("aaa")), (s("sha512"), s("bbb"))],
        ),
        (None, vec![(s("sha256"), s("ccc"))]),
        (Some(s("app.zip")), vec![(s("sha512"), s("ddd"))]),
        (Some(s("app.msi")), vec![(s("sha256"), s("eee"))]),
    ];
    assert_eq!(
        unified_checksum_entries(&artifacts, ChecksumStyle::Sha256),
        vec![(s("app.tar.xz"), s("aaa")), (s("app.msi"), s("eee"))]
    );
    assert_eq!(
        unified_checksum_entries(&artifacts, ChecksumStyle::Sha512),
        vec![(s("app.tar.xz"), s("bbb")), (s("app.zip"), s("ddd"))]
    );
}
