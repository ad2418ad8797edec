//! Checksums of artifacts, and the files that list them

use sha2::Digest;
use vstd::prelude::*;

use crate::config::ChecksumStyle;
use crate::strings::{clone_string, str_eq, string_concat};

verus! {

/// The SHA-256 digest of some bytes
pub uninterp spec fn sha256_digest(bytes: Seq<u8>) -> Seq<u8>;

/// The SHA-512 digest of some bytes
pub uninterp spec fn sha512_digest(bytes: Seq<u8>) -> Seq<u8>;

/// The SHA3-256 digest of some bytes
pub uninterp spec fn sha3_256_digest(bytes: Seq<u8>) -> Seq<u8>;

/// The SHA3-512 digest of some bytes
pub uninterp spec fn sha3_512_digest(bytes: Seq<u8>) -> Seq<u8>;

/// The BLAKE2s-256 digest of some bytes
pub uninterp spec fn blake2s_digest(bytes: Seq<u8>) -> Seq<u8>;

/// The BLAKE2b-512 digest of some bytes
pub uninterp spec fn blake2b_digest(bytes: Seq<u8>) -> Seq<u8>;

/// `sha2::Sha256` fed `bytes` and finalized: the SHA-256 digest, 32 bytes.
#[verifier::external_body]
fn sha256(bytes: &[u8]) -> (r: Vec<u8>)
    ensures
        r@ == sha256_digest(bytes@),
        r@.len() == 32,
{
    let mut hasher = sha2::Sha256::new();
    hasher.update(bytes);
    hasher.finalize().as_slice().to_owned()
}

/// `sha2::Sha512` fed `bytes` and finalized: the SHA-512 digest, 64 bytes.
#[verifier::external_body]
fn sha512(bytes: &[u8]) -> (r: Vec<u8>)
    ensures
        r@ == sha512_digest(bytes@),
        r@.len() == 64,
{
    let mut hasher = sha2::Sha512::new();
    hasher.update(bytes);
    hasher.finalize().as_slice().to_owned()
}

/// `sha3::Sha3_256` fed `bytes` and finalized: the SHA3-256 digest, 32 bytes.
#[verifier::external_body]
fn sha3_256(bytes: &[u8]) -> (r: Vec<u8>)
    ensures
        r@ == sha3_256_digest(bytes@),
        r@.len() == 32,
{
    let mut hasher = sha3::Sha3_256::new();
    hasher.update(bytes);
    hasher.finalize().as_slice().to_owned()
}

/// `sha3::Sha3_512` fed `bytes` and finalized: the SHA3-512 digest, 64 bytes.
#[verifier::external_body]
fn sha3_512(bytes: &[u8]) -> (r: Vec<u8>)
    ensures
        r@ == sha3_512_digest(bytes@),
        r@.len() == 64,
{
    let mut hasher = sha3::Sha3_512::new();
    hasher.update(bytes);
    hasher.finalize().as_slice().to_owned()
}

/// `blake2::Blake2s256` fed `bytes` and finalized: the BLAKE2s digest, 32 bytes.
#[verifier::external_body]
fn blake2s256(bytes: &[u8]) -> (r: Vec<u8>)
    ensures
        r@ == blake2s_digest(bytes@),
        r@.len() == 32,
{
    let mut hasher = blake2::Blake2s256::new();
    hasher.update(bytes);
    hasher.finalize().as_slice().to_owned()
}

/// `blake2::Blake2b512` fed `bytes` and finalized: the BLAKE2b digest, 64 bytes.
#[verifier::external_body]
fn blake2b512(bytes: &[u8]) -> (r: Vec<u8>)
    ensures
        r@ == blake2b_digest(bytes@),
        r@.len() == 64,
{
    let mut hasher = blake2::Blake2b512::new();
    hasher.update(bytes);
    hasher.finalize().as_slice().to_owned()
}

/// The digest of `bytes` for a kind of checksum
pub open spec fn digest_spec(style: ChecksumStyle, bytes: Seq<u8>) -> Seq<u8>
    recommends
        style != ChecksumStyle::False,
{
    match style {
        ChecksumStyle::Sha256 => sha256_digest(bytes),
        ChecksumStyle::Sha512 => sha512_digest(bytes),
        ChecksumStyle::Sha3_256 => sha3_256_digest(bytes),
        ChecksumStyle::Sha3_512 => sha3_512_digest(bytes),
        ChecksumStyle::Blake2s => blake2s_digest(bytes),
        ChecksumStyle::Blake2b => blake2b_digest(bytes),
        ChecksumStyle::False => Seq::empty(),
    }
}

/// The lowercase hexadecimal digit for `n` (below 16)
pub open spec fn hex_digit(n: u8) -> char {
    if n == 0 { '0' }
    else if n == 1 { '1' }
    else if n == 2 { '2' }
    else if n == 3 { '3' }
    else if n == 4 { '4' }
    else if n == 5 { '5' }
    else if n == 6 { '6' }
    else if n == 7 { '7' }
    else if n == 8 { '8' }
    else if n == 9 { '9' }
    else if n == 10 { 'a' }
    else if n == 11 { 'b' }
    else if n == 12 { 'c' }
    else if n == 13 { 'd' }
    else if n == 14 { 'e' }
    else { 'f' }
}

/// Bytes in lowercase hexadecimal, two digits per byte
pub open spec fn hex_spec(bytes: Seq<u8>) -> Seq<char>
    decreases bytes.len(),
{
    if bytes.len() == 0 {
        Seq::empty()
    } else {
        let b = bytes.last();
        hex_spec(bytes.drop_last()) + seq![hex_digit(b / 16), hex_digit(b % 16)]
    }
}

/// Bytes in hexadecimal take two digits each
pub proof fn lemma_hex_len(bytes: Seq<u8>)
    ensures
        hex_spec(bytes).len() == 2 * bytes.len(),
    decreases bytes.len(),
{
    if bytes.len() > 0 {
        lemma_hex_len(bytes.drop_last());
    }
}

/// The length in bytes of the digest of a kind of checksum
pub open spec fn digest_len(style: ChecksumStyle) -> nat {
    match style {
        ChecksumStyle::Sha256 | ChecksumStyle::Sha3_256 | ChecksumStyle::Blake2s => 32,
        ChecksumStyle::Sha512 | ChecksumStyle::Sha3_512 | ChecksumStyle::Blake2b => 64,
        ChecksumStyle::False => 0,
    }
}

/// The lowercase hexadecimal digit for `n`, as text
fn hex_digit_str(n: u8) -> (r: &'static str)
    requires
        n < 16,
    ensures
        r@ == seq![hex_digit(n)],
{
    proof {
        reveal_strlit("0");
        reveal_strlit("1");
        reveal_strlit("2");
        reveal_strlit("3");
        reveal_strlit("4");
        reveal_strlit("5");
        reveal_strlit("6");
        reveal_strlit("7");
        reveal_strlit("8");
        reveal_strlit("9");
        reveal_strlit("a");
        reveal_strlit("b");
        reveal_strlit("c");
        reveal_strlit("d");
        reveal_strlit("e");
        reveal_strlit("f");
    }
    match n {
        0 => "0",
        1 => "1",
        2 => "2",
        3 => "3",
        4 => "4",
        5 => "5",
        6 => "6",
        7 => "7",
        8 => "8",
        9 => "9",
        10 => "a",
        11 => "b",
        12 => "c",
        13 => "d",
        14 => "e",
        _ => "f",
    }
}

/// Bytes in lowercase hexadecimal, two digits per byte
pub fn to_hex(bytes: &Vec<u8>) -> (r: String)
    ensures
        r@ == hex_spec(bytes@),
{
    let mut output = String::new();
    let mut i: usize = 0;
    while i < bytes.len()
        invariant
            i <= bytes@.len(),
            output@ == hex_spec(bytes@.take(i as int)),
        decreases bytes.len() - i,
    {
        let byte = bytes[i];
        proof {
            assert(bytes@.take(i + 1).drop_last() =~= bytes@.take(i as int));
        }
        let hi = hex_digit_str(byte / 16);
        let lo = hex_digit_str(byte % 16);
        let ghost before = output@;
        output = string_concat(string_concat(output, hi), lo);
        assert(output@ =~= before + seq![hex_digit(byte / 16), hex_digit(byte % 16)]);
        i = i + 1;
    }
    assert(bytes@.take(bytes@.len() as int) =~= bytes@);
    output
}

/// The checksum of `bytes` in hexadecimal
pub fn checksum_of(style: &ChecksumStyle, bytes: &[u8]) -> (r: String)
    requires
        *style != ChecksumStyle::False,
    ensures
        r@ == hex_spec(digest_spec(*style, bytes@)),
        r@.len() == 2 * digest_len(*style),
{
    let hash = match style {
        ChecksumStyle::Sha256 => sha256(bytes),
        ChecksumStyle::Sha512 => sha512(bytes),
        ChecksumStyle::Sha3_256 => sha3_256(bytes),
        ChecksumStyle::Sha3_512 => sha3_512(bytes),
        ChecksumStyle::Blake2s => blake2s256(bytes),
        ChecksumStyle::Blake2b => blake2b512(bytes),
        ChecksumStyle::False => Vec::new(),
    };
    proof {
        lemma_hex_len(hash@);
    }
    to_hex(&hash)
}

/// The lines of a checksum file, one `<checksum> *<path>` line per
/// (path, checksum) entry
pub open spec fn checksum_lines(entries: Seq<(Seq<char>, Seq<char>)>) -> Seq<char>
    decreases entries.len(),
{
    if entries.len() == 0 {
        Seq::empty()
    } else {
        let e = entries.last();
        checksum_lines(entries.drop_last()) + e.1 + " *"@ + e.0 + "\n"@
    }
}

/// The text of a checksum file for (path, checksum) entries, in the format
/// of `sha256sum --check` (binary mode), with a trailing empty line
pub open spec fn checksum_file_spec(entries: Seq<(Seq<char>, Seq<char>)>) -> Seq<char> {
    checksum_lines(entries) + "\n"@
}

/// The character-sequence form of pairs of strings
pub open spec fn pairs_view(v: Seq<(String, String)>) -> Seq<(Seq<char>, Seq<char>)> {
    v.map_values(|p: (String, String)| (p.0@, p.1@))
}

/// The text of a checksum file for (path, checksum) entries
pub fn checksum_file_contents(entries: &Vec<(String, String)>) -> (r: String)
    ensures
        r@ == checksum_file_spec(pairs_view(entries@)),
{
    let ghost all = pairs_view(entries@);
    // Tools like sha256sum expect a new-line-delimited format of
    // <checksum> <mode><path>
    //
    // * checksum is the checksum in hex
    // * mode is ` ` for "text" and `*` for "binary" — "text" is for CRLF support, we don't want it.
    // * path is a relative path to the thing being checksummed (usually just a filename)
    let mut contents = String::new();
    let mut i: usize = 0;
    while i < entries.len()
        invariant
            i <= entries@.len(),
            all == pairs_view(entries@),
            contents@ == checksum_lines(all.take(i as int)),
        decreases entries.len() - i,
    {
        proof {
            assert(all.take(i + 1).drop_last() =~= all.take(i as int));
        }
        let (file_path, checksum) = (&entries[i].0, &entries[i].1);
        contents = string_concat(
            string_concat(string_concat(string_concat(contents, checksum.as_str()), " *"), file_path.as_str()),
            "\n",
        );
        i = i + 1;
    }
    assert(all.take(entries@.len() as int) =~= all);
    // leave a trailing newline
    string_concat(contents, "\n")
}

/// The checksums of one artifact with the extension `ext`, in order
pub open spec fn matching_checksums(
    name: Seq<char>,
    checksums: Seq<(Seq<char>, Seq<char>)>,
    ext: Seq<char>,
) -> Seq<(Seq<char>, Seq<char>)>
    decreases checksums.len(),
{
    if checksums.len() == 0 {
        Seq::empty()
    } else {
        let rest = matching_checksums(name, checksums.drop_last(), ext);
        let c = checksums.last();
        if c.0 == ext {
            rest.push((name, c.1))
        } else {
            rest
        }
    }
}

/// The (artifact name, checksum) entries of the unified checksum file: of
/// the artifacts in order, those with a name, and of each its checksums
/// (given as (extension, checksum)) with the extension `ext`
pub open spec fn unified_entries_spec(
    artifacts: Seq<(Option<Seq<char>>, Seq<(Seq<char>, Seq<char>)>)>,
    ext: Seq<char>,
) -> Seq<(Seq<char>, Seq<char>)>
    decreases artifacts.len(),
{
    if artifacts.len() == 0 {
        Seq::empty()
    } else {
        let rest = unified_entries_spec(artifacts.drop_last(), ext);
        let a = artifacts.last();
        match a.0 {
            Some(name) => rest + matching_checksums(name, a.1, ext),
            None => rest,
        }
    }
}

/// The character-sequence form of artifacts as (name, checksums)
pub open spec fn artifacts_view(v: Seq<(Option<String>, Vec<(String, String)>)>) -> Seq<
    (Option<Seq<char>>, Seq<(Seq<char>, Seq<char>)>),
> {
    v.map_values(
        |a: (Option<String>, Vec<(String, String)>)|
            (
                match a.0 {
                    Some(n) => Some(n@),
                    None => None,
                },
                pairs_view(a.1@),
            ),
    )
}

/// The (artifact name, checksum) entries of the unified checksum file for
/// the checksum kind `checksum`, from the artifacts given as (name,
/// checksums as (extension, checksum))
pub fn unified_checksum_entries(
    artifacts: &Vec<(Option<String>, Vec<(String, String)>)>,
    checksum: ChecksumStyle,
) -> (r: Vec<(String, String)>)
    ensures
        pairs_view(r@) == unified_entries_spec(artifacts_view(artifacts@), checksum.ext_spec()),
{
    let expected_checksum_ext = checksum.ext();
    let ghost all = artifacts_view(artifacts@);
    let mut entries: Vec<(String, String)> = Vec::new();
    let mut i: usize = 0;
    while i < artifacts.len()
        invariant
            i <= artifacts@.len(),
            all == artifacts_view(artifacts@),
            expected_checksum_ext@ == checksum.ext_spec(),
            pairs_view(entries@) == unified_entries_spec(all.take(i as int), expected_checksum_ext@),
        decreases artifacts.len() - i,
    {
        proof {
            assert(all.take(i + 1).drop_last() =~= all.take(i as int));
        }
        match &artifacts[i].0 {
            Some(artifact_name) => {
                let checksums = &artifacts[i].1;
                let ghost cs = pairs_view(checksums@);
                let ghost start = pairs_view(entries@);
                let mut j: usize = 0;
                while j < checksums.len()
                    invariant
                        j <= checksums@.len(),
                        cs == pairs_view(checksums@),
                        pairs_view(entries@) == start + matching_checksums(
                            artifact_name@,
                            cs.take(j as int),
                            expected_checksum_ext@,
                        ),
                    decreases checksums.len() - j,
                {
                    proof {
                        assert(cs.take(j + 1).drop_last() =~= cs.take(j as int));
                    }
                    if str_eq(checksums[j].0.as_str(), expected_checksum_ext) {
                        let entry = (clone_string(artifact_name), clone_string(&checksums[j].1));
                        let ghost before = entries@;
                        entries.push(entry);
                        assert(pairs_view(entries@) =~= pairs_view(before).push((entry.0@, entry.1@)));
                    }
                    j = j + 1;
                }
                assert(cs.take(checksums@.len() as int) =~= cs);
            },
            None => {},
        }
        i = i + 1;
    }
    assert(all.take(artifacts@.len() as int) =~= all);
    entries
}

} // verus!
