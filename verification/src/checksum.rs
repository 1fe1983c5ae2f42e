//! The checksum sidecar: the SHA-256 digest of the archive, written in
//! lower-case hexadecimal before the archive's file name.

use sha2::Digest;
use vstd::prelude::*;
use vstd::string::*;

verus! {

/// The SHA-256 digest of `data`.
pub uninterp spec fn sha256_digest(data: Seq<u8>) -> Seq<u8>;

/// Computes the digest with `sha2::Sha256::digest`. Trusted: the result is
/// the SHA-256 digest of `data`, which is 32 bytes long.
#[verifier::external_body]
fn sha256(data: &[u8]) -> (digest: Vec<u8>)
    ensures
        digest@ == sha256_digest(data@),
        digest@.len() == 32,
{
    sha2::Sha256::digest(data).to_vec()
}

/// The lower-case hexadecimal digit for a value below 16.
pub open spec fn hex_digit(value: int) -> char {
    if value == 0 {
        '0'
    } else if value == 1 {
        '1'
    } else if value == 2 {
        '2'
    } else if value == 3 {
        '3'
    } else if value == 4 {
        '4'
    } else if value == 5 {
        '5'
    } else if value == 6 {
        '6'
    } else if value == 7 {
        '7'
    } else if value == 8 {
        '8'
    } else if value == 9 {
        '9'
    } else if value == 10 {
        'a'
    } else if value == 11 {
        'b'
    } else if value == 12 {
        'c'
    } else if value == 13 {
        'd'
    } else if value == 14 {
        'e'
    } else {
        'f'
    }
}

/// `bytes` in hexadecimal: two digits for each byte, the high half first.
pub open spec fn hex_encode(bytes: Seq<u8>) -> Seq<char> {
    Seq::new(
        2 * bytes.len(),
        |i: int|
            if i % 2 == 0 {
                hex_digit(bytes[i / 2] as int / 16)
            } else {
                hex_digit(bytes[i / 2] as int % 16)
            },
    )
}

/// The line of a checksum sidecar: the digest in hexadecimal, two spaces,
/// and the archive's file name. Nothing follows the name.
pub open spec fn checksum_text(digest: Seq<u8>, archive_name: Seq<char>) -> Seq<char> {
    hex_encode(digest) + seq![' ', ' '] + archive_name
}

/// The file name of the archive for the package `package_name`.
pub open spec fn archive_name_of(package_name: Seq<char>) -> Seq<char> {
    package_name + ".tar.gz"@
}

/// The file name of the checksum sidecar that goes with `archive_name`.
pub open spec fn checksum_name_of(archive_name: Seq<char>) -> Seq<char> {
    archive_name + ".sha256"@
}

fn hex_digit_text(value: u8) -> (digit: &'static str)
    requires
        value < 16,
    ensures
        digit@ == seq![hex_digit(value as int)],
{
    proof {
        reveal_strlit("0");
        reveal_strlit("1");
        reveal_strlit("2");
        reveal_strlit("3");
        reveal_strlit("4");
        reveal_strlit("5");
        reveal_strlit("6");
        reveal_strlit("7");
        reveal_strlit("8");
        reveal_strlit("9");
        reveal_strlit("a");
        reveal_strlit("b");
        reveal_strlit("c");
        reveal_strlit("d");
        reveal_strlit("e");
        reveal_strlit("f");
    }
    let digit = if value == 0 {
        "0"
    } else if value == 1 {
        "1"
    } else if value == 2 {
        "2"
    } else if value == 3 {
        "3"
    } else if value == 4 {
        "4"
    } else if value == 5 {
        "5"
    } else if value == 6 {
        "6"
    } else if value == 7 {
        "7"
    } else if value == 8 {
        "8"
    } else if value == 9 {
        "9"
    } else if value == 10 {
        "a"
    } else if value == 11 {
        "b"
    } else if value == 12 {
        "c"
    } else if value == 13 {
        "d"
    } else if value == 14 {
        "e"
    } else {
        "f"
    };
    assert(digit@ =~= seq![hex_digit(value as int)]);
    digit
}

/// Writes `bytes` in lower-case hexadecimal.
pub fn to_hex(bytes: &[u8]) -> (text: String)
    ensures
        text@ == hex_encode(bytes@),
{
    let mut text = String::new();
    let mut i: usize = 0;
    proof {
        assert(text@ =~= hex_encode(bytes@.take(0)));
    }
    while i < bytes.len()
        invariant
            i <= bytes@.len(),
            text@ == hex_encode(bytes@.take(i as int)),
        decreases bytes@.len() - i,
    {
        let byte = bytes[i];
        let ghost before = text@;
        text.append(hex_digit_text(byte / 16));
        text.append(hex_digit_text(byte % 16));
        proof {
            let done = hex_encode(bytes@.take(i + 1));
            assert(text@.len() == done.len());
            assert forall|k: int| 0 <= k < done.len() implies text@[k] == done[k] by {
                if k < 2 * i {
                    assert(before[k] == hex_encode(bytes@.take(i as int))[k]);
                    assert(bytes@.take(i as int)[k / 2] == bytes@.take(i + 1)[k / 2]);
                } else {
                    assert(bytes@.take(i + 1)[k / 2] == byte);
                }
            }
            assert(text@ =~= done);
        }
        i += 1;
    }
    proof {
        assert(bytes@.take(i as int) =~= bytes@);
    }
    text
}

/// The sidecar line for an archive with the given digest and file name.
pub fn checksum_line(digest: &[u8], archive_name: &str) -> (line: String)
    ensures
        line@ == checksum_text(digest@, archive_name@),
{
    let mut line = to_hex(digest);
    proof {
        reveal_strlit("  ");
        assert("  "@ =~= seq![' ', ' ']);
    }
    line.append("  ");
    line.append(archive_name);
    line
}

/// The sidecar line for the archive whose whole content is `archive`: its
/// SHA-256 digest in hexadecimal, two spaces, and `archive_name`.
pub fn archive_checksum(archive: &[u8], archive_name: &str) -> (line: String)
    ensures
        line@ == checksum_text(sha256_digest(archive@), archive_name@),
        line@.len() == 66 + archive_name@.len(),
{
    let digest = sha256(archive);
    checksum_line(digest.as_slice(), archive_name)
}

/// The archive's file name: the package name followed by `.tar.gz`.
pub fn archive_name(package_name: &str) -> (name: String)
    ensures
        name@ == archive_name_of(package_name@),
{
    let mut name = String::from_str(package_name);
    name.append(".tar.gz");
    name
}

/// The sidecar's file name: the archive's file name followed by `.sha256`.
pub fn checksum_name(archive_name: &str) -> (name: String)
    ensures
        name@ == checksum_name_of(archive_name@),
{
    let mut name = String::from_str(archive_name);
    name.append(".sha256");
    name
}

/// Different bytes never share a hexadecimal text.
pub proof fn lemma_hex_encode_is_injective(first: Seq<u8>, second: Seq<u8>)
    requires
        hex_encode(first) == hex_encode(second),
    ensures
        first == second,
{
    assert(hex_encode(first).len() == 2 * first.len());
    assert(hex_encode(second).len() == 2 * second.len());
    assert(first.len() == second.len());
    assert forall|k: int| 0 <= k < first.len() implies first[k] == second[k] by {
        let a = first[k] as int;
        let b = second[k] as int;
        assert((2 * k) % 2 == 0 && (2 * k) / 2 == k);
        assert((2 * k + 1) % 2 == 1 && (2 * k + 1) / 2 == k);
        assert(hex_encode(first)[2 * k] == hex_digit(a / 16));
        assert(hex_encode(second)[2 * k] == hex_digit(b / 16));
        assert(hex_encode(first)[2 * k + 1] == hex_digit(a % 16));
        assert(hex_encode(second)[2 * k + 1] == hex_digit(b % 16));
        assert(hex_digit(a / 16) == hex_digit(b / 16));
        assert(hex_digit(a % 16) == hex_digit(b % 16));
        assert(a / 16 == b / 16);
        assert(a % 16 == b % 16);
    }
    assert(first =~= second);
}

/// The sidecar line holds the digest it was made from: the line starts with
/// the digest's hexadecimal text, and a digest recomputed over any bytes
/// has that same text exactly if it is the recorded digest.
pub proof fn lemma_sidecar_records_digest(
    digest: Seq<u8>,
    archive_name: Seq<char>,
    recomputed: Seq<u8>,
)
    ensures
        checksum_text(digest, archive_name).take(2 * digest.len() as int) == hex_encode(digest),
        checksum_text(digest, archive_name).skip(2 * digest.len() as int + 2) == archive_name,
        hex_encode(recomputed) == hex_encode(digest) <==> recomputed == digest,
{
    let line = checksum_text(digest, archive_name);
    assert(line.take(2 * digest.len() as int) =~= hex_encode(digest));
    assert(line.skip(2 * digest.len() as int + 2) =~= archive_name);
    if hex_encode(recomputed) == hex_encode(digest) {
        lemma_hex_encode_is_injective(recomputed, digest);
    }
}

} // verus!
