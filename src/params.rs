//! Loading of the outer SNARK verifying-key parameters: the bytes are handed
//! out only when their SHA-256 digest, in lowercase hex, equals the expected
//! checksum.
use sha2::Digest;
use vstd::prelude::*;

verus! {

/// The lowercase hex digits, by value.
pub open spec fn hex_digits() -> Seq<char> {
    seq!['0', '1', '2', '3', '4', '5', '6', '7', '8', '9', 'a', 'b', 'c', 'd', 'e', 'f']
}

/// Each byte as two lowercase hex digits, high half first.
pub open spec fn hex_of(b: Seq<u8>) -> Seq<char>
    decreases b.len(),
{
    if b.len() == 0 {
        Seq::empty()
    } else {
        let x = b.last();
        hex_of(b.drop_last()) + seq![hex_digits()[(x / 16) as int], hex_digits()[(x % 16) as int]]
    }
}

/// The SHA-256 digest of a byte string.
pub uninterp spec fn sha256_of(b: Seq<u8>) -> Seq<u8>;

/// Relies on `hex::encode`: each byte becomes two lowercase hex digits, high
/// half first, in the order of the input.
#[verifier::external_body]
fn encode_hex(b: &[u8]) -> (r: String)
    ensures
        r@ == hex_of(b@),
{
    hex::encode(b)
}

/// Relies on `sha2::Sha256::digest`: the 32-byte SHA-256 digest of the input.
#[verifier::external_body]
fn sha256(b: &[u8]) -> (r: Vec<u8>)
    ensures
        r@ == sha256_of(b@),
        r@.len() == 32,
{
    sha2::Sha256::digest(b).to_vec()
}

/// Why parameters could not be loaded.
#[derive(Debug, PartialEq, Eq)]
pub enum ParametersError {
    /// The expected checksum, then the one computed from the bytes.
    ChecksumMismatch(String, String),
}

/// The checksum that parameter bytes must carry.
pub open spec fn checksum_of(buffer: Seq<u8>) -> Seq<char> {
    hex_of(sha256_of(buffer))
}

/// The verifying key of the outer SNARK.
pub struct OuterSNARKVKParameters;

impl OuterSNARKVKParameters {
    /// The size in bytes of the parameters.
    pub const SIZE: u64 = 2924;

    /// Hands out `buffer` when its checksum is `checksum`, and reports both
    /// checksums otherwise.
    pub fn load_bytes(buffer: &[u8], checksum: &String) -> (r: Result<Vec<u8>, ParametersError>)
        ensures
            match r {
                Ok(v) => checksum@ == checksum_of(buffer@) && v@ == buffer@,
                Err(ParametersError::ChecksumMismatch(expected, computed)) => {
                    &&& checksum@ != checksum_of(buffer@)
                    &&& expected@ == checksum@
                    &&& computed@ == checksum_of(buffer@)
                },
            },
    {
        let digest = sha256(buffer);
        let computed = encode_hex(digest.as_slice());
        Self::check_checksum(buffer, checksum, computed)
    }

    /// Hands out `buffer` when the checksum `computed` from it is `expected`,
    /// and reports both otherwise.
    pub fn check_checksum(buffer: &[u8], expected: &String, computed: String) -> (r: Result<
        Vec<u8>,
        ParametersError,
    >)
        ensures
            match r {
                Ok(v) => expected@ == computed@ && v@ == buffer@,
                Err(ParametersError::ChecksumMismatch(e, c)) => {
                    &&& expected@ != computed@
                    &&& e@ == expected@
                    &&& c@ == computed@
                },
            },
    {
        if *expected == computed {
            Ok(vstd::slice::slice_to_vec(buffer))
        } else {
            Err(ParametersError::ChecksumMismatch(expected.clone(), computed))
        }
    }
}

} // verus!
