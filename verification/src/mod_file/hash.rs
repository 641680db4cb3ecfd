//! SHA-1 and SHA-512 hashes of mod files, written as lowercase hex.

use vstd::prelude::*;

use crate::modrinth::structures::VersionHashes;

verus! {

/// The hashes of a file.
#[derive(Debug, Hash)]
pub struct Hashes {
    pub sha1: String,
    pub sha512: String,
}

impl Clone for Hashes {
    fn clone(&self) -> (res: Self)
        ensures
            res == *self,
    {
        Hashes { sha1: self.sha1.clone(), sha512: self.sha512.clone() }
    }
}

impl PartialEq for Hashes {
    fn eq(&self, other: &Self) -> (res: bool) {
        self.sha1 == other.sha1 && self.sha512 == other.sha512
    }
}

impl vstd::std_specs::cmp::PartialEqSpecImpl for Hashes {
    open spec fn obeys_eq_spec() -> bool {
        true
    }

    open spec fn eq_spec(&self, other: &Self) -> bool {
        self.sha1@ == other.sha1@ && self.sha512@ == other.sha512@
    }
}

impl Eq for Hashes {}

/// The SHA-1 digest of `data`.
pub uninterp spec fn spec_sha1_digest(data: Seq<u8>) -> Seq<u8>;

/// The SHA-512 digest of `data`.
pub uninterp spec fn spec_sha512_digest(data: Seq<u8>) -> Seq<u8>;

/// `sha1::Sha1::digest`. Claimed: the digest is a function of the data and
/// is 20 bytes long (the output size of SHA-1).
#[verifier::external_body]
fn sha1_digest(data: &[u8]) -> (res: Vec<u8>)
    ensures
        res@ == spec_sha1_digest(data@),
        res@.len() == 20,
{
    <sha1::Sha1 as sha1::Digest>::digest(data).to_vec()
}

/// `sha2::Sha512::digest`. Claimed: the digest is a function of the data and
/// is 64 bytes long (the output size of SHA-512).
#[verifier::external_body]
fn sha512_digest(data: &[u8]) -> (res: Vec<u8>)
    ensures
        res@ == spec_sha512_digest(data@),
        res@.len() == 64,
{
    <sha2::Sha512 as sha2::Digest>::digest(data).to_vec()
}

/// The lowercase hex digits, in order of value.
pub open spec fn hex_digits() -> Seq<char> {
    seq!['0', '1', '2', '3', '4', '5', '6', '7', '8', '9', 'a', 'b', 'c', 'd', 'e', 'f']
}

/// The lowercase hex digit for `n` (below 16).
pub open spec fn hex_digit(n: int) -> char {
    hex_digits()[n]
}

/// The two hex digits of a byte, high half first.
pub open spec fn hex_pair(b: u8) -> Seq<char> {
    seq![hex_digit(b as int / 16), hex_digit(b as int % 16)]
}

/// Lowercase hex encoding (as `hex::encode` writes it): two digits per
/// byte, high half first.
pub open spec fn hex_lower(bytes: Seq<u8>) -> Seq<char>
    decreases bytes.len(),
{
    if bytes.len() == 0 {
        seq![]
    } else {
        hex_pair(bytes[0]) + hex_lower(bytes.drop_first())
    }
}

/// Whether `c` is a lowercase hex digit.
pub open spec fn is_lower_hex_digit(c: char) -> bool {
    ('0' <= c && c <= '9') || ('a' <= c && c <= 'f')
}

/// Encoding one more byte appends its two digits.
proof fn lemma_hex_lower_push(bytes: Seq<u8>, b: u8)
    ensures
        hex_lower(bytes.push(b)) == hex_lower(bytes) + hex_pair(b),
    decreases bytes.len(),
{
    if bytes.len() == 0 {
        let single = bytes.push(b);
        assert(single.drop_first() =~= Seq::<u8>::empty());
        assert(hex_lower(single.drop_first()) =~= Seq::<char>::empty());
        assert(hex_lower(bytes) =~= Seq::<char>::empty());
        assert(single[0] == b);
        assert(hex_lower(single) =~= hex_lower(bytes) + hex_pair(b));
    } else {
        lemma_hex_lower_push(bytes.drop_first(), b);
        let longer = bytes.push(b);
        assert(longer.drop_first() =~= bytes.drop_first().push(b));
        assert(longer[0] == bytes[0]);
        assert(hex_lower(longer) == hex_pair(bytes[0]) + hex_lower(bytes.drop_first().push(b)));
        assert(hex_lower(bytes) == hex_pair(bytes[0]) + hex_lower(bytes.drop_first()));
        assert(hex_lower(longer) =~= hex_lower(bytes) + hex_pair(b));
    }
}

/// Lowercase hex encoding, two digits per byte, high half first.
fn hex_encode(data: &[u8]) -> (res: String)
    ensures
        res@ == hex_lower(data@),
{
    let digits: [char; 16] = ['0', '1', '2', '3', '4', '5', '6', '7', '8', '9', 'a', 'b', 'c', 'd', 'e', 'f'];
    assert(digits@ =~= hex_digits());
    let mut res = String::new();
    let mut i: usize = 0;
    while i < data.len()
        invariant
            i <= data@.len(),
            digits@ == hex_digits(),
            res@ == hex_lower(data@.take(i as int)),
        decreases data.len() - i,
    {
        let b = data[i];
        proof {
            lemma_hex_lower_push(data@.take(i as int), b);
            assert(data@.take(i + 1) =~= data@.take(i as int).push(b));
        }
        crate::text::push_char(&mut res, digits[(b / 16) as usize]);
        crate::text::push_char(&mut res, digits[(b % 16) as usize]);
        assert(res@ =~= hex_lower(data@.take(i as int)) + hex_pair(b));
        i = i + 1;
    }
    assert(data@.take(data.len() as int) =~= data@);
    res
}

/// The hex encoding is twice as long as the data and uses lowercase digits only.
pub proof fn lemma_hex_lower_shape(bytes: Seq<u8>)
    ensures
        hex_lower(bytes).len() == 2 * bytes.len(),
        forall|i: int| 0 <= i < hex_lower(bytes).len() ==> is_lower_hex_digit(#[trigger] hex_lower(bytes)[i]),
    decreases bytes.len(),
{
    if bytes.len() > 0 {
        lemma_hex_lower_shape(bytes.drop_first());
        let tail = hex_lower(bytes.drop_first());
        assert forall|i: int| 0 <= i < hex_lower(bytes).len() implies is_lower_hex_digit(#[trigger] hex_lower(bytes)[i]) by {
            if i >= 2 {
                assert(hex_lower(bytes)[i] == tail[i - 2]);
            }
        }
    }
}

/// The hashes a file with contents `data` has.
pub open spec fn spec_hashes_of(data: Seq<u8>) -> (Seq<char>, Seq<char>) {
    (hex_lower(spec_sha1_digest(data)), hex_lower(spec_sha512_digest(data)))
}

fn get_hashes_from_vec(data: &[u8]) -> (res: Hashes)
    ensures
        (res.sha1@, res.sha512@) == spec_hashes_of(data@),
        spec_sha1_digest(data@).len() == 20,
        spec_sha512_digest(data@).len() == 64,
{
    let sha1 = hex_encode(sha1_digest(data).as_slice());
    let sha512 = hex_encode(sha512_digest(data).as_slice());
    Hashes { sha1, sha512 }
}

impl Hashes {
    /// The hashes of a file whose contents are `bytes`.
    pub fn get_hashes_from_bytes(bytes: &[u8]) -> (res: Self)
        ensures
            (res.sha1@, res.sha512@) == spec_hashes_of(bytes@),
            res.sha1@.len() == 40,
            res.sha512@.len() == 128,
    {
        let res = get_hashes_from_vec(bytes);
        proof {
            lemma_hex_lower_shape(spec_sha1_digest(bytes@));
            lemma_hex_lower_shape(spec_sha512_digest(bytes@));
        }
        res
    }

    /// The hashes Modrinth reports, when it reports both of them.
    pub fn ferinth(fer_hashes: VersionHashes) -> (res: Option<Self>)
        ensures
            match (fer_hashes.sha1, fer_hashes.sha512) {
                (Some(sha1), Some(sha512)) => res == Some(Hashes { sha1, sha512 }),
                _ => res is None,
            },
    {
        match (fer_hashes.sha1, fer_hashes.sha512) {
            (Some(sha1), Some(sha512)) => Some(Hashes { sha1, sha512 }),
            _ => None,
        }
    }
}

/// Why the hashes of a file could not be computed.
#[derive(Debug)]
pub enum HashError {
    /// The file's metadata could not be read.
    FileMetadata(std::io::Error),
    /// The file could not be read.
    Read(std::io::Error),
}

} // verus!
