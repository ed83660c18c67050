//! Content identifiers as plain values.
//!
//! A [`Cid`] holds the four parts that make up a content identifier: its
//! version, the codec of the data it points to, the code of the hash
//! function, and the digest. Text forms are produced and read by the `cid`
//! crate; everything else works on the parts directly.

use vstd::prelude::*;

verus! {

/// Codec of DAG-PB data, the only codec a version-0 identifier can carry.
pub const DAG_PB: u64 = 0x70;

/// Codec of DAG-CBOR data.
pub const DAG_CBOR: u64 = 0x71;

/// Codec of raw bytes.
pub const RAW: u64 = 0x55;

/// Hash code of the identity function: the digest is the data itself.
pub const IDENTITY: u64 = 0x00;

/// Hash code of SHA2-256, the only hash a version-0 identifier can carry.
pub const SHA2_256: u64 = 0x12;

/// Hash code of BLAKE2b-256, the hash of almost every identifier on chain.
pub const BLAKE2B_256: u64 = 0xb220;

/// Longest digest an identifier can hold, in bytes.
pub const MAX_DIGEST_LEN: usize = 64;

/// Length of a SHA2-256 or BLAKE2b-256 digest, in bytes.
pub const DIGEST_LEN_256: usize = 32;

/// Version of a content identifier.
#[derive(Clone, Copy, Debug, PartialEq, Eq, Hash, Structural)]
pub enum Version {
    V0,
    V1,
}

/// The mathematical value of a [`Cid`].
pub struct CidView {
    pub version: Version,
    pub codec: u64,
    pub hash_code: u64,
    pub digest: Seq<u8>,
}

impl CidView {
    /// The version-1 identifier with these parts.
    pub open spec fn v1(codec: u64, hash_code: u64, digest: Seq<u8>) -> CidView {
        CidView { version: Version::V1, codec, hash_code, digest }
    }

    /// The parts form an identifier: the digest fits, and a version-0
    /// identifier is a SHA2-256 hash of DAG-PB data.
    pub open spec fn wf(self) -> bool {
        &&& self.digest.len() <= MAX_DIGEST_LEN
        &&& (self.version == Version::V0 ==> {
            &&& self.codec == DAG_PB
            &&& self.hash_code == SHA2_256
            &&& self.digest.len() == DIGEST_LEN_256
        })
    }
}

/// A content identifier.
#[derive(Debug, Hash)]
pub struct Cid {
    pub(crate) version: Version,
    pub(crate) codec: u64,
    pub(crate) hash_code: u64,
    pub(crate) digest: Vec<u8>,
}

impl View for Cid {
    type V = CidView;

    closed spec fn view(&self) -> CidView {
        CidView {
            version: self.version,
            codec: self.codec,
            hash_code: self.hash_code,
            digest: self.digest@,
        }
    }
}

/// The parts of an identifier as they come from outside, not yet checked
/// to form one.
#[derive(Debug)]
pub struct CidParts {
    pub version: Version,
    pub codec: u64,
    pub hash_code: u64,
    pub digest: Vec<u8>,
}

impl View for CidParts {
    type V = CidView;

    open spec fn view(&self) -> CidView {
        CidView {
            version: self.version,
            codec: self.codec,
            hash_code: self.hash_code,
            digest: self.digest@,
        }
    }
}

/// The text that the `cid` crate writes for an identifier: base58 for
/// version 0, multibase base32 for version 1.
pub uninterp spec fn cid_text(cid: CidView) -> Seq<char>;

/// The parts that the `cid` crate reads from a text, or `None` where it
/// reads no identifier from it.
pub uninterp spec fn cid_of_text(text: Seq<char>) -> Option<CidView>;

/// `Cid::to_string` of the `cid` crate, on the identifier built from the
/// parts of `cid` by `Multihash::wrap` and `Cid::new`. Both accept every
/// well-formed identifier; the text depends on the parts alone.
#[verifier::external_body]
fn cid_to_string(cid: &Cid) -> (text: String)
    requires
        cid@.wf(),
    ensures
        text@ == cid_text(cid@),
{
    let hash = ::cid::multihash::Multihash::<64>::wrap(cid.hash_code, &cid.digest).unwrap();
    let version = match cid.version {
        Version::V0 => ::cid::Version::V0,
        Version::V1 => ::cid::Version::V1,
    };
    ::cid::Cid::new(version, cid.codec, hash).unwrap().to_string()
}

/// `Cid::try_from` of the `cid` crate on a text, with the identifier it
/// reads taken apart again. What is read depends on the text alone.
#[verifier::external_body]
fn cid_from_str(text: &str) -> (r: Result<CidParts, String>)
    ensures
        r matches Ok(parts) ==> cid_of_text(text@) == Some(parts@),
        r is Err ==> cid_of_text(text@) is None,
{
    let cid = ::cid::Cid::try_from(text).map_err(|e| e.to_string())?;
    let version = match cid.version() {
        ::cid::Version::V0 => Version::V0,
        ::cid::Version::V1 => Version::V1,
    };
    let digest = cid.hash().digest().to_vec();
    Ok(CidParts { version, codec: cid.codec(), hash_code: cid.hash().code(), digest })
}

/// Why a text was not taken for an identifier.
#[derive(Debug)]
pub enum CidError {
    /// The `cid` crate reads no identifier from the input; its message.
    Unreadable(String),
    /// The parts read do not form an identifier.
    Malformed,
}

/// The identifier that a text stands for, if it stands for one.
pub open spec fn cid_parsed(text: Seq<char>) -> Option<CidView> {
    match cid_of_text(text) {
        Some(parts) => if parts.wf() {
            Some(parts)
        } else {
            None
        },
        None => None,
    }
}

impl Cid {
    #[verifier::type_invariant]
    spec fn inv(self) -> bool {
        self@.wf()
    }

    /// Builds a version-1 identifier, or `None` if the digest is longer
    /// than [`MAX_DIGEST_LEN`].
    pub fn new_v1(codec: u64, hash_code: u64, digest: Vec<u8>) -> (r: Option<Cid>)
        ensures
            r is Some <==> digest@.len() <= MAX_DIGEST_LEN,
            r matches Some(c) ==> c@ == CidView::v1(codec, hash_code, digest@),
    {
        if digest.len() <= MAX_DIGEST_LEN {
            Some(Cid { version: Version::V1, codec, hash_code, digest })
        } else {
            None
        }
    }

    /// Builds a version-0 identifier from a SHA2-256 digest, or `None` if
    /// the digest is not of 32 bytes.
    pub fn new_v0(digest: Vec<u8>) -> (r: Option<Cid>)
        ensures
            r is Some <==> digest@.len() == DIGEST_LEN_256,
            r matches Some(c) ==> c@ == (CidView {
                version: Version::V0,
                codec: DAG_PB,
                hash_code: SHA2_256,
                digest: digest@,
            }),
    {
        if digest.len() == DIGEST_LEN_256 {
            Some(Cid { version: Version::V0, codec: DAG_PB, hash_code: SHA2_256, digest })
        } else {
            None
        }
    }

    /// Checks that `parts` form an identifier, and builds it.
    pub fn from_parts(parts: CidParts) -> (r: Option<Cid>)
        ensures
            r is Some <==> parts@.wf(),
            r matches Some(c) ==> c@ == parts@,
    {
        let fits = parts.digest.len() <= MAX_DIGEST_LEN;
        let valid = match parts.version {
            Version::V0 => parts.codec == DAG_PB && parts.hash_code == SHA2_256
                && parts.digest.len() == DIGEST_LEN_256,
            Version::V1 => fits,
        };
        if valid {
            Some(
                Cid {
                    version: parts.version,
                    codec: parts.codec,
                    hash_code: parts.hash_code,
                    digest: parts.digest,
                },
            )
        } else {
            None
        }
    }

    /// Every identifier is well formed. Calling this lets a caller use it.
    pub fn check(&self)
        ensures
            self@.wf(),
    {
        proof {
            use_type_invariant(self);
        }
    }

    /// The identifier as text.
    pub fn to_text(&self) -> (text: String)
        ensures
            text@ == cid_text(self@),
    {
        proof {
            use_type_invariant(self);
        }
        cid_to_string(self)
    }

    /// Reads an identifier from its text.
    pub fn from_text(text: &str) -> (r: Result<Cid, CidError>)
        ensures
            r matches Ok(cid) ==> cid_parsed(text@) == Some(cid@),
            r is Err ==> cid_parsed(text@) is None,
            r matches Err(e) ==> (e is Malformed <==> cid_of_text(text@) is Some),
    {
        match cid_from_str(text) {
            Ok(parts) => match Cid::from_parts(parts) {
                Some(cid) => Ok(cid),
                None => Err(CidError::Malformed),
            },
            Err(message) => Err(CidError::Unreadable(message)),
        }
    }

    pub fn version(&self) -> (r: Version)
        ensures
            r == self@.version,
    {
        self.version
    }

    pub fn codec(&self) -> (r: u64)
        ensures
            r == self@.codec,
    {
        self.codec
    }

    pub fn hash_code(&self) -> (r: u64)
        ensures
            r == self@.hash_code,
    {
        self.hash_code
    }

    pub fn digest(&self) -> (r: &Vec<u8>)
        ensures
            r@ == self@.digest,
    {
        &self.digest
    }
}

/// The values of a list of identifiers, in its order.
pub open spec fn views(cids: Seq<Cid>) -> Seq<CidView> {
    Seq::new(cids.len(), |i: int| cids[i]@)
}

/// Whether all the identifiers of a list are well formed.
pub open spec fn all_checked(cids: Seq<Cid>) -> bool {
    forall|i: int| 0 <= i < cids.len() ==> (#[trigger] cids[i])@.wf()
}

/// Every identifier of a list is well formed. Calling this lets a caller
/// use it.
pub fn check_all(cids: &Vec<Cid>)
    ensures
        all_checked(cids@),
{
    let mut i: usize = 0;
    while i < cids.len()
        invariant
            i <= cids.len(),
            forall|j: int| 0 <= j < i ==> (#[trigger] cids@[j])@.wf(),
        decreases cids.len() - i,
    {
        cids[i].check();
        i += 1;
    }
}

impl Clone for Cid {
    fn clone(&self) -> (r: Cid)
        ensures
            r@ == self@,
    {
        proof {
            use_type_invariant(self);
        }
        Cid {
            version: self.version,
            codec: self.codec,
            hash_code: self.hash_code,
            digest: self.digest.clone(),
        }
    }
}

impl PartialEq for Cid {
    fn eq(&self, other: &Cid) -> (r: bool) {
        let same_digest = self.digest == other.digest;
        assert(same_digest == (self.digest@ =~= other.digest@));
        self.version == other.version && self.codec == other.codec && self.hash_code
            == other.hash_code && same_digest
    }
}

impl Eq for Cid {}

impl vstd::std_specs::cmp::PartialEqSpecImpl for Cid {
    open spec fn obeys_eq_spec() -> bool {
        true
    }

    open spec fn eq_spec(&self, other: &Cid) -> bool {
        self@ == other@
    }
}

} // verus!
