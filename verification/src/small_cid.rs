//! A content identifier in as little memory as it needs.
//!
//! Almost every identifier on chain is a version-1 identifier of DAG-CBOR
//! data hashed with BLAKE2b-256. For such an identifier only the 32 bytes
//! of the digest are kept; any other is kept whole, behind a pointer.

use crate::content_id::Cid;
use crate::content_id::CidView;
use crate::content_id::Version;
use crate::content_id::BLAKE2B_256;
use crate::content_id::DAG_CBOR;
use crate::content_id::DIGEST_LEN_256;
use vstd::prelude::*;

verus! {

/// Whether an identifier is of the common kind, of which only the digest
/// needs to be kept.
pub open spec fn is_common(c: CidView) -> bool {
    &&& c.version == Version::V1
    &&& c.codec == DAG_CBOR
    &&& c.hash_code == BLAKE2B_256
    &&& c.digest.len() == DIGEST_LEN_256
}

#[derive(Debug, Hash)]
enum Repr {
    Inline([u8; 32]),
    Indirect(Box<Cid>),
}

/// A content identifier, stored compactly.
#[derive(Debug, Hash)]
pub struct SmallCid {
    repr: Repr,
}

impl View for SmallCid {
    type V = CidView;

    closed spec fn view(&self) -> CidView {
        match self.repr {
            Repr::Inline(digest) => CidView::v1(DAG_CBOR, BLAKE2B_256, digest@),
            Repr::Indirect(cid) => cid@,
        }
    }
}

impl SmallCid {
    /// An identifier of the common kind is always kept by its digest, so
    /// equal identifiers are stored alike.
    #[verifier::type_invariant]
    spec fn inv(self) -> bool {
        match self.repr {
            Repr::Inline(_) => true,
            Repr::Indirect(cid) => !is_common(cid@),
        }
    }

    /// The identifier that `self` stores.
    pub fn to_cid(&self) -> (r: Cid)
        ensures
            r@ == self@,
    {
        match &self.repr {
            Repr::Inline(digest) => {
                let mut bytes: Vec<u8> = Vec::with_capacity(32);
                let mut i: usize = 0;
                while i < 32
                    invariant
                        i <= 32,
                        bytes@ == digest@.subrange(0, i as int),
                    decreases 32 - i,
                {
                    bytes.push(digest[i]);
                    i += 1;
                }
                assert(bytes@ == digest@);
                Cid::new_v1(DAG_CBOR, BLAKE2B_256, bytes).unwrap()
            },
            Repr::Indirect(cid) => (**cid).clone(),
        }
    }
}

/// Whether two digests hold the same bytes.
fn same_digest(a: &[u8; 32], b: &[u8; 32]) -> (r: bool)
    ensures
        r == (a@ == b@),
{
    let mut i: usize = 0;
    while i < 32
        invariant
            i <= 32,
            forall|j: int| 0 <= j < i ==> a@[j] == b@[j],
        decreases 32 - i,
    {
        if a[i] != b[i] {
            return false;
        }
        i += 1;
    }
    assert(a@ =~= b@);
    true
}

impl Clone for SmallCid {
    fn clone(&self) -> (r: SmallCid)
        ensures
            r@ == self@,
    {
        proof {
            use_type_invariant(self);
        }
        match &self.repr {
            Repr::Inline(digest) => SmallCid { repr: Repr::Inline(*digest) },
            Repr::Indirect(cid) => SmallCid { repr: Repr::Indirect(Box::new((**cid).clone())) },
        }
    }
}

impl PartialEq for SmallCid {
    fn eq(&self, other: &SmallCid) -> (r: bool) {
        proof {
            use_type_invariant(self);
            use_type_invariant(other);
        }
        match (&self.repr, &other.repr) {
            (Repr::Inline(a), Repr::Inline(b)) => same_digest(a, b),
            (Repr::Indirect(a), Repr::Indirect(b)) => **a == **b,
            _ => false,
        }
    }
}

impl Eq for SmallCid {}

impl vstd::std_specs::cmp::PartialEqSpecImpl for SmallCid {
    open spec fn obeys_eq_spec() -> bool {
        true
    }

    open spec fn eq_spec(&self, other: &SmallCid) -> bool {
        self@ == other@
    }
}

impl From<Cid> for SmallCid {
    fn from(cid: Cid) -> (r: SmallCid)
        ensures
            r@ == cid@,
    {
        if cid.version() == Version::V1 && cid.codec() == DAG_CBOR && cid.hash_code()
            == BLAKE2B_256 && cid.digest().len() == DIGEST_LEN_256 {
            let mut digest: [u8; 32] = [0u8; 32];
            let mut i: usize = 0;
            while i < 32
                invariant
                    i <= 32,
                    cid@.digest.len() == 32,
                    forall|j: int| 0 <= j < i ==> digest@[j] == cid@.digest[j],
                decreases 32 - i,
            {
                digest[i] = cid.digest()[i];
                i += 1;
            }
            assert(digest@ == cid@.digest);
            SmallCid { repr: Repr::Inline(digest) }
        } else {
            SmallCid { repr: Repr::Indirect(Box::new(cid)) }
        }
    }
}

/// What `from` returns is told by its view, in the `ensures` of `from`.
impl vstd::std_specs::convert::FromSpecImpl<Cid> for SmallCid {
    open spec fn obeys_from_spec() -> bool {
        false
    }

    open spec fn from_spec(cid: Cid) -> SmallCid {
        arbitrary()
    }
}

} // verus!
