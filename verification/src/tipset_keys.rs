//! The identity of a tipset: the identifiers of its blocks, in the order
//! given.

use crate::content_id::views;
use crate::content_id::Cid;
use crate::content_id::CidView;
use crate::encoding::all_wf;
use crate::encoding::cids_of_dag_cbor;
use crate::encoding::cids_of_json;
use crate::encoding::dag_cbor_of;
use crate::encoding::dag_cbor_strict;
use crate::encoding::json_of;
use crate::encoding::starts_as_list;
use crate::encoding::texts;
use crate::encoding::EncodingError;
use crate::file_backed::round_trips;
use crate::file_backed::FileBackedObject;
use crate::frozen_cids::FrozenCids;
use vstd::prelude::*;

verus! {

/// The block identifiers that name one tipset.
///
/// Nothing is reordered and nothing is dropped: whoever builds the keys
/// hands in the identifiers as the tipset has them.
#[derive(Debug, Hash)]
pub struct TipsetKeys {
    pub cids: FrozenCids,
}

impl View for TipsetKeys {
    type V = Seq<CidView>;

    open spec fn view(&self) -> Seq<CidView> {
        self.cids@
    }
}

impl TipsetKeys {
    pub fn new(cids: FrozenCids) -> (r: TipsetKeys)
        ensures
            r.cids == cids,
    {
        TipsetKeys { cids }
    }

    /// The block identifiers.
    pub fn cids(&self) -> (r: &FrozenCids)
        ensures
            *r == self.cids,
    {
        &self.cids
    }

    /// Writes the keys as JSON, as a plain list of identifiers is written.
    pub fn to_json(&self) -> (r: Result<String, EncodingError>)
        ensures
            r matches Ok(text) ==> json_of(texts(self@)) == Some(text@),
            r is Err ==> json_of(texts(self@)) is None,
    {
        self.cids.to_json()
    }

    /// Reads keys from JSON, as a plain list of identifiers is read.
    pub fn from_json(text: &str) -> (r: Result<TipsetKeys, EncodingError>)
        ensures
            r matches Ok(keys) ==> cids_of_json(text@) == Some(keys@),
            r is Err ==> cids_of_json(text@) is None,
    {
        match FrozenCids::from_json(text) {
            Ok(cids) => Ok(TipsetKeys { cids }),
            Err(e) => Err(e),
        }
    }
}

impl From<Vec<Cid>> for TipsetKeys {
    fn from(cids: Vec<Cid>) -> (r: TipsetKeys)
        ensures
            r@ == views(cids@),
    {
        TipsetKeys { cids: FrozenCids::from(cids) }
    }
}

/// What `from` returns is told by its view, in the `ensures` of `from`.
impl vstd::std_specs::convert::FromSpecImpl<Vec<Cid>> for TipsetKeys {
    open spec fn obeys_from_spec() -> bool {
        false
    }

    open spec fn from_spec(cids: Vec<Cid>) -> TipsetKeys {
        arbitrary()
    }
}

impl Default for TipsetKeys {
    /// The keys of no block.
    fn default() -> (r: TipsetKeys)
        ensures
            r@ == Seq::<CidView>::empty(),
    {
        TipsetKeys { cids: FrozenCids::default() }
    }
}

impl Clone for TipsetKeys {
    fn clone(&self) -> (r: TipsetKeys)
        ensures
            r@ == self@,
    {
        TipsetKeys { cids: self.cids.clone() }
    }
}

impl PartialEq for TipsetKeys {
    fn eq(&self, other: &TipsetKeys) -> (r: bool) {
        self.cids == other.cids
    }
}

impl Eq for TipsetKeys {}

impl vstd::std_specs::cmp::PartialEqSpecImpl for TipsetKeys {
    open spec fn obeys_eq_spec() -> bool {
        true
    }

    open spec fn eq_spec(&self, other: &TipsetKeys) -> bool {
        self@ == other@
    }
}

/// Keys round-trip through their bytes wherever the encoder writes
/// them as bytes that start as a list does and the strict decoder reads
/// back from these the same identifiers.
pub proof fn law_keys_round_trip_where_the_codec_does(keys: Seq<CidView>, bytes: Seq<u8>)
    requires
        all_wf(keys),
        dag_cbor_of(keys) == Some(bytes),
        starts_as_list(bytes),
        dag_cbor_strict(bytes) == Some(keys),
    ensures
        round_trips::<TipsetKeys>(keys),
{
}

impl FileBackedObject for TipsetKeys {
    open spec fn encoding(value: Seq<CidView>) -> Option<Seq<u8>> {
        dag_cbor_of(value)
    }

    open spec fn decoding(bytes: Seq<u8>) -> Option<Seq<CidView>> {
        cids_of_dag_cbor(bytes)
    }

    /// Writes the keys as the DAG-CBOR list of their identifiers.
    fn serialize(&self) -> (r: Result<Vec<u8>, EncodingError>) {
        self.cids.to_dag_cbor()
    }

    /// Reads keys from DAG-CBOR, with the strict decoder or else with
    /// the lenient one.
    fn deserialize(bytes: &[u8]) -> (r: Result<TipsetKeys, EncodingError>) {
        match FrozenCids::from_dag_cbor(bytes) {
            Ok(cids) => Ok(TipsetKeys { cids }),
            Err(e) => Err(e),
        }
    }
}

} // verus!
