//! An immutable, ordered collection of content identifiers that takes
//! little memory. A node keeps a great many of these at once.

use crate::content_id::views;
use crate::content_id::Cid;
use crate::content_id::CidView;
use crate::encoding::cids_of_dag_cbor;
use crate::encoding::cids_of_json;
use crate::encoding::dag_cbor_of;
use crate::encoding::from_json;
use crate::encoding::from_slice_with_fallback;
use crate::encoding::json_of;
use crate::encoding::texts;
use crate::encoding::to_json;
use crate::encoding::to_vec;
use crate::encoding::EncodingError;
use crate::small_cid::SmallCid;
use vstd::prelude::*;
use vstd::std_specs::cmp::PartialEqSpec;

verus! {

/// An ordered collection of content identifiers, each stored compactly.
///
/// The collection keeps the order and the multiplicity of what it was
/// made from: nothing is sorted and nothing is dropped.
#[derive(Debug, Hash)]
pub struct FrozenCids(Vec<SmallCid>);

impl View for FrozenCids {
    type V = Seq<CidView>;

    closed spec fn view(&self) -> Seq<CidView> {
        Seq::new(self.0.len() as nat, |i: int| self.0[i]@)
    }
}

impl From<Vec<Cid>> for FrozenCids {
    /// Takes the identifiers over, in their order.
    fn from(cids: Vec<Cid>) -> (r: FrozenCids)
        ensures
            r@ == views(cids@),
    {
        let ghost given = cids@;
        let mut small_cids: Vec<SmallCid> = Vec::with_capacity(cids.len());
        for cid in it: cids
            invariant
                it.seq() == given,
                small_cids@.len() == it.index(),
                forall|j: int| 0 <= j < small_cids@.len() ==> small_cids@[j]@ == given[j]@,
        {
            small_cids.push(SmallCid::from(cid));
        }
        FrozenCids(small_cids)
    }
}

/// What `from` returns is told by its view, in the `ensures` of `from`.
impl vstd::std_specs::convert::FromSpecImpl<Vec<Cid>> for FrozenCids {
    open spec fn obeys_from_spec() -> bool {
        false
    }

    open spec fn from_spec(cids: Vec<Cid>) -> FrozenCids {
        arbitrary()
    }
}

impl From<&FrozenCids> for Vec<Cid> {
    /// Gives the identifiers back as a plain list, in their order.
    fn from(frozen_cids: &FrozenCids) -> (r: Vec<Cid>)
        ensures
            views(r@) == frozen_cids@,
    {
        let mut cids: Vec<Cid> = Vec::with_capacity(frozen_cids.0.len());
        let mut iter = frozen_cids.iter();
        loop
            invariant
                iter.remaining().len() + cids@.len() == frozen_cids@.len(),
                views(cids@) + iter.remaining() == frozen_cids@,
            decreases iter.remaining().len(),
        {
            match iter.next() {
                Some(cid) => {
                    cids.push(cid);
                },
                None => {
                    return cids;
                },
            }
        }
    }
}

/// What `from` returns is told by its view, in the `ensures` of `from`.
impl vstd::std_specs::convert::FromSpecImpl<&FrozenCids> for Vec<Cid> {
    open spec fn obeys_from_spec() -> bool {
        false
    }

    open spec fn from_spec(frozen_cids: &FrozenCids) -> Vec<Cid> {
        arbitrary()
    }
}

impl From<FrozenCids> for Vec<Cid> {
    /// Gives the identifiers back as a plain list, in their order.
    fn from(frozen_cids: FrozenCids) -> (r: Vec<Cid>)
        ensures
            views(r@) == frozen_cids@,
    {
        Vec::<Cid>::from(&frozen_cids)
    }
}

/// What `from` returns is told by its view, in the `ensures` of `from`.
impl vstd::std_specs::convert::FromSpecImpl<FrozenCids> for Vec<Cid> {
    open spec fn obeys_from_spec() -> bool {
        false
    }

    open spec fn from_spec(frozen_cids: FrozenCids) -> Vec<Cid> {
        arbitrary()
    }
}

impl Default for FrozenCids {
    /// The empty collection.
    fn default() -> (r: FrozenCids)
        ensures
            r@ == Seq::<CidView>::empty(),
    {
        FrozenCids(Vec::new())
    }
}

impl Clone for FrozenCids {
    fn clone(&self) -> (r: FrozenCids)
        ensures
            r@ == self@,
    {
        let mut items: Vec<SmallCid> = Vec::with_capacity(self.0.len());
        let mut i: usize = 0;
        while i < self.0.len()
            invariant
                i <= self.0.len(),
                items@.len() == i,
                forall|j: int| 0 <= j < i ==> items@[j]@ == self.0@[j]@,
            decreases self.0.len() - i,
        {
            items.push(self.0[i].clone());
            i += 1;
        }
        FrozenCids(items)
    }
}

impl PartialEq for FrozenCids {
    fn eq(&self, other: &FrozenCids) -> (r: bool) {
        if self.0.len() != other.0.len() {
            return false;
        }
        let mut i: usize = 0;
        while i < self.0.len()
            invariant
                i <= self.0.len(),
                self.0.len() == other.0.len(),
                forall|j: int| 0 <= j < i ==> self@[j] == other@[j],
            decreases self.0.len() - i,
        {
            if self.0[i] != other.0[i] {
                assert(self@[i as int] != other@[i as int]);
                return false;
            }
            i += 1;
        }
        assert(self@ =~= other@);
        true
    }
}

impl Eq for FrozenCids {}

impl vstd::std_specs::cmp::PartialEqSpecImpl for FrozenCids {
    open spec fn obeys_eq_spec() -> bool {
        true
    }

    open spec fn eq_spec(&self, other: &FrozenCids) -> bool {
        self@ == other@
    }
}

impl FrozenCids {
    /// Number of identifiers held, repeated ones counted each time.
    pub fn len(&self) -> (r: usize)
        ensures
            r == self@.len(),
    {
        self.0.len()
    }

    pub fn is_empty(&self) -> (r: bool)
        ensures
            r == (self@.len() == 0),
    {
        self.0.is_empty()
    }

    /// Whether `cid` is among the identifiers held. The collection is
    /// scanned from the front: it is meant to hold tens of items.
    pub fn contains(&self, cid: Cid) -> (r: bool)
        ensures
            r == self@.contains(cid@),
    {
        let wanted = SmallCid::from(cid);
        let mut i: usize = 0;
        while i < self.0.len()
            invariant
                i <= self.0.len(),
                wanted@ == cid@,
                forall|j: int| 0 <= j < i ==> self@[j] != cid@,
            decreases self.0.len() - i,
        {
            if self.0[i] == wanted {
                assert(self@[i as int] == cid@);
                return true;
            }
            i += 1;
        }
        false
    }

    /// The identifier at `index`, counted from 0, if there is one.
    pub fn get(&self, index: usize) -> (r: Option<Cid>)
        ensures
            index < self@.len() ==> (r matches Some(c) && c@ == self@[index as int]),
            index >= self@.len() ==> r is None,
    {
        if index < self.0.len() {
            Some(self.0[index].to_cid())
        } else {
            None
        }
    }

    /// Writes the collection as DAG-CBOR: the list of its identifiers,
    /// as a plain list of identifiers is written.
    pub fn to_dag_cbor(&self) -> (r: Result<Vec<u8>, EncodingError>)
        ensures
            r matches Ok(bytes) ==> dag_cbor_of(self@) == Some(bytes@),
            r is Err ==> dag_cbor_of(self@) is None,
    {
        let cids = Vec::<Cid>::from(self);
        to_vec(&cids)
    }

    /// Reads a collection from DAG-CBOR, as a plain list of identifiers
    /// is read: with the strict decoder or else with the lenient one.
    pub fn from_dag_cbor(bytes: &[u8]) -> (r: Result<FrozenCids, EncodingError>)
        ensures
            r matches Ok(cids) ==> cids_of_dag_cbor(bytes@) == Some(cids@),
            r is Err ==> cids_of_dag_cbor(bytes@) is None,
    {
        match from_slice_with_fallback(bytes) {
            Ok(cids) => Ok(FrozenCids::from(cids)),
            Err(e) => Err(e),
        }
    }

    /// Writes the collection as JSON: the list of the texts of its
    /// identifiers, as a plain list of identifiers is written.
    pub fn to_json(&self) -> (r: Result<String, EncodingError>)
        ensures
            r matches Ok(text) ==> json_of(texts(self@)) == Some(text@),
            r is Err ==> json_of(texts(self@)) is None,
    {
        let cids = Vec::<Cid>::from(self);
        to_json(&cids)
    }

    /// Reads a collection from JSON: a list of the texts of identifiers,
    /// as a plain list of identifiers is read.
    pub fn from_json(text: &str) -> (r: Result<FrozenCids, EncodingError>)
        ensures
            r matches Ok(cids) ==> cids_of_json(text@) == Some(cids@),
            r is Err ==> cids_of_json(text@) is None,
    {
        match from_json(text) {
            Ok(cids) => Ok(FrozenCids::from(cids)),
            Err(e) => Err(e),
        }
    }

    /// Walks the identifiers from the first. The collection is left as it
    /// is, so a walk can be started as often as needed.
    pub fn iter(&self) -> (r: Iter<'_>)
        ensures
            r.remaining() == self@,
    {
        Iter { cids: self, next: 0 }
    }
}

/// Round trip. The collection made from a list gives the same list back:
/// as many identifiers, each at its place, repeated ones as often as
/// given. Here `frozen` is what [`FrozenCids::from`] makes of `given`,
/// and `thawed` what `Vec::from` makes of `frozen`.
pub proof fn law_round_trip(given: Seq<Cid>, frozen: FrozenCids, thawed: Seq<Cid>)
    requires
        frozen@ == views(given),
        views(thawed) == frozen@,
    ensures
        thawed.len() == given.len(),
        forall|i: int| 0 <= i < given.len() ==> thawed[i]@ == given[i]@,
{
    assert(views(given).len() == given.len());
    assert forall|i: int| 0 <= i < given.len() implies thawed[i]@ == given[i]@ by {
        assert(views(given)[i] == given[i]@);
    }
}

/// The collection made from the list that a collection gave is equal to
/// that collection. Here `thawed` is what `Vec::from` makes of `frozen`,
/// and `again` what [`FrozenCids::from`] makes of `thawed`.
pub proof fn law_freeze_again(frozen: FrozenCids, thawed: Seq<Cid>, again: FrozenCids)
    requires
        views(thawed) == frozen@,
        again@ == views(thawed),
    ensures
        again.eq_spec(&frozen),
{
}

/// A collection and the plain list of its identifiers are written as
/// the same JSON text, and one text is read as both.
pub proof fn law_json_as_plain_list(frozen: FrozenCids, plain: Seq<Cid>, text: Seq<char>)
    requires
        views(plain) == frozen@,
    ensures
        json_of(texts(frozen@)) == json_of(texts(views(plain))),
        cids_of_json(text) == Some(frozen@) <==> cids_of_json(text) == Some(views(plain)),
{
}

/// A walk over a [`FrozenCids`], which rebuilds each identifier as it is
/// asked for.
pub struct Iter<'a> {
    cids: &'a FrozenCids,
    next: usize,
}

impl<'a> Iter<'a> {
    #[verifier::type_invariant]
    spec fn inv(self) -> bool {
        self.next <= self.cids@.len()
    }

    /// The identifiers that the walk has still to hand out, in order.
    pub closed spec fn remaining(&self) -> Seq<CidView> {
        self.cids@.skip(self.next as int)
    }

    /// Hands out the next identifier, or `None` once all were handed out.
    pub fn next(&mut self) -> (r: Option<Cid>)
        ensures
            r is Some <==> old(self).remaining().len() > 0,
            r matches Some(cid) ==> cid@ == old(self).remaining().first(),
            r is Some ==> final(self).remaining() == old(self).remaining().drop_first(),
            r is None ==> final(self).remaining() == old(self).remaining(),
    {
        proof {
            use_type_invariant(&*self);
        }
        if self.next < self.cids.0.len() {
            let cid = self.cids.0[self.next].to_cid();
            self.next = self.next + 1;
            Some(cid)
        } else {
            None
        }
    }
}

} // verus!
