//! Power actor state, resolved by protocol version.
//!
//! An actor's code identifier selects the protocol version whose schema
//! its state was written in. [`State::load`] makes that choice and hands
//! back the decoded state behind one set of queries; an unknown code is an
//! error, never an empty state.
//!
//! Reading the store, decoding what it holds and walking the tables that a
//! state points to are done by an [`ActorStore`]. Nothing is assumed of
//! what a store returns: each function that asks one says which question
//! it asks and what it makes of every possible answer.

use crate::content_id::Cid;
use crate::content_id::CidView;
use crate::content_id::IDENTITY;
use crate::content_id::RAW;
use crate::power_v7;
use num_bigint::BigInt;
use vstd::prelude::*;

verus! {

/// `BigInt` of `num-bigint`. Amounts are carried as they come and
/// handed on; nothing here looks inside one.
#[verifier::external_type_specification]
#[verifier::external_body]
pub struct ExBigInt(BigInt);

/// `BigInt::clone` of `num-bigint`: the copy is the same number.
pub assume_specification[ <BigInt as Clone>::clone ](n: &BigInt) -> (r: BigInt)
    ensures
        r == *n,
;

/// Storage power, in bytes.
pub type StoragePower = BigInt;

/// An amount of tokens, in the smallest unit.
pub type TokenAmount = BigInt;

/// Address of an actor, in its byte form.
#[derive(Debug, Hash)]
pub struct Address {
    bytes: Vec<u8>,
}

impl View for Address {
    type V = Seq<u8>;

    closed spec fn view(&self) -> Seq<u8> {
        self.bytes@
    }
}

impl Address {
    pub fn new(bytes: Vec<u8>) -> (r: Address)
        ensures
            r@ == bytes@,
    {
        Address { bytes }
    }

    pub fn as_bytes(&self) -> (r: &Vec<u8>)
        ensures
            r@ == self@,
    {
        &self.bytes
    }
}

impl Clone for Address {
    fn clone(&self) -> (r: Address)
        ensures
            r@ == self@,
    {
        Address { bytes: self.bytes.clone() }
    }
}

impl PartialEq for Address {
    fn eq(&self, other: &Address) -> (r: bool) {
        let same = self.bytes == other.bytes;
        assert(same == (self.bytes@ =~= other.bytes@));
        same
    }
}

impl Eq for Address {}

impl vstd::std_specs::cmp::PartialEqSpecImpl for Address {
    open spec fn obeys_eq_spec() -> bool {
        true
    }

    open spec fn eq_spec(&self, other: &Address) -> bool {
        self@ == other@
    }
}

/// Byte form of the address of the power actor: the actor with the
/// identity number 4.
pub const ADDRESS: [u8; 2] = [0, 4];

/// The address of the power actor.
pub fn address() -> (r: Address)
    ensures
        r@ == ADDRESS@,
{
    let mut bytes: Vec<u8> = Vec::new();
    bytes.push(ADDRESS[0]);
    bytes.push(ADDRESS[1]);
    Address { bytes }
}

/// What the state tree records of one actor.
#[derive(Debug)]
pub struct ActorState {
    /// Identifier of the actor's code; it tells the protocol version.
    pub code: Cid,
    /// Root of the actor's state in the store.
    pub state: Cid,
    /// Number of messages the actor has sent.
    pub sequence: u64,
    /// Tokens the actor holds.
    pub balance: TokenAmount,
}

/// Protocol versions whose power actor state can be read.
#[derive(Clone, Copy, Debug, PartialEq, Eq, Hash, Structural)]
pub enum ActorVersion {
    V7,
}

/// The code identifier that marks a power actor of `version`.
pub open spec fn power_code(version: ActorVersion) -> CidView {
    match version {
        ActorVersion::V7 => CidView::v1(RAW, IDENTITY, power_v7::CODE_NAME@),
    }
}

/// The version that `code` marks, if any.
pub open spec fn version_of(code: CidView) -> Option<ActorVersion> {
    if code == power_code(ActorVersion::V7) {
        Some(ActorVersion::V7)
    } else {
        None
    }
}

/// The code identifier of each supported version marks that version and
/// no other.
pub proof fn law_code_marks_its_version(version: ActorVersion)
    ensures
        version_of(power_code(version)) == Some(version),
{
}

/// What went wrong below a query, with the message of whoever reported
/// it.
#[derive(Debug)]
pub enum StoreError {
    /// The store could not be read, or a table in it could not be walked.
    Lookup(String),
    /// The bytes found do not parse under the schema of the version.
    Decode(String),
}

/// The store of blocks, together with the schemas that its blocks are
/// read by.
///
/// The first method is the store itself: bytes by content identifier.
/// The others lend the store to the code that knows the layout of one
/// protocol version. A failure comes back as its message.
pub trait ActorStore {
    /// The bytes stored under `cid`; `Ok(None)` if there are none.
    fn get_bytes(&self, cid: &Cid) -> Result<Option<Vec<u8>>, String>;

    /// Decodes the state of a version-7 power actor.
    fn decode_power_state_v7(&self, bytes: &Vec<u8>) -> Result<power_v7::State, String>;

    /// Looks `miner` up in the claims table of `state`; `Ok(None)` if it
    /// has no claim there.
    fn miner_claim_v7(&self, state: &power_v7::State, miner: &Address) -> Result<
        Option<power_v7::Claim>,
        String,
    >;

    /// Tells whether the nominal power of `miner`, as the claims table of
    /// `state` records it, meets the consensus minimum of version 7.
    fn miner_meets_consensus_minimum_v7(
        &self,
        state: &power_v7::State,
        miner: &Address,
    ) -> Result<bool, String>;
}

/// Why a power actor's state could not be resolved or queried.
#[derive(Debug)]
pub enum StateError {
    /// The actor's code is not that of a power actor of a supported
    /// version. No state is made up for it.
    UnsupportedVersion(Cid),
    /// The store holds nothing under the actor's state root.
    StateNotFound,
    /// The store or a schema failed; the error is handed on as it came.
    Store(StoreError),
    /// The query is not offered.
    NotSupported,
}

/// Power claimed by a miner, or by all of them together.
#[derive(Debug, Default)]
pub struct Claim {
    /// Sum of raw byte power for a miner's sectors.
    pub raw_byte_power: StoragePower,
    /// Sum of quality adjusted power for a miner's sectors.
    pub quality_adj_power: StoragePower,
}

impl Claim {
    /// The claim `cl` of version 7, in the shape shared by all versions.
    pub open spec fn of_v7(cl: power_v7::Claim) -> Claim {
        Claim { raw_byte_power: cl.raw_byte_power, quality_adj_power: cl.quality_adj_power }
    }
}

impl From<power_v7::Claim> for Claim {
    fn from(cl: power_v7::Claim) -> (r: Claim) {
        Claim { raw_byte_power: cl.raw_byte_power, quality_adj_power: cl.quality_adj_power }
    }
}

impl vstd::std_specs::convert::FromSpecImpl<power_v7::Claim> for Claim {
    open spec fn obeys_from_spec() -> bool {
        true
    }

    open spec fn from_spec(cl: power_v7::Claim) -> Claim {
        Claim::of_v7(cl)
    }
}

/// Smoothed estimate of a quantity and of its rate of change.
#[derive(Debug)]
pub struct FilterEstimate {
    pub position: BigInt,
    pub velocity: BigInt,
}

/// The estimate `from`, in the shape shared by all versions.
pub fn filter_estimate_v7(from: &power_v7::FilterEstimate) -> (r: FilterEstimate)
    ensures
        r == (FilterEstimate { position: from.position, velocity: from.velocity }),
{
    FilterEstimate { position: from.position.clone(), velocity: from.velocity.clone() }
}

/// Power actor state.
#[derive(Debug)]
pub enum State {
    V7(power_v7::State),
}

impl State {
    /// What [`State::load`] makes of the store's answer `fetched` for the
    /// state root of an actor: the bytes to decode, or the reason there
    /// are none.
    pub open spec fn fetched_bytes(fetched: Result<Option<Vec<u8>>, String>) -> Result<
        Vec<u8>,
        StateError,
    > {
        match fetched {
            Ok(Some(bytes)) => Ok(bytes),
            Ok(None) => Err(StateError::StateNotFound),
            Err(message) => Err(StateError::Store(StoreError::Lookup(message))),
        }
    }

    /// What [`State::load`] makes of what the schema of version 7 read
    /// from the bytes of a state.
    pub open spec fn decoded_v7(decoded: Result<power_v7::State, String>) -> Result<
        State,
        StateError,
    > {
        match decoded {
            Ok(st) => Ok(State::V7(st)),
            Err(message) => Err(StateError::Store(StoreError::Decode(message))),
        }
    }

    /// What [`State::load`] returns for an actor of version 7, given the
    /// store's answer and, where that answer holds bytes, what the schema
    /// read from them.
    pub open spec fn loaded_v7(
        fetched: Result<Option<Vec<u8>>, String>,
        decoded: Result<power_v7::State, String>,
    ) -> Result<State, StateError> {
        match State::fetched_bytes(fetched) {
            Ok(_) => State::decoded_v7(decoded),
            Err(e) => Err(e),
        }
    }

    /// What [`State::miner_power`] makes of the answer `found` that the
    /// claims table of version 7 gave for a miner.
    pub open spec fn claimed_v7(found: Result<Option<power_v7::Claim>, String>) -> Result<
        Option<Claim>,
        StateError,
    > {
        match found {
            Ok(Some(cl)) => Ok(Some(Claim::of_v7(cl))),
            Ok(None) => Ok(None),
            Err(message) => Err(StateError::Store(StoreError::Lookup(message))),
        }
    }

    /// What [`State::miner_nominal_power_meets_consensus_minimum`] makes
    /// of the answer `met`.
    pub open spec fn minimum_met(met: Result<bool, String>) -> Result<bool, StateError> {
        match met {
            Ok(b) => Ok(b),
            Err(message) => Err(StateError::Store(StoreError::Lookup(message))),
        }
    }

    /// The totals that the state stores, as a claim.
    pub open spec fn stored_totals(self) -> Claim {
        match self {
            State::V7(st) => Claim {
                raw_byte_power: st.total_raw_byte_power,
                quality_adj_power: st.total_quality_adj_power,
            },
        }
    }

    /// The pledge collateral that the state stores.
    pub open spec fn stored_locked(self) -> TokenAmount {
        match self {
            State::V7(st) => st.total_pledge_collateral,
        }
    }

    /// The smoothed quality adjusted power that the state stores.
    pub open spec fn stored_smoothed(self) -> FilterEstimate {
        match self {
            State::V7(st) => FilterEstimate {
                position: st.this_epoch_qa_power_smoothed.position,
                velocity: st.this_epoch_qa_power_smoothed.velocity,
            },
        }
    }

    /// Resolves the state of `actor`.
    ///
    /// The actor's code chooses the version; a code that marks no
    /// supported version is an error, and the store is not asked. For a
    /// known code the store is asked, once, for the bytes under the
    /// actor's state root, and these are decoded by the schema of the
    /// version. Whatever fails on the way is returned as it came.
    ///
    /// In the contract, `fetched` is an answer of the store to the
    /// question for the state root, and `decoded` an answer of the schema
    /// to the bytes fetched.
    pub fn load<BS: ActorStore>(store: &BS, actor: &ActorState) -> (r: Result<State, StateError>)
        ensures
            version_of(actor.code@) is None ==> (r matches Err(StateError::UnsupportedVersion(c))
                && c@ == actor.code@),
            version_of(actor.code@) == Some(ActorVersion::V7) ==> exists|
                fetched: Result<Option<Vec<u8>>, String>,
                decoded: Result<power_v7::State, String>,
            |
                {
                    &&& call_ensures(BS::get_bytes, (store, &actor.state), fetched)
                    &&& fetched matches Ok(Some(bytes)) ==> call_ensures(
                        BS::decode_power_state_v7,
                        (store, &bytes),
                        decoded,
                    )
                    &&& r == #[trigger] State::loaded_v7(fetched, decoded)
                },
    {
        match version_for_code(&actor.code) {
            Some(ActorVersion::V7) => {
                let fetched = store.get_bytes(&actor.state);
                let ghost answer = fetched;
                match State::bytes_from_fetched(fetched) {
                    Ok(bytes) => {
                        let decoded = store.decode_power_state_v7(&bytes);
                        assert(State::loaded_v7(answer, decoded) == State::decoded_v7(decoded));
                        State::from_decoded_v7(decoded)
                    },
                    Err(e) => {
                        let ghost unread: Result<power_v7::State, String> = arbitrary();
                        assert(State::loaded_v7(answer, unread) == Err::<State, StateError>(e));
                        Err(e)
                    },
                }
            },
            None => Err(StateError::UnsupportedVersion(actor.code.clone())),
        }
    }

    /// Takes the bytes out of the store's answer for a state root, or
    /// tells why there are none: the store holds nothing there, or it
    /// failed.
    pub fn bytes_from_fetched(fetched: Result<Option<Vec<u8>>, String>) -> (r: Result<
        Vec<u8>,
        StateError,
    >)
        ensures
            r == State::fetched_bytes(fetched),
    {
        match fetched {
            Ok(Some(bytes)) => Ok(bytes),
            Ok(None) => Err(StateError::StateNotFound),
            Err(message) => Err(StateError::Store(StoreError::Lookup(message))),
        }
    }

    /// Wraps what the schema of version 7 read from the bytes of a state:
    /// the state behind the queries, or the failure to decode.
    pub fn from_decoded_v7(decoded: Result<power_v7::State, String>) -> (r: Result<
        State,
        StateError,
    >)
        ensures
            r == State::decoded_v7(decoded),
    {
        match decoded {
            Ok(st) => Ok(State::V7(st)),
            Err(message) => Err(StateError::Store(StoreError::Decode(message))),
        }
    }

    /// Consumes the state to return just the total quality adjusted power.
    pub fn into_total_quality_adj_power(self) -> (r: StoragePower)
        ensures
            r == self.stored_totals().quality_adj_power,
    {
        match self {
            State::V7(st) => st.total_quality_adj_power,
        }
    }

    /// Returns the total power claim, as stored.
    pub fn total_power(&self) -> (r: Claim)
        ensures
            r == self.stored_totals(),
    {
        match self {
            State::V7(st) => Claim {
                raw_byte_power: st.total_raw_byte_power.clone(),
                quality_adj_power: st.total_quality_adj_power.clone(),
            },
        }
    }

    /// Consumes the state to return the total locked funds.
    pub fn into_total_locked(self) -> (r: TokenAmount)
        ensures
            r == self.stored_locked(),
    {
        match self {
            State::V7(st) => st.total_pledge_collateral,
        }
    }

    /// Returns the total locked funds.
    pub fn total_locked(&self) -> (r: TokenAmount)
        ensures
            r == self.stored_locked(),
    {
        match self {
            State::V7(st) => st.total_pledge_collateral.clone(),
        }
    }

    /// Returns the smoothed quality adjusted power of this epoch.
    pub fn total_power_smoothed(&self) -> (r: FilterEstimate)
        ensures
            r == self.stored_smoothed(),
    {
        match self {
            State::V7(st) => filter_estimate_v7(&st.this_epoch_qa_power_smoothed),
        }
    }

    /// Loads the power claimed by `miner`, if it has any: `None` for a
    /// miner without a claim, else the claim as recorded.
    ///
    /// In the contract, `found` is an answer of the claims table of the
    /// state to the question for `miner`.
    pub fn miner_power<BS: ActorStore>(&self, s: &BS, miner: &Address) -> (r: Result<
        Option<Claim>,
        StateError,
    >)
        ensures
            exists|found: Result<Option<power_v7::Claim>, String>|
                {
                    &&& call_ensures(BS::miner_claim_v7, (s, &self->V7_0, miner), found)
                    &&& r == #[trigger] State::claimed_v7(found)
                },
    {
        match self {
            State::V7(st) => State::claim_from_found_v7(s.miner_claim_v7(st, miner)),
        }
    }

    /// Turns what the claims table of version 7 gave for a miner into the
    /// claim shared by all versions.
    pub fn claim_from_found_v7(found: Result<Option<power_v7::Claim>, String>) -> (r: Result<
        Option<Claim>,
        StateError,
    >)
        ensures
            r == State::claimed_v7(found),
    {
        match found {
            Ok(Some(cl)) => Ok(Some(Claim::from(cl))),
            Ok(None) => Ok(None),
            Err(message) => Err(StateError::Store(StoreError::Lookup(message))),
        }
    }

    /// Listing the miners known to the actor is not offered: the answer
    /// is always [`StateError::NotSupported`], and the store is not
    /// asked.
    pub fn list_all_miners<BS: ActorStore>(&self, _s: &BS) -> (r: Result<Vec<Address>, StateError>)
        ensures
            r == Err::<Vec<Address>, StateError>(StateError::NotSupported),
    {
        Err(StateError::NotSupported)
    }

    /// Checks whether the nominal power of `miner` meets the consensus
    /// minimum. A failure below is returned, not hidden.
    ///
    /// In the contract, `met` is an answer of the version's own rule to
    /// the question for `miner`.
    pub fn miner_nominal_power_meets_consensus_minimum<BS: ActorStore>(
        &self,
        s: &BS,
        miner: &Address,
    ) -> (r: Result<bool, StateError>)
        ensures
            exists|met: Result<bool, String>|
                {
                    &&& call_ensures(
                        BS::miner_meets_consensus_minimum_v7,
                        (s, &self->V7_0, miner),
                        met,
                    )
                    &&& r == #[trigger] State::minimum_met(met)
                },
    {
        match self {
            State::V7(st) => State::minimum_from_answer(
                s.miner_meets_consensus_minimum_v7(st, miner),
            ),
        }
    }

    /// Hands on the answer on the consensus minimum.
    pub fn minimum_from_answer(met: Result<bool, String>) -> (r: Result<bool, StateError>)
        ensures
            r == State::minimum_met(met),
    {
        match met {
            Ok(b) => Ok(b),
            Err(message) => Err(StateError::Store(StoreError::Lookup(message))),
        }
    }
}

/// The code identifier of the power actor of `version`.
pub fn code_for_version(version: ActorVersion) -> (r: Cid)
    ensures
        r@ == power_code(version),
{
    match version {
        ActorVersion::V7 => {
            let mut name: Vec<u8> = Vec::new();
            let mut i: usize = 0;
            while i < 18
                invariant
                    i <= 18,
                    name@ == power_v7::CODE_NAME@.subrange(0, i as int),
                decreases 18 - i,
            {
                name.push(power_v7::CODE_NAME[i]);
                i += 1;
            }
            assert(name@ == power_v7::CODE_NAME@);
            Cid::new_v1(RAW, IDENTITY, name).unwrap()
        },
    }
}

/// Looks `code` up among the code identifiers of the supported versions.
pub fn version_for_code(code: &Cid) -> (r: Option<ActorVersion>)
    ensures
        r == version_of(code@),
{
    if *code == code_for_version(ActorVersion::V7) {
        Some(ActorVersion::V7)
    } else {
        None
    }
}

} // verus!
