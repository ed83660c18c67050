//! Encodings of lists of content identifiers: DAG-CBOR bytes, as stored
//! on chain and on disk, and JSON text, as exchanged over RPC.
//!
//! The encoders and decoders are those of `fvm_ipld_encoding`,
//! `serde_ipld_dagcbor` and `serde_json`. What each of them returns is
//! given a name; this module states over those names what it builds from
//! them: which decoder is tried first, what is done when it fails, and
//! how a list of identifiers becomes a list of strings.

use crate::content_id::all_checked;
use crate::content_id::check_all;
use crate::content_id::cid_of_text;
use crate::content_id::cid_parsed;
use crate::content_id::cid_text;
use crate::content_id::views;
use crate::content_id::Cid;
use crate::content_id::CidParts;
use crate::content_id::CidView;
use crate::content_id::Version;
use crate::strings::string_views;
use vstd::prelude::*;

verus! {

/// The DAG-CBOR bytes that `fvm_ipld_encoding` writes for a list of
/// identifiers, or `None` where it reports an error.
pub uninterp spec fn dag_cbor_of(cids: Seq<CidView>) -> Option<Seq<u8>>;

/// The list that the strict decoder of `serde_ipld_dagcbor` reads from
/// bytes, or `None` where it reports an error.
pub uninterp spec fn dag_cbor_strict(bytes: Seq<u8>) -> Option<Seq<CidView>>;

/// The list that the decoder of `fvm_ipld_encoding` reads from bytes, or
/// `None` where it reports an error. It is the decoder that older data
/// was checked against, and takes some bytes that the strict one refuses.
pub uninterp spec fn dag_cbor_lenient(bytes: Seq<u8>) -> Option<Seq<CidView>>;

/// The JSON text that `serde_json` writes for a list of strings, or
/// `None` where it reports an error.
pub uninterp spec fn json_of(items: Seq<Seq<char>>) -> Option<Seq<char>>;

/// The indented JSON text that `serde_json` writes for a list of strings,
/// or `None` where it reports an error.
pub uninterp spec fn pretty_json_of(items: Seq<Seq<char>>) -> Option<Seq<char>>;

/// The list of strings that `serde_json` reads from a text, or `None`
/// where it reports an error.
pub uninterp spec fn json_strings(text: Seq<char>) -> Option<Seq<Seq<char>>>;

/// The values of a list of unchecked parts, in its order.
pub open spec fn parts_views(parts: Seq<CidParts>) -> Seq<CidView> {
    Seq::new(parts.len(), |i: int| parts[i]@)
}

/// `fvm_ipld_encoding::to_vec` on the list of identifiers that
/// `Multihash::wrap` and `Cid::new` of the `cid` crate build from the
/// parts of `cids`. Both accept every well-formed identifier; the bytes
/// depend on the parts alone.
#[verifier::external_body]
fn dag_cbor_encode(cids: &Vec<Cid>) -> (r: Result<Vec<u8>, String>)
    requires
        all_checked(cids@),
    ensures
        r matches Ok(bytes) ==> dag_cbor_of(views(cids@)) == Some(bytes@),
        r is Err ==> dag_cbor_of(views(cids@)) is None,
{
    let outside = |c: &Cid| {
        let hash = ::cid::multihash::Multihash::<64>::wrap(c.hash_code, &c.digest).unwrap();
        let version = match c.version {
            Version::V0 => ::cid::Version::V0,
            Version::V1 => ::cid::Version::V1,
        };
        ::cid::Cid::new(version, c.codec, hash).unwrap()
    };
    let list: Vec<::cid::Cid> = cids.iter().map(outside).collect();
    fvm_ipld_encoding::to_vec(&list).map_err(|e| e.to_string())
}

/// `serde_ipld_dagcbor::from_slice`, asked for a list of identifiers,
/// each of which is then taken apart. What is read depends on the bytes
/// alone.
#[verifier::external_body]
fn dag_cbor_decode_strict(bytes: &[u8]) -> (r: Result<Vec<CidParts>, String>)
    ensures
        r matches Ok(parts) ==> dag_cbor_strict(bytes@) == Some(parts_views(parts@)),
        r is Err ==> dag_cbor_strict(bytes@) is None,
{
    let read = serde_ipld_dagcbor::from_slice::<Vec<::cid::Cid>>(bytes);
    let cids = read.map_err(|e| e.to_string())?;
    let part = |c: &::cid::Cid| CidParts {
        version: match c.version() {
            ::cid::Version::V0 => Version::V0,
            ::cid::Version::V1 => Version::V1,
        },
        codec: c.codec(),
        hash_code: c.hash().code(),
        digest: c.hash().digest().to_vec(),
    };
    Ok(cids.iter().map(part).collect())
}

/// `fvm_ipld_encoding::from_slice`, asked for a list of identifiers, each
/// of which is then taken apart. What is read depends on the bytes alone.
#[verifier::external_body]
fn dag_cbor_decode_lenient(bytes: &[u8]) -> (r: Result<Vec<CidParts>, String>)
    ensures
        r matches Ok(parts) ==> dag_cbor_lenient(bytes@) == Some(parts_views(parts@)),
        r is Err ==> dag_cbor_lenient(bytes@) is None,
{
    let read = fvm_ipld_encoding::from_slice::<Vec<::cid::Cid>>(bytes);
    let cids = read.map_err(|e| e.to_string())?;
    let part = |c: &::cid::Cid| CidParts {
        version: match c.version() {
            ::cid::Version::V0 => Version::V0,
            ::cid::Version::V1 => Version::V1,
        },
        codec: c.codec(),
        hash_code: c.hash().code(),
        digest: c.hash().digest().to_vec(),
    };
    Ok(cids.iter().map(part).collect())
}

/// `serde_json::to_string` on a list of strings. The text depends on the
/// strings alone.
#[verifier::external_body]
fn json_encode(items: &Vec<String>) -> (r: Result<String, String>)
    ensures
        r matches Ok(text) ==> json_of(string_views(items@)) == Some(text@),
        r is Err ==> json_of(string_views(items@)) is None,
{
    serde_json::to_string(items).map_err(|e| e.to_string())
}

/// `serde_json::to_string_pretty` on a list of strings. The text depends
/// on the strings alone.
#[verifier::external_body]
fn json_encode_pretty(items: &Vec<String>) -> (r: Result<String, String>)
    ensures
        r matches Ok(text) ==> pretty_json_of(string_views(items@)) == Some(text@),
        r is Err ==> pretty_json_of(string_views(items@)) is None,
{
    serde_json::to_string_pretty(items).map_err(|e| e.to_string())
}

/// `serde_json::from_str`, asked for a list of strings. What is read
/// depends on the text alone.
#[verifier::external_body]
fn json_decode(text: &str) -> (r: Result<Vec<String>, String>)
    ensures
        r matches Ok(items) ==> json_strings(text@) == Some(string_views(items@)),
        r is Err ==> json_strings(text@) is None,
{
    serde_json::from_str::<Vec<String>>(text).map_err(|e| e.to_string())
}

/// Why a list of identifiers was not written or not read.
#[derive(Debug)]
pub enum EncodingError {
    /// The encoder reported an error; its message.
    Encode(String),
    /// The bytes do not start as a list does.
    NotAList,
    /// Neither decoder read a list of identifiers from the bytes; what
    /// each of them had to say.
    Decode { strict: String, lenient: String },
    /// The text is no JSON list of strings; the message of the reader.
    Json(String),
    /// The text is a list of strings, but the string at this place,
    /// counted from 0, is not the text of an identifier.
    NotACid(usize),
}

/// What is said of a decoder that read parts which form no identifier.
pub const MALFORMED: &'static str = "the parts read form no identifier";

/// Whether all the parts of a list form identifiers.
pub open spec fn all_wf(parts: Seq<CidView>) -> bool {
    forall|i: int| 0 <= i < parts.len() ==> (#[trigger] parts[i]).wf()
}

/// What a decoder read, if it read a list of identifiers.
pub open spec fn checked(read: Option<Seq<CidView>>) -> Option<Seq<CidView>> {
    match read {
        Some(parts) => if all_wf(parts) {
            Some(parts)
        } else {
            None
        },
        None => None,
    }
}

/// First byte of a CBOR array of no items; the five low bits of the
/// first byte of an array tell its length or how its length is written.
pub const ARRAY_HEAD_MIN: u8 = 0x80;

/// Last of the first bytes that a CBOR array can have.
pub const ARRAY_HEAD_MAX: u8 = 0x9f;

/// Whether bytes start as a CBOR array does. A list is written as an
/// array, so bytes that start otherwise stand for no list, whatever a
/// decoder makes of them.
pub open spec fn starts_as_list(bytes: Seq<u8>) -> bool {
    bytes.len() > 0 && ARRAY_HEAD_MIN <= bytes[0] <= ARRAY_HEAD_MAX
}

/// The list of identifiers that bytes stand for. They must start as a
/// list does; then it is what the strict decoder reads from them or,
/// where it reads no list of identifiers, what the lenient decoder
/// reads.
pub open spec fn cids_of_dag_cbor(bytes: Seq<u8>) -> Option<Seq<CidView>> {
    if !starts_as_list(bytes) {
        None
    } else {
        match checked(dag_cbor_strict(bytes)) {
            Some(cids) => Some(cids),
            None => checked(dag_cbor_lenient(bytes)),
        }
    }
}

/// The texts of a list of identifiers, in its order.
pub open spec fn texts(cids: Seq<CidView>) -> Seq<Seq<char>> {
    Seq::new(cids.len(), |i: int| cid_text(cids[i]))
}

/// Whether every string of a list stands for an identifier.
pub open spec fn all_parsed(items: Seq<Seq<char>>) -> bool {
    forall|i: int| 0 <= i < items.len() ==> cid_parsed(#[trigger] items[i]) is Some
}

/// The list of identifiers that a JSON text stands for: the text must be
/// a list of strings, each the text of an identifier.
pub open spec fn cids_of_json(text: Seq<char>) -> Option<Seq<CidView>> {
    match json_strings(text) {
        Some(items) => if all_parsed(items) {
            Some(Seq::new(items.len(), |i: int| cid_parsed(items[i])->0))
        } else {
            None
        },
        None => None,
    }
}

/// What the strict decoder reads as a list of identifiers, from bytes
/// that start as a list does, is what the bytes stand for.
pub proof fn law_strict_reading_is_taken(bytes: Seq<u8>, cids: Seq<CidView>)
    requires
        starts_as_list(bytes),
        checked(dag_cbor_strict(bytes)) == Some(cids),
    ensures
        cids_of_dag_cbor(bytes) == Some(cids),
{
}

/// Bytes that start as a list does and that the strict decoder refuses
/// are not lost if the lenient decoder reads a list of identifiers from
/// them: they stand for that list.
pub proof fn law_fallback_reads_older_data(bytes: Seq<u8>, cids: Seq<CidView>)
    requires
        starts_as_list(bytes),
        checked(dag_cbor_strict(bytes)) is None,
        checked(dag_cbor_lenient(bytes)) == Some(cids),
    ensures
        cids_of_dag_cbor(bytes) == Some(cids),
{
}

/// Bytes that start as a list does are refused only if neither decoder
/// reads a list of identifiers from them.
pub proof fn law_refused_only_if_both_fail(bytes: Seq<u8>)
    requires
        starts_as_list(bytes),
    ensures
        cids_of_dag_cbor(bytes) is None <==> checked(dag_cbor_strict(bytes)) is None && checked(
            dag_cbor_lenient(bytes),
        ) is None,
{
}

/// Bytes that do not start as a list does stand for no list: nothing is
/// made up for them, not even the empty list.
pub proof fn law_only_lists_are_read(bytes: Seq<u8>)
    ensures
        cids_of_dag_cbor(bytes) is Some ==> starts_as_list(bytes),
        cids_of_dag_cbor(Seq::<u8>::empty()) is None,
{
}

/// A JSON text stands for a list of identifiers if `serde_json` reads
/// from it the texts of these identifiers and the `cid` crate reads each
/// text as its identifier.
pub proof fn law_json_reads_texts(text: Seq<char>, cids: Seq<CidView>)
    requires
        all_wf(cids),
        json_strings(text) == Some(texts(cids)),
        forall|i: int| 0 <= i < cids.len() ==> cid_of_text(cid_text(#[trigger] cids[i])) == Some(cids[i]),
    ensures
        cids_of_json(text) == Some(cids),
{
}

/// Checks each of `parts` and builds the identifiers, or tells that not
/// all of them form one.
pub fn cids_from_parts(parts: Vec<CidParts>) -> (r: Option<Vec<Cid>>)
    ensures
        r is Some <==> all_wf(parts_views(parts@)),
        r matches Some(cids) ==> views(cids@) == parts_views(parts@),
{
    let ghost given = parts@;
    let mut cids: Vec<Cid> = Vec::with_capacity(parts.len());
    for item in it: parts
        invariant
            it.seq() == given,
            cids@.len() == it.index(),
            forall|j: int| 0 <= j < cids@.len() ==> cids@[j]@ == given[j]@,
            forall|j: int| 0 <= j < cids@.len() ==> (#[trigger] given[j])@.wf(),
    {
        match Cid::from_parts(item) {
            Some(cid) => {
                cids.push(cid);
            },
            None => {
                assert(!parts_views(given)[it.index() as int].wf());
                return None;
            },
        }
    }
    Some(cids)
}

/// Writes a list of identifiers as DAG-CBOR.
pub fn to_vec(cids: &Vec<Cid>) -> (r: Result<Vec<u8>, EncodingError>)
    ensures
        r matches Ok(bytes) ==> dag_cbor_of(views(cids@)) == Some(bytes@),
        r is Err ==> dag_cbor_of(views(cids@)) is None,
{
    check_all(cids);
    match dag_cbor_encode(cids) {
        Ok(bytes) => Ok(bytes),
        Err(message) => Err(EncodingError::Encode(message)),
    }
}

/// Reads a list of identifiers from DAG-CBOR. Bytes that do not start
/// as a list does are refused. For the others the strict decoder is
/// tried first; if it reads no list of identifiers the lenient one is
/// tried, so that data written under older rules is still read. Only if
/// both fail is the input refused.
pub fn from_slice_with_fallback(bytes: &[u8]) -> (r: Result<Vec<Cid>, EncodingError>)
    ensures
        r matches Ok(cids) ==> cids_of_dag_cbor(bytes@) == Some(views(cids@)),
        r is Err ==> cids_of_dag_cbor(bytes@) is None,
        r matches Err(e) ==> (e is NotAList <==> !starts_as_list(bytes@)) && (e is Decode <==>
            starts_as_list(bytes@)),
{
    if bytes.len() == 0 || bytes[0] < ARRAY_HEAD_MIN || bytes[0] > ARRAY_HEAD_MAX {
        return Err(EncodingError::NotAList);
    }
    let strict = match dag_cbor_decode_strict(bytes) {
        Ok(parts) => match cids_from_parts(parts) {
            Some(cids) => {
                return Ok(cids);
            },
            None => MALFORMED.to_owned(),
        },
        Err(message) => message,
    };
    match dag_cbor_decode_lenient(bytes) {
        Ok(parts) => match cids_from_parts(parts) {
            Some(cids) => Ok(cids),
            None => Err(EncodingError::Decode { strict, lenient: MALFORMED.to_owned() }),
        },
        Err(lenient) => Err(EncodingError::Decode { strict, lenient }),
    }
}

/// The texts of `cids`, in their order.
pub fn cid_texts(cids: &Vec<Cid>) -> (r: Vec<String>)
    ensures
        string_views(r@) == texts(views(cids@)),
{
    let mut items: Vec<String> = Vec::with_capacity(cids.len());
    let mut i: usize = 0;
    while i < cids.len()
        invariant
            i <= cids.len(),
            items@.len() == i,
            forall|j: int| 0 <= j < i ==> items@[j]@ == cid_text(cids@[j]@),
        decreases cids.len() - i,
    {
        items.push(cids[i].to_text());
        i += 1;
    }
    items
}

/// Writes a list of identifiers as a JSON list of their texts.
pub fn to_json(cids: &Vec<Cid>) -> (r: Result<String, EncodingError>)
    ensures
        r matches Ok(text) ==> json_of(texts(views(cids@))) == Some(text@),
        r is Err ==> json_of(texts(views(cids@))) is None,
{
    let items = cid_texts(cids);
    match json_encode(&items) {
        Ok(text) => Ok(text),
        Err(message) => Err(EncodingError::Encode(message)),
    }
}

/// Writes a list of identifiers as an indented JSON list of their texts.
pub fn to_json_pretty(cids: &Vec<Cid>) -> (r: Result<String, EncodingError>)
    ensures
        r matches Ok(text) ==> pretty_json_of(texts(views(cids@))) == Some(text@),
        r is Err ==> pretty_json_of(texts(views(cids@))) is None,
{
    let items = cid_texts(cids);
    match json_encode_pretty(&items) {
        Ok(text) => Ok(text),
        Err(message) => Err(EncodingError::Encode(message)),
    }
}

/// Reads a list of identifiers from a JSON list of their texts.
pub fn from_json(text: &str) -> (r: Result<Vec<Cid>, EncodingError>)
    ensures
        r matches Ok(cids) ==> cids_of_json(text@) == Some(views(cids@)),
        r is Err ==> cids_of_json(text@) is None,
        r matches Err(e) ==> (e is Json <==> json_strings(text@) is None) && (e is NotACid <==>
            json_strings(text@) is Some),
        r matches Err(EncodingError::NotACid(i)) ==> (json_strings(text@) matches Some(items)
            && 0 <= i < items.len() && cid_parsed(items[i as int]) is None && all_parsed(
            items.subrange(0, i as int),
        )),
{
    let items = match json_decode(text) {
        Ok(items) => items,
        Err(message) => {
            return Err(EncodingError::Json(message));
        },
    };
    let mut cids: Vec<Cid> = Vec::with_capacity(items.len());
    let mut i: usize = 0;
    while i < items.len()
        invariant
            i <= items.len(),
            cids@.len() == i,
            json_strings(text@) == Some(string_views(items@)),
            forall|j: int| 0 <= j < i ==> cid_parsed(#[trigger] items@[j]@) == Some(cids@[j]@),
        decreases items.len() - i,
    {
        match Cid::from_text(items[i].as_str()) {
            Ok(cid) => {
                cids.push(cid);
            },
            Err(_) => {
                return Err(EncodingError::NotACid(i));
            },
        }
        i += 1;
    }
    Ok(cids)
}

} // verus!
