//! A single value kept in memory and mirrored in a file.
//!
//! Reading and writing the file is left to the caller. This module
//! decides: whether what was read is taken or a fresh value is made,
//! which bytes are to be written, and under which names, so that the file
//! never shows a half-written value.

use crate::encoding::EncodingError;
use vstd::prelude::*;
use vstd::string::StringExecFns;

verus! {

/// A value that can be kept in a file.
///
/// `encoding` and `decoding` say, over the value's view, what
/// `serialize` and `deserialize` return. A [`FileBacked`] gives back
/// what was saved only for a value that is read back from its own bytes
/// ([`round_trips`]).
pub trait FileBackedObject: Sized + View {
    /// The bytes that stand for a value, or `None` where it has none.
    spec fn encoding(value: Self::V) -> Option<Seq<u8>>;

    /// The value that bytes stand for, or `None` where they stand for
    /// none.
    spec fn decoding(bytes: Seq<u8>) -> Option<Self::V>;

    /// Writes the value as bytes.
    fn serialize(&self) -> (r: Result<Vec<u8>, EncodingError>)
        ensures
            r matches Ok(bytes) ==> Self::encoding(self@) == Some(bytes@),
            r is Err ==> Self::encoding(self@) is None,
    ;

    /// Reads a value from bytes. Bytes that stand for no value are
    /// refused; no value is made up in their place.
    fn deserialize(bytes: &[u8]) -> (r: Result<Self, EncodingError>)
        ensures
            r matches Ok(value) ==> Self::decoding(bytes@) == Some(value@),
            r is Err ==> Self::decoding(bytes@) is None,
    ;
}

/// Whether a value has bytes that are read back as the same value.
pub open spec fn round_trips<T: FileBackedObject>(value: T::V) -> bool {
    T::encoding(value) matches Some(bytes) && T::decoding(bytes) == Some(value)
}

/// Suffix of the name under which new contents are written before they
/// take the place of the old.
pub const STAGING_SUFFIX: &'static str = ".tmp";

/// Bytes to be written to the file named `staging`, which is then to be
/// renamed to `target`. The rename replaces the old contents in one
/// step: at any moment `target` holds the old bytes or the new, whole
/// ([`law_target_is_never_torn`]).
#[derive(Debug)]
pub struct WritePlan {
    pub staging: String,
    pub target: String,
    pub bytes: Vec<u8>,
}

/// The files that a plan has to do with: their contents by name. A name
/// that the map does not hold names no file.
pub type Files = Map<Seq<char>, Seq<u8>>;

/// What reading the file `name` gives: its contents, or `None` if there
/// is no such file.
pub open spec fn contents(files: Files, name: Seq<char>) -> Option<Seq<u8>> {
    if files.contains_key(name) {
        Some(files[name])
    } else {
        None
    }
}

/// The contents of what was read, if anything was.
pub open spec fn view_of(read: Option<Vec<u8>>) -> Option<Seq<u8>> {
    match read {
        Some(bytes) => Some(bytes@),
        None => None,
    }
}

impl WritePlan {
    /// The plan that puts `bytes` in the file at `path`.
    pub open spec fn replaces(self, path: Seq<char>, bytes: Seq<u8>) -> bool {
        &&& self.target@ == path
        &&& self.staging@ == path + STAGING_SUFFIX@
        &&& self.bytes@ == bytes
    }

    /// The files while the staging file is being written: it holds
    /// `torn`, which may be any part of the bytes, or anything else.
    pub open spec fn writing(self, before: Files, torn: Seq<u8>) -> Files {
        before.insert(self.staging@, torn)
    }

    /// The files once the staging file is written, whole.
    pub open spec fn staged(self, before: Files) -> Files {
        before.insert(self.staging@, self.bytes@)
    }

    /// The files once the staging file has taken the name of the target.
    pub open spec fn swapped(self, before: Files) -> Files {
        before.remove(self.staging@).insert(self.target@, self.bytes@)
    }

    /// What the files can be at some moment while the plan is carried
    /// out on the files `before`. If the program stops at that moment,
    /// this is what it leaves behind.
    pub open spec fn possible(self, before: Files, now: Files) -> bool {
        ||| now == before
        ||| exists|torn: Seq<u8>| now == #[trigger] self.writing(before, torn)
        ||| now == self.staged(before)
        ||| now == self.swapped(before)
    }

    fn new(path: &String, bytes: Vec<u8>) -> (r: WritePlan)
        ensures
            r.replaces(path@, bytes@),
    {
        let staging = path.clone().concat(STAGING_SUFFIX);
        WritePlan { staging, target: path.clone(), bytes }
    }
}

/// A value of type `T` and the path of the file that mirrors it.
#[derive(Debug)]
pub struct FileBacked<T: FileBackedObject> {
    inner: T,
    path: String,
}

impl<T: FileBackedObject> FileBacked<T> {
    /// The value held.
    pub closed spec fn value(self) -> T {
        self.inner
    }

    /// The path of the file.
    pub closed spec fn location(self) -> Seq<char> {
        self.path@
    }

    /// The value that is taken from what was read of the file: `read` is
    /// the file's contents, or `None` if the file could not be read.
    pub open spec fn taken(read: Option<Seq<u8>>) -> Option<T::V> {
        match read {
            Some(bytes) => T::decoding(bytes),
            None => None,
        }
    }

    /// Holds `inner` for the file at `path`. Nothing is read or written.
    pub fn new(inner: T, path: String) -> (r: Self)
        ensures
            r.value() == inner,
            r.location() == path@,
    {
        FileBacked { inner, path }
    }

    /// The value as last loaded or set.
    pub fn inner(&self) -> (r: &T)
        ensures
            *r == self.value(),
    {
        &self.inner
    }

    /// The path of the file.
    pub fn path(&self) -> (r: &String)
        ensures
            r@ == self.location(),
    {
        &self.path
    }

    /// Opens the value kept at `path`, given what the caller read there:
    /// the file's contents, or `None` if it could not be read.
    ///
    /// Contents that stand for a value are taken, and nothing is to be
    /// written. Otherwise `create` is called, once, and its value is held;
    /// the plan returned with it puts its bytes in the file. If the fresh
    /// value cannot be written as bytes, that error is returned.
    pub fn load_from_file_or_create<F: FnOnce() -> T>(
        path: String,
        read: Option<Vec<u8>>,
        create: F,
    ) -> (r: Result<(Self, Option<WritePlan>), EncodingError>)
        requires
            call_requires(create, ()),
        ensures
            Self::taken(view_of(read)) matches Some(value) ==> (r matches Ok((held, plan))
                && held.value()@ == value && held.location() == path@ && plan is None),
            Self::taken(view_of(read)) is None ==> exists|fresh: T|
                {
                    &&& #[trigger] call_ensures(create, (), fresh)
                    &&& match T::encoding(fresh@) {
                        Some(bytes) => r matches Ok((held, Some(plan))) && held.value() == fresh
                            && held.location() == path@ && plan.replaces(path@, bytes),
                        None => r is Err,
                    }
                },
    {
        let found = match read {
            Some(bytes) => match T::deserialize(bytes.as_slice()) {
                Ok(value) => Some(value),
                Err(_) => None,
            },
            None => None,
        };
        match found {
            Some(value) => Ok((FileBacked { inner: value, path }, None)),
            None => {
                let fresh = create();
                match fresh.serialize() {
                    Ok(bytes) => {
                        let plan = WritePlan::new(&path, bytes);
                        Ok((FileBacked { inner: fresh, path }, Some(plan)))
                    },
                    Err(e) => Err(e),
                }
            },
        }
    }

    /// Replaces the value held by `inner` and plans the write that makes
    /// the file follow. If `inner` cannot be written as bytes, the value
    /// held stays as it was and the error is returned.
    pub fn set_inner(&mut self, inner: T) -> (r: Result<WritePlan, EncodingError>)
        ensures
            final(self).location() == old(self).location(),
            match T::encoding(inner@) {
                Some(bytes) => r matches Ok(plan) && plan.replaces(old(self).location(), bytes)
                    && final(self).value() == inner,
                None => r is Err && final(self).value() == old(self).value(),
            },
    {
        match inner.serialize() {
            Ok(bytes) => {
                self.inner = inner;
                Ok(WritePlan::new(&self.path, bytes))
            },
            Err(e) => Err(e),
        }
    }

    /// Plans the write that puts the value held in the file.
    pub fn flush_to_file(&self) -> (r: Result<WritePlan, EncodingError>)
        ensures
            match T::encoding(self.value()@) {
                Some(bytes) => r matches Ok(plan) && plan.replaces(self.location(), bytes),
                None => r is Err,
            },
    {
        match self.inner.serialize() {
            Ok(bytes) => Ok(WritePlan::new(&self.path, bytes)),
            Err(e) => Err(e),
        }
    }
}

/// A plan never leaves its target half-written. At every moment while
/// the plan is carried out, and so after a stop at any moment, the file
/// of the value is as it was before, or holds the new bytes, whole. Once
/// the plan is carried out it holds the new bytes.
pub proof fn law_target_is_never_torn(
    plan: WritePlan,
    path: Seq<char>,
    bytes: Seq<u8>,
    before: Files,
    now: Files,
)
    requires
        plan.replaces(path, bytes),
        plan.possible(before, now),
    ensures
        contents(now, path) == contents(before, path) || contents(now, path) == Some(bytes),
        contents(plan.swapped(before), path) == Some(bytes),
{
    reveal_strlit(".tmp");
}

/// What is saved is what is loaded. Once the plan that saves a value
/// that round-trips is carried out, opening takes that value from the
/// file, whatever the files were before.
pub proof fn law_saved_value_is_loaded<T: FileBackedObject>(
    value: T::V,
    plan: WritePlan,
    path: Seq<char>,
    before: Files,
)
    requires
        round_trips::<T>(value),
        plan.replaces(path, T::encoding(value)->0),
    ensures
        FileBacked::<T>::taken(contents(plan.swapped(before), path)) == Some(value),
{
}

/// Head persistence. Where nothing can be read, nothing is taken, so
/// opening makes a fresh value and plans to write its bytes. Once the
/// file holds the bytes of a value that round-trips, opening takes that
/// same value from it: it then plans no write and holds nothing that the
/// factory made.
pub proof fn law_written_value_is_taken_again<T: FileBackedObject>(fresh: T::V)
    requires
        round_trips::<T>(fresh),
    ensures
        FileBacked::<T>::taken(None) is None,
        FileBacked::<T>::taken(T::encoding(fresh)) == Some(fresh),
{
}

} // verus!
