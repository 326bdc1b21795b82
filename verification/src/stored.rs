use vstd::prelude::*;
use vstd::string::*;

use crate::errors::Error;
use crate::random::WeightVec;

verus! {

/// The serialization formats a stored value can be kept in: a compact binary
/// self-describing format and a human-editable structured-text format.
#[derive(Clone, Copy, Debug, PartialEq, Eq, Structural)]
pub enum Kind {
    Rmp,
    Ron,
}

/// The file extension that names a format.
pub open spec fn kind_ext(k: Kind) -> Seq<char> {
    match k {
        Kind::Rmp => "rmp"@,
        Kind::Ron => "ron"@,
    }
}

impl Kind {
    pub fn ext(&self) -> (r: String)
        ensures
            r@ == kind_ext(*self),
    {
        match self {
            Kind::Rmp => "rmp".to_owned(),
            Kind::Ron => "ron".to_owned(),
        }
    }
}

pub uninterp spec fn rmp_strings_bytes(v: Seq<Seq<char>>) -> Seq<u8>;

pub uninterp spec fn ron_strings_bytes(v: Seq<Seq<char>>) -> Seq<u8>;

pub uninterp spec fn rmp_char_pool_bytes(v: Seq<(char, u64)>) -> Seq<u8>;

pub uninterp spec fn ron_char_pool_bytes(v: Seq<(char, u64)>) -> Seq<u8>;

pub uninterp spec fn rmp_reply_pool_bytes(v: Seq<((Seq<char>, Option<char>), u64)>) -> Seq<u8>;

pub uninterp spec fn ron_reply_pool_bytes(v: Seq<((Seq<char>, Option<char>), u64)>) -> Seq<u8>;

/// The binary format writes every length as a 32-bit count: a string's byte
/// length and a sequence's element count are both truncated to that width on
/// the wire. Only payloads whose sizes stay inside it are promised to encode
/// and round-trip. A string under 2^30 characters spells fewer than 2^32
/// UTF-8 bytes, so its byte length fits as well; the text format carries no
/// such limit.
pub open spec fn str_within_binary_limits(s: Seq<char>) -> bool {
    s.len() < 0x40000000
}

/// Every string and the list itself stay within the binary format's limits.
pub open spec fn strings_within_binary_limits(m: Seq<Seq<char>>) -> bool {
    m.len() < 0x100000000 && (forall|i: int|
        0 <= i < m.len() ==> str_within_binary_limits(#[trigger] m[i]))
}

/// The pool stays within the binary format's limits.
pub open spec fn char_pool_within_binary_limits(m: Seq<(char, u64)>) -> bool {
    m.len() < 0x100000000
}

/// Every reply text and the pool itself stay within the binary format's
/// limits.
pub open spec fn reply_pool_within_binary_limits(
    m: Seq<((Seq<char>, Option<char>), u64)>,
) -> bool {
    m.len() < 0x100000000 && (forall|i: int|
        0 <= i < m.len() ==> str_within_binary_limits((#[trigger] m[i]).0.0))
}

/// Whether a trigger list stays within a format's limits.
pub open spec fn strings_fit(m: Seq<Seq<char>>, kind: Kind) -> bool {
    match kind {
        Kind::Rmp => strings_within_binary_limits(m),
        Kind::Ron => true,
    }
}

/// Whether a reaction pool stays within a format's limits.
pub open spec fn char_pool_fit(m: Seq<(char, u64)>, kind: Kind) -> bool {
    match kind {
        Kind::Rmp => char_pool_within_binary_limits(m),
        Kind::Ron => true,
    }
}

/// Whether a reply pool stays within a format's limits.
pub open spec fn reply_pool_fit(m: Seq<((Seq<char>, Option<char>), u64)>, kind: Kind) -> bool {
    match kind {
        Kind::Rmp => reply_pool_within_binary_limits(m),
        Kind::Ron => true,
    }
}

/// The bytes a trigger list is kept as under each format.
pub open spec fn strings_bytes(m: Seq<Seq<char>>, kind: Kind) -> Seq<u8> {
    match kind {
        Kind::Rmp => rmp_strings_bytes(m),
        Kind::Ron => ron_strings_bytes(m),
    }
}

/// The bytes a reaction pool is kept as under each format.
pub open spec fn char_pool_bytes(m: Seq<(char, u64)>, kind: Kind) -> Seq<u8> {
    match kind {
        Kind::Rmp => rmp_char_pool_bytes(m),
        Kind::Ron => ron_char_pool_bytes(m),
    }
}

/// The bytes a reply pool is kept as under each format.
pub open spec fn reply_pool_bytes(m: Seq<((Seq<char>, Option<char>), u64)>, kind: Kind) -> Seq<
    u8,
> {
    match kind {
        Kind::Rmp => rmp_reply_pool_bytes(m),
        Kind::Ron => ron_reply_pool_bytes(m),
    }
}

/// Decoding inverts encoding: bytes that some trigger list within the
/// format's limits encodes to decode back to exactly that list.
pub open spec fn strings_decoded(kind: Kind, bytes: Seq<u8>, r: Option<Vec<String>>) -> bool {
    forall|m: Seq<Seq<char>>|
        strings_fit(m, kind) && bytes == #[trigger] strings_bytes(m, kind) ==> (r matches Some(v)
            && v.deep_view() == m)
}

/// Decoding inverts encoding: bytes that some reaction pool within the
/// format's limits encodes to decode back to exactly that pool.
pub open spec fn char_pool_decoded(kind: Kind, bytes: Seq<u8>, r: Option<Vec<(char, u64)>>) -> bool {
    forall|m: Seq<(char, u64)>|
        char_pool_fit(m, kind) && bytes == #[trigger] char_pool_bytes(m, kind) ==> (r matches Some(
            v,
        ) && v.deep_view() == m)
}

/// Decoding inverts encoding: bytes that some reply pool within the format's
/// limits encodes to decode back to exactly that pool.
pub open spec fn reply_pool_decoded(
    kind: Kind,
    bytes: Seq<u8>,
    r: Option<Vec<((String, Option<char>), u64)>>,
) -> bool {
    forall|m: Seq<((Seq<char>, Option<char>), u64)>|
        reply_pool_fit(m, kind) && bytes == #[trigger] reply_pool_bytes(m, kind) ==> (r matches Some(
            v,
        ) && v.deep_view() == m)
}

pub uninterp spec fn rmp_strings_parse(bytes: Seq<u8>) -> Option<Seq<Seq<char>>>;

pub uninterp spec fn ron_strings_parse(bytes: Seq<u8>) -> Option<Seq<Seq<char>>>;

pub uninterp spec fn rmp_char_pool_parse(bytes: Seq<u8>) -> Option<Seq<(char, u64)>>;

pub uninterp spec fn ron_char_pool_parse(bytes: Seq<u8>) -> Option<Seq<(char, u64)>>;

pub uninterp spec fn rmp_reply_pool_parse(bytes: Seq<u8>) -> Option<Seq<((Seq<char>, Option<char>), u64)>>;

pub uninterp spec fn ron_reply_pool_parse(bytes: Seq<u8>) -> Option<Seq<((Seq<char>, Option<char>), u64)>>;

/// What raw bytes parse to as a trigger list under each format, if anything.
pub open spec fn strings_parsed(bytes: Seq<u8>, kind: Kind) -> Option<Seq<Seq<char>>> {
    match kind {
        Kind::Rmp => rmp_strings_parse(bytes),
        Kind::Ron => ron_strings_parse(bytes),
    }
}

/// What raw bytes parse to as a reaction pool under each format, if anything.
pub open spec fn char_pool_parsed(bytes: Seq<u8>, kind: Kind) -> Option<Seq<(char, u64)>> {
    match kind {
        Kind::Rmp => rmp_char_pool_parse(bytes),
        Kind::Ron => ron_char_pool_parse(bytes),
    }
}

/// What raw bytes parse to as a reply pool under each format, if anything.
pub open spec fn reply_pool_parsed(bytes: Seq<u8>, kind: Kind) -> Option<
    Seq<((Seq<char>, Option<char>), u64)>,
> {
    match kind {
        Kind::Rmp => rmp_reply_pool_parse(bytes),
        Kind::Ron => ron_reply_pool_parse(bytes),
    }
}

/// Relies on rmp_serde::to_vec: the bytes produced depend on the serialized
/// value alone, and writing into a growable byte buffer cannot fail, so a
/// payload within the format's limits always encodes.
#[verifier::external_body]
fn rmp_encode_strings(v: &Vec<String>) -> (r: Option<Vec<u8>>)
    ensures
        r matches Some(b) ==> b@ == rmp_strings_bytes(v.deep_view()),
        strings_fit(v.deep_view(), Kind::Rmp) ==> r is Some,
{
    rmp_serde::to_vec(v).ok()
}

/// Relies on rmp_serde::from_slice: its result is a function of the bytes
/// alone, and it inverts rmp_serde::to_vec, so bytes that encode a value
/// within the format's limits decode back to that value.
#[verifier::external_body]
fn rmp_decode_strings(bytes: &[u8]) -> (r: Option<Vec<String>>)
    ensures
        strings_decoded(Kind::Rmp, bytes@, r),
        r matches Some(v) ==> rmp_strings_parse(bytes@) == Some(v.deep_view()),
        r is None ==> rmp_strings_parse(bytes@) is None,
{
    rmp_serde::from_slice(bytes).ok()
}

/// Relies on ron::to_string: the text produced depends on the serialized
/// value alone, and serializing this payload type into a string never
/// reports an error.
#[verifier::external_body]
fn ron_encode_strings(v: &Vec<String>) -> (r: Option<Vec<u8>>)
    ensures
        r is Some,
        r matches Some(b) ==> b@ == ron_strings_bytes(v.deep_view()),
{
    ron::to_string(v).ok().map(|s| s.into_bytes())
}

/// Relies on ron::from_str (after a UTF-8 view of the bytes): its result is
/// a function of the bytes alone, and it inverts ron::to_string, so text that
/// encodes a value decodes back to that value.
#[verifier::external_body]
fn ron_decode_strings(bytes: &[u8]) -> (r: Option<Vec<String>>)
    ensures
        strings_decoded(Kind::Ron, bytes@, r),
        r matches Some(v) ==> ron_strings_parse(bytes@) == Some(v.deep_view()),
        r is None ==> ron_strings_parse(bytes@) is None,
{
    core::str::from_utf8(bytes).ok().and_then(|s| ron::from_str(s).ok())
}

/// Relies on rmp_serde::to_vec: the bytes produced depend on the serialized
/// value alone, and writing into a growable byte buffer cannot fail, so a
/// payload within the format's limits always encodes.
#[verifier::external_body]
fn rmp_encode_char_pool(v: &Vec<(char, u64)>) -> (r: Option<Vec<u8>>)
    ensures
        r matches Some(b) ==> b@ == rmp_char_pool_bytes(v.deep_view()),
        char_pool_fit(v.deep_view(), Kind::Rmp) ==> r is Some,
{
    rmp_serde::to_vec(v).ok()
}

/// Relies on rmp_serde::from_slice: its result is a function of the bytes
/// alone, and it inverts rmp_serde::to_vec, so bytes that encode a value
/// within the format's limits decode back to that value.
#[verifier::external_body]
fn rmp_decode_char_pool(bytes: &[u8]) -> (r: Option<Vec<(char, u64)>>)
    ensures
        char_pool_decoded(Kind::Rmp, bytes@, r),
        r matches Some(v) ==> rmp_char_pool_parse(bytes@) == Some(v.deep_view()),
        r is None ==> rmp_char_pool_parse(bytes@) is None,
{
    rmp_serde::from_slice(bytes).ok()
}

/// Relies on ron::to_string: the text produced depends on the serialized
/// value alone, and serializing this payload type into a string never
/// reports an error.
#[verifier::external_body]
fn ron_encode_char_pool(v: &Vec<(char, u64)>) -> (r: Option<Vec<u8>>)
    ensures
        r is Some,
        r matches Some(b) ==> b@ == ron_char_pool_bytes(v.deep_view()),
{
    ron::to_string(v).ok().map(|s| s.into_bytes())
}

/// Relies on ron::from_str (after a UTF-8 view of the bytes): its result is
/// a function of the bytes alone, and it inverts ron::to_string, so text that
/// encodes a value decodes back to that value.
#[verifier::external_body]
fn ron_decode_char_pool(bytes: &[u8]) -> (r: Option<Vec<(char, u64)>>)
    ensures
        char_pool_decoded(Kind::Ron, bytes@, r),
        r matches Some(v) ==> ron_char_pool_parse(bytes@) == Some(v.deep_view()),
        r is None ==> ron_char_pool_parse(bytes@) is None,
{
    core::str::from_utf8(bytes).ok().and_then(|s| ron::from_str(s).ok())
}

/// Relies on rmp_serde::to_vec: the bytes produced depend on the serialized
/// value alone, and writing into a growable byte buffer cannot fail, so a
/// payload within the format's limits always encodes.
#[verifier::external_body]
fn rmp_encode_reply_pool(v: &Vec<((String, Option<char>), u64)>) -> (r: Option<Vec<u8>>)
    ensures
        r matches Some(b) ==> b@ == rmp_reply_pool_bytes(v.deep_view()),
        reply_pool_fit(v.deep_view(), Kind::Rmp) ==> r is Some,
{
    rmp_serde::to_vec(v).ok()
}

/// Relies on rmp_serde::from_slice: its result is a function of the bytes
/// alone, and it inverts rmp_serde::to_vec, so bytes that encode a value
/// within the format's limits decode back to that value.
#[verifier::external_body]
fn rmp_decode_reply_pool(bytes: &[u8]) -> (r: Option<Vec<((String, Option<char>), u64)>>)
    ensures
        reply_pool_decoded(Kind::Rmp, bytes@, r),
        r matches Some(v) ==> rmp_reply_pool_parse(bytes@) == Some(v.deep_view()),
        r is None ==> rmp_reply_pool_parse(bytes@) is None,
{
    rmp_serde::from_slice(bytes).ok()
}

/// Relies on ron::to_string: the text produced depends on the serialized
/// value alone, and serializing this payload type into a string never
/// reports an error.
#[verifier::external_body]
fn ron_encode_reply_pool(v: &Vec<((String, Option<char>), u64)>) -> (r: Option<Vec<u8>>)
    ensures
        r is Some,
        r matches Some(b) ==> b@ == ron_reply_pool_bytes(v.deep_view()),
{
    ron::to_string(v).ok().map(|s| s.into_bytes())
}

/// Relies on ron::from_str (after a UTF-8 view of the bytes): its result is
/// a function of the bytes alone, and it inverts ron::to_string, so text that
/// encodes a value decodes back to that value.
#[verifier::external_body]
fn ron_decode_reply_pool(bytes: &[u8]) -> (r: Option<Vec<((String, Option<char>), u64)>>)
    ensures
        reply_pool_decoded(Kind::Ron, bytes@, r),
        r matches Some(v) ==> ron_reply_pool_parse(bytes@) == Some(v.deep_view()),
        r is None ==> ron_reply_pool_parse(bytes@) is None,
{
    core::str::from_utf8(bytes).ok().and_then(|s| ron::from_str(s).ok())
}

/// A payload type that every supported format can carry. `Model` is the
/// mathematical shape of the payload; an encoding is a function from model and
/// format to bytes, and decoding those bytes yields the encoded model back.
pub trait Codec: Sized {
    type Model;

    /// The mathematical value of this payload.
    spec fn model(&self) -> Self::Model;

    /// The bytes a model is kept as under each format.
    spec fn encoding(m: Self::Model, kind: Kind) -> Seq<u8>;

    /// Whether a model's sizes stay within the format's limits, so that
    /// encoding succeeds and the encoded bytes decode back to the model.
    spec fn fits(m: Self::Model, kind: Kind) -> bool;

    /// What raw bytes parse to under each format, if anything.
    spec fn parsed(bytes: Seq<u8>, kind: Kind) -> Option<Self::Model>;

    /// Serializes the payload: always succeeds within the format's limits,
    /// and fails only when the serializer itself reports an error.
    fn encode(&self, kind: Kind) -> (r: Option<Vec<u8>>)
        ensures
            r matches Some(b) ==> b@ == Self::encoding(self.model(), kind),
            Self::fits(self.model(), kind) ==> r is Some,
    ;

    /// Parses a payload out of raw bytes: exactly the value the bytes parse
    /// to, and nothing when they parse as no payload. Bytes that some model
    /// within the format's limits encodes to decode back to exactly that
    /// model.
    fn decode(kind: Kind, bytes: &[u8]) -> (r: Option<Self>)
        ensures
            match r {
                Some(v) => Self::parsed(bytes@, kind) == Some(v.model()),
                None => Self::parsed(bytes@, kind) is None,
            },
            forall|m: Self::Model|
                Self::fits(m, kind) && bytes@ == #[trigger] Self::encoding(m, kind) ==> (
                r matches Some(v) && v.model() == m),
    ;
}

impl Codec for Vec<String> {
    type Model = Seq<Seq<char>>;

    open spec fn model(&self) -> Seq<Seq<char>> {
        self.deep_view()
    }

    open spec fn encoding(m: Seq<Seq<char>>, kind: Kind) -> Seq<u8> {
        strings_bytes(m, kind)
    }

    open spec fn fits(m: Seq<Seq<char>>, kind: Kind) -> bool {
        strings_fit(m, kind)
    }

    open spec fn parsed(bytes: Seq<u8>, kind: Kind) -> Option<Seq<Seq<char>>> {
        strings_parsed(bytes, kind)
    }

    fn encode(&self, kind: Kind) -> (r: Option<Vec<u8>>) {
        match kind {
            Kind::Rmp => rmp_encode_strings(self),
            Kind::Ron => ron_encode_strings(self),
        }
    }

    fn decode(kind: Kind, bytes: &[u8]) -> (r: Option<Self>) {
        match kind {
            Kind::Rmp => rmp_decode_strings(bytes),
            Kind::Ron => ron_decode_strings(bytes),
        }
    }
}

impl Codec for WeightVec<char> {
    type Model = Seq<(char, u64)>;

    open spec fn model(&self) -> Seq<(char, u64)> {
        self.0.deep_view()
    }

    open spec fn encoding(m: Seq<(char, u64)>, kind: Kind) -> Seq<u8> {
        char_pool_bytes(m, kind)
    }

    open spec fn fits(m: Seq<(char, u64)>, kind: Kind) -> bool {
        char_pool_fit(m, kind)
    }

    open spec fn parsed(bytes: Seq<u8>, kind: Kind) -> Option<Seq<(char, u64)>> {
        char_pool_parsed(bytes, kind)
    }

    fn encode(&self, kind: Kind) -> (r: Option<Vec<u8>>) {
        match kind {
            Kind::Rmp => rmp_encode_char_pool(&self.0),
            Kind::Ron => ron_encode_char_pool(&self.0),
        }
    }

    fn decode(kind: Kind, bytes: &[u8]) -> (r: Option<Self>) {
        let inner = match kind {
            Kind::Rmp => rmp_decode_char_pool(bytes),
            Kind::Ron => ron_decode_char_pool(bytes),
        };
        match inner {
            Some(v) => Some(WeightVec(v)),
            None => None,
        }
    }
}

impl Codec for WeightVec<(String, Option<char>)> {
    type Model = Seq<((Seq<char>, Option<char>), u64)>;

    open spec fn model(&self) -> Seq<((Seq<char>, Option<char>), u64)> {
        self.0.deep_view()
    }

    open spec fn encoding(m: Seq<((Seq<char>, Option<char>), u64)>, kind: Kind) -> Seq<u8> {
        reply_pool_bytes(m, kind)
    }

    open spec fn fits(m: Seq<((Seq<char>, Option<char>), u64)>, kind: Kind) -> bool {
        reply_pool_fit(m, kind)
    }

    open spec fn parsed(bytes: Seq<u8>, kind: Kind) -> Option<
        Seq<((Seq<char>, Option<char>), u64)>,
    > {
        reply_pool_parsed(bytes, kind)
    }

    fn encode(&self, kind: Kind) -> (r: Option<Vec<u8>>) {
        match kind {
            Kind::Rmp => rmp_encode_reply_pool(&self.0),
            Kind::Ron => ron_encode_reply_pool(&self.0),
        }
    }

    fn decode(kind: Kind, bytes: &[u8]) -> (r: Option<Self>) {
        let inner = match kind {
            Kind::Rmp => rmp_decode_reply_pool(bytes),
            Kind::Ron => ron_decode_reply_pool(bytes),
        };
        match inner {
            Some(v) => Some(WeightVec(v)),
            None => None,
        }
    }
}

/// The path of a stored value: `data/<namespace>/<key>.<format extension>`.
pub open spec fn spec_stored_path(dir: Seq<char>, key: Seq<char>, kind: Kind) -> Seq<char> {
    "data/"@ + dir + "/"@ + key + "."@ + kind_ext(kind)
}

/// A named, typed value backed by a file: a namespace folder, a base file
/// name, a serialization format, and the in-memory payload. The store itself
/// never touches the filesystem: callers hand it the bytes a file held and
/// persist the bytes it produces, at the path this type derives.
pub struct Stored<T: Codec> {
    pub dir: String,
    pub key: String,
    pub kind: Kind,
    pub value: T,
}

impl<T: Codec> Stored<T> {
    /// Explicit construction from an in-memory value.
    pub fn new(dir: String, key: String, kind: Kind, value: T) -> (r: Self)
        ensures
            r.dir == dir && r.key == key && r.kind == kind && r.value == value,
    {
        Stored { dir, key, kind, value }
    }

    /// The file extension of this value's format.
    pub fn ext(&self) -> (r: String)
        ensures
            r@ == kind_ext(self.kind),
    {
        self.kind.ext()
    }

    /// The namespace directory holding this value's file.
    pub fn dir(&self) -> (r: String)
        ensures
            r@ == "data/"@ + self.dir@,
    {
        let mut r = String::from_str("data/");
        r.append(self.dir.as_str());
        r
    }

    /// The full path of this value's backing file.
    pub fn path(&self) -> (r: String)
        ensures
            r@ == spec_stored_path(self.dir@, self.key@, self.kind),
    {
        let mut r = String::from_str("data/");
        r.append(self.dir.as_str());
        r.append("/");
        r.append(self.key.as_str());
        r.append(".");
        let e = self.kind.ext();
        r.append(e.as_str());
        r
    }

    /// Reads a stored value out of the bytes its backing file held: exactly
    /// the value the bytes parse to under the format. Reports `NotFound` when
    /// the file was absent (`None`) and `Decode` exactly when the bytes parse
    /// as no payload.
    pub fn read(dir: &str, key: &str, kind: Kind, bytes: Option<&[u8]>) -> (r: Result<
        Self,
        Error,
    >)
        ensures
            bytes is None <==> (r matches Err(e) && e == Error::NotFound),
            r matches Ok(st) ==> st.dir@ == dir@ && st.key@ == key@ && st.kind == kind,
            r matches Err(e) ==> e == Error::NotFound || e == Error::Decode,
            bytes matches Some(b) ==> match T::parsed(b@, kind) {
                Some(m) => r matches Ok(st) && st.value.model() == m,
                None => r matches Err(e) && e == Error::Decode,
            },
            bytes matches Some(b) ==> forall|m: T::Model|
                T::fits(m, kind) && b@ == #[trigger] T::encoding(m, kind) ==> (r matches Ok(st)
                    && st.value.model() == m),
    {
        match bytes {
            None => Err(Error::NotFound),
            Some(b) => match T::decode(kind, b) {
                Some(value) => Ok(
                    Stored { dir: dir.to_owned(), key: key.to_owned(), kind, value },
                ),
                None => Err(Error::Decode),
            },
        }
    }

    /// Serializes the in-memory value: the bytes to persist at `path()`.
    /// Always succeeds for a value within the format's limits; fails only
    /// with `Encode`, when the serializer reports an error.
    pub fn storage_write(&self) -> (r: Result<Vec<u8>, Error>)
        ensures
            T::fits(self.value.model(), self.kind) ==> r is Ok,
            r matches Ok(b) ==> b@ == T::encoding(self.value.model(), self.kind),
            r matches Err(e) ==> e == Error::Encode,
    {
        match self.value.encode(self.kind) {
            Some(b) => Ok(b),
            None => Err(Error::Encode),
        }
    }

    /// Re-reads the value from the bytes its backing file holds now, handing
    /// back the previous in-memory value alongside the fresh one, so a caller
    /// can detect external changes between two points in time.
    pub fn storage_resync(self, bytes: Option<&[u8]>) -> (r: Result<(T, Self), Error>)
        ensures
            bytes is None <==> (r matches Err(e) && e == Error::NotFound),
            r matches Err(e) ==> e == Error::NotFound || e == Error::Decode,
            r matches Ok(p) ==> p.0 == self.value && p.1.dir@ == self.dir@ && p.1.key@
                == self.key@ && p.1.kind == self.kind,
            bytes matches Some(b) ==> match T::parsed(b@, self.kind) {
                Some(m) => r matches Ok(p) && p.1.value.model() == m,
                None => r matches Err(e) && e == Error::Decode,
            },
            bytes matches Some(b) ==> forall|m: T::Model|
                T::fits(m, self.kind) && b@ == #[trigger] T::encoding(m, self.kind) ==> (
                r matches Ok(p) && p.1.value.model() == m),
    {
        let Stored { dir, key, kind, value } = self;
        match Self::read(dir.as_str(), key.as_str(), kind, bytes) {
            Ok(fresh) => Ok((value, fresh)),
            Err(e) => Err(e),
        }
    }

    /// Gives up the store and hands the last in-memory value back; the caller
    /// removes the backing file and reports its own `Io` failure if removal
    /// fails.
    pub fn storage_delete(self) -> (r: T)
        ensures
            r == self.value,
    {
        self.value
    }

    /// Moves the value to a new identity and format: the result is the moved
    /// store together with the bytes to persist at its new path, the value
    /// itself unchanged. Always succeeds for a value within the new format's
    /// limits. The caller removes the old backing file.
    pub fn storage_rename(self, dir: String, key: String, kind: Kind) -> (r: Result<
        (Self, Vec<u8>),
        Error,
    >)
        ensures
            T::fits(self.value.model(), kind) ==> r is Ok,
            r matches Ok(p) ==> p.0.dir == dir && p.0.key == key && p.0.kind == kind
                && p.0.value == self.value && p.1@ == T::encoding(self.value.model(), kind),
            r matches Err(e) ==> e == Error::Encode,
    {
        let value = self.storage_delete();
        let moved = Self::new(dir, key, kind, value);
        let bytes = match moved.storage_write() {
            Ok(b) => b,
            Err(e) => {
                return Err(e);
            },
        };
        Ok((moved, bytes))
    }

    /// The in-memory payload.
    pub fn unwrap(self) -> (r: T)
        ensures
            r == self.value,
    {
        self.value
    }

    /// Law: writing a stored value and reading the bytes straight back under
    /// the same format yields an equal value — serialization round-trips, and
    /// for a value within the format's limits it always succeeds. Beyond
    /// those limits the binary format truncates lengths on the wire, so only
    /// the error taxonomy is promised there.
    pub fn storage_round_trip(self) -> (r: Result<(T, Self), Error>)
        ensures
            T::fits(self.value.model(), self.kind) ==> r is Ok,
            r matches Ok(p) ==> p.0 == self.value && p.1.dir@ == self.dir@ && p.1.key@
                == self.key@ && p.1.kind == self.kind && (T::fits(self.value.model(), self.kind)
                ==> p.1.value.model() == self.value.model()),
            r matches Err(e) ==> e == Error::Encode || e == Error::Decode,
    {
        let bytes = match self.storage_write() {
            Ok(b) => b,
            Err(e) => {
                return Err(e);
            },
        };
        self.storage_resync(Some(bytes.as_slice()))
    }
}

} // verus!
