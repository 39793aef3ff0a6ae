//! Bech32 string representations of commitment data: `data1...` strings for
//! raw payloads, `z1...` strings for DEFLATE-compressed payloads tagged with
//! a version byte, and `id1...` strings for 32-byte hash identifiers.
//!
//! The checksummed string encoding itself comes from the `bech32` crate and
//! is named by `bech32_str_of`; compression comes from the `deflate` and
//! `inflate` crates; the length-prefixed payload serialization used by the
//! strict-encoding strategy comes from the `strict_encoding` crate.

use vstd::prelude::*;

use crate::bytes::{extend_bytes, sub_bytes};

verus! {

pub const HRP_ID: &'static str = "id";

pub const HRP_DATA: &'static str = "data";

pub const HRP_ZIP: &'static str = "z";

/// The version byte that tags a DEFLATE-compressed raw payload.
pub const RAW_DATA_ENCODING_DEFLATE: u8 = 1u8;

/// A human-readable part the bech32 library accepts, restricted to lower
/// case: 1 to 83 ASCII characters in the range 33..=126, none of them an
/// upper-case letter.
pub open spec fn hrp_valid(h: Seq<char>) -> bool {
    &&& 1 <= h.len() <= 83
    &&& forall|i: int|
        0 <= i < h.len() ==> 33 <= (#[trigger] h[i]) as u32 <= 126 && !(65 <= h[i] as u32 <= 90)
}

/// The code-length bound of the Bech32 checksum: the HRP, the separator, the
/// base-32 digits of the payload and the six checksum characters must not
/// exceed 1023 characters.
pub open spec fn encoded_fits(h: Seq<char>, payload_len: nat) -> bool {
    h.len() + 1 + (payload_len * 8 + 4) / 5 + 6 <= 1023
}

/// The string begins with the human-readable part, then the `1` separator:
/// the shape every bech32 encoder output has.
pub open spec fn hrp_prefixed(s: Seq<char>, hrp: Seq<char>) -> bool {
    s.len() > hrp.len() && s.subrange(0, hrp.len() as int) == hrp && s[hrp.len() as int] == '1'
}

/// The lowercase bech32 string (Bech32 checksum) that encodes `payload`
/// under the human-readable part `hrp`; determined by both alone.
pub uninterp spec fn bech32_str_of(hrp: Seq<char>, payload: Seq<u8>) -> Seq<char>;

/// What decoding a bech32 string yields: the human-readable part and the
/// payload, or `None` when the string is not well-formed bech32; determined
/// by the string alone.
pub uninterp spec fn bech32_decode_of(s: Seq<char>) -> Option<(Seq<char>, Seq<u8>)>;

/// The DEFLATE compression of `payload` at the highest setting; determined
/// by `payload` alone.
pub uninterp spec fn deflate_of(payload: Seq<u8>) -> Seq<u8>;

/// The DEFLATE decompression of `data`, or `None` when `data` is not a
/// DEFLATE stream; determined by `data` alone.
pub uninterp spec fn inflate_of(data: Seq<u8>) -> Option<Seq<u8>>;

/// Errors generated by bech32 conversion functions, both parsing and
/// type-specific conversion errors.
#[derive(Clone, Debug, PartialEq, Eq)]
pub enum Error {
    /// The bech32 library rejected the string, the checksum or the HRP.
    Bech32Error,
    /// Payload data cannot be parsed into, or produced from, the requested
    /// type.
    WrongData,
    /// Requested object type does not match the used bech32 HRP.
    WrongPrefix,
    /// Provided raw data use an unknown encoding version.
    UnknownRawDataEncoding(u8),
    /// Error inflating compressed data from the payload.
    InflateError(String),
}

/// Relies on `bech32::Hrp::parse` and `bech32::encode` with the Bech32
/// checksum: the encoded string is a function of the HRP and the payload
/// alone, it is prefixed with the HRP and the separator, decoding it yields
/// back the HRP and the payload, and encoding succeeds whenever the
/// 1023-character code-length bound is met. The HRP is demanded valid and
/// lowercase up front: the library accepts upper-case HRPs as well, but then
/// emits the lowercase string, whose decoding would not return the HRP that
/// was given.
#[verifier::external_body]
pub(crate) fn bech32_encode(hrp: &str, payload: &Vec<u8>) -> (r: Result<String, Error>)
    requires
        hrp_valid(hrp@),
    ensures
        r matches Ok(s) ==> s@ == bech32_str_of(hrp@, payload@),
        r matches Ok(s) ==> bech32_decode_of(s@) == Some((hrp@, payload@)),
        r matches Ok(s) ==> hrp_prefixed(s@, hrp@),
        encoded_fits(hrp@, payload@.len()) ==> r is Ok,
        r matches Err(e) ==> e == Error::Bech32Error,
{
    let parsed = match ::bech32::Hrp::parse(hrp) {
        Ok(h) => h,
        Err(_) => return Err(Error::Bech32Error),
    };
    match ::bech32::encode::<::bech32::Bech32>(parsed, payload.as_slice()) {
        Ok(s) => Ok(s),
        Err(_) => Err(Error::Bech32Error),
    }
}

/// Relies on `bech32::decode`: decoding is a function of the string alone,
/// it succeeds exactly on well-formed checksummed strings, and it returns
/// the human-readable part (in lowercase) and the payload.
#[verifier::external_body]
pub(crate) fn bech32_decode(s: &str) -> (r: Result<(String, Vec<u8>), Error>)
    ensures
        r is Ok <==> bech32_decode_of(s@) is Some,
        r matches Ok(q) ==> bech32_decode_of(s@) == Some((q.0@, q.1@)),
        r matches Err(e) ==> e == Error::Bech32Error,
{
    match ::bech32::decode(s) {
        Ok((hrp, data)) => Ok((hrp.to_lowercase(), data)),
        Err(_) => Err(Error::Bech32Error),
    }
}

/// Relies on `deflate::deflate_bytes_conf` at the `Best` setting: the
/// compressed bytes are a function of the payload alone, and inflating them
/// yields the payload back.
#[verifier::external_body]
pub(crate) fn deflate_compress(payload: &[u8]) -> (r: Vec<u8>)
    ensures
        r@ == deflate_of(payload@),
        inflate_of(r@) == Some(payload@),
{
    deflate::deflate_bytes_conf(payload, deflate::Compression::Best)
}

/// Relies on `inflate::inflate_bytes`: DEFLATE decompression is a function
/// of the input alone, failing exactly when the input is not a DEFLATE
/// stream.
#[verifier::external_body]
pub(crate) fn inflate_decompress(data: &[u8]) -> (r: Result<Vec<u8>, String>)
    ensures
        r matches Ok(v) ==> inflate_of(data@) == Some(v@),
        r is Err ==> inflate_of(data@) is None,
{
    inflate::inflate_bytes(data)
}

/// Whether a byte vector is short enough for a 16-bit length prefix.
pub open spec fn fits_u16(data: Seq<u8>) -> bool {
    data.len() <= 65535
}

/// The strict serialization of a byte vector: a 16-bit little-endian length
/// prefix, then the bytes themselves.
pub open spec fn length_prefixed(data: Seq<u8>) -> Seq<u8> {
    seq![(data.len() % 256) as u8, (data.len() / 256) as u8] + data
}

/// Whether `data` is a whole strict serialization: a 16-bit little-endian
/// length prefix that accounts for exactly the remaining bytes.
pub open spec fn length_framed(data: Seq<u8>) -> bool {
    data.len() >= 2 && data.len() - 2 == data[0] + 256 * data[1]
}

/// Relies on `strict_encoding::strict_serialize` for `Vec<u8>`: the
/// serialization is a 16-bit little-endian length prefix followed by the
/// bytes themselves, and it fails exactly when the vector holds more than
/// 65535 bytes.
#[verifier::external_body]
pub(crate) fn strict_serialize_bytes(data: &Vec<u8>) -> (r: Option<Vec<u8>>)
    ensures
        r is Some <==> fits_u16(data@),
        r matches Some(v) ==> v@ == length_prefixed(data@),
{
    strict_encoding::strict_serialize(data).ok()
}

/// Relies on `strict_encoding::strict_deserialize` for `Vec<u8>`: it reads a
/// 16-bit little-endian length, then exactly that many bytes, and demands
/// that the input is consumed entirely.
#[verifier::external_body]
pub(crate) fn strict_deserialize_bytes(data: &Vec<u8>) -> (r: Option<Vec<u8>>)
    ensures
        r is Some <==> length_framed(data@),
        r matches Some(v) ==> v@ == data@.skip(2),
{
    strict_encoding::strict_deserialize::<Vec<u8>>(data.as_slice()).ok()
}

/// Type for wrapping byte-vector data that is shown as a bech32 `data1...`
/// string.
#[derive(Clone, Debug, PartialEq, Eq, Default)]
pub struct Blob(pub Vec<u8>);

impl View for Blob {
    type V = Seq<u8>;

    open spec fn view(&self) -> Seq<u8> {
        self.0@
    }
}

/// A type whose values yield an owned bech32 payload.
pub trait ToBech32Payload {
    /// The payload, in specification form.
    spec fn spec_payload(&self) -> Seq<u8>;

    fn to_bech32_payload(&self) -> (r: Vec<u8>)
        ensures
            r@ == self.spec_payload(),
    ;
}

/// A type whose values expose their bech32 payload as a borrowed slice.
pub trait AsBech32Payload {
    /// The payload, in specification form.
    spec fn spec_as_payload(&self) -> Seq<u8>;

    fn as_bech32_payload(&self) -> (r: &[u8])
        ensures
            r@ == self.spec_as_payload(),
    ;
}

/// A type whose values can be rebuilt from a bech32 payload.
pub trait FromBech32Payload: Sized + View<V = Seq<u8>> {
    /// Which payloads the type accepts.
    spec fn accepts(payload: Seq<u8>) -> bool;

    fn from_bech32_payload(payload: Vec<u8>) -> (r: Result<Self, Error>)
        ensures
            r is Ok <==> Self::accepts(payload@),
            r matches Ok(v) ==> v@ == payload@,
    ;
}

impl ToBech32Payload for Blob {
    open spec fn spec_payload(&self) -> Seq<u8> {
        self@
    }

    fn to_bech32_payload(&self) -> (r: Vec<u8>) {
        crate::bytes::clone_bytes(&self.0)
    }
}

impl AsBech32Payload for Blob {
    open spec fn spec_as_payload(&self) -> Seq<u8> {
        self@
    }

    fn as_bech32_payload(&self) -> (r: &[u8]) {
        self.0.as_slice()
    }
}

impl FromBech32Payload for Blob {
    open spec fn accepts(payload: Seq<u8>) -> bool {
        true
    }

    fn from_bech32_payload(payload: Vec<u8>) -> (r: Result<Self, Error>) {
        Ok(Blob(payload))
    }
}

/// Marker restricting the data-string traits to owned-payload types, in the
/// manner of a sealed trait: every such type is one of this crate's payload
/// providers.
pub trait ToPayload: ToBech32Payload {

}

impl<T: ToBech32Payload> ToPayload for T {

}

/// Marker restricting the data-string traits to borrowed-payload types.
pub trait AsPayload: AsBech32Payload {

}

impl<T: AsBech32Payload> AsPayload for T {

}

/// Marker restricting the data-string traits to payload-consuming types.
pub trait FromPayload: FromBech32Payload {

}

impl<T: FromBech32Payload> FromPayload for T {

}

/// Encodes a raw payload as a `data1...` string.
pub fn payload_to_bech32_data_string(payload: &Vec<u8>) -> (r: Result<String, Error>)
    ensures
        r matches Ok(s) ==> s@ == bech32_str_of("data"@, payload@),
        r matches Ok(s) ==> hrp_prefixed(s@, "data"@),
        encoded_fits("data"@, payload@.len()) ==> r is Ok,
        r matches Err(e) ==> e == Error::Bech32Error,
{
    proof {
        reveal_strlit("data");
        assert(hrp_valid("data"@));
    }
    bech32_encode(HRP_DATA, payload)
}

/// Decodes a `data1...` string back into its raw payload: the decoded
/// human-readable part must be `data`, and the decoded payload is returned
/// as it stands.
pub fn bech32_data_str_to_payload(s: &str) -> (r: Result<Vec<u8>, Error>)
    ensures
        match bech32_decode_of(s@) {
            Some(q) => if q.0 == "data"@ {
                r matches Ok(v) && v@ == q.1
            } else {
                r == Err::<Vec<u8>, Error>(Error::WrongPrefix)
            },
            None => r == Err::<Vec<u8>, Error>(Error::Bech32Error),
        },
{
    let (hrp, data) = match bech32_decode(s) {
        Ok(q) => q,
        Err(e) => {
            return Err(e);
        },
    };
    let expected: String = HRP_DATA.to_owned();
    if !hrp.eq(&expected) {
        return Err(Error::WrongPrefix);
    }
    Ok(data)
}

/// Shows an owned-payload value as its bech32 `data1...` string.
pub trait ToBech32DataString: ToPayload {
    fn to_bech32_data_string(&self) -> (r: Result<String, Error>)
        ensures
            r matches Ok(s) ==> s@ == bech32_str_of("data"@, self.spec_payload()),
            r matches Ok(s) ==> hrp_prefixed(s@, "data"@),
            encoded_fits("data"@, self.spec_payload().len()) ==> r is Ok,
    {
        payload_to_bech32_data_string(&self.to_bech32_payload())
    }
}

impl<T: ToPayload> ToBech32DataString for T {

}

/// Shows a borrowed-payload value as its bech32 `data1...` string.
pub trait Bech32DataString: AsPayload {
    fn bech32_data_string(&self) -> (r: Result<String, Error>)
        ensures
            r matches Ok(s) ==> s@ == bech32_str_of("data"@, self.spec_as_payload()),
            r matches Ok(s) ==> hrp_prefixed(s@, "data"@),
            encoded_fits("data"@, self.spec_as_payload().len()) ==> r is Ok,
    {
        let payload = crate::bytes::clone_slice_bytes(self.as_bech32_payload());
        payload_to_bech32_data_string(&payload)
    }
}

impl<T: AsPayload> Bech32DataString for T {

}

/// Rebuilds a payload-consuming value from a bech32 `data1...` string.
pub trait FromBech32DataStr: FromPayload {
    fn from_bech32_data_str(s: &str) -> (r: Result<Self, Error>)
        ensures
            (match bech32_decode_of(s@) {
                Some(q) => {
                    &&& q.0 != "data"@ ==> r == Err::<Self, Error>(Error::WrongPrefix)
                    &&& q.0 == "data"@ && Self::accepts(q.1) ==> (r matches Ok(v) && v@ == q.1)
                    &&& q.0 == "data"@ && !Self::accepts(q.1) ==> r is Err
                },
                None => r == Err::<Self, Error>(Error::Bech32Error),
            }),
    {
        match bech32_data_str_to_payload(s) {
            Ok(payload) => Self::from_bech32_payload(payload),
            Err(e) => Err(e),
        }
    }
}

impl<T: FromPayload> FromBech32DataStr for T {

}


/// Encodes a raw payload as a compressed `z1...` string: a version byte
/// tagging the DEFLATE encoding, then the compressed payload, as one bech32
/// string.
pub fn payload_to_bech32_zip_string(hrp: &str, payload: &[u8]) -> (r: Result<String, Error>)
    requires
        hrp_valid(hrp@),
    ensures
        r matches Ok(s) ==> s@ == bech32_str_of(
            hrp@,
            seq![RAW_DATA_ENCODING_DEFLATE] + deflate_of(payload@),
        ),
        r matches Ok(s) ==> bech32_decode_of(s@) == Some(
            (hrp@, seq![RAW_DATA_ENCODING_DEFLATE] + deflate_of(payload@)),
        ),
        r matches Ok(s) ==> hrp_prefixed(s@, hrp@),
        encoded_fits(hrp@, 1 + deflate_of(payload@).len()) ==> r is Ok,
        r matches Err(e) ==> e == Error::Bech32Error,
{
    let mut data: Vec<u8> = Vec::new();
    data.push(RAW_DATA_ENCODING_DEFLATE);
    let compressed = deflate_compress(payload);
    extend_bytes(&mut data, &compressed);
    proof {
        assert(data@ =~= seq![RAW_DATA_ENCODING_DEFLATE] + deflate_of(payload@));
    }
    bech32_encode(hrp, &data)
}

/// Decodes a compressed `z1...` string back into the raw payload: the
/// human-readable part must match, the version byte must announce the
/// DEFLATE encoding, and the rest must inflate.
pub fn bech32_zip_str_to_payload(hrp: &str, s: &str) -> (r: Result<Vec<u8>, Error>)
    ensures
        (match bech32_decode_of(s@) {
            Some(q) => {
                &&& q.0 != hrp@ ==> r == Err::<Vec<u8>, Error>(Error::WrongPrefix)
                &&& q.0 == hrp@ && q.1.len() == 0 ==> r == Err::<Vec<u8>, Error>(Error::WrongData)
                &&& q.0 == hrp@ && q.1.len() >= 1 && q.1[0] != RAW_DATA_ENCODING_DEFLATE ==> r
                    == Err::<Vec<u8>, Error>(Error::UnknownRawDataEncoding(q.1[0]))
                &&& q.0 == hrp@ && q.1.len() >= 1 && q.1[0] == RAW_DATA_ENCODING_DEFLATE ==> (
                match inflate_of(q.1.skip(1)) {
                    Some(v) => r matches Ok(out) && out@ == v,
                    None => r matches Err(e) && e is InflateError,
                })
            },
            None => r == Err::<Vec<u8>, Error>(Error::Bech32Error),
        }),
{
    let decoded = match bech32_decode(s) {
        Ok(q) => q,
        Err(e) => {
            return Err(e);
        },
    };
    let (got, data) = decoded;
    let expected: String = hrp.to_owned();
    if !got.eq(&expected) {
        return Err(Error::WrongPrefix);
    }
    if data.len() == 0 {
        return Err(Error::WrongData);
    }
    let version = data[0];
    if version != RAW_DATA_ENCODING_DEFLATE {
        return Err(Error::UnknownRawDataEncoding(version));
    }
    let rest = sub_bytes(&data, 1, data.len());
    proof {
        assert(rest@ =~= data@.skip(1));
    }
    match inflate_decompress(rest.as_slice()) {
        Ok(v) => Ok(v),
        Err(m) => Err(Error::InflateError(m)),
    }
}

/// Shows an owned-payload value as its compressed bech32 `z1...` string.
pub trait ToBech32ZipString: ToPayload {
    fn to_bech32_zip_string(&self) -> (r: Result<String, Error>)
        ensures
            r matches Ok(s) ==> s@ == bech32_str_of(
                "z"@,
                seq![RAW_DATA_ENCODING_DEFLATE] + deflate_of(self.spec_payload()),
            ),
            encoded_fits("z"@, 1 + deflate_of(self.spec_payload()).len()) ==> r is Ok,
    {
        proof {
            reveal_strlit("z");
            assert(hrp_valid("z"@));
        }
        let payload = self.to_bech32_payload();
        payload_to_bech32_zip_string(HRP_ZIP, payload.as_slice())
    }
}

impl<T: ToPayload> ToBech32ZipString for T {

}

/// Shows a borrowed-payload value as its compressed bech32 `z1...` string.
pub trait Bech32ZipString: AsPayload {
    fn bech32_zip_string(&self) -> (r: Result<String, Error>)
        ensures
            r matches Ok(s) ==> s@ == bech32_str_of(
                "z"@,
                seq![RAW_DATA_ENCODING_DEFLATE] + deflate_of(self.spec_as_payload()),
            ),
            encoded_fits("z"@, 1 + deflate_of(self.spec_as_payload()).len()) ==> r is Ok,
    {
        proof {
            reveal_strlit("z");
            assert(hrp_valid("z"@));
        }
        payload_to_bech32_zip_string(HRP_ZIP, self.as_bech32_payload())
    }
}

impl<T: AsPayload> Bech32ZipString for T {

}

/// Rebuilds a payload-consuming value from a compressed bech32 `z1...`
/// string.
pub trait FromBech32ZipStr: FromPayload {
    fn from_bech32_zip_str(s: &str) -> (r: Result<Self, Error>)
        ensures
            (match bech32_decode_of(s@) {
                Some(q) => q.0 == "z"@ && q.1.len() >= 1 && q.1[0] == RAW_DATA_ENCODING_DEFLATE
                    && (inflate_of(q.1.skip(1)) matches Some(v) && Self::accepts(v)) ==> (
                r matches Ok(x) && x@ == inflate_of(q.1.skip(1))->Some_0),
                None => r is Err,
            }),
    {
        proof {
            reveal_strlit("z");
        }
        match bech32_zip_str_to_payload(HRP_ZIP, s) {
            Ok(payload) => Self::from_bech32_payload(payload),
            Err(e) => Err(e),
        }
    }
}

impl<T: FromPayload> FromBech32ZipStr for T {

}

/// A 32-byte hash value with a bech32 `id1...` representation.
pub trait HashType: Sized + View<V = Seq<u8>> {
    fn to_hash_bytes(&self) -> (r: Vec<u8>)
        ensures
            r@ == self@,
    ;

    fn from_hash_bytes(bytes: Vec<u8>) -> (r: Option<Self>)
        ensures
            r is Some <==> bytes@.len() == 32,
            r matches Some(h) ==> h@ == bytes@,
    ;
}

impl HashType for crate::hashes::Hash256 {
    fn to_hash_bytes(&self) -> (r: Vec<u8>) {
        crate::bytes::clone_bytes(&self.bytes)
    }

    fn from_hash_bytes(bytes: Vec<u8>) -> (r: Option<Self>) {
        crate::hashes::Hash256::from_bytes(bytes)
    }
}

/// Shows a hash value as its bech32 `id1...` string.
pub trait ToBech32IdString: HashType {
    fn to_bech32_id_string(&self) -> (r: String)
        requires
            self@.len() == 32,
        ensures
            r@ == bech32_str_of("id"@, self@),
            hrp_prefixed(r@, "id"@),
    {
        proof {
            reveal_strlit("id");
            assert(hrp_valid("id"@));
        }
        let bytes = self.to_hash_bytes();
        match bech32_encode(HRP_ID, &bytes) {
            Ok(s) => s,
            Err(_) => {
                proof {
                    assert(false);
                }
                String::new()
            },
        }
    }
}

impl<T: HashType> ToBech32IdString for T {

}

/// Rebuilds a hash value from its bech32 `id1...` string.
pub trait FromBech32IdStr: HashType {
    fn from_bech32_id_str(s: &str) -> (r: Result<Self, Error>)
        ensures
            (match bech32_decode_of(s@) {
                Some(q) => {
                    &&& q.0 != "id"@ ==> r == Err::<Self, Error>(Error::WrongPrefix)
                    &&& q.0 == "id"@ && q.1.len() == 32 ==> (r matches Ok(h) && h@ == q.1)
                    &&& q.0 == "id"@ && q.1.len() != 32 ==> r == Err::<Self, Error>(
                        Error::WrongData,
                    )
                },
                None => r == Err::<Self, Error>(Error::Bech32Error),
            }),
    {
        proof {
            reveal_strlit("id");
        }
        let decoded = match bech32_decode(s) {
            Ok(q) => q,
            Err(e) => {
                return Err(e);
            },
        };
        let (got, data) = decoded;
        let expected: String = HRP_ID.to_owned();
        if !got.eq(&expected) {
            return Err(Error::WrongPrefix);
        }
        match Self::from_hash_bytes(data) {
            Some(h) => Ok(h),
            None => Err(Error::WrongData),
        }
    }
}

impl<T: HashType> FromBech32IdStr for T {

}

/// Marker: a type rendered by serializing it with strict encoding.
pub struct UsingStrictEncoding;

/// Marker: a wrapper type rendered as its inner type is.
pub struct Wrapped;

/// Marker: a type rendered by strict encoding followed by compression.
pub struct CompressedStrictEncoding;

/// Selects, at the type level, how a type is rendered as one bech32 string:
/// which marker drives the rendering, and under which human-readable part.
pub trait Strategy {
    type Strategy;

    /// The human-readable part of this type's bech32 strings.
    spec fn spec_hrp() -> Seq<char>;

    fn strategy_hrp() -> (r: &'static str)
        ensures
            r@ == Self::spec_hrp(),
    ;
}

impl Strategy for Blob {
    type Strategy = UsingStrictEncoding;

    open spec fn spec_hrp() -> Seq<char> {
        HRP_DATA@
    }

    fn strategy_hrp() -> (r: &'static str) {
        HRP_DATA
    }
}

/// A type with one canonical bech32 string form, driven by its [`Strategy`].
pub trait ToBech32String {
    fn to_bech32_string(&self) -> Result<String, Error>;
}

/// The inverse of [`ToBech32String`].
pub trait FromBech32Str: Sized {
    fn from_bech32_str(s: &str) -> Result<Self, Error>;
}

impl ToBech32String for Blob {
    /// The `UsingStrictEncoding` strategy: the wrapped bytes are strict
    /// serialized (16-bit little-endian length prefix, then the bytes) and
    /// encoded under this type's human-readable part.
    fn to_bech32_string(&self) -> (r: Result<String, Error>)
        ensures
            r matches Ok(s) ==> s@ == bech32_str_of(HRP_DATA@, length_prefixed(self@)),
            fits_u16(self@) && encoded_fits(HRP_DATA@, self@.len() + 2) ==> r is Ok,
    {
        proof {
            reveal_strlit("data");
            assert(hrp_valid(HRP_DATA@));
        }
        let data = match strict_serialize_bytes(&self.0) {
            Some(v) => v,
            None => {
                return Err(Error::WrongData);
            },
        };
        let hrp = <Blob as Strategy>::strategy_hrp();
        bech32_encode(hrp, &data)
    }
}

impl FromBech32Str for Blob {
    /// The inverse of the `UsingStrictEncoding` strategy: decode, check the
    /// human-readable part, and strict-deserialize the payload.
    fn from_bech32_str(s: &str) -> (r: Result<Self, Error>)
        ensures
            (match bech32_decode_of(s@) {
                Some(q) => {
                    &&& q.0 != HRP_DATA@ ==> r == Err::<Blob, Error>(Error::WrongPrefix)
                    &&& q.0 == HRP_DATA@ && length_framed(q.1) ==> (r matches Ok(b) && b@
                        == q.1.skip(2))
                    &&& q.0 == HRP_DATA@ && !length_framed(q.1) ==> r == Err::<Blob, Error>(
                        Error::WrongData,
                    )
                },
                None => r == Err::<Blob, Error>(Error::Bech32Error),
            }),
    {
        let decoded = match bech32_decode(s) {
            Ok(q) => q,
            Err(e) => {
                return Err(e);
            },
        };
        let (got, data) = decoded;
        let expected: String = <Blob as Strategy>::strategy_hrp().to_owned();
        if !got.eq(&expected) {
            return Err(Error::WrongPrefix);
        }
        match strict_deserialize_bytes(&data) {
            Some(v) => Ok(Blob(v)),
            None => Err(Error::WrongData),
        }
    }
}

impl core::str::FromStr for Blob {
    type Err = Error;

    fn from_str(s: &str) -> Result<Self, Error> {
        Blob::from_bech32_data_str(s)
    }
}

} // verus!
