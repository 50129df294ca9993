//! Wire encoding of account payloads: base-58, base-64, and base-64 of
//! zstd-compressed bytes, each optionally restricted to a byte range that is
//! applied only at encode time.

use vstd::prelude::*;

use crate::types::{copy_bytes, AccountData, AccountInfo, Encoding, Pubkey, Slice, SolanaContext, KEY_LEN};

verus! {

/// The base-58 text for a byte string, as `bs58::encode` produces it.
pub uninterp spec fn base58_of(b: Seq<u8>) -> Seq<char>;

/// The bytes a base-58 text denotes, when it is valid base-58.
pub uninterp spec fn base58_decoded(s: Seq<char>) -> Option<Seq<u8>>;

/// The base-64 text for a byte string, as `base64::encode` produces it.
pub uninterp spec fn base64_of(b: Seq<u8>) -> Seq<char>;

/// The bytes a base-64 text denotes, when it is valid base-64.
pub uninterp spec fn base64_decoded(s: Seq<char>) -> Option<Seq<u8>>;

/// The zstd frame for a byte string at compression level 0.
pub uninterp spec fn zstd_of(b: Seq<u8>) -> Seq<u8>;

/// The bytes a zstd frame decompresses to, when it is a valid frame.
pub uninterp spec fn zstd_decoded(b: Seq<u8>) -> Option<Seq<u8>>;

/// Relies on `bs58::encode` followed by `into_string`: the base-58 text of
/// the given bytes, a function of the bytes alone; `bs58::decode` reads that
/// text back to exactly the given bytes.
#[verifier::external_body]
fn bs58_encode_bytes(b: &[u8]) -> (r: String)
    ensures
        r@ == base58_of(b@),
        base58_decoded(r@) == Some(b@),
{
    bs58::encode(b).into_string()
}

/// Relies on `bs58::decode` followed by `into_vec`: the bytes a base-58 text
/// denotes, or nothing when the text is not valid base-58; a function of the
/// text alone.
#[verifier::external_body]
fn bs58_decode_str(s: &str) -> (r: Option<Vec<u8>>)
    ensures
        match r {
            Some(v) => base58_decoded(s@) == Some(v@),
            None => base58_decoded(s@) is None,
        },
{
    bs58::decode(s).into_vec().ok()
}

/// Relies on `base64::encode`: the base-64 text of the given bytes, a
/// function of the bytes alone; `base64::decode` reads that text back to
/// exactly the given bytes.
#[verifier::external_body]
fn b64_encode_bytes(b: &[u8]) -> (r: String)
    ensures
        r@ == base64_of(b@),
        base64_decoded(r@) == Some(b@),
{
    base64::encode(b)
}

/// Relies on `base64::decode`: the bytes a base-64 text denotes, or nothing
/// when the text is not valid base-64; a function of the text alone.
#[verifier::external_body]
fn b64_decode_str(s: &str) -> (r: Option<Vec<u8>>)
    ensures
        match r {
            Some(v) => base64_decoded(s@) == Some(v@),
            None => base64_decoded(s@) is None,
        },
{
    base64::decode(s).ok()
}

/// Relies on `zstd::encode_all` at compression level 0: the compressed frame
/// for the bytes, a function of the bytes alone for the library version in
/// use, and `zstd::decode_all` decompresses that frame back to exactly the
/// given bytes. Nothing is claimed of the failure case.
#[verifier::external_body]
fn zstd_compress_bytes(b: &[u8]) -> (r: Option<Vec<u8>>)
    ensures
        r matches Some(v) ==> v@ == zstd_of(b@) && zstd_decoded(v@) == Some(b@),
{
    zstd::encode_all(b, 0).ok()
}

/// Relies on `zstd::decode_all`: the decompressed bytes of a zstd frame, or
/// nothing when the bytes are not a valid frame; a function of the bytes
/// alone.
#[verifier::external_body]
fn zstd_decode_bytes(b: &[u8]) -> (r: Option<Vec<u8>>)
    ensures
        match r {
            Some(v) => zstd_decoded(b@) == Some(v@),
            None => zstd_decoded(b@) is None,
        },
{
    zstd::decode_all(b).ok()
}

impl Pubkey {
    /// Wire form of a key: its base-58 text.
    pub fn to_base58(&self) -> (r: String)
        ensures
            r@ == base58_of(self@),
    {
        bs58_encode_bytes(self.bytes.as_slice())
    }

    /// Parse a key from its base-58 wire form; succeeds exactly when the text
    /// decodes to `KEY_LEN` bytes.
    pub fn from_base58(s: &str) -> (r: Option<Pubkey>)
        ensures
            match r {
                Some(p) => base58_decoded(s@) == Some(p@) && p.wf(),
                None => !(base58_decoded(s@) matches Some(b) && b.len() == KEY_LEN),
            },
    {
        match bs58_decode_str(s) {
            Some(v) => {
                if v.len() == KEY_LEN {
                    Some(Pubkey::new(v))
                } else {
                    None
                }
            },
            None => None,
        }
    }
}

/// Failure of encoding one response value; it aborts that value only.
#[derive(Clone, Copy, PartialEq, Eq, Structural, Debug)]
pub enum EncodeError {
    InvalidSlice,
    CompressionFailed,
}

/// Whether a requested byte range lies within the payload.
pub open spec fn spec_slice_ok(data: Seq<u8>, s: Option<Slice>) -> bool {
    match s {
        None => true,
        Some(sl) => sl.offset + sl.length <= data.len(),
    }
}

/// The bytes actually encoded: the payload, or the requested range of it.
pub open spec fn spec_sliced(data: Seq<u8>, s: Option<Slice>) -> Seq<u8> {
    match s {
        None => data,
        Some(sl) => data.subrange(sl.offset as int, sl.offset + sl.length),
    }
}

/// Slice bounds: a range past the end is exactly the invalid case, and the
/// full-width range reproduces the payload unchanged.
pub proof fn lemma_slice_bounds(data: Seq<u8>, s: Slice)
    ensures
        !spec_slice_ok(data, Some(s)) <==> s.offset + s.length > data.len(),
        s.offset == 0 && s.length == data.len() ==> spec_sliced(data, Some(s)) == data,
{
    if s.offset == 0 && s.length == data.len() {
        assert(spec_sliced(data, Some(s)) =~= data);
    }
}

/// Extract the requested byte range, or report the exact out-of-bounds error.
pub fn apply_slice(data: &Vec<u8>, s: &Option<Slice>) -> (r: Result<Vec<u8>, EncodeError>)
    ensures
        match r {
            Ok(v) => spec_slice_ok(data@, *s) && v@ == spec_sliced(data@, *s),
            Err(e) => e == EncodeError::InvalidSlice && !spec_slice_ok(data@, *s),
        },
{
    match s {
        None => Ok(copy_bytes(data)),
        Some(sl) => {
            let dlen = data.len();
            if sl.length <= dlen && sl.offset <= dlen - sl.length {
                let mut out: Vec<u8> = Vec::new();
                let mut i: usize = 0;
                while i < sl.length
                    invariant
                        i <= sl.length,
                        sl.offset + sl.length <= dlen,
                        dlen == data@.len(),
                        out@ == data@.subrange(sl.offset as int, sl.offset + i as int),
                    decreases sl.length - i,
                {
                    out.push(data[sl.offset + i]);
                    i = i + 1;
                    proof {
                        assert(data@.subrange(sl.offset as int, sl.offset + i as int) =~= data@
                            .subrange(sl.offset as int, sl.offset + i as int - 1).push(
                            data@[sl.offset + i as int - 1],
                        ));
                    }
                }
                Ok(out)
            } else {
                Err(EncodeError::InvalidSlice)
            }
        },
    }
}

impl Encoding {
    /// The name under which this encoding travels on the wire.
    pub open spec fn spec_name(self) -> Seq<char> {
        match self {
            Encoding::Base58 => "base58"@,
            Encoding::Base64 => "base64"@,
            Encoding::Base64Zstd => "base64+zstd"@,
        }
    }

    /// The encoding's wire name, sent in the second position of the pair.
    pub fn name(&self) -> (r: String)
        ensures
            r@ == self.spec_name(),
    {
        match self {
            Encoding::Base58 => "base58".to_owned(),
            Encoding::Base64 => "base64".to_owned(),
            Encoding::Base64Zstd => "base64+zstd".to_owned(),
        }
    }

    /// Which selector a wire name denotes, if any.
    pub open spec fn spec_from_name(s: Seq<char>) -> Option<Encoding> {
        if s == "base58"@ {
            Some(Encoding::Base58)
        } else if s == "base64"@ {
            Some(Encoding::Base64)
        } else if s == "base64+zstd"@ {
            Some(Encoding::Base64Zstd)
        } else {
            None
        }
    }

    /// Parse a wire name into an encoding selector.
    pub fn from_name(s: &String) -> (r: Option<Encoding>)
        ensures
            r == Encoding::spec_from_name(s@),
    {
        if *s == "base58".to_owned() {
            Some(Encoding::Base58)
        } else if *s == "base64".to_owned() {
            Some(Encoding::Base64)
        } else if *s == "base64+zstd".to_owned() {
            Some(Encoding::Base64Zstd)
        } else {
            None
        }
    }
}

/// The encoded text owed for given bytes under a given selector.
pub open spec fn spec_wire_payload(e: Encoding, sliced: Seq<u8>, payload: Seq<char>) -> bool {
    match e {
        Encoding::Base58 => payload == base58_of(sliced),
        Encoding::Base64 => payload == base64_of(sliced),
        Encoding::Base64Zstd => payload == base64_of(zstd_of(sliced)),
    }
}

/// The inverse reading used when a wire pair is taken back in.
pub open spec fn spec_decoded_payload(e: Encoding, s: Seq<char>) -> Option<Seq<u8>> {
    match e {
        Encoding::Base58 => base58_decoded(s),
        Encoding::Base64 => base64_decoded(s),
        Encoding::Base64Zstd => match base64_decoded(s) {
            Some(m) => zstd_decoded(m),
            None => None,
        },
    }
}

/// Decode a wire payload back to raw bytes (the zstd path decompresses after
/// the base-64 step).
pub fn decode_wire_payload(payload: &str, e: Encoding) -> (r: Option<Vec<u8>>)
    ensures
        match r {
            Some(v) => spec_decoded_payload(e, payload@) == Some(v@),
            None => spec_decoded_payload(e, payload@) is None,
        },
{
    match e {
        Encoding::Base58 => bs58_decode_str(payload),
        Encoding::Base64 => b64_decode_str(payload),
        Encoding::Base64Zstd => match b64_decode_str(payload) {
            Some(m) => zstd_decode_bytes(m.as_slice()),
            None => None,
        },
    }
}

/// When an encode error is the one owed for this payload, selector and range.
pub open spec fn spec_encode_err(data: Seq<u8>, e: Encoding, s: Option<Slice>, err: EncodeError) -> bool {
    match err {
        EncodeError::InvalidSlice => !spec_slice_ok(data, s),
        EncodeError::CompressionFailed => e == Encoding::Base64Zstd && spec_slice_ok(data, s),
    }
}

/// The two-element wire value `[encodedText, encodingName]`.
#[derive(Debug)]
pub struct WireAccountData {
    pub payload: String,
    pub encoding_name: String,
}

/// An account payload paired with an encoding selector and an optional byte
/// range, not yet rendered.
pub struct EncodedAccountData {
    pub encoding: Encoding,
    pub data: AccountData,
    pub slice: Option<Slice>,
}

impl Encoding {
    /// Pair this selector with an account payload; no range yet.
    pub fn with_account_data(self, data: &AccountData) -> (r: EncodedAccountData)
        ensures
            r.encoding == self,
            r.data@ == data@,
            r.slice is None,
    {
        EncodedAccountData { encoding: self, data: data.clone(), slice: None }
    }
}

impl EncodedAccountData {
    /// Restrict the payload to a byte range, applied when rendering.
    pub fn slice(self, slice: Option<Slice>) -> (r: Self)
        ensures
            r.encoding == self.encoding,
            r.data@ == self.data@,
            r.slice == slice,
    {
        EncodedAccountData { encoding: self.encoding, data: self.data, slice }
    }

    /// Render the `[encodedText, encodingName]` pair. Out-of-range slices and
    /// compression failures abort this value only, with the exact error; the
    /// emitted text decodes back to exactly the bytes that were encoded.
    pub fn to_wire(&self) -> (r: Result<WireAccountData, EncodeError>)
        ensures
            match r {
                Ok(w) => {
                    &&& spec_slice_ok(self.data@, self.slice)
                    &&& w.encoding_name@ == self.encoding.spec_name()
                    &&& spec_wire_payload(
                        self.encoding,
                        spec_sliced(self.data@, self.slice),
                        w.payload@,
                    )
                    &&& spec_decoded_payload(self.encoding, w.payload@) == Some(
                        spec_sliced(self.data@, self.slice),
                    )
                },
                Err(err) => spec_encode_err(self.data@, self.encoding, self.slice, err),
            },
            spec_slice_ok(self.data@, self.slice) && self.encoding != Encoding::Base64Zstd
                ==> r is Ok,
    {
        let sliced = match apply_slice(&self.data.data, &self.slice) {
            Ok(v) => v,
            Err(e) => {
                return Err(e);
            },
        };
        let payload = match self.encoding {
            Encoding::Base58 => bs58_encode_bytes(sliced.as_slice()),
            Encoding::Base64 => b64_encode_bytes(sliced.as_slice()),
            Encoding::Base64Zstd => {
                match zstd_compress_bytes(sliced.as_slice()) {
                    Some(c) => b64_encode_bytes(c.as_slice()),
                    None => {
                        return Err(EncodeError::CompressionFailed);
                    },
                }
            },
        };
        Ok(WireAccountData { payload, encoding_name: self.encoding.name() })
    }
}

/// An account paired with the selector and range its payload will be
/// rendered under.
pub struct EncodedAccountInfo {
    pub lamports: u64,
    pub data: EncodedAccountData,
    pub owner: Pubkey,
    pub executable: bool,
    pub rent_epoch: u64,
}

impl AccountInfo {
    /// Pair this account with an encoding selector and optional byte range.
    pub fn encode(&self, encoding: Encoding, slice: Option<Slice>) -> (r: EncodedAccountInfo)
        ensures
            r.lamports == self.lamports,
            r.owner@ == self.owner@,
            r.executable == self.executable,
            r.rent_epoch == self.rent_epoch,
            r.data.encoding == encoding,
            r.data.data@ == self.data@,
            r.data.slice == slice,
    {
        EncodedAccountInfo {
            lamports: self.lamports,
            owner: self.owner.clone(),
            executable: self.executable,
            rent_epoch: self.rent_epoch,
            data: encoding.with_account_data(&self.data).slice(slice),
        }
    }
}

/// A fully rendered account value as it travels on the wire.
#[derive(Debug)]
pub struct WireAccountInfo {
    pub lamports: u64,
    pub data: WireAccountData,
    pub owner: String,
    pub executable: bool,
    pub rent_epoch: u64,
}

/// Exact content of a rendered present account, relative to its source
/// record's view.
pub open spec fn spec_wire_account(
    a: crate::types::AccountInfoView,
    e: Encoding,
    s: Option<Slice>,
    w: WireAccountInfo,
) -> bool {
    &&& w.lamports == a.lamports
    &&& w.owner@ == base58_of(a.owner)
    &&& w.executable == a.executable
    &&& w.rent_epoch == a.rent_epoch
    &&& spec_slice_ok(a.data, s)
    &&& w.data.encoding_name@ == e.spec_name()
    &&& spec_wire_payload(e, spec_sliced(a.data, s), w.data.payload@)
}

impl EncodedAccountInfo {
    /// Render the account: encode and slice the payload, base-58 the owner.
    pub fn render(self, source: Ghost<crate::types::AccountInfoView>) -> (r: Result<
        WireAccountInfo,
        EncodeError,
    >)
        requires
            self.lamports == source@.lamports,
            self.owner@ == source@.owner,
            self.executable == source@.executable,
            self.rent_epoch == source@.rent_epoch,
            self.data.data@ == source@.data,
        ensures
            match r {
                Ok(w) => spec_wire_account(source@, self.data.encoding, self.data.slice, w),
                Err(err) => spec_encode_err(
                    source@.data,
                    self.data.encoding,
                    self.data.slice,
                    err,
                ),
            },
            spec_slice_ok(source@.data, self.data.slice) && self.data.encoding
                != Encoding::Base64Zstd ==> r is Ok,
    {
        let wire = match self.data.to_wire() {
            Ok(w) => w,
            Err(e) => {
                return Err(e);
            },
        };
        Ok(
            WireAccountInfo {
                lamports: self.lamports,
                data: wire,
                owner: self.owner.to_base58(),
                executable: self.executable,
                rent_epoch: self.rent_epoch,
            },
        )
    }
}

/// The rendered `{context: {slot}, value}` result shape; `value` is `None`
/// for an absent account, which travels as `null`.
pub struct WireAccountContext {
    pub slot: u64,
    pub value: Option<WireAccountInfo>,
}

/// The `{context, value}` result shape before rendering.
pub struct EncodedAccountContext {
    pub context: SolanaContext,
    pub value: Option<EncodedAccountInfo>,
}

impl EncodedAccountInfo {
    /// Wrap the encoded account in a `{context, value}` response shape.
    pub fn with_context(self, ctx: &SolanaContext) -> (r: EncodedAccountContext)
        ensures
            r.context == *ctx,
            r.value == Some(self),
    {
        EncodedAccountContext { context: *ctx, value: Some(self) }
    }
}

impl EncodedAccountContext {
    /// The `{context, value: null}` shape for an absent account.
    pub fn empty(ctx: &SolanaContext) -> (r: EncodedAccountContext)
        ensures
            r.context == *ctx,
            r.value is None,
    {
        EncodedAccountContext { context: *ctx, value: None }
    }
}

} // verus!
