//! The two cache-aware request handlers and the dispatcher, written as step
//! functions over the shared [`State`]. The surrounding process drives them:
//! it performs the HTTP calls, delivers the subscription commands, sleeps
//! between attempts, and races the upstream fetch against fill-wake signals;
//! every decision those steps take is here, with its contract.

use vstd::prelude::*;

use crate::cache::{copy_keys, keys_view, spec_map_get, State};
use crate::codec::{
    base58_decoded, base58_of, spec_decoded_payload, spec_encode_err, spec_slice_ok,
    spec_wire_account, EncodeError, EncodedAccountContext, WireAccountInfo,
};
use crate::json::{
    json_array_len, json_as_bool, json_as_str, json_as_u64, json_clone, json_get, json_index,
    json_is_null, json_of, json_parse, json_view, JsonView,
};
use crate::types::{
    opt_account_view, AccountData, AccountInfo, AccountInfoView, Encoding, Pubkey, Slice,
    SolanaContext, KEY_LEN,
};

verus! {

/// Fixed number of upstream attempts a request may make before it is
/// reported as a gateway timeout.
pub const MAX_UPSTREAM_ATTEMPTS: u32 = 10;

/// Fixed delay, in milliseconds, between two upstream attempts.
pub const RETRY_DELAY_MS: u64 = 100;

/// Budget of upstream attempts left for one request. The driver spends one
/// unit per attempt; when none is left, the request resolves as a gateway
/// timeout rather than waiting further.
pub struct RetryBudget {
    pub attempts_left: u32,
}

impl RetryBudget {
    /// A fresh budget holds the full attempt allowance.
    pub fn new() -> (r: RetryBudget)
        ensures
            r.attempts_left == MAX_UPSTREAM_ATTEMPTS,
    {
        RetryBudget { attempts_left: MAX_UPSTREAM_ATTEMPTS }
    }

    /// Spend one attempt; the budget strictly decreases, so a request that
    /// fails every attempt runs out after exactly the fixed allowance.
    pub fn start_attempt(&mut self)
        requires
            old(self).attempts_left > 0,
        ensures
            final(self).attempts_left == old(self).attempts_left - 1,
    {
        self.attempts_left = self.attempts_left - 1;
    }

    /// Whether a further attempt may be made after a failure.
    pub fn may_retry(&self) -> (r: bool)
        ensures
            r == (self.attempts_left > 0),
    {
        self.attempts_left > 0
    }
}

/// A JSON-RPC error body.
pub struct RpcError {
    pub code: i64,
    pub message: String,
}

/// A complete JSON-RPC error envelope.
pub struct ErrorResponse {
    pub jsonrpc: String,
    pub error: RpcError,
    pub id: u64,
}

/// The exact envelope owed when `params` lacks its required first argument.
pub open spec fn spec_not_enough_arguments(id: u64, r: ErrorResponse) -> bool {
    &&& r.jsonrpc@ == "2.0"@
    &&& r.id == id
    &&& r.error.code == -32602
    &&& r.error.message@ == "`params` should have at least 1 argument(s)"@
}

impl ErrorResponse {
    /// The error envelope for a request whose `params` array is empty.
    pub fn not_enough_arguments(id: u64) -> (r: ErrorResponse)
        ensures
            spec_not_enough_arguments(id, r),
    {
        ErrorResponse {
            jsonrpc: "2.0".to_owned(),
            id,
            error: RpcError {
                code: -32602,
                message: "`params` should have at least 1 argument(s)".to_owned(),
            },
        }
    }
}

/// Which handler a method name selects.
#[derive(Clone, Copy, PartialEq, Eq, Structural, Debug)]
pub enum Route {
    AccountInfo,
    ProgramAccounts,
    Passthrough,
}

/// The closed routing rule: two cache-aware methods, everything else passes
/// through untouched.
pub open spec fn spec_route(m: Seq<char>) -> Route {
    if m == "getAccountInfo"@ {
        Route::AccountInfo
    } else if m == "getProgramAccounts"@ {
        Route::ProgramAccounts
    } else {
        Route::Passthrough
    }
}

/// Select the handler for a method name.
pub fn route_method(method: &String) -> (r: Route)
    ensures
        r == spec_route(method@),
{
    if *method == "getAccountInfo".to_owned() {
        Route::AccountInfo
    } else if *method == "getProgramAccounts".to_owned() {
        Route::ProgramAccounts
    } else {
        Route::Passthrough
    }
}

/// A text member of a JSON object, when the object has one under the key.
pub open spec fn spec_text_member(m: Map<Seq<char>, JsonView>, k: Seq<char>) -> Option<Seq<char>> {
    match spec_map_get(m, k) {
        Some(JsonView::Text(t)) => Some(t),
        _ => None,
    }
}

/// An unsigned-integer member of a JSON object.
pub open spec fn spec_uint_member(m: Map<Seq<char>, JsonView>, k: Seq<char>) -> Option<u64> {
    match spec_map_get(m, k) {
        Some(JsonView::UInt(n)) => Some(n),
        _ => None,
    }
}

/// A boolean member of a JSON object.
pub open spec fn spec_bool_member(m: Map<Seq<char>, JsonView>, k: Seq<char>) -> Option<bool> {
    match spec_map_get(m, k) {
        Some(JsonView::Bool(b)) => Some(b),
        _ => None,
    }
}

/// The 32-byte key a base-58 text denotes, when it denotes exactly one.
pub open spec fn spec_key58(t: Seq<char>) -> Option<Seq<u8>> {
    match base58_decoded(t) {
        Some(b) => if b.len() == KEY_LEN {
            Some(b)
        } else {
            None
        },
        None => None,
    }
}

/// Ghost image of an accepted envelope.
pub ghost struct EnvelopeView {
    pub jsonrpc: Seq<char>,
    pub id: u64,
    pub method: Seq<char>,
    pub params: JsonView,
}

/// What the envelope rule accepts: an object with text `jsonrpc`, unsigned
/// `id`, text `method`, and any `params` member at all.
pub open spec fn spec_envelope(j: JsonView) -> Option<EnvelopeView> {
    match j {
        JsonView::Object(m) => {
            match (
                spec_text_member(m, "jsonrpc"@),
                spec_uint_member(m, "id"@),
                spec_text_member(m, "method"@),
                spec_map_get(m, "params"@),
            ) {
                (Some(vr), Some(id), Some(me), Some(ps)) => Some(
                    EnvelopeView { jsonrpc: vr, id, method: me, params: ps },
                ),
                _ => None,
            }
        },
        _ => None,
    }
}

/// What an inbound body denotes as an envelope, if anything.
pub open spec fn spec_request_of(body: Seq<u8>) -> Option<EnvelopeView> {
    match json_of(body) {
        Some(j) => spec_envelope(j),
        None => None,
    }
}

/// A parsed JSON-RPC envelope; `params` stays an opaque document until the
/// chosen handler reads it.
pub struct RpcRequest {
    pub jsonrpc: String,
    pub id: u64,
    pub method: String,
    pub params: serde_json::Value,
}

/// Parse the top-level `{jsonrpc, id, method, params}` envelope; any missing
/// or mistyped member rejects the request, and an accepted one is exactly
/// what the body denotes.
pub fn parse_request(body: &[u8]) -> (r: Option<RpcRequest>)
    ensures
        match r {
            Some(req) => spec_request_of(body@) matches Some(e) && req.jsonrpc@ == e.jsonrpc
                && req.id == e.id && req.method@ == e.method && json_view(req.params) == e.params,
            None => spec_request_of(body@) is None,
        },
{
    let v = match json_parse(body) {
        Some(v) => v,
        None => {
            return None;
        },
    };
    let jsonrpc = match json_get(&v, "jsonrpc") {
        Some(f) => match json_as_str(f) {
            Some(s) => s,
            None => {
                return None;
            },
        },
        None => {
            return None;
        },
    };
    let id = match json_get(&v, "id") {
        Some(f) => match json_as_u64(f) {
            Some(u) => u,
            None => {
                return None;
            },
        },
        None => {
            return None;
        },
    };
    let method = match json_get(&v, "method") {
        Some(f) => match json_as_str(f) {
            Some(s) => s,
            None => {
                return None;
            },
        },
        None => {
            return None;
        },
    };
    let params = match json_get(&v, "params") {
        Some(f) => json_clone(f),
        None => {
            return None;
        },
    };
    Some(RpcRequest { jsonrpc, id, method, params })
}

/// What the dispatcher decided for one inbound body.
pub enum Dispatch {
    /// The body is not a well-formed envelope; a client error is owed.
    Invalid,
    /// Route to the single-account handler.
    Account { id: u64, params: serde_json::Value },
    /// Route to the program-accounts handler.
    Program { id: u64, params: serde_json::Value },
    /// Forward the inbound body verbatim and stream the answer back.
    Passthrough,
}

/// Parse the envelope and choose the handler: exactly the bodies that denote
/// no envelope are invalid, and an accepted one is routed by its method.
pub fn dispatch_request(body: &[u8]) -> (r: Dispatch)
    ensures
        match r {
            Dispatch::Invalid => spec_request_of(body@) is None,
            Dispatch::Account { id, params } => spec_request_of(body@) matches Some(e)
                && spec_route(e.method) == Route::AccountInfo && id == e.id && json_view(params)
                == e.params,
            Dispatch::Program { id, params } => spec_request_of(body@) matches Some(e)
                && spec_route(e.method) == Route::ProgramAccounts && id == e.id && json_view(
                params,
            ) == e.params,
            Dispatch::Passthrough => spec_request_of(body@) matches Some(e) && spec_route(e.method)
                == Route::Passthrough,
        },
{
    match parse_request(body) {
        None => Dispatch::Invalid,
        Some(req) => match route_method(&req.method) {
            Route::AccountInfo => Dispatch::Account { id: req.id, params: req.params },
            Route::ProgramAccounts => Dispatch::Program { id: req.id, params: req.params },
            Route::Passthrough => Dispatch::Passthrough,
        },
    }
}

/// Why a handler could not use its `params`.
#[derive(Clone, Copy, PartialEq, Eq, Structural, Debug)]
pub enum ParamsError {
    /// The params array is empty: the exact `-32602` envelope is owed.
    MissingArguments,
    /// The params are otherwise unusable: a client parse error is owed.
    Invalid,
}

/// The parsed positional params of a single-account request.
#[derive(Debug)]
pub struct AccountParams {
    pub pubkey: Pubkey,
    pub encoding: Encoding,
    pub data_slice: Option<Slice>,
}

/// Ghost image of accepted single-account params.
pub ghost struct AccountParamsView {
    pub key: Seq<u8>,
    pub encoding: Encoding,
    pub data_slice: Option<Slice>,
}

/// What a `dataSlice` member denotes: unsigned `offset` and `length` that
/// both fit the machine.
pub open spec fn spec_slice_cfg(j: JsonView) -> Option<Slice> {
    match j {
        JsonView::Object(m) => match (spec_uint_member(m, "offset"@), spec_uint_member(
            m,
            "length"@,
        )) {
            (Some(o), Some(l)) => if o <= usize::MAX as u64 && l <= usize::MAX as u64 {
                Some(Slice { offset: o as usize, length: l as usize })
            } else {
                None
            },
            _ => None,
        },
        _ => None,
    }
}

/// What a configuration object denotes: the encoding is required there; a
/// missing or explicitly null `dataSlice` means no byte range.
pub open spec fn spec_config(j: JsonView) -> Option<(Encoding, Option<Slice>)> {
    match j {
        JsonView::Object(m) => match spec_text_member(m, "encoding"@) {
            Some(t) => match Encoding::spec_from_name(t) {
                Some(e) => match spec_map_get(m, "dataSlice"@) {
                    None => Some((e, None)),
                    Some(ds) => if ds is Null {
                        Some((e, None))
                    } else {
                        match spec_slice_cfg(ds) {
                            Some(s) => Some((e, Some(s))),
                            None => None,
                        }
                    },
                },
                None => None,
            },
            None => None,
        },
        _ => None,
    }
}

/// The single-account params rule, `[key58, config?]`: an empty array is the
/// missing-argument client error; a one-element array gets the defaults
/// (base-58 encoding, no byte range); anything else unusable is invalid.
pub open spec fn spec_account_params(j: JsonView) -> Result<AccountParamsView, ParamsError> {
    match j {
        JsonView::Array(a) => {
            if a.len() == 0 {
                Err(ParamsError::MissingArguments)
            } else {
                match a[0] {
                    JsonView::Text(t) => match spec_key58(t) {
                        Some(k) => if a.len() == 1 {
                            Ok(
                                AccountParamsView {
                                    key: k,
                                    encoding: Encoding::Base58,
                                    data_slice: None,
                                },
                            )
                        } else {
                            match spec_config(a[1]) {
                                Some((e, s)) => Ok(
                                    AccountParamsView { key: k, encoding: e, data_slice: s },
                                ),
                                None => Err(ParamsError::Invalid),
                            }
                        },
                        None => Err(ParamsError::Invalid),
                    },
                    _ => Err(ParamsError::Invalid),
                }
            }
        },
        _ => Err(ParamsError::Invalid),
    }
}

/// The program-accounts params rule: only the first element, a key, is read.
pub open spec fn spec_program_params(j: JsonView) -> Result<Seq<u8>, ParamsError> {
    match j {
        JsonView::Array(a) => {
            if a.len() == 0 {
                Err(ParamsError::MissingArguments)
            } else {
                match a[0] {
                    JsonView::Text(t) => match spec_key58(t) {
                        Some(k) => Ok(k),
                        None => Err(ParamsError::Invalid),
                    },
                    _ => Err(ParamsError::Invalid),
                }
            }
        },
        _ => Err(ParamsError::Invalid),
    }
}

/// Parse `[key, {encoding, commitment?, dataSlice?}?]`: the key is required,
/// the configuration defaults to base-58 with no byte range. The result is
/// exactly what the params document denotes, error cases included.
pub fn parse_account_params(params: &serde_json::Value) -> (r: Result<AccountParams, ParamsError>)
    ensures
        match r {
            Ok(p) => spec_account_params(json_view(*params)) matches Ok(pv) && p.pubkey@ == pv.key
                && p.encoding == pv.encoding && p.data_slice == pv.data_slice && p.pubkey.wf(),
            Err(e) => spec_account_params(json_view(*params)) matches Err(e2) && e == e2,
        },
{
    let n = match json_array_len(params) {
        Some(n) => n,
        None => {
            return Err(ParamsError::Invalid);
        },
    };
    if n == 0 {
        return Err(ParamsError::MissingArguments);
    }
    let key_str = match json_index(params, 0) {
        Some(f) => match json_as_str(f) {
            Some(s) => s,
            None => {
                return Err(ParamsError::Invalid);
            },
        },
        None => {
            return Err(ParamsError::Invalid);
        },
    };
    let pubkey = match Pubkey::from_base58(key_str.as_str()) {
        Some(p) => p,
        None => {
            return Err(ParamsError::Invalid);
        },
    };
    let mut encoding = Encoding::Base58;
    let mut data_slice: Option<Slice> = None;
    match json_index(params, 1) {
        None => {},
        Some(cfg) => {
            let enc_str = match json_get(cfg, "encoding") {
                Some(f) => match json_as_str(f) {
                    Some(s) => s,
                    None => {
                        return Err(ParamsError::Invalid);
                    },
                },
                None => {
                    return Err(ParamsError::Invalid);
                },
            };
            encoding = match Encoding::from_name(&enc_str) {
                Some(e) => e,
                None => {
                    return Err(ParamsError::Invalid);
                },
            };
            match json_get(cfg, "dataSlice") {
                None => {},
                Some(ds) => {
                    if !json_is_null(ds) {
                        let offset = match read_usize_field(ds, "offset") {
                            Some(u) => u,
                            None => {
                                return Err(ParamsError::Invalid);
                            },
                        };
                        let length = match read_usize_field(ds, "length") {
                            Some(u) => u,
                            None => {
                                return Err(ParamsError::Invalid);
                            },
                        };
                        data_slice = Some(Slice { offset, length });
                    }
                },
            }
        },
    }
    Ok(AccountParams { pubkey, encoding, data_slice })
}

/// Read an unsigned member that must fit a `usize`.
fn read_usize_field(v: &serde_json::Value, key: &str) -> (r: Option<usize>)
    ensures
        match r {
            Some(u) => json_view(*v) matches JsonView::Object(m) && spec_uint_member(m, key@)
                == Some(u as u64) && u as u64 <= usize::MAX as u64,
            None => !(json_view(*v) matches JsonView::Object(m) && spec_uint_member(m, key@)
                matches Some(n) && n <= usize::MAX as u64),
        },
{
    match json_get(v, key) {
        Some(f) => match json_as_u64(f) {
            Some(u) => {
                if u <= usize::MAX as u64 {
                    Some(u as usize)
                } else {
                    None
                }
            },
            None => None,
        },
        None => None,
    }
}

/// Parse the single required positional parameter of a program-accounts
/// request; no optional configuration is honored. The result is exactly what
/// the params document denotes, error cases included.
pub fn parse_program_params(params: &serde_json::Value) -> (r: Result<Pubkey, ParamsError>)
    ensures
        match r {
            Ok(p) => spec_program_params(json_view(*params)) matches Ok(k) && p@ == k && p.wf(),
            Err(e) => spec_program_params(json_view(*params)) matches Err(e2) && e == e2,
        },
{
    let n = match json_array_len(params) {
        Some(n) => n,
        None => {
            return Err(ParamsError::Invalid);
        },
    };
    if n == 0 {
        return Err(ParamsError::MissingArguments);
    }
    let key_str = match json_index(params, 0) {
        Some(f) => match json_as_str(f) {
            Some(s) => s,
            None => {
                return Err(ParamsError::Invalid);
            },
        },
        None => {
            return Err(ParamsError::Invalid);
        },
    };
    match Pubkey::from_base58(key_str.as_str()) {
        Some(p) => Ok(p),
        None => Err(ParamsError::Invalid),
    }
}

/// The response owed for unusable params: the exact missing-argument
/// envelope, or a client parse failure surfaced to the transport.
pub enum ParamsFailure {
    NotEnoughArguments(ErrorResponse),
    Invalid,
}

/// Turn a params error into the response owed for it.
pub fn params_failure(id: u64, e: ParamsError) -> (r: ParamsFailure)
    ensures
        e == ParamsError::MissingArguments ==> (r matches ParamsFailure::NotEnoughArguments(env)
            && spec_not_enough_arguments(id, env)),
        e == ParamsError::Invalid ==> r is Invalid,
{
    match e {
        ParamsError::MissingArguments => ParamsFailure::NotEnoughArguments(
            ErrorResponse::not_enough_arguments(id),
        ),
        ParamsError::Invalid => ParamsFailure::Invalid,
    }
}

/// A command the driver must deliver to the external subscription manager.
pub enum Command {
    /// Register interest so fresh values for the key land in the cache.
    Subscribe(Pubkey),
    /// Renew interest after a cache hit, so a live reader never lapses.
    Reset(Pubkey),
}

/// The rendered `{context, value}` result with the envelope id.
pub struct WireAccountEnvelope {
    pub id: u64,
    pub result: crate::codec::WireAccountContext,
}

/// Exact content of a rendered single-account response for a cache entry.
pub open spec fn spec_account_envelope(
    id: u64,
    entry: Option<AccountInfoView>,
    e: Encoding,
    s: Option<Slice>,
    slot: u64,
    env: WireAccountEnvelope,
) -> bool {
    &&& env.id == id
    &&& env.result.slot == slot
    &&& match entry {
        None => env.result.value is None,
        Some(a) => env.result.value matches Some(wa) && spec_wire_account(a, e, s, wa),
    }
}

/// Build the `{context, value}` body for a cache entry at the given slot.
/// Absent accounts render as `value: null` and never fail.
pub fn account_response(
    req_id: u64,
    acc: &Option<AccountInfo>,
    slot: u64,
    encoding: Encoding,
    slice: Option<Slice>,
) -> (r: Result<WireAccountEnvelope, EncodeError>)
    ensures
        match r {
            Ok(env) => spec_account_envelope(
                req_id,
                opt_account_view(*acc),
                encoding,
                slice,
                slot,
                env,
            ),
            Err(err) => *acc matches Some(a) && spec_encode_err(a@.data, encoding, slice, err),
        },
        (match *acc {
            Some(a) => spec_slice_ok(a@.data, slice) && encoding != Encoding::Base64Zstd,
            None => true,
        }) ==> r is Ok,
{
    let ctx = SolanaContext { slot };
    let encoded = match acc {
        Some(a) => a.encode(encoding, slice).with_context(&ctx),
        None => EncodedAccountContext::empty(&ctx),
    };
    let ghost av = opt_account_view(*acc);
    let rendered = match encoded.value {
        Some(ei) => {
            match ei.render(Ghost(av->Some_0)) {
                Ok(wa) => crate::codec::WireAccountContext { slot: ctx.slot, value: Some(wa) },
                Err(e) => {
                    return Err(e);
                },
            }
        },
        None => crate::codec::WireAccountContext { slot: ctx.slot, value: None },
    };
    Ok(WireAccountEnvelope { id: req_id, result: rendered })
}

/// Outcome of the first step of the single-account flow.
pub enum AccountCacheAttempt {
    /// The cache is authoritative: answer now, renew the subscription.
    Hit { response: WireAccountEnvelope, keep_alive: Command },
    /// Nothing cached: subscribe, then race the fetch against fill signals.
    /// `cacheable` is false exactly when a byte range was requested; such a
    /// request must never populate the cache.
    Miss { cacheable: bool, subscribe: Command },
}

/// First step of the single-account flow: serve from the cache or report a
/// miss. A hit never issues an upstream call and re-encodes the stored value
/// with the state's current slot.
pub fn try_account_cache(state: &State, id: u64, p: &AccountParams) -> (r: Result<
    AccountCacheAttempt,
    EncodeError,
>)
    ensures
        match r {
            Ok(a) => match a {
                AccountCacheAttempt::Hit { response, keep_alive } => {
                    &&& state.accounts_map().contains_key(p.pubkey@)
                    &&& spec_account_envelope(
                        id,
                        state.accounts_map()[p.pubkey@],
                        p.encoding,
                        p.data_slice,
                        state.current_slot,
                        response,
                    )
                    &&& keep_alive matches Command::Reset(k) && k@ == p.pubkey@
                },
                AccountCacheAttempt::Miss { cacheable, subscribe } => {
                    &&& !state.accounts_map().contains_key(p.pubkey@)
                    &&& cacheable == (p.data_slice is None)
                    &&& subscribe matches Command::Subscribe(k) && k@ == p.pubkey@
                },
            },
            Err(err) => {
                &&& state.accounts_map().contains_key(p.pubkey@)
                &&& state.accounts_map()[p.pubkey@] matches Some(a) && spec_encode_err(
                    a.data,
                    p.encoding,
                    p.data_slice,
                    err,
                )
            },
        },
        state.accounts_map().contains_key(p.pubkey@) && (match state.accounts_map()[p.pubkey@] {
            Some(a) => spec_slice_ok(a.data, p.data_slice) && p.encoding != Encoding::Base64Zstd,
            None => true,
        }) ==> (r matches Ok(a) && a is Hit),
        !state.accounts_map().contains_key(p.pubkey@) ==> (r matches Ok(a) && a is Miss),
{
    match state.get(&p.pubkey) {
        Some(entry) => match account_response(id, &entry, state.slot(), p.encoding, p.data_slice) {
            Ok(env) => Ok(
                AccountCacheAttempt::Hit {
                    response: env,
                    keep_alive: Command::Reset(p.pubkey.clone()),
                },
            ),
            Err(e) => Err(e),
        },
        None => Ok(
            AccountCacheAttempt::Miss {
                cacheable: p.data_slice.is_none(),
                subscribe: Command::Subscribe(p.pubkey.clone()),
            },
        ),
    }
}

/// Re-check the cache after a fill-wake signal. Answers exactly when a
/// concurrent fill made the cache authoritative for this key; the waiter
/// otherwise keeps waiting.
pub fn retry_cache_after_fill(state: &State, id: u64, p: &AccountParams) -> (r: Result<
    Option<(WireAccountEnvelope, Command)>,
    EncodeError,
>)
    ensures
        match r {
            Ok(o) => match o {
                Some((env, cmd)) => {
                    &&& state.accounts_map().contains_key(p.pubkey@)
                    &&& spec_account_envelope(
                        id,
                        state.accounts_map()[p.pubkey@],
                        p.encoding,
                        p.data_slice,
                        state.current_slot,
                        env,
                    )
                    &&& cmd matches Command::Reset(k) && k@ == p.pubkey@
                },
                None => !state.accounts_map().contains_key(p.pubkey@),
            },
            Err(err) => {
                &&& state.accounts_map().contains_key(p.pubkey@)
                &&& state.accounts_map()[p.pubkey@] matches Some(a) && spec_encode_err(
                    a.data,
                    p.encoding,
                    p.data_slice,
                    err,
                )
            },
        },
{
    match state.get(&p.pubkey) {
        Some(entry) => match account_response(id, &entry, state.slot(), p.encoding, p.data_slice) {
            Ok(env) => Ok(Some((env, Command::Reset(p.pubkey.clone())))),
            Err(e) => Err(e),
        },
        None => Ok(None),
    }
}

/// The upstream body could not be read as the expected result shape.
#[derive(Clone, Copy, PartialEq, Eq, Structural, Debug)]
pub enum UpstreamError {
    MalformedResponse,
}

/// What the driver returns to the caller after the direct fetch wins.
#[derive(Debug)]
pub struct UpstreamResolution {
    /// The origin's body, handed back byte-identical.
    pub body: Vec<u8>,
    /// Whether a fill-wake signal is owed to the other waiters.
    pub notify: bool,
}

/// What a `[payload, encodingName]` member denotes as raw bytes.
pub open spec fn spec_wire_pair(j: JsonView) -> Option<Seq<u8>> {
    match j {
        JsonView::Array(a) => {
            if a.len() == 2 {
                match (a[0], a[1]) {
                    (JsonView::Text(p), JsonView::Text(n)) => match Encoding::spec_from_name(n) {
                        Some(e) => spec_decoded_payload(e, p),
                        None => None,
                    },
                    _ => None,
                }
            } else {
                None
            }
        },
        _ => None,
    }
}

/// What an origin account record denotes.
pub open spec fn spec_account_record(j: JsonView) -> Option<AccountInfoView> {
    match j {
        JsonView::Object(m) => {
            match (
                spec_uint_member(m, "lamports"@),
                spec_text_member(m, "owner"@),
                spec_bool_member(m, "executable"@),
                spec_uint_member(m, "rentEpoch"@),
                spec_map_get(m, "data"@),
            ) {
                (Some(l), Some(ot), Some(x), Some(re), Some(d)) => match (
                    spec_key58(ot),
                    spec_wire_pair(d),
                ) {
                    (Some(ok), Some(bytes)) => Some(
                        AccountInfoView {
                            lamports: l,
                            owner: ok,
                            executable: x,
                            rent_epoch: re,
                            data: bytes,
                        },
                    ),
                    _ => None,
                },
                _ => None,
            }
        },
        _ => None,
    }
}

/// What an origin `{result: {context: {slot}, value}}` body denotes: a
/// present or absent account, or nothing when the body lacks that shape.
pub open spec fn spec_account_context_of(body: Seq<u8>) -> Option<Option<AccountInfoView>> {
    match json_of(body) {
        Some(JsonView::Object(m)) => match spec_map_get(m, "result"@) {
            Some(JsonView::Object(rm)) => {
                let ctx_ok = match spec_map_get(rm, "context"@) {
                    Some(JsonView::Object(cm)) => spec_uint_member(cm, "slot"@) is Some,
                    _ => false,
                };
                if !ctx_ok {
                    None
                } else {
                    match spec_map_get(rm, "value"@) {
                        Some(v) => if v is Null {
                            Some(None)
                        } else {
                            match spec_account_record(v) {
                                Some(a) => Some(Some(a)),
                                None => None,
                            }
                        },
                        None => None,
                    }
                }
            },
            _ => None,
        },
        _ => None,
    }
}

/// Terminal step when the direct fetch wins the race: when this request may
/// populate the cache, parse the origin's `{context, value}` answer and store
/// exactly the value that body denotes; hand the body back verbatim either
/// way. A request that asked for a byte range never writes the cache, and a
/// body that does not parse never writes it either — the error comes exactly
/// when the body denotes nothing.
pub fn resolve_account_from_upstream(
    state: &mut State,
    p: &AccountParams,
    body: Vec<u8>,
) -> (r: Result<UpstreamResolution, UpstreamError>)
    ensures
        p.data_slice is Some ==> *final(state) == *old(state) && (r matches Ok(u) && u.body@
            == body@ && !u.notify),
        p.data_slice is None ==> match r {
            Ok(u) => {
                &&& u.body@ == body@
                &&& u.notify
                &&& spec_account_context_of(body@) matches Some(entry)
                    && final(state).accounts_map() == old(state).accounts_map().insert(
                    p.pubkey@,
                    entry,
                )
                &&& final(state).programs_map() == old(state).programs_map()
                &&& final(state).current_slot == old(state).current_slot
            },
            Err(e) => {
                &&& spec_account_context_of(body@) is None
                &&& *final(state) == *old(state)
                &&& e == UpstreamError::MalformedResponse
            },
        },
{
    if p.data_slice.is_some() {
        return Ok(UpstreamResolution { body, notify: false });
    }
    let parsed = match parse_account_context_body(body.as_slice()) {
        Some(v) => v,
        None => {
            return Err(UpstreamError::MalformedResponse);
        },
    };
    let ghost pv = opt_account_view(parsed);
    state.insert(p.pubkey.clone(), parsed);
    proof {
        assert(final(state).accounts_map() == old(state).accounts_map().insert(p.pubkey@, pv));
    }
    Ok(UpstreamResolution { body, notify: true })
}

/// Read an origin `{result: {context, value}}` body; `value: null` is cached
/// absence.
fn parse_account_context_body(body: &[u8]) -> (r: Option<Option<AccountInfo>>)
    ensures
        match r {
            Some(entry) => spec_account_context_of(body@) == Some(opt_account_view(entry)),
            None => spec_account_context_of(body@) is None,
        },
{
    let v = match json_parse(body) {
        Some(v) => v,
        None => {
            return None;
        },
    };
    let result = match json_get(&v, "result") {
        Some(f) => f,
        None => {
            return None;
        },
    };
    match json_get(result, "context") {
        Some(c) => match json_get(c, "slot") {
            Some(s) => match json_as_u64(s) {
                Some(_u) => {},
                None => {
                    return None;
                },
            },
            None => {
                return None;
            },
        },
        None => {
            return None;
        },
    }
    let value = match json_get(result, "value") {
        Some(f) => f,
        None => {
            return None;
        },
    };
    if json_is_null(value) {
        Some(None)
    } else {
        match parse_account_info(value) {
            Some(a) => Some(Some(a)),
            None => None,
        }
    }
}

/// Read one account record from an origin response.
fn parse_account_info(v: &serde_json::Value) -> (r: Option<AccountInfo>)
    ensures
        match r {
            Some(a) => spec_account_record(json_view(*v)) == Some(a@),
            None => spec_account_record(json_view(*v)) is None,
        },
{
    let lamports = match json_get(v, "lamports") {
        Some(f) => match json_as_u64(f) {
            Some(u) => u,
            None => {
                return None;
            },
        },
        None => {
            return None;
        },
    };
    let owner_str = match json_get(v, "owner") {
        Some(f) => match json_as_str(f) {
            Some(s) => s,
            None => {
                return None;
            },
        },
        None => {
            return None;
        },
    };
    let owner = match Pubkey::from_base58(owner_str.as_str()) {
        Some(p) => p,
        None => {
            return None;
        },
    };
    let executable = match json_get(v, "executable") {
        Some(f) => match json_as_bool(f) {
            Some(b) => b,
            None => {
                return None;
            },
        },
        None => {
            return None;
        },
    };
    let rent_epoch = match json_get(v, "rentEpoch") {
        Some(f) => match json_as_u64(f) {
            Some(u) => u,
            None => {
                return None;
            },
        },
        None => {
            return None;
        },
    };
    let data = match json_get(v, "data") {
        Some(f) => match parse_account_data(f) {
            Some(d) => d,
            None => {
                return None;
            },
        },
        None => {
            return None;
        },
    };
    Some(AccountInfo { lamports, owner, executable, rent_epoch, data })
}

/// The member keys the cache is currently authoritative for, in list order.
/// Members it holds nothing for are silently dropped from a hit, not failed.
pub open spec fn present_members(
    m: Map<Seq<u8>, Option<AccountInfoView>>,
    members: Seq<Seq<u8>>,
) -> Seq<Seq<u8>>
    decreases members.len(),
{
    if members.len() == 0 {
        Seq::empty()
    } else {
        let rest = present_members(m, members.drop_last());
        if m.contains_key(members.last()) {
            rest.push(members.last())
        } else {
            rest
        }
    }
}

/// One `{account, pubkey}` row of a program-accounts listing.
pub struct WireProgramAccount {
    pub pubkey: String,
    pub account: Option<WireAccountInfo>,
}

/// A program-accounts response served from the cache.
pub struct WireProgramEnvelope {
    pub id: u64,
    pub accounts: Vec<WireProgramAccount>,
}

/// One listing row is exact for its cache entry: cached absence travels as a
/// `null` account, a present account in its plain base-58 form, unsliced.
pub open spec fn spec_program_row(
    entry: Option<AccountInfoView>,
    acc: Option<WireAccountInfo>,
) -> bool {
    match entry {
        None => acc is None,
        Some(a) => acc matches Some(wa) && spec_wire_account(
            a,
            Encoding::Base58,
            None::<Slice>,
            wa,
        ),
    }
}

/// Exact content of a program-accounts cache hit: one row and one renewal
/// command per member the cache is authoritative for, in member order.
pub open spec fn spec_program_listing(
    m: Map<Seq<u8>, Option<AccountInfoView>>,
    members: Seq<Seq<u8>>,
    rows: Seq<WireProgramAccount>,
    cmds: Seq<Command>,
) -> bool {
    let present = present_members(m, members);
    &&& rows.len() == present.len()
    &&& cmds.len() == present.len()
    &&& forall|i: int|
        0 <= i < present.len() ==> {
            &&& (#[trigger] rows[i]).pubkey@ == base58_of(present[i])
            &&& spec_program_row(m[present[i]], rows[i].account)
            &&& (#[trigger] cmds[i]) matches Command::Reset(k) && k@ == present[i]
        }
}

/// First step of the program-accounts flow: serve the whole listing from the
/// cache, renewing each served member's subscription, or report a miss. A
/// miss goes straight to the upstream fetch; membership lists are never
/// filled by the subscription feed.
pub fn try_program_cache(state: &State, id: u64, program: &Pubkey) -> (r: Option<
    (WireProgramEnvelope, Vec<Command>),
>)
    ensures
        match r {
            Some((env, cmds)) => {
                &&& state.programs_map().contains_key(program@)
                &&& env.id == id
                &&& spec_program_listing(
                    state.accounts_map(),
                    state.programs_map()[program@],
                    env.accounts@,
                    cmds@,
                )
            },
            None => !state.programs_map().contains_key(program@),
        },
{
    let members = match state.get_program_accounts(program) {
        Some(ks) => ks,
        None => {
            return None;
        },
    };
    let mut rows: Vec<WireProgramAccount> = Vec::new();
    let mut cmds: Vec<Command> = Vec::new();
    let n = members.len();
    let mut j: usize = 0;
    proof {
        assert(keys_view(members@).take(0) =~= Seq::<Seq<u8>>::empty());
    }
    while j < n
        invariant
            j <= n,
            n == members@.len(),
            spec_map_get(state.programs_map(), program@) == Some(keys_view(members@)),
            spec_program_listing(
                state.accounts_map(),
                keys_view(members@).take(j as int),
                rows@,
                cmds@,
            ),
        decreases n - j,
    {
        proof {
            assert(keys_view(members@).take(j as int + 1).drop_last() =~= keys_view(
                members@,
            ).take(j as int));
            assert(keys_view(members@).take(j as int + 1).last() == members@[j as int]@);
        }
        let key = &members[j];
        match state.get(key) {
            Some(entry) => {
                let account = match entry {
                    Some(a) => {
                        let encoded = a.encode(Encoding::Base58, None);
                        match encoded.render(Ghost(a@)) {
                            Ok(wa) => Some(wa),
                            Err(_) => {
                                proof {
                                    assert(false);
                                }
                                None
                            },
                        }
                    },
                    None => None,
                };
                rows.push(WireProgramAccount { pubkey: key.to_base58(), account });
                cmds.push(Command::Reset(key.clone()));
            },
            None => {},
        }
        j = j + 1;
    }
    proof {
        assert(keys_view(members@).take(n as int) =~= keys_view(members@));
    }
    Some((WireProgramEnvelope { id, accounts: rows }, cmds))
}

/// What the driver returns to the caller after a program-accounts fetch.
pub struct ProgramUpstreamResolution {
    /// The origin's body, handed back byte-identical.
    pub body: Vec<u8>,
    /// The member keys collected from the listing, in listing order.
    pub member_keys: Vec<Pubkey>,
    /// A fill-wake signal is owed to the waiters.
    pub notify: bool,
}

/// The account a listing leaves under a key: that of its last row for the
/// key, or nothing when no row names it.
pub open spec fn listing_value(
    rows: Seq<(Seq<u8>, AccountInfoView)>,
    k: Seq<u8>,
) -> Option<AccountInfoView>
    decreases rows.len(),
{
    if rows.len() == 0 {
        None
    } else if rows.last().0 == k {
        Some(rows.last().1)
    } else {
        listing_value(rows.drop_last(), k)
    }
}

/// Terminal step of a program-accounts miss: parse the origin's listing,
/// store every listed account individually under its listed key, then
/// replace the membership list wholesale with exactly the listed keys, in
/// order; hand the body back verbatim. A body that denotes no listing is the
/// malformed-response error and writes nothing.
#[verifier::rlimit(60)]
pub fn resolve_program_from_upstream(state: &mut State, program: &Pubkey, body: Vec<u8>) -> (r:
    Result<ProgramUpstreamResolution, UpstreamError>)
    ensures
        match r {
            Ok(u) => {
                &&& u.body@ == body@
                &&& u.notify
                &&& spec_program_listing_of(body@) matches Some(rows) && ({
                    &&& u.member_keys@.len() == rows.len()
                    &&& forall|i: int|
                        0 <= i < rows.len() ==> (#[trigger] u.member_keys@[i])@ == rows[i].0
                    &&& final(state).programs_map() == old(state).programs_map().insert(
                        program@,
                        keys_view(u.member_keys@),
                    )
                    &&& forall|i: int|
                        0 <= i < rows.len() ==> final(state).accounts_map().contains_key(
                            (#[trigger] rows[i]).0,
                        )
                    &&& forall|k: Seq<u8>|
                        #[trigger] listing_value(rows, k) is Some ==> spec_map_get(
                            final(state).accounts_map(),
                            k,
                        ) == Some(listing_value(rows, k))
                    &&& forall|k: Seq<u8>|
                        !keys_view(u.member_keys@).contains(k) ==> spec_map_get(
                            final(state).accounts_map(),
                            k,
                        ) == spec_map_get(old(state).accounts_map(), k)
                    &&& final(state).current_slot == old(state).current_slot
                })
            },
            Err(e) => {
                &&& spec_program_listing_of(body@) is None
                &&& *final(state) == *old(state)
                &&& e == UpstreamError::MalformedResponse
            },
        },
{
    let pairs = match parse_program_listing(body.as_slice()) {
        Some(p) => p,
        None => {
            return Err(UpstreamError::MalformedResponse);
        },
    };
    let ghost rows = pairs_view(pairs@);
    let mut keys: Vec<Pubkey> = Vec::new();
    let n = pairs.len();
    let mut idx: usize = 0;
    while idx < n
        invariant
            idx <= n,
            n == pairs@.len(),
            rows == pairs_view(pairs@),
            keys@.len() == idx,
            forall|i: int| 0 <= i < idx ==> (#[trigger] keys@[i])@ == rows[i].0,
            forall|i: int|
                0 <= i < idx ==> state.accounts_map().contains_key((#[trigger] rows[i]).0),
            forall|k: Seq<u8>|
                #[trigger] listing_value(rows.take(idx as int), k) is Some ==> spec_map_get(
                    state.accounts_map(),
                    k,
                ) == Some(listing_value(rows.take(idx as int), k)),
            forall|k: Seq<u8>|
                !keys_view(keys@).contains(k) ==> spec_map_get(state.accounts_map(), k)
                    == spec_map_get(old(state).accounts_map(), k),
            state.programs_map() == old(state).programs_map(),
            state.current_slot == old(state).current_slot,
        decreases n - idx,
    {
        let key = pairs[idx].0.clone();
        let key_again = pairs[idx].0.clone();
        let acc = pairs[idx].1.clone();
        let ghost gk = key@;
        let ghost prev_keys = keys@;
        let ghost prev_map = state.accounts_map();
        state.insert(key, Some(acc));
        keys.push(key_again);
        idx = idx + 1;
        proof {
            assert(rows[idx - 1] == (pairs@[idx - 1].0@, pairs@[idx - 1].1@));
            assert(gk == rows[idx - 1].0);
            assert(state.accounts_map() == prev_map.insert(gk, Some(rows[idx - 1].1)));
            assert(keys_view(keys@) =~= keys_view(prev_keys).push(gk));
            assert(rows.take(idx as int).drop_last() =~= rows.take(idx as int - 1));
            assert(rows.take(idx as int).last() == rows[idx as int - 1]);
            assert forall|k: Seq<u8>| #[trigger] listing_value(rows.take(idx as int), k)
                is Some implies spec_map_get(state.accounts_map(), k) == Some(
                listing_value(rows.take(idx as int), k),
            ) by {
                if k == gk {
                    assert(listing_value(rows.take(idx as int), k) == Some(
                        rows[idx as int - 1].1,
                    ));
                } else {
                    assert(listing_value(rows.take(idx as int), k) == listing_value(
                        rows.take(idx as int - 1),
                        k,
                    ));
                }
            }
            assert forall|k: Seq<u8>| !keys_view(keys@).contains(k) implies spec_map_get(
                state.accounts_map(),
                k,
            ) == spec_map_get(old(state).accounts_map(), k) by {
                assert(keys_view(keys@)[keys_view(keys@).len() - 1] == gk);
                assert(k != gk);
                assert(forall|i: int|
                    0 <= i < keys_view(prev_keys).len() ==> keys_view(keys@)[i] == keys_view(
                        prev_keys,
                    )[i]);
                assert(!keys_view(prev_keys).contains(k));
            }
        }
    }
    let member_keys = copy_keys(&keys);
    let ghost gkeys = keys@;
    let ghost pre_map = state.accounts_map();
    state.insert_program_accounts(program.clone(), keys);
    proof {
        assert(rows.len() == n);
        assert(spec_program_listing_of(body@) == Some(rows));
        assert(state.accounts_map() == pre_map);
        assert(rows.take(n as int) =~= rows);
        assert forall|k: Seq<u8>| #[trigger] listing_value(rows, k) is Some implies spec_map_get(
            state.accounts_map(),
            k,
        ) == Some(listing_value(rows, k)) by {
            assert(listing_value(rows, k) == listing_value(rows.take(n as int), k));
            assert(spec_map_get(state.accounts_map(), k) == spec_map_get(pre_map, k));
        }
        assert forall|i: int|
            0 <= i < rows.len() implies (#[trigger] member_keys@[i])@ == rows[i].0 by {
            assert(keys_view(member_keys@).len() == member_keys@.len());
            assert(keys_view(gkeys).len() == gkeys.len());
            assert(keys_view(member_keys@) == keys_view(gkeys));
            assert(keys_view(member_keys@)[i] == member_keys@[i]@);
            assert(keys_view(gkeys)[i] == gkeys[i]@);
            assert(member_keys@[i]@ == gkeys[i]@);
        }
        assert(member_keys@.len() == keys_view(member_keys@).len());
    }
    Ok(ProgramUpstreamResolution { body, member_keys, notify: true })
}

/// What one `{account, pubkey}` listing row denotes.
pub open spec fn spec_listing_row(j: JsonView) -> Option<(Seq<u8>, AccountInfoView)> {
    match j {
        JsonView::Object(m) => match (spec_text_member(m, "pubkey"@), spec_map_get(
            m,
            "account"@,
        )) {
            (Some(t), Some(av)) => match (spec_key58(t), spec_account_record(av)) {
                (Some(k), Some(a)) => Some((k, a)),
                _ => None,
            },
            _ => None,
        },
        _ => None,
    }
}

/// What a listing array denotes: every row in order, or nothing as soon as
/// any one row is unusable.
pub open spec fn spec_listing_rows(a: Seq<JsonView>) -> Option<Seq<(Seq<u8>, AccountInfoView)>>
    decreases a.len(),
{
    if a.len() == 0 {
        Some(Seq::empty())
    } else {
        match (spec_listing_rows(a.drop_last()), spec_listing_row(a.last())) {
            (Some(rest), Some(row)) => Some(rest.push(row)),
            _ => None,
        }
    }
}

/// What an origin `{result: [{account, pubkey}, ...]}` body denotes.
pub open spec fn spec_program_listing_of(body: Seq<u8>) -> Option<Seq<(Seq<u8>, AccountInfoView)>> {
    match json_of(body) {
        Some(JsonView::Object(m)) => match spec_map_get(m, "result"@) {
            Some(JsonView::Array(a)) => spec_listing_rows(a),
            _ => None,
        },
        _ => None,
    }
}

/// A listing that denotes rows as a whole has a usable row at every index.
proof fn lemma_listing_rows_index(a: Seq<JsonView>, i: int)
    requires
        0 <= i < a.len(),
        spec_listing_rows(a) is Some,
    ensures
        spec_listing_row(a[i]) is Some,
    decreases a.len(),
{
    if i < a.len() - 1 {
        assert(a.drop_last()[i] == a[i]);
        lemma_listing_rows_index(a.drop_last(), i);
    }
}

/// The byte/record images of a parsed listing.
pub open spec fn pairs_view(s: Seq<(Pubkey, AccountInfo)>) -> Seq<(Seq<u8>, AccountInfoView)> {
    s.map_values(|p: (Pubkey, AccountInfo)| (p.0@, p.1@))
}

/// Read an origin `{result: [{account, pubkey}, ...]}` listing: exactly the
/// rows the body denotes, in order, or nothing when the body denotes none.
fn parse_program_listing(body: &[u8]) -> (r: Option<Vec<(Pubkey, AccountInfo)>>)
    ensures
        match r {
            Some(pairs) => spec_program_listing_of(body@) == Some(pairs_view(pairs@)),
            None => spec_program_listing_of(body@) is None,
        },
{
    let v = match json_parse(body) {
        Some(v) => v,
        None => {
            return None;
        },
    };
    let result = match json_get(&v, "result") {
        Some(f) => f,
        None => {
            return None;
        },
    };
    let n = match json_array_len(result) {
        Some(n) => n,
        None => {
            return None;
        },
    };
    let ghost arr = json_view(*result)->Array_0;
    let mut out: Vec<(Pubkey, AccountInfo)> = Vec::new();
    let mut i: usize = 0;
    proof {
        assert(arr.take(0) =~= Seq::<JsonView>::empty());
    }
    while i < n
        invariant
            i <= n,
            n == arr.len(),
            json_view(*result) == JsonView::Array(arr),
            spec_program_listing_of(body@) == spec_listing_rows(arr),
            spec_listing_rows(arr.take(i as int)) == Some(pairs_view(out@)),
        decreases n - i,
    {
        let el = match json_index(result, i) {
            Some(e) => e,
            None => {
                return None;
            },
        };
        let key_str = match json_get(el, "pubkey") {
            Some(f) => match json_as_str(f) {
                Some(s) => s,
                None => {
                    proof {
                        row_failure(arr, i as int);
                    }
                    return None;
                },
            },
            None => {
                proof {
                    row_failure(arr, i as int);
                }
                return None;
            },
        };
        let key = match Pubkey::from_base58(key_str.as_str()) {
            Some(p) => p,
            None => {
                proof {
                    row_failure(arr, i as int);
                }
                return None;
            },
        };
        let accv = match json_get(el, "account") {
            Some(a) => a,
            None => {
                proof {
                    row_failure(arr, i as int);
                }
                return None;
            },
        };
        let account = match parse_account_info(accv) {
            Some(a) => a,
            None => {
                proof {
                    row_failure(arr, i as int);
                }
                return None;
            },
        };
        let ghost gk = key@;
        let ghost ga = account@;
        let ghost prev_out = out@;
        out.push((key, account));
        i = i + 1;
        proof {
            assert(arr.take(i as int).drop_last() =~= arr.take(i as int - 1));
            assert(arr.take(i as int).last() == arr[i as int - 1]);
            assert(spec_listing_row(arr[i as int - 1]) == Some((gk, ga)));
            assert(pairs_view(out@) =~= pairs_view(prev_out).push((gk, ga)));
        }
    }
    proof {
        assert(arr.take(n as int) =~= arr);
    }
    Some(out)
}

/// On a row that denotes nothing, the whole listing denotes nothing.
proof fn row_failure(a: Seq<JsonView>, i: int)
    requires
        0 <= i < a.len(),
        spec_listing_row(a[i]) is None,
    ensures
        spec_listing_rows(a) is None,
{
    if spec_listing_rows(a) is Some {
        lemma_listing_rows_index(a, i);
    }
}

/// Read a `[payload, encodingName]` pair back into raw bytes.
fn parse_account_data(v: &serde_json::Value) -> (r: Option<AccountData>)
    ensures
        match r {
            Some(d) => spec_wire_pair(json_view(*v)) == Some(d@),
            None => spec_wire_pair(json_view(*v)) is None,
        },
{
    let n = match json_array_len(v) {
        Some(n) => n,
        None => {
            return None;
        },
    };
    if n != 2 {
        return None;
    }
    let payload = match json_index(v, 0) {
        Some(f) => match json_as_str(f) {
            Some(s) => s,
            None => {
                return None;
            },
        },
        None => {
            return None;
        },
    };
    let enc_name = match json_index(v, 1) {
        Some(f) => match json_as_str(f) {
            Some(s) => s,
            None => {
                return None;
            },
        },
        None => {
            return None;
        },
    };
    let enc = match Encoding::from_name(&enc_name) {
        Some(e) => e,
        None => {
            return None;
        },
    };
    match crate::codec::decode_wire_payload(payload.as_str(), enc) {
        Some(bytes) => Some(AccountData { data: bytes }),
        None => None,
    }
}

} // verus!
