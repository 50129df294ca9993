use cache_rpc::cache::State;
use cache_rpc::rpc::{
    account_response, dispatch_request, params_failure, parse_account_params,
    parse_program_params, resolve_account_from_upstream, resolve_program_from_upstream,
    retry_cache_after_fill, route_method, try_account_cache, try_program_cache,
    AccountCacheAttempt, Command, Dispatch, ErrorResponse, ParamsError, ParamsFailure,
    RetryBudget, Route, UpstreamError, MAX_UPSTREAM_ATTEMPTS, RETRY_DELAY_MS,
};
use cache_rpc::types::{AccountData, AccountInfo, Encoding, Pubkey, Slice};

fn key(byte: u8) -> Pubkey {
    Pubkey::new(vec![byte; 32])
}

fn json(s: &str) -> serde_json::Value {
    serde_json::from_str(s).unwrap()
}

fn account_body(owner: &Pubkey, slot: u64, lamports: u64, data_b64: &str) -> Vec<u8> {
    format!(
        "{{\"result\":{{\"context\":{{\"slot\":{}}},\"value\":{{\"lamports\":{},\"owner\":\"{}\",\"executable\":false,\"rentEpoch\":0,\"data\":[\"{}\",\"base64\"]}}}}}}",
        slot,
        lamports,
        owner.to_base58(),
        data_b64
    )
    .into_bytes()
}

#[test]
fn routing_is_the_closed_method_set() {
    assert_eq!(route_method(&String::from("getAccountInfo")), Route::AccountInfo);
    assert_eq!(route_method(&String::from("getProgramAccounts")), Route::ProgramAccounts);
    assert_eq!(route_method(&String::from("getBalance")), Route::Passthrough);
}

#[test]
fn dispatcher_routes_and_rejects() {
    let body = format!(
        "{{\"jsonrpc\":\"2.0\",\"id\":1,\"method\":\"getAccountInfo\",\"params\":[\"{}\"]}}",
        key(1).to_base58()
    );
    match dispatch_request(body.as_bytes()) {
        Dispatch::Account { id, .. } => assert_eq!(id, 1),
        _ => panic!("expected the account handler"),
    }
    match dispatch_request(b"{\"jsonrpc\":\"2.0\",\"id\":2,\"method\":\"getHealth\",\"params\":[]}")
    {
        Dispatch::Passthrough => {},
        _ => panic!("expected passthrough"),
    }
    match dispatch_request(b"{\"jsonrpc\":\"2.0\",\"id\":3,\"params\":[]}") {
        Dispatch::Invalid => {},
        _ => panic!("an envelope without a method is invalid"),
    }
    match dispatch_request(b"not json at all") {
        Dispatch::Invalid => {},
        _ => panic!("unparseable bodies are invalid"),
    }
}

fn assert_missing_args_envelope(e: ErrorResponse, id: u64) {
    assert_eq!(e.jsonrpc, "2.0");
    assert_eq!(e.id, id);
    assert_eq!(e.error.code, -32602);
    assert_eq!(e.error.message, "`params` should have at least 1 argument(s)");
}

#[test]
fn empty_params_yield_exact_error_for_both_methods() {
    let params = json("[]");
    assert_eq!(parse_account_params(&params).unwrap_err(), ParamsError::MissingArguments);
    assert_eq!(parse_program_params(&params).unwrap_err(), ParamsError::MissingArguments);
    match params_failure(7, ParamsError::MissingArguments) {
        ParamsFailure::NotEnoughArguments(env) => assert_missing_args_envelope(env, 7),
        ParamsFailure::Invalid => panic!("expected the missing-argument envelope"),
    }
    assert_eq!(ErrorResponse::not_enough_arguments(9).error.code, -32602);
}

#[test]
fn account_params_defaults_and_slice() {
    let k = key(1);
    let p = parse_account_params(&json(&format!("[\"{}\"]", k.to_base58()))).unwrap();
    assert_eq!(p.encoding, Encoding::Base58);
    assert!(p.data_slice.is_none());
    let p = parse_account_params(&json(&format!(
        "[\"{}\", {{\"encoding\":\"base64\",\"dataSlice\":{{\"offset\":2,\"length\":3}}}}]",
        k.to_base58()
    )))
    .unwrap();
    assert_eq!(p.encoding, Encoding::Base64);
    assert_eq!(p.data_slice, Some(Slice { offset: 2, length: 3 }));
    assert_eq!(
        parse_account_params(&json("[\"tooShort\"]")).unwrap_err(),
        ParamsError::Invalid
    );
    assert_eq!(
        parse_account_params(&json(&format!(
            "[\"{}\", {{\"encoding\":\"hex\"}}]",
            k.to_base58()
        )))
        .unwrap_err(),
        ParamsError::Invalid
    );
}

#[test]
fn cache_hit_returns_stored_value_at_current_slot() {
    let mut state = State::new();
    let k = key(1);
    let acc = AccountInfo {
        lamports: 42,
        owner: key(2),
        executable: true,
        rent_epoch: 3,
        data: AccountData { data: vec![1, 2, 3] },
    };
    state.insert(k.clone(), Some(acc));
    state.update_slot(11);
    let p = parse_account_params(&json(&format!("[\"{}\"]", k.to_base58()))).unwrap();
    match try_account_cache(&state, 5, &p).unwrap() {
        AccountCacheAttempt::Hit { response, keep_alive } => {
            assert_eq!(response.id, 5);
            assert_eq!(response.result.slot, 11);
            let wa = response.result.value.unwrap();
            assert_eq!(wa.lamports, 42);
            assert_eq!(wa.owner, key(2).to_base58());
            assert!(wa.executable);
            assert_eq!(wa.rent_epoch, 3);
            assert_eq!(bs58::decode(&wa.data.payload).into_vec().unwrap(), vec![1, 2, 3]);
            assert_eq!(wa.data.encoding_name, "base58");
            match keep_alive {
                Command::Reset(rk) => assert_eq!(rk.bytes, k.bytes),
                Command::Subscribe(_) => panic!("a hit renews, it does not subscribe"),
            }
        },
        AccountCacheAttempt::Miss { .. } => panic!("entry was cached"),
    }
}

#[test]
fn cached_absence_is_authoritative_and_renders_null() {
    let mut state = State::new();
    let k = key(4);
    state.insert(k.clone(), None);
    state.update_slot(8);
    let p = parse_account_params(&json(&format!("[\"{}\"]", k.to_base58()))).unwrap();
    match try_account_cache(&state, 1, &p).unwrap() {
        AccountCacheAttempt::Hit { response, .. } => {
            assert_eq!(response.result.slot, 8);
            assert!(response.result.value.is_none());
        },
        AccountCacheAttempt::Miss { .. } => panic!("absence is a hit"),
    }
}

#[test]
fn miss_then_fetch_fills_cache_and_second_request_hits() {
    // the scenario from the wire example: base64 request against an empty
    // cache, upstream answers at slot 5, the feed then advances the slot
    let mut state = State::new();
    let k = key(1);
    let p = parse_account_params(&json(&format!(
        "[\"{}\", {{\"encoding\":\"base64\"}}]",
        k.to_base58()
    )))
    .unwrap();
    let cacheable = match try_account_cache(&state, 1, &p).unwrap() {
        AccountCacheAttempt::Miss { cacheable, subscribe } => {
            match subscribe {
                Command::Subscribe(sk) => assert_eq!(sk.bytes, k.bytes),
                Command::Reset(_) => panic!("a miss subscribes"),
            }
            cacheable
        },
        AccountCacheAttempt::Hit { .. } => panic!("cache was empty"),
    };
    assert!(cacheable);
    let body = account_body(&key(2), 5, 10, "");
    let u = resolve_account_from_upstream(&mut state, &p, body.clone()).unwrap();
    assert!(u.notify);
    assert_eq!(u.body, body);
    state.update_slot(9);
    match try_account_cache(&state, 2, &p).unwrap() {
        AccountCacheAttempt::Hit { response, .. } => {
            assert_eq!(response.result.slot, 9);
            let wa = response.result.value.unwrap();
            assert_eq!(wa.lamports, 10);
            assert_eq!(wa.data.payload, "");
            assert_eq!(wa.data.encoding_name, "base64");
        },
        AccountCacheAttempt::Miss { .. } => panic!("the fetch populated the cache"),
    }
}

#[test]
fn sliced_request_never_populates_cache() {
    let mut state = State::new();
    let k = key(1);
    let p = parse_account_params(&json(&format!(
        "[\"{}\", {{\"encoding\":\"base64\",\"dataSlice\":{{\"offset\":0,\"length\":0}}}}]",
        k.to_base58()
    )))
    .unwrap();
    let cacheable = match try_account_cache(&state, 1, &p).unwrap() {
        AccountCacheAttempt::Miss { cacheable, .. } => cacheable,
        AccountCacheAttempt::Hit { .. } => panic!("cache was empty"),
    };
    assert!(!cacheable);
    let body = account_body(&key(2), 5, 10, "");
    let u = resolve_account_from_upstream(&mut state, &p, body.clone()).unwrap();
    assert!(!u.notify);
    assert_eq!(u.body, body);
    match try_account_cache(&state, 2, &p).unwrap() {
        AccountCacheAttempt::Miss { .. } => {},
        AccountCacheAttempt::Hit { .. } => panic!("a sliced read must not fill the cache"),
    }
}

#[test]
fn fill_wake_recheck_resolves_once_filled() {
    let mut state = State::new();
    let k = key(3);
    let p = parse_account_params(&json(&format!("[\"{}\"]", k.to_base58()))).unwrap();
    assert!(retry_cache_after_fill(&state, 1, &p).unwrap().is_none());
    // a concurrent fill (the feed) lands the value, waiters re-check
    state.insert(
        k.clone(),
        Some(AccountInfo {
            lamports: 1,
            owner: key(2),
            executable: false,
            rent_epoch: 0,
            data: AccountData { data: vec![] },
        }),
    );
    let (env, cmd) = retry_cache_after_fill(&state, 1, &p).unwrap().unwrap();
    assert_eq!(env.result.value.unwrap().lamports, 1);
    match cmd {
        Command::Reset(rk) => assert_eq!(rk.bytes, k.bytes),
        Command::Subscribe(_) => panic!("a fill hit renews"),
    }
}

#[test]
fn retry_budget_is_exactly_the_fixed_allowance() {
    assert_eq!(MAX_UPSTREAM_ATTEMPTS, 10);
    assert_eq!(RETRY_DELAY_MS, 100);
    let mut b = RetryBudget::new();
    let mut attempts = 0;
    while b.may_retry() {
        b.start_attempt();
        attempts += 1;
    }
    assert_eq!(attempts, 10);
    assert!(!b.may_retry());
}

#[test]
fn malformed_upstream_body_is_an_error_and_writes_nothing() {
    let mut state = State::new();
    let k = key(1);
    let p = parse_account_params(&json(&format!("[\"{}\"]", k.to_base58()))).unwrap();
    let r = resolve_account_from_upstream(&mut state, &p, b"{\"result\":17}".to_vec());
    assert_eq!(r.unwrap_err(), UpstreamError::MalformedResponse);
    match try_account_cache(&state, 1, &p).unwrap() {
        AccountCacheAttempt::Miss { .. } => {},
        AccountCacheAttempt::Hit { .. } => panic!("garbage must never be cached"),
    }
}

fn program_body(program_member_keys: &[Pubkey]) -> Vec<u8> {
    let rows: Vec<String> = program_member_keys
        .iter()
        .map(|k| {
            format!(
                "{{\"account\":{{\"lamports\":7,\"owner\":\"{}\",\"executable\":false,\"rentEpoch\":1,\"data\":[\"\",\"base64\"]}},\"pubkey\":\"{}\"}}",
                key(9).to_base58(),
                k.to_base58()
            )
        })
        .collect();
    format!("{{\"result\":[{}]}}", rows.join(",")).into_bytes()
}

#[test]
fn program_miss_fills_member_accounts_then_account_request_hits() {
    let mut state = State::new();
    let program = key(5);
    let m1 = key(6);
    let m2 = key(7);
    assert!(try_program_cache(&state, 1, &program).is_none());
    let body = program_body(&[m1.clone(), m2.clone()]);
    let u = resolve_program_from_upstream(&mut state, &program, body.clone()).unwrap();
    assert!(u.notify);
    assert_eq!(u.body, body);
    assert_eq!(u.member_keys.len(), 2);
    // a follow-up single-account request for a member hits the cache
    let p = parse_account_params(&json(&format!("[\"{}\"]", m1.to_base58()))).unwrap();
    match try_account_cache(&state, 2, &p).unwrap() {
        AccountCacheAttempt::Hit { response, .. } => {
            assert_eq!(response.result.value.unwrap().lamports, 7);
        },
        AccountCacheAttempt::Miss { .. } => panic!("membership fetch fills member entries"),
    }
    // and the membership list itself now serves hits
    let (env, cmds) = try_program_cache(&state, 3, &program).unwrap();
    assert_eq!(env.id, 3);
    assert_eq!(env.accounts.len(), 2);
    assert_eq!(cmds.len(), 2);
    assert_eq!(env.accounts[0].pubkey, m1.to_base58());
    assert_eq!(env.accounts[1].pubkey, m2.to_base58());
    let row = env.accounts[0].account.as_ref().unwrap();
    assert_eq!(row.lamports, 7);
    assert_eq!(row.data.encoding_name, "base58");
}

#[test]
fn program_membership_is_replaced_wholesale() {
    let mut state = State::new();
    let program = key(5);
    resolve_program_from_upstream(&mut state, &program, program_body(&[key(6), key(7)]))
        .unwrap();
    resolve_program_from_upstream(&mut state, &program, program_body(&[key(8)])).unwrap();
    let (env, _) = try_program_cache(&state, 1, &program).unwrap();
    assert_eq!(env.accounts.len(), 1);
    assert_eq!(env.accounts[0].pubkey, key(8).to_base58());
}

#[test]
fn absent_members_are_dropped_not_failed() {
    let mut state = State::new();
    let program = key(5);
    resolve_program_from_upstream(&mut state, &program, program_body(&[key(6), key(7)]))
        .unwrap();
    // build a state whose membership names a key the account cache lacks
    let mut fresh = State::new();
    resolve_program_from_upstream(&mut fresh, &program, program_body(&[key(6)])).unwrap();
    fresh.insert_program_accounts(program.clone(), vec![key(6), key(7)]);
    let (env, cmds) = try_program_cache(&fresh, 1, &program).unwrap();
    assert_eq!(env.accounts.len(), 1);
    assert_eq!(cmds.len(), 1);
    assert_eq!(env.accounts[0].pubkey, key(6).to_base58());
}

#[test]
fn slot_counter_never_moves_back() {
    let mut state = State::new();
    state.update_slot(5);
    state.update_slot(3);
    assert_eq!(state.slot(), 5);
    state.update_slot(6);
    assert_eq!(state.slot(), 6);
}

#[test]
fn hit_with_bad_slice_fails_that_response_only() {
    let mut state = State::new();
    let k = key(1);
    state.insert(
        k.clone(),
        Some(AccountInfo {
            lamports: 1,
            owner: key(2),
            executable: false,
            rent_epoch: 0,
            data: AccountData { data: vec![1, 2] },
        }),
    );
    let entry = state.get(&k).unwrap();
    let r = account_response(1, &entry, 0, Encoding::Base64, Some(Slice { offset: 1, length: 5 }));
    assert!(r.is_err());
    // the cache itself is untouched and a plain request still succeeds
    let ok = account_response(1, &entry, 0, Encoding::Base64, None).unwrap();
    assert_eq!(base64::decode(&ok.result.value.unwrap().data.payload).unwrap(), vec![1, 2]);
}
