use ft_balance_query::{
    balance_or_zero, get_promise_result, CallbackError, PromiseResult, ValidAccountId, Welcome,
};

fn id(text: &str) -> String {
    text.to_string()
}

fn successful(payload: &[u8]) -> Vec<PromiseResult> {
    vec![PromiseResult::Successful(payload.to_vec())]
}

#[test]
fn foreign_caller_is_refused() {
    let contract = Welcome::default();
    let report = contract.on_get_balance(&id("mallory"), &id("alice_near"), &successful(b"\"42\""));
    assert_eq!(report, Err(CallbackError::AuthorizationFailure));
}

#[test]
fn foreign_caller_is_refused_whatever_was_delivered() {
    let contract = Welcome::default();
    let deliveries = [
        vec![],
        vec![PromiseResult::Failed],
        vec![PromiseResult::NotReady],
        successful(b"\"1\""),
        vec![PromiseResult::Failed, PromiseResult::Failed],
    ];
    for results in deliveries {
        let report = contract.on_get_balance(&id("mallory"), &id("alice_near"), &results);
        assert_eq!(report, Err(CallbackError::AuthorizationFailure));
    }
}

#[test]
fn no_result_is_a_shape_error() {
    let contract = Welcome::default();
    let report = contract.on_get_balance(&id("alice_near"), &id("alice_near"), &vec![]);
    assert_eq!(report, Err(CallbackError::OutcomeShape));
    assert_eq!(get_promise_result(&vec![]), Err(CallbackError::OutcomeShape));
}

#[test]
fn two_results_are_a_shape_error() {
    let contract = Welcome::default();
    let results =
        vec![PromiseResult::Successful(b"\"1\"".to_vec()), PromiseResult::Successful(b"\"2\"".to_vec())];
    let report = contract.on_get_balance(&id("alice_near"), &id("alice_near"), &results);
    assert_eq!(report, Err(CallbackError::OutcomeShape));
    assert_eq!(get_promise_result(&results), Err(CallbackError::OutcomeShape));
}

#[test]
fn wrong_result_count_aborts_for_every_caller() {
    let contract = Welcome::default();
    let report = contract.on_get_balance(&id("mallory"), &id("alice_near"), &vec![]);
    assert!(report.is_err());
    let two = vec![PromiseResult::Failed, PromiseResult::NotReady];
    let report = contract.on_get_balance(&id("mallory"), &id("alice_near"), &two);
    assert!(report.is_err());
}

#[test]
fn quoted_number_is_reported() {
    let contract = Welcome::default();
    let report = contract.on_get_balance(&id("alice_near"), &id("alice_near"), &successful(b"\"42\""));
    assert_eq!(report, Ok(id("The received balance is 42")));
    assert_eq!(get_promise_result(&successful(b"\"42\"")), Ok(42));
}

#[test]
fn undecodable_payload_reports_zero() {
    let contract = Welcome::default();
    let report =
        contract.on_get_balance(&id("alice_near"), &id("alice_near"), &successful(b"not-a-number"));
    assert_eq!(report, Ok(id("The received balance is 0")));
    assert_eq!(get_promise_result(&successful(b"not-a-number")), Ok(0));
}

#[test]
fn payloads_of_another_shape_count_as_zero() {
    assert_eq!(get_promise_result(&successful(b"")), Ok(0));
    assert_eq!(get_promise_result(&successful(b"42")), Ok(0));
    assert_eq!(get_promise_result(&successful(b"\"-1\"")), Ok(0));
    assert_eq!(get_promise_result(&successful(b"\"4 2\"")), Ok(0));
    assert_eq!(get_promise_result(&successful(b"\"42\" x")), Ok(0));
    assert_eq!(get_promise_result(&successful(b"{\"balance\":\"42\"}")), Ok(0));
    assert_eq!(
        get_promise_result(&successful(b"\"340282366920938463463374607431768211456\"")),
        Ok(0)
    );
}

#[test]
fn large_and_small_balances_decode() {
    assert_eq!(get_promise_result(&successful(b"\"0\"")), Ok(0));
    assert_eq!(get_promise_result(&successful(b" \"7\"\n")), Ok(7));
    assert_eq!(
        get_promise_result(&successful(b"\"340282366920938463463374607431768211455\"")),
        Ok(u128::MAX)
    );
}

#[test]
fn failed_result_is_a_remote_failure() {
    let contract = Welcome::default();
    let results = vec![PromiseResult::Failed];
    let report = contract.on_get_balance(&id("alice_near"), &id("alice_near"), &results);
    assert_eq!(report, Err(CallbackError::RemoteFailure));
    assert_eq!(get_promise_result(&results), Err(CallbackError::RemoteFailure));
}

#[test]
fn unready_result_is_a_remote_failure() {
    let contract = Welcome::default();
    let results = vec![PromiseResult::NotReady];
    let report = contract.on_get_balance(&id("alice_near"), &id("alice_near"), &results);
    assert_eq!(report, Err(CallbackError::RemoteFailure));
    assert_eq!(get_promise_result(&results), Err(CallbackError::RemoteFailure));
}

#[test]
fn lookup_then_resolution_gives_the_report() {
    let contract = Welcome::default();
    let current = id("alice_near");
    let chain = contract.get_ft_balance1(
        ValidAccountId::new(id("usdt.token")).unwrap(),
        ValidAccountId::new(id("bob_near")).unwrap(),
        &current,
    );
    assert_eq!(chain.call.receiver_id, "usdt.token");
    assert_eq!(chain.callback.method_name, "on_get_balance");
    let delivered = successful(b"\"1000\"");
    let report = contract.on_get_balance(&chain.callback.receiver_id, &current, &delivered);
    assert_eq!(report, Ok(id("The received balance is 1000")));
}

#[test]
fn decoding_fallback_is_zero() {
    assert_eq!(balance_or_zero(None), 0);
    assert_eq!(balance_or_zero(Some(0)), 0);
    assert_eq!(balance_or_zero(Some(42)), 42);
    assert_eq!(balance_or_zero(Some(u128::MAX)), u128::MAX);
}

#[test]
fn each_error_has_its_message() {
    assert_eq!(
        CallbackError::AuthorizationFailure.message(),
        "Callback can only be called from the contract"
    );
    assert_eq!(CallbackError::OutcomeShape.message(), "Contract expected a result on the callback");
    assert_eq!(CallbackError::RemoteFailure.message(), "Promise was not successful");
}

#[test]
fn promise_result_clone_keeps_the_payload() {
    let result = PromiseResult::Successful(vec![1, 2, 3]);
    assert_eq!(result.clone(), result);
    assert_eq!(PromiseResult::Failed.clone(), PromiseResult::Failed);
    assert_eq!(PromiseResult::NotReady.clone(), PromiseResult::NotReady);
    assert_ne!(PromiseResult::NotReady, PromiseResult::Failed);
}
