use swap_dispatch::contract::{
    authorize, execute, get_job_id, instantiate, query, set_paloma, update_compass, update_fee,
    update_job_id, update_refund_wallet,
};
use swap_dispatch::error::ContractError;
use swap_dispatch::ledger::Ledger;
use swap_dispatch::msg::{Deposit, ExecuteMsg, InstantiateMsg, Metadata, QueryMsg};
use swap_dispatch::response::{Attribute, Response};
use swap_dispatch::state::State;
use swap_dispatch::time::Timestamp;
use swap_dispatch::uint256::Uint256;

fn created() -> State {
    State {
        job_id: "job-1".to_string(),
        owner: "alice".to_string(),
        retry_delay: 60,
        metadata: Metadata { creator: "carol".to_string(), signers: vec!["dave".to_string()] },
    }
}

fn alice() -> String {
    "alice".to_string()
}

fn mallory() -> String {
    "mallory".to_string()
}

const WALLET: &str = "0xAbCdEf0123456789aBcDeF0123456789abcdef01";

#[test]
fn instantiate_sets_every_field() {
    let msg = InstantiateMsg {
        retry_delay: 60,
        job_id: "job-1".to_string(),
        creator: "carol".to_string(),
        signers: vec!["dave".to_string()],
    };
    let (state, response) = instantiate(&alice(), msg);
    assert_eq!(state, created());
    assert_eq!(response.messages, vec![]);
    assert_eq!(
        response.attributes,
        vec![
            Attribute { key: "method".to_string(), value: "instantiate".to_string() },
            Attribute { key: "owner".to_string(), value: "alice".to_string() },
            Attribute { key: "job_id".to_string(), value: "job-1".to_string() },
        ]
    );
}

#[test]
fn authorize_admits_only_the_owner() {
    assert_eq!(authorize(&created(), &alice()), Ok(()));
    assert_eq!(authorize(&created(), &mallory()), Err(ContractError::Unauthorized {}));
    assert_eq!(authorize(&created(), &"Alice".to_string()), Err(ContractError::Unauthorized {}));
    assert_eq!(authorize(&created(), &String::new()), Err(ContractError::Unauthorized {}));
}

#[test]
fn stranger_is_refused_every_admin_operation() {
    let state = created();
    let denied = Err(ContractError::Unauthorized {});
    assert_eq!(set_paloma(&state, &mallory()), denied);
    assert_eq!(update_compass(&state, &mallory(), WALLET.to_string()), denied);
    assert_eq!(update_refund_wallet(&state, &mallory(), WALLET.to_string()), denied);
    assert_eq!(update_fee(&state, &mallory(), Uint256::from_u32(1)), denied);
    let mut state = state;
    assert_eq!(update_job_id(&mut state, &mallory(), "job-2".to_string()), denied);
    assert_eq!(state, created());
}

#[test]
fn stranger_through_execute_changes_nothing() {
    let requests = vec![
        ExecuteMsg::SetPaloma {},
        ExecuteMsg::UpdateCompass { new_compass: WALLET.to_string() },
        ExecuteMsg::UpdateRefundWallet { new_refund_wallet: WALLET.to_string() },
        ExecuteMsg::UpdateFee { fee: Uint256::from_u32(3) },
        ExecuteMsg::UpdateJobId { new_job_id: "job-2".to_string() },
    ];
    for msg in requests {
        let mut state = created();
        let mut ledger = Ledger::new();
        ledger.record(1, 1, Timestamp::from_seconds(1));
        let result = execute(&mut state, &mut ledger, Timestamp::from_seconds(9), &mallory(), msg);
        assert_eq!(result, Err(ContractError::Unauthorized {}));
        assert_eq!(state, created());
        assert_eq!(ledger.stamp_of(1, 1), Some(Timestamp::from_seconds(1)));
    }
}

#[test]
fn unauthorized_comes_before_validation() {
    let result = update_compass(&created(), &mallory(), "not an address".to_string());
    assert_eq!(result, Err(ContractError::Unauthorized {}));
}

#[test]
fn malformed_address_is_a_validation_error() {
    let state = created();
    let invalid = Err(ContractError::ValidationError {});
    for text in ["", "0x", "not an address", "0x1234", "zz112233445566778899aabbccddeeff01020304"] {
        assert_eq!(update_compass(&state, &alice(), text.to_string()), invalid);
        assert_eq!(update_refund_wallet(&state, &alice(), text.to_string()), invalid);
    }
    let long = format!("{}00", WALLET);
    assert_eq!(update_compass(&state, &alice(), long), invalid);
}

#[test]
fn owner_updates_job_id_and_nothing_else() {
    let mut state = created();
    let result = update_job_id(&mut state, &alice(), "job-2".to_string());
    assert_eq!(result, Ok(Response::new()));
    assert_eq!(state, State { job_id: "job-2".to_string(), ..created() });
}

#[test]
fn query_reads_the_job_id() {
    let mut state = created();
    assert_eq!(get_job_id(&state).job_id, "job-1");
    assert_eq!(query(&state, QueryMsg::GetJobId {}).job_id, "job-1");
    update_job_id(&mut state, &alice(), "job-2".to_string()).unwrap();
    assert_eq!(query(&state, QueryMsg::GetJobId {}), get_job_id(&state));
    assert_eq!(get_job_id(&state).job_id, "job-2");
}

#[test]
fn execute_routes_each_request() {
    let mut state = created();
    let mut ledger = Ledger::new();
    let now = Timestamp::from_seconds(9);

    let via = execute(&mut state, &mut ledger, now, &alice(), ExecuteMsg::SetPaloma {});
    assert_eq!(via, set_paloma(&created(), &alice()));

    let msg = ExecuteMsg::UpdateCompass { new_compass: WALLET.to_string() };
    let via = execute(&mut state, &mut ledger, now, &alice(), msg);
    assert_eq!(via, update_compass(&created(), &alice(), WALLET.to_string()));

    let msg = ExecuteMsg::UpdateRefundWallet { new_refund_wallet: WALLET.to_string() };
    let via = execute(&mut state, &mut ledger, now, &alice(), msg);
    assert_eq!(via, update_refund_wallet(&created(), &alice(), WALLET.to_string()));

    let msg = ExecuteMsg::UpdateFee { fee: Uint256::from_u32(25) };
    let via = execute(&mut state, &mut ledger, now, &alice(), msg);
    assert_eq!(via, update_fee(&created(), &alice(), Uint256::from_u32(25)));
    assert_eq!(state, created());
    assert_eq!(ledger.stamp_of(1, 1), None);

    let msg = ExecuteMsg::UpdateJobId { new_job_id: "job-3".to_string() };
    let via = execute(&mut state, &mut ledger, now, &alice(), msg);
    assert_eq!(via, Ok(Response::new()));
    assert_eq!(state.job_id, "job-3");
}

#[test]
fn anyone_may_put_a_swap() {
    let mut state = created();
    let mut ledger = Ledger::new();
    let now = Timestamp::from_seconds(9);
    let deposits =
        vec![Deposit { deposit_id: 1, remaining_count: 1, amount_out_min: Uint256::from_u32(1) }];
    let msg = ExecuteMsg::PutSwap { deposits: deposits.clone() };
    let first = execute(&mut state, &mut ledger, now, &mallory(), msg);
    assert_eq!(first.unwrap().messages.len(), 1);
    assert_eq!(ledger.stamp_of(1, 1), Some(now));
    assert_eq!(state, created());
    let again = execute(&mut state, &mut ledger, now, &alice(), ExecuteMsg::PutSwap { deposits });
    assert_eq!(again, Err(ContractError::AllPending {}));
}

#[test]
fn errors_have_messages() {
    assert_eq!(ContractError::Unauthorized {}.message(), "Unauthorized");
    assert_eq!(ContractError::AllPending {}.message(), "All deposits are pending");
    assert_eq!(ContractError::ValidationError {}.message(), "Invalid input");
}
