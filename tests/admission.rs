use integritee_node::asset::{teer_general_key, Asset, AssetId};
use integritee_node::barrier::{
    AdmissionError, AllowRule, DenyThenTry, Instruction, PendingQuery, Properties, Weight,
    WeightLimit,
};
use integritee_node::location::{Junction, Location};

fn native(amount: u128) -> Asset {
    Asset { id: AssetId::Concrete(Location::new(0, vec![teer_general_key()]).unwrap()), amount }
}

fn weight(ref_time: u64, proof_size: u64) -> Weight {
    Weight { ref_time, proof_size }
}

fn sibling() -> Location {
    Location::new(1, vec![Junction::Parachain(1000)]).unwrap()
}

fn paid_message(limit: WeightLimit) -> Vec<Instruction> {
    vec![
        Instruction::WithdrawAsset(vec![native(10)]),
        Instruction::ClearOrigin,
        Instruction::BuyExecution { fees: native(10), weight_limit: limit },
        Instruction::DepositAsset { beneficiary: Location::here() },
    ]
}

fn run(
    instructions: &Vec<Instruction>,
    max: Weight,
    credit: Weight,
    pending: &Vec<PendingQuery>,
) -> (Result<AllowRule, AdmissionError>, Weight) {
    let barrier = DenyThenTry::standard();
    let mut props = Properties { weight_credit: credit };
    let r = barrier.should_execute(&sibling(), instructions, max, &mut props, pending);
    (r, props.weight_credit)
}

#[test]
fn reserve_transfer_to_parent_is_denied_even_when_paid() {
    let mut message = paid_message(WeightLimit::Unlimited);
    message.push(Instruction::DepositReserveAsset { dest: Location::parent() });
    let (r, credit) = run(&message, weight(10, 10), weight(0, 0), &vec![]);
    assert_eq!(r, Err(AdmissionError::Denied));
    assert_eq!(credit, weight(0, 0));
}

#[test]
fn deny_keeps_credit_that_would_have_admitted() {
    let message = vec![Instruction::InitiateReserveWithdraw { reserve: Location::parent() }];
    let (r, credit) = run(&message, weight(10, 10), weight(50, 50), &vec![]);
    assert_eq!(r, Err(AdmissionError::Denied));
    assert_eq!(credit, weight(50, 50));
}

#[test]
fn reserve_transfer_to_sibling_is_not_denied() {
    let mut message = paid_message(WeightLimit::Unlimited);
    message.push(Instruction::TransferReserveAsset { dest: sibling() });
    let (r, _) = run(&message, weight(10, 10), weight(0, 0), &vec![]);
    assert_eq!(r, Ok(AllowRule::TopLevelPaidExecution));
}

#[test]
fn paid_execution_without_credit_debits_nothing() {
    let message = paid_message(WeightLimit::Limited(weight(100, 100)));
    let (r, credit) = run(&message, weight(40, 40), weight(0, 0), &vec![]);
    assert_eq!(r, Ok(AllowRule::TopLevelPaidExecution));
    assert_eq!(credit, weight(0, 0));
}

#[test]
fn weight_credit_is_consumed_when_it_admits() {
    let message = vec![Instruction::Transact { call: vec![1, 2, 3] }];
    let (r, credit) = run(&message, weight(30, 20), weight(100, 50), &vec![]);
    assert_eq!(r, Ok(AllowRule::TakeWeightCredit));
    assert_eq!(credit, weight(70, 30));
}

#[test]
fn credit_short_in_one_dimension_does_not_admit() {
    let message = vec![Instruction::Transact { call: vec![] }];
    let (r, credit) = run(&message, weight(30, 60), weight(100, 50), &vec![]);
    assert_eq!(r, Err(AdmissionError::NotAllowed));
    assert_eq!(credit, weight(100, 50));
}

#[test]
fn too_small_weight_limit_is_not_admitted() {
    let message = paid_message(WeightLimit::Limited(weight(5, 5)));
    let (r, _) = run(&message, weight(40, 40), weight(0, 0), &vec![]);
    assert_eq!(r, Err(AdmissionError::NotAllowed));
}

#[test]
fn payment_beyond_prefix_is_not_admitted() {
    let message = vec![
        Instruction::WithdrawAsset(vec![native(1)]),
        Instruction::ClearOrigin,
        Instruction::ClearOrigin,
        Instruction::ClearOrigin,
        Instruction::ClearOrigin,
        Instruction::BuyExecution { fees: native(1), weight_limit: WeightLimit::Unlimited },
    ];
    let (r, _) = run(&message, weight(1, 1), weight(0, 0), &vec![]);
    assert_eq!(r, Err(AdmissionError::NotAllowed));
}

#[test]
fn too_many_fee_assets_are_not_admitted() {
    let message = vec![
        Instruction::WithdrawAsset(vec![native(1), native(2), native(3)]),
        Instruction::BuyExecution { fees: native(1), weight_limit: WeightLimit::Unlimited },
    ];
    let (r, _) = run(&message, weight(1, 1), weight(0, 0), &vec![]);
    assert_eq!(r, Err(AdmissionError::NotAllowed));
}

#[test]
fn known_query_response_is_admitted() {
    let pending = vec![PendingQuery { query_id: 7, responder: sibling(), querier: None }];
    let message = vec![Instruction::QueryResponse { query_id: 7, querier: Some(Location::here()) }];
    let (r, _) = run(&message, weight(1, 1), weight(0, 0), &pending);
    assert_eq!(r, Ok(AllowRule::KnownQueryResponses));
}

#[test]
fn unknown_query_response_is_not_admitted() {
    let pending = vec![PendingQuery { query_id: 7, responder: Location::parent(), querier: None }];
    let message = vec![Instruction::QueryResponse { query_id: 7, querier: None }];
    let (r, _) = run(&message, weight(1, 1), weight(0, 0), &pending);
    assert_eq!(r, Err(AdmissionError::NotAllowed));
    let message = vec![Instruction::QueryResponse { query_id: 8, querier: None }];
    let (r, _) = run(&message, weight(1, 1), weight(0, 0), &vec![]);
    assert_eq!(r, Err(AdmissionError::NotAllowed));
}

#[test]
fn query_response_with_wrong_querier_is_not_admitted() {
    let pending = vec![PendingQuery { query_id: 7, responder: sibling(), querier: Some(Location::here()) }];
    let message = vec![Instruction::QueryResponse { query_id: 7, querier: Some(Location::parent()) }];
    let (r, _) = run(&message, weight(1, 1), weight(0, 0), &pending);
    assert_eq!(r, Err(AdmissionError::NotAllowed));
}

#[test]
fn version_subscription_is_admitted() {
    let message = vec![Instruction::SubscribeVersion { query_id: 1, max_response_weight: weight(0, 0) }];
    let (r, _) = run(&message, weight(1, 1), weight(0, 0), &vec![]);
    assert_eq!(r, Ok(AllowRule::Subscriptions));
    let (r, _) = run(&vec![Instruction::UnsubscribeVersion], weight(1, 1), weight(0, 0), &vec![]);
    assert_eq!(r, Ok(AllowRule::Subscriptions));
}

#[test]
fn empty_message_is_not_admitted_without_credit() {
    let (r, _) = run(&vec![], weight(1, 1), weight(0, 0), &vec![]);
    assert_eq!(r, Err(AdmissionError::NotAllowed));
}
