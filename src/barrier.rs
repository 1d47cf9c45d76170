//! The admission barrier: a deny list that short-circuits, then an ordered
//! list of allow rules where the first that matches admits the message.
use vstd::prelude::*;
use crate::asset::Asset;
use crate::location::{Junction, Location, LocationModel, parent_model};

verus! {

/// Execution weight in two dimensions.
#[derive(PartialEq, Eq, Structural, Clone, Copy, Debug)]
pub struct Weight {
    pub ref_time: u64,
    pub proof_size: u64,
}

/// `a` is at least `b` in both dimensions.
pub open spec fn all_gte(a: Weight, b: Weight) -> bool {
    a.ref_time >= b.ref_time && a.proof_size >= b.proof_size
}

/// `a - b` in both dimensions, where `all_gte(a, b)`.
pub open spec fn weight_sub(a: Weight, b: Weight) -> Weight {
    Weight { ref_time: (a.ref_time - b.ref_time) as u64, proof_size: (a.proof_size - b.proof_size) as u64 }
}

/// How much weight a message offers to buy.
#[derive(PartialEq, Eq, Structural, Clone, Copy, Debug)]
pub enum WeightLimit {
    Unlimited,
    Limited(Weight),
}

/// The instructions of an inbound cross-chain message that admission looks at.
#[derive(Debug)]
pub enum Instruction {
    WithdrawAsset(Vec<Asset>),
    ReserveAssetDeposited(Vec<Asset>),
    ReceiveTeleportedAsset(Vec<Asset>),
    ClaimAsset { assets: Vec<Asset>, ticket: Location },
    ClearOrigin,
    AliasOrigin(Location),
    DescendOrigin(Vec<Junction>),
    BuyExecution { fees: Asset, weight_limit: WeightLimit },
    PayFees { asset: Asset },
    DepositAsset { beneficiary: Location },
    InitiateReserveWithdraw { reserve: Location },
    DepositReserveAsset { dest: Location },
    TransferReserveAsset { dest: Location },
    QueryResponse { query_id: u64, querier: Option<Location> },
    SubscribeVersion { query_id: u64, max_response_weight: Weight },
    UnsubscribeVersion,
    Transact { call: Vec<u8> },
}

/// A query this chain issued and still waits on.
#[derive(Debug)]
pub struct PendingQuery {
    pub query_id: u64,
    /// Who must answer it.
    pub responder: Location,
    /// Who the answer must name as querier, if anyone.
    pub querier: Option<Location>,
}

/// Per-message admission state: the weight credit already paid for.
#[derive(PartialEq, Eq, Structural, Clone, Copy, Debug)]
pub struct Properties {
    pub weight_credit: Weight,
}

/// A rule that rejects a message outright.
#[derive(PartialEq, Eq, Structural, Clone, Copy, Debug)]
pub enum DenyRule {
    /// Any reserve transfer directed at the parent scope.
    ReserveTransferToParent,
}

/// A rule that admits a message.
#[derive(PartialEq, Eq, Structural, Clone, Copy, Debug)]
pub enum AllowRule {
    /// The origin has already paid for the message's weight; consumes it.
    TakeWeightCredit,
    /// The message loads assets and buys its own execution up front.
    TopLevelPaidExecution,
    /// The message answers a query this chain still waits on.
    KnownQueryResponses,
    /// The message subscribes to or unsubscribes from version updates.
    Subscriptions,
}

/// Why a message was not admitted.
#[derive(PartialEq, Eq, Structural, Clone, Copy, Debug)]
pub enum AdmissionError {
    /// A deny rule matched.
    Denied,
    /// No allow rule matched.
    NotAllowed,
}

/// Everything an admission decision looks at.
pub ghost struct AdmissionContext {
    pub origin: LocationModel,
    pub instructions: Seq<Instruction>,
    pub max_weight: Weight,
    pub weight_credit: Weight,
    pub pending: Seq<PendingQuery>,
}

pub open spec fn is_reserve_transfer_to_parent(inst: Instruction) -> bool {
    match inst {
        Instruction::InitiateReserveWithdraw { reserve } => reserve@ == parent_model(),
        Instruction::DepositReserveAsset { dest } => dest@ == parent_model(),
        Instruction::TransferReserveAsset { dest } => dest@ == parent_model(),
        _ => false,
    }
}

pub open spec fn deny_matches(rule: DenyRule, instructions: Seq<Instruction>) -> bool {
    match rule {
        DenyRule::ReserveTransferToParent => exists|i: int|
            0 <= i < instructions.len() && is_reserve_transfer_to_parent(#[trigger] instructions[i]),
    }
}

pub open spec fn denied(deny: Seq<DenyRule>, instructions: Seq<Instruction>) -> bool {
    exists|i: int| 0 <= i < deny.len() && deny_matches(#[trigger] deny[i], instructions)
}

/// At most this many assets may be loaded to pay for execution.
pub const MAX_ASSETS_FOR_BUY_EXECUTION: usize = 2;

/// At most this many leading instructions are read to find the payment.
pub const MAX_PAYMENT_PREFIX: usize = 5;

/// Loads a few assets into holding, so that execution can be bought.
pub open spec fn loads_holding(inst: Instruction) -> bool {
    match inst {
        Instruction::WithdrawAsset(a) => a@.len() <= MAX_ASSETS_FOR_BUY_EXECUTION,
        Instruction::ReserveAssetDeposited(a) => a@.len() <= MAX_ASSETS_FOR_BUY_EXECUTION,
        Instruction::ReceiveTeleportedAsset(a) => a@.len() <= MAX_ASSETS_FOR_BUY_EXECUTION,
        Instruction::ClaimAsset { assets, .. } => assets@.len() <= MAX_ASSETS_FOR_BUY_EXECUTION,
        _ => false,
    }
}

/// Changes only the origin; may stand between loading and paying.
pub open spec fn alters_origin(inst: Instruction) -> bool {
    match inst {
        Instruction::ClearOrigin => true,
        Instruction::AliasOrigin(_) => true,
        Instruction::DescendOrigin(j) => j@.len() > 0,
        _ => false,
    }
}

/// Buys at least `max_weight` of execution.
pub open spec fn pays_for(inst: Instruction, max_weight: Weight) -> bool {
    match inst {
        Instruction::BuyExecution { weight_limit, .. } => match weight_limit {
            WeightLimit::Unlimited => true,
            WeightLimit::Limited(w) => all_gte(w, max_weight),
        },
        Instruction::PayFees { .. } => true,
        _ => false,
    }
}

pub open spec fn min_len(n: int) -> int {
    if n < MAX_PAYMENT_PREFIX {
        n
    } else {
        MAX_PAYMENT_PREFIX as int
    }
}

/// Within its first instructions the message loads assets, optionally alters
/// its origin, then pays for `max_weight`.
pub open spec fn paid_execution(instructions: Seq<Instruction>, max_weight: Weight) -> bool {
    let end = min_len(instructions.len() as int);
    &&& end > 0
    &&& loads_holding(instructions[0])
    &&& exists|k: int|
        1 <= k < end && (forall|j: int| 1 <= j < k ==> alters_origin(#[trigger] instructions[j]))
            && pays_for(#[trigger] instructions[k], max_weight)
}

pub open spec fn querier_matches(expected: Option<Location>, given: Option<Location>) -> bool {
    match expected {
        None => true,
        Some(e) => match given {
            Some(g) => g@ == e@,
            None => false,
        },
    }
}

pub open spec fn expects(q: PendingQuery, origin: LocationModel, query_id: u64, querier: Option<Location>) -> bool {
    q.query_id == query_id && q.responder@ == origin && querier_matches(q.querier, querier)
}

pub open spec fn expecting_response(
    pending: Seq<PendingQuery>,
    origin: LocationModel,
    query_id: u64,
    querier: Option<Location>,
) -> bool {
    exists|i: int| 0 <= i < pending.len() && expects(#[trigger] pending[i], origin, query_id, querier)
}

pub open spec fn allow_matches(rule: AllowRule, c: AdmissionContext) -> bool {
    match rule {
        AllowRule::TakeWeightCredit => all_gte(c.weight_credit, c.max_weight),
        AllowRule::TopLevelPaidExecution => paid_execution(c.instructions, c.max_weight),
        AllowRule::KnownQueryResponses => c.instructions.len() == 1 && match c.instructions[0] {
            Instruction::QueryResponse { query_id, querier } => expecting_response(
                c.pending,
                c.origin,
                query_id,
                querier,
            ),
            _ => false,
        },
        AllowRule::Subscriptions => c.instructions.len() == 1 && (
        c.instructions[0] is SubscribeVersion || c.instructions[0] is UnsubscribeVersion),
    }
}

/// The first rule from index `i` on that admits the message.
pub open spec fn first_allowed_from(allow: Seq<AllowRule>, i: int, c: AdmissionContext) -> Result<
    AllowRule,
    AdmissionError,
>
    decreases allow.len() - i,
{
    if i < 0 || i >= allow.len() {
        Err(AdmissionError::NotAllowed)
    } else if allow_matches(allow[i], c) {
        Ok(allow[i])
    } else {
        first_allowed_from(allow, i + 1, c)
    }
}

/// The admission decision: denied if any deny rule matches, else the first
/// allow rule that matches, else not allowed.
pub open spec fn admission(deny: Seq<DenyRule>, allow: Seq<AllowRule>, c: AdmissionContext) -> Result<
    AllowRule,
    AdmissionError,
> {
    if denied(deny, c.instructions) {
        Err(AdmissionError::Denied)
    } else {
        first_allowed_from(allow, 0, c)
    }
}

/// The weight credit left after a decision: only an admission by the weight
/// credit rule consumes it.
pub open spec fn credit_after(outcome: Result<AllowRule, AdmissionError>, c: AdmissionContext) -> Weight {
    if outcome == Ok::<AllowRule, AdmissionError>(AllowRule::TakeWeightCredit) {
        weight_sub(c.weight_credit, c.max_weight)
    } else {
        c.weight_credit
    }
}


fn is_reserve_transfer_to_parent_exec(inst: &Instruction) -> (r: bool)
    ensures
        r == is_reserve_transfer_to_parent(*inst),
{
    let parent = Location::parent();
    match inst {
        Instruction::InitiateReserveWithdraw { reserve } => reserve.same_as(&parent),
        Instruction::DepositReserveAsset { dest } => dest.same_as(&parent),
        Instruction::TransferReserveAsset { dest } => dest.same_as(&parent),
        _ => false,
    }
}

/// Whether a deny rule matches the message.
pub fn deny_rule_matches(rule: DenyRule, instructions: &Vec<Instruction>) -> (r: bool)
    ensures
        r == deny_matches(rule, instructions@),
{
    match rule {
        DenyRule::ReserveTransferToParent => {
            let mut i: usize = 0;
            while i < instructions.len()
                invariant
                    0 <= i <= instructions@.len(),
                    forall|j: int| 0 <= j < i ==> !is_reserve_transfer_to_parent(#[trigger] instructions@[j]),
                decreases instructions@.len() - i,
            {
                if is_reserve_transfer_to_parent_exec(&instructions[i]) {
                    return true;
                }
                i = i + 1;
            }
            false
        },
    }
}

fn loads_holding_exec(inst: &Instruction) -> (r: bool)
    ensures
        r == loads_holding(*inst),
{
    match inst {
        Instruction::WithdrawAsset(a) => a.len() <= MAX_ASSETS_FOR_BUY_EXECUTION,
        Instruction::ReserveAssetDeposited(a) => a.len() <= MAX_ASSETS_FOR_BUY_EXECUTION,
        Instruction::ReceiveTeleportedAsset(a) => a.len() <= MAX_ASSETS_FOR_BUY_EXECUTION,
        Instruction::ClaimAsset { assets, .. } => assets.len() <= MAX_ASSETS_FOR_BUY_EXECUTION,
        _ => false,
    }
}

fn alters_origin_exec(inst: &Instruction) -> (r: bool)
    ensures
        r == alters_origin(*inst),
{
    match inst {
        Instruction::ClearOrigin => true,
        Instruction::AliasOrigin(_) => true,
        Instruction::DescendOrigin(j) => j.len() > 0,
        _ => false,
    }
}

fn pays_for_exec(inst: &Instruction, max_weight: Weight) -> (r: bool)
    ensures
        r == pays_for(*inst, max_weight),
{
    match inst {
        Instruction::BuyExecution { weight_limit, .. } => match weight_limit {
            WeightLimit::Unlimited => true,
            WeightLimit::Limited(w) => w.ref_time >= max_weight.ref_time && w.proof_size
                >= max_weight.proof_size,
        },
        Instruction::PayFees { .. } => true,
        _ => false,
    }
}

/// Whether the message pays for its own execution up front.
pub fn is_paid_execution(instructions: &Vec<Instruction>, max_weight: Weight) -> (r: bool)
    ensures
        r == paid_execution(instructions@, max_weight),
{
    let end: usize = if instructions.len() < MAX_PAYMENT_PREFIX {
        instructions.len()
    } else {
        MAX_PAYMENT_PREFIX
    };
    if end == 0 || !loads_holding_exec(&instructions[0]) {
        return false;
    }
    let mut k: usize = 1;
    while k < end && alters_origin_exec(&instructions[k])
        invariant
            end == min_len(instructions@.len() as int),
            1 <= k <= end,
            forall|j: int| 1 <= j < k ==> alters_origin(#[trigger] instructions@[j]),
        decreases end - k,
    {
        k = k + 1;
    }
    if k < end && pays_for_exec(&instructions[k], max_weight) {
        return true;
    }
    assert forall|k2: int|
        1 <= k2 < end && (forall|j: int| 1 <= j < k2 ==> alters_origin(#[trigger] instructions@[j]))
            implies !pays_for(#[trigger] instructions@[k2], max_weight) by {
        if k2 < k {
            assert(alters_origin(instructions@[k2]));
        } else if k2 > k {
            assert(alters_origin(instructions@[k as int]));
        }
    }
    false
}

fn query_expected(
    pending: &Vec<PendingQuery>,
    origin: &Location,
    query_id: u64,
    querier: &Option<Location>,
) -> (r: bool)
    ensures
        r == expecting_response(pending@, origin@, query_id, *querier),
{
    let mut i: usize = 0;
    while i < pending.len()
        invariant
            0 <= i <= pending@.len(),
            forall|j: int| 0 <= j < i ==> !expects(#[trigger] pending@[j], origin@, query_id, *querier),
        decreases pending@.len() - i,
    {
        let q = &pending[i];
        if q.query_id == query_id && q.responder.same_as(origin) {
            let querier_ok = match &q.querier {
                None => true,
                Some(e) => match querier {
                    Some(g) => g.same_as(e),
                    None => false,
                },
            };
            if querier_ok {
                return true;
            }
        }
        i = i + 1;
    }
    false
}

/// Whether an allow rule admits the message, given the credit already paid.
pub fn allow_rule_matches(
    rule: AllowRule,
    origin: &Location,
    instructions: &Vec<Instruction>,
    max_weight: Weight,
    weight_credit: Weight,
    pending: &Vec<PendingQuery>,
) -> (r: bool)
    ensures
        r == allow_matches(
            rule,
            AdmissionContext {
                origin: origin@,
                instructions: instructions@,
                max_weight,
                weight_credit,
                pending: pending@,
            },
        ),
{
    match rule {
        AllowRule::TakeWeightCredit => weight_credit.ref_time >= max_weight.ref_time
            && weight_credit.proof_size >= max_weight.proof_size,
        AllowRule::TopLevelPaidExecution => is_paid_execution(instructions, max_weight),
        AllowRule::KnownQueryResponses => {
            if instructions.len() != 1 {
                return false;
            }
            match &instructions[0] {
                Instruction::QueryResponse { query_id, querier } => query_expected(
                    pending,
                    origin,
                    *query_id,
                    querier,
                ),
                _ => false,
            }
        },
        AllowRule::Subscriptions => {
            if instructions.len() != 1 {
                return false;
            }
            match &instructions[0] {
                Instruction::SubscribeVersion { .. } => true,
                Instruction::UnsubscribeVersion => true,
                _ => false,
            }
        },
    }
}

/// A deny list evaluated first, then an ordered list of allow rules.
#[derive(Debug)]
pub struct DenyThenTry {
    pub deny: Vec<DenyRule>,
    pub allow: Vec<AllowRule>,
}

impl DenyThenTry {
    /// This chain's barrier: reserve transfers to the parent are denied; then
    /// paid-for weight credit, top-level paid execution from anywhere, known
    /// query responses and version subscriptions from anywhere are allowed,
    /// in that order.
    pub fn standard() -> (r: DenyThenTry)
        ensures
            r.deny@ == seq![DenyRule::ReserveTransferToParent],
            r.allow@ == standard_allow_rules(),
    {
        let mut deny: Vec<DenyRule> = Vec::new();
        deny.push(DenyRule::ReserveTransferToParent);
        let mut allow: Vec<AllowRule> = Vec::new();
        allow.push(AllowRule::TakeWeightCredit);
        allow.push(AllowRule::TopLevelPaidExecution);
        allow.push(AllowRule::KnownQueryResponses);
        allow.push(AllowRule::Subscriptions);
        assert(deny@ =~= seq![DenyRule::ReserveTransferToParent]);
        assert(allow@ =~= standard_allow_rules());
        DenyThenTry { deny, allow }
    }

    /// Decides whether a message from `origin` may execute. Only an admission
    /// by the weight credit rule changes `properties`: it consumes
    /// `max_weight` of the credit. A rule that does not admit leaves no trace.
    pub fn should_execute(
        &self,
        origin: &Location,
        instructions: &Vec<Instruction>,
        max_weight: Weight,
        properties: &mut Properties,
        pending: &Vec<PendingQuery>,
    ) -> (r: Result<AllowRule, AdmissionError>)
        ensures
            r == admission(
                self.deny@,
                self.allow@,
                AdmissionContext {
                    origin: origin@,
                    instructions: instructions@,
                    max_weight,
                    weight_credit: old(properties).weight_credit,
                    pending: pending@,
                },
            ),
            final(properties).weight_credit == credit_after(
                r,
                AdmissionContext {
                    origin: origin@,
                    instructions: instructions@,
                    max_weight,
                    weight_credit: old(properties).weight_credit,
                    pending: pending@,
                },
            ),
    {
        let ghost c = AdmissionContext {
            origin: origin@,
            instructions: instructions@,
            max_weight,
            weight_credit: properties.weight_credit,
            pending: pending@,
        };
        let mut i: usize = 0;
        while i < self.deny.len()
            invariant
                0 <= i <= self.deny@.len(),
                forall|j: int| 0 <= j < i ==> !deny_matches(#[trigger] self.deny@[j], instructions@),
            decreases self.deny@.len() - i,
        {
            if deny_rule_matches(self.deny[i], instructions) {
                return Err(AdmissionError::Denied);
            }
            i = i + 1;
        }
        let credit = properties.weight_credit;
        let mut i: usize = 0;
        while i < self.allow.len()
            invariant
                0 <= i <= self.allow@.len(),
                !denied(self.deny@, instructions@),
                c == (AdmissionContext {
                    origin: origin@,
                    instructions: instructions@,
                    max_weight,
                    weight_credit: credit,
                    pending: pending@,
                }),
                *properties == *old(properties),
                credit == old(properties).weight_credit,
                first_allowed_from(self.allow@, 0, c) == first_allowed_from(self.allow@, i as int, c),
            decreases self.allow@.len() - i,
        {
            let rule = self.allow[i];
            if allow_rule_matches(rule, origin, instructions, max_weight, credit, pending) {
                assert(first_allowed_from(self.allow@, i as int, c) == Ok::<AllowRule, AdmissionError>(rule));
                if rule == AllowRule::TakeWeightCredit {
                    properties.weight_credit = Weight {
                        ref_time: credit.ref_time - max_weight.ref_time,
                        proof_size: credit.proof_size - max_weight.proof_size,
                    };
                }
                return Ok(rule);
            }
            i = i + 1;
        }
        Err(AdmissionError::NotAllowed)
    }
}

pub open spec fn standard_allow_rules() -> Seq<AllowRule> {
    seq![
        AllowRule::TakeWeightCredit,
        AllowRule::TopLevelPaidExecution,
        AllowRule::KnownQueryResponses,
        AllowRule::Subscriptions,
    ]
}

/// A message that matches a deny rule is denied, whatever the allow rules
/// would say of it, and its weight credit is left as it was.
pub proof fn lemma_deny_has_priority(
    deny: Seq<DenyRule>,
    allow: Seq<AllowRule>,
    c: AdmissionContext,
    i: int,
)
    requires
        0 <= i < deny.len(),
        deny_matches(deny[i], c.instructions),
    ensures
        admission(deny, allow, c) == Err::<AllowRule, AdmissionError>(AdmissionError::Denied),
        credit_after(admission(deny, allow, c), c) == c.weight_credit,
{
}

/// Under this chain's barrier, a message with no weight credit that pays for
/// its own non-zero weight is admitted by top-level paid execution, and no
/// credit is consumed.
pub proof fn lemma_paid_execution_without_credit(c: AdmissionContext)
    requires
        c.weight_credit == (Weight { ref_time: 0, proof_size: 0 }),
        c.max_weight.ref_time > 0 || c.max_weight.proof_size > 0,
        paid_execution(c.instructions, c.max_weight),
        !denied(seq![DenyRule::ReserveTransferToParent], c.instructions),
    ensures
        admission(seq![DenyRule::ReserveTransferToParent], standard_allow_rules(), c)
            == Ok::<AllowRule, AdmissionError>(AllowRule::TopLevelPaidExecution),
        credit_after(
            admission(seq![DenyRule::ReserveTransferToParent], standard_allow_rules(), c),
            c,
        ) == c.weight_credit,
{
    let allow = standard_allow_rules();
    assert(!allow_matches(allow[0], c));
    assert(allow_matches(allow[1], c));
    assert(first_allowed_from(allow, 1, c) == Ok::<AllowRule, AdmissionError>(AllowRule::TopLevelPaidExecution));
}

} // verus!
