//! The operations of the contract, as functions of the configuration, the
//! ledger, the time and the request.

use crate::abi::{
    address_in, argument_views, call_encoding, encodable, encode_call, well_typed, word_count,
    Address, Argument, ArgumentView, RemoteFunction,
};
use crate::error::ContractError;
use crate::gate::{
    eligible, law_nothing_selected_iff_all_held, lemma_selected_len, retry_gate, selected, stamped,
};
use crate::ledger::{DepositKey, Ledger};
use crate::msg::{
    Deposit, ExecuteMsg, GetJobIdResponse, InstantiateMsg, Metadata, MetadataView, PalomaMsg,
    PalomaMsgView, QueryMsg,
};
use crate::response::{Response, ResponseView};
use crate::state::{State, StateView};
use crate::time::Timestamp;
use crate::uint256::Uint256;
use vstd::prelude::*;

verus! {

/// The most deposits that one batch may hold: with more, the encoded call
/// would pass the size that the encoder can count.
pub const MAX_BATCH: usize = 44_739_240;

/// The answer that hands one encoded call of `function` to the scheduled
/// job: one instruction, and the function's name as the action.
pub open spec fn dispatched(state: StateView, function: RemoteFunction, payload: Seq<u8>)
    -> ResponseView {
    ResponseView {
        messages: seq![
            PalomaMsgView { job_id: state.job_id, payload: payload, metadata: state.metadata },
        ],
        attributes: seq![("action"@, function.spec_name())],
    }
}

/// Wraps an encoded call of `function` into the answer that dispatches it.
pub fn dispatch(state: &State, function: RemoteFunction, payload: Vec<u8>) -> (response: Response)
    ensures
        response@ == dispatched(state@, function, payload@),
{
    let msg = PalomaMsg {
        job_id: state.job_id.clone(),
        payload: payload,
        metadata: state.metadata.clone(),
    };
    let response = Response::new().add_message(msg).add_attribute("action", function.name());
    assert(response@.messages =~= dispatched(state@, function, payload@).messages);
    assert(response@.attributes =~= dispatched(state@, function, payload@).attributes);
    response
}

/// Encodes a call of `function` and wraps it into the answer that dispatches
/// it.
pub fn call_remote(state: &State, function: RemoteFunction, args: &Vec<Argument>) -> (response:
    Response)
    requires
        well_typed(function.spec_inputs(), argument_views(args@)),
        encodable(argument_views(args@)),
    ensures
        response@ == dispatched(state@, function, call_encoding(function, argument_views(args@))),
{
    let payload = encode_call(function, args).unwrap();
    dispatch(state, function, payload)
}

/// The ids of the deposits, as 256-bit numbers.
pub open spec fn ids_of(deposits: Seq<Deposit>) -> Seq<nat> {
    deposits.map_values(|d: Deposit| d.deposit_id as nat)
}

/// The remaining counts of the deposits, as 256-bit numbers.
pub open spec fn remaining_counts_of(deposits: Seq<Deposit>) -> Seq<nat> {
    deposits.map_values(|d: Deposit| d.remaining_count as nat)
}

/// The least amounts out of the deposits.
pub open spec fn min_amounts_of(deposits: Seq<Deposit>) -> Seq<nat> {
    deposits.map_values(|d: Deposit| d.amount_out_min@)
}

/// The arguments of the remote swap for the given deposits: three arrays of
/// equal length, with the ids, the remaining counts and the least amounts.
pub open spec fn swap_arguments(deposits: Seq<Deposit>) -> Seq<ArgumentView> {
    seq![
        ArgumentView::UintArray(ids_of(deposits)),
        ArgumentView::UintArray(remaining_counts_of(deposits)),
        ArgumentView::UintArray(min_amounts_of(deposits)),
    ]
}

/// Builds the arguments of the remote swap for the given deposits.
pub fn swap_args(deposits: &Vec<Deposit>) -> (args: Vec<Argument>)
    ensures
        argument_views(args@) == swap_arguments(deposits@),
{
    let mut ids: Vec<Uint256> = Vec::new();
    let mut counts: Vec<Uint256> = Vec::new();
    let mut amounts: Vec<Uint256> = Vec::new();
    let mut i: usize = 0;
    while i < deposits.len()
        invariant
            i <= deposits.len(),
            ids.len() == i,
            counts.len() == i,
            amounts.len() == i,
            forall|j: int| 0 <= j < i ==> (#[trigger] ids[j])@ == deposits[j].deposit_id,
            forall|j: int| 0 <= j < i ==> (#[trigger] counts[j])@ == deposits[j].remaining_count,
            forall|j: int| 0 <= j < i ==> #[trigger] amounts[j] == deposits[j].amount_out_min,
        decreases deposits.len() - i,
    {
        let deposit = deposits[i];
        ids.push(Uint256::from_u32(deposit.deposit_id));
        counts.push(Uint256::from_u32(deposit.remaining_count));
        amounts.push(deposit.amount_out_min);
        i += 1;
    }
    assert(ids@.map_values(|n: Uint256| n@) =~= ids_of(deposits@));
    assert(counts@.map_values(|n: Uint256| n@) =~= remaining_counts_of(deposits@));
    assert(amounts@.map_values(|n: Uint256| n@) =~= min_amounts_of(deposits@));
    let args = vec![
        Argument::UintArray(ids),
        Argument::UintArray(counts),
        Argument::UintArray(amounts),
    ];
    assert(argument_views(args@) =~= swap_arguments(deposits@));
    args
}

/// The arguments of a swap of `n` deposits take `6 + 3 * n` words, so they
/// can be encoded exactly when `n` is at most `MAX_BATCH`.
pub proof fn lemma_swap_arguments_words(deposits: Seq<Deposit>)
    ensures
        word_count(swap_arguments(deposits)) == 6 + 3 * deposits.len(),
        encodable(swap_arguments(deposits)) <==> deposits.len() <= MAX_BATCH,
{
    let args = swap_arguments(deposits);
    reveal_with_fuel(word_count, 4);
    assert(args.drop_last().len() == 2);
    assert(args.drop_last().drop_last().len() == 1);
    assert(args.drop_last().drop_last().drop_last().len() == 0);
}

/// What a swap answers, given the deposits that may be dispatched: the
/// dispatch of one remote swap over them, or `AllPending` where there are
/// none.
pub open spec fn swap_outcome(state: StateView, passed: Seq<Deposit>) -> Result<
    ResponseView,
    ContractError,
> {
    if passed.len() == 0 {
        Err(ContractError::AllPending {  })
    } else {
        Ok(
            dispatched(
                state,
                RemoteFunction::MultipleSwap,
                call_encoding(RemoteFunction::MultipleSwap, swap_arguments(passed)),
            ),
        )
    }
}

/// The view of an answer or the error in its place.
pub open spec fn outcome_view(result: Result<Response, ContractError>) -> Result<
    ResponseView,
    ContractError,
> {
    match result {
        Ok(response) => Ok(response@),
        Err(error) => Err(error),
    }
}

/// Puts a batch of deposits through the retry rule and dispatches one remote
/// swap over those that may go. Every key of the batch is stamped with `now`,
/// whatever the answer.
pub fn swap(state: &State, ledger: &mut Ledger, now: Timestamp, deposits: Vec<Deposit>) -> (result:
    Result<Response, ContractError>)
    requires
        deposits.len() <= MAX_BATCH,
    ensures
        final(ledger)@ == stamped(old(ledger)@, deposits@, now),
        outcome_view(result) == swap_outcome(
            state@,
            selected(old(ledger)@, deposits@, now, state.retry_delay),
        ),
{
    let passed = retry_gate(ledger, &deposits, now, state.retry_delay);
    if passed.len() == 0 {
        return Err(ContractError::AllPending {  });
    }
    let args = swap_args(&passed);
    proof {
        lemma_selected_len(old(ledger)@, deposits@, now, state.retry_delay);
        lemma_swap_arguments_words(passed@);
    }
    Ok(call_remote(state, RemoteFunction::MultipleSwap, &args))
}

/// Whether `sender` is the owner of the configuration.
pub open spec fn is_owner(state: StateView, sender: Seq<char>) -> bool {
    sender == state.owner
}

/// Admits the owner and nobody else.
pub fn authorize(state: &State, sender: &String) -> (result: Result<(), ContractError>)
    ensures
        result == (if is_owner(state@, sender@) {
            Ok(())
        } else {
            Err(ContractError::Unauthorized {  })
        }),
{
    if state.owner == *sender {
        Ok(())
    } else {
        Err(ContractError::Unauthorized {  })
    }
}

/// What an operation of the owner answers that dispatches one remote call
/// with the given arguments.
pub open spec fn admin_outcome(
    state: StateView,
    sender: Seq<char>,
    function: RemoteFunction,
    args: Seq<ArgumentView>,
) -> Result<ResponseView, ContractError> {
    if is_owner(state, sender) {
        Ok(dispatched(state, function, call_encoding(function, args)))
    } else {
        Err(ContractError::Unauthorized {  })
    }
}

/// What an operation of the owner answers that hands an address, given as
/// text, to a remote function.
pub open spec fn address_outcome(
    state: StateView,
    sender: Seq<char>,
    function: RemoteFunction,
    text: Seq<char>,
) -> Result<ResponseView, ContractError> {
    if !is_owner(state, sender) {
        Err(ContractError::Unauthorized {  })
    } else {
        match address_in(text) {
            Some(bytes) => Ok(
                dispatched(
                    state,
                    function,
                    call_encoding(function, seq![ArgumentView::Address(bytes)]),
                ),
            ),
            None => Err(ContractError::ValidationError {  }),
        }
    }
}

/// A list of one argument that takes one word can be encoded.
proof fn lemma_single_word_encodable(arg: ArgumentView)
    requires
        !(arg is UintArray),
    ensures
        encodable(seq![arg]),
{
    reveal_with_fuel(word_count, 2);
    assert(seq![arg].drop_last().len() == 0);
}

/// Dispatches the remote call that takes no argument. Only the owner may.
pub fn set_paloma(state: &State, sender: &String) -> (result: Result<Response, ContractError>)
    ensures
        outcome_view(result) == admin_outcome(
            state@,
            sender@,
            RemoteFunction::SetPaloma,
            seq![],
        ),
{
    authorize(state, sender)?;
    let args: Vec<Argument> = Vec::new();
    assert(argument_views(args@) =~= seq![]);
    Ok(call_remote(state, RemoteFunction::SetPaloma, &args))
}

/// Dispatches a remote call of `function`, which takes one address, with the
/// address that `text` denotes.
fn send_address(state: &State, sender: &String, function: RemoteFunction, text: &str) -> (result:
    Result<Response, ContractError>)
    requires
        function == RemoteFunction::UpdateCompass || function == RemoteFunction::UpdateRefundWallet,
    ensures
        outcome_view(result) == address_outcome(state@, sender@, function, text@),
{
    authorize(state, sender)?;
    match Address::parse(text) {
        Some(address) => {
            let args = vec![Argument::Address(address)];
            proof {
                assert(argument_views(args@) =~= seq![ArgumentView::Address(address@)]);
                lemma_single_word_encodable(ArgumentView::Address(address@));
            }
            Ok(call_remote(state, function, &args))
        },
        None => Err(ContractError::ValidationError {  }),
    }
}

/// Dispatches the remote call that sets the compass address. Only the owner
/// may, and `new_compass` must denote an address.
pub fn update_compass(state: &State, sender: &String, new_compass: String) -> (result: Result<
    Response,
    ContractError,
>)
    ensures
        outcome_view(result) == address_outcome(
            state@,
            sender@,
            RemoteFunction::UpdateCompass,
            new_compass@,
        ),
{
    send_address(state, sender, RemoteFunction::UpdateCompass, new_compass.as_str())
}

/// Dispatches the remote call that sets the refund wallet. Only the owner
/// may, and `new_refund_wallet` must denote an address.
pub fn update_refund_wallet(state: &State, sender: &String, new_refund_wallet: String) -> (result:
    Result<Response, ContractError>)
    ensures
        outcome_view(result) == address_outcome(
            state@,
            sender@,
            RemoteFunction::UpdateRefundWallet,
            new_refund_wallet@,
        ),
{
    send_address(state, sender, RemoteFunction::UpdateRefundWallet, new_refund_wallet.as_str())
}

/// Dispatches the remote call that sets the fee. Only the owner may.
pub fn update_fee(state: &State, sender: &String, fee: Uint256) -> (result: Result<
    Response,
    ContractError,
>)
    ensures
        outcome_view(result) == admin_outcome(
            state@,
            sender@,
            RemoteFunction::UpdateFee,
            seq![ArgumentView::Uint(fee@)],
        ),
{
    authorize(state, sender)?;
    let args = vec![Argument::Uint(fee)];
    proof {
        assert(argument_views(args@) =~= seq![ArgumentView::Uint(fee@)]);
        lemma_single_word_encodable(ArgumentView::Uint(fee@));
    }
    Ok(call_remote(state, RemoteFunction::UpdateFee, &args))
}

/// The configuration after a request to replace the job id: replaced where
/// the owner asks, unchanged otherwise.
pub open spec fn job_id_updated(state: StateView, sender: Seq<char>, new_job_id: Seq<char>)
    -> StateView {
    if is_owner(state, sender) {
        StateView { job_id: new_job_id, ..state }
    } else {
        state
    }
}

/// What a request to replace the job id answers: nothing to send and
/// nothing to log, for the owner.
pub open spec fn job_id_outcome(state: StateView, sender: Seq<char>) -> Result<
    ResponseView,
    ContractError,
> {
    if is_owner(state, sender) {
        Ok(ResponseView { messages: seq![], attributes: seq![] })
    } else {
        Err(ContractError::Unauthorized {  })
    }
}

/// Replaces the job id. Only the owner may; nothing else changes.
pub fn update_job_id(state: &mut State, sender: &String, new_job_id: String) -> (result: Result<
    Response,
    ContractError,
>)
    ensures
        final(state)@ == job_id_updated(old(state)@, sender@, new_job_id@),
        outcome_view(result) == job_id_outcome(old(state)@, sender@),
{
    authorize(state, sender)?;
    state.job_id = new_job_id;
    Ok(Response::new())
}

/// The configuration that a contract starts with: the sender owns it.
pub open spec fn initial_state(sender: Seq<char>, msg: InstantiateMsg) -> StateView {
    StateView {
        job_id: msg.job_id@,
        owner: sender,
        retry_delay: msg.retry_delay,
        metadata: MetadataView { creator: msg.creator@, signers: msg.signers.deep_view() },
    }
}

/// What the creation of a contract answers.
pub open spec fn instantiated(sender: Seq<char>, msg: InstantiateMsg) -> ResponseView {
    ResponseView {
        messages: seq![],
        attributes: seq![
            ("method"@, "instantiate"@),
            ("owner"@, sender),
            ("job_id"@, msg.job_id@),
        ],
    }
}

/// Creates the configuration of a new contract, owned by `sender`.
pub fn instantiate(sender: &String, msg: InstantiateMsg) -> (created: (State, Response))
    ensures
        created.0@ == initial_state(sender@, msg),
        created.1@ == instantiated(sender@, msg),
{
    let response = Response::new().add_attribute("method", "instantiate").add_attribute(
        "owner",
        sender.as_str(),
    ).add_attribute("job_id", msg.job_id.as_str());
    assert(response@.attributes =~= instantiated(sender@, msg).attributes);
    let state = State {
        job_id: msg.job_id,
        owner: sender.clone(),
        retry_delay: msg.retry_delay,
        metadata: Metadata { creator: msg.creator, signers: msg.signers },
    };
    (state, response)
}

/// The job id of the configuration.
pub fn get_job_id(state: &State) -> (response: GetJobIdResponse)
    ensures
        response.job_id@ == state.job_id@,
{
    GetJobIdResponse { job_id: state.job_id.clone() }
}

/// Answers a read-only request.
pub fn query(state: &State, msg: QueryMsg) -> (response: GetJobIdResponse)
    ensures
        response.job_id@ == state.job_id@,
{
    match msg {
        QueryMsg::GetJobId {  } => get_job_id(state),
    }
}

/// What an operation answers.
pub open spec fn execute_outcome(
    state: StateView,
    ledger: Map<DepositKey, Timestamp>,
    now: Timestamp,
    sender: Seq<char>,
    msg: ExecuteMsg,
) -> Result<ResponseView, ContractError> {
    match msg {
        ExecuteMsg::PutSwap { deposits } => swap_outcome(
            state,
            selected(ledger, deposits@, now, state.retry_delay),
        ),
        ExecuteMsg::SetPaloma {  } => admin_outcome(
            state,
            sender,
            RemoteFunction::SetPaloma,
            seq![],
        ),
        ExecuteMsg::UpdateCompass { new_compass } => address_outcome(
            state,
            sender,
            RemoteFunction::UpdateCompass,
            new_compass@,
        ),
        ExecuteMsg::UpdateRefundWallet { new_refund_wallet } => address_outcome(
            state,
            sender,
            RemoteFunction::UpdateRefundWallet,
            new_refund_wallet@,
        ),
        ExecuteMsg::UpdateFee { fee } => admin_outcome(
            state,
            sender,
            RemoteFunction::UpdateFee,
            seq![ArgumentView::Uint(fee@)],
        ),
        ExecuteMsg::UpdateJobId { new_job_id } => job_id_outcome(state, sender),
    }
}

/// The configuration after an operation: only a new job id changes it.
pub open spec fn state_after(state: StateView, sender: Seq<char>, msg: ExecuteMsg) -> StateView {
    match msg {
        ExecuteMsg::UpdateJobId { new_job_id } => job_id_updated(state, sender, new_job_id@),
        _ => state,
    }
}

/// The ledger after an operation: only a swap changes it.
pub open spec fn ledger_after(ledger: Map<DepositKey, Timestamp>, now: Timestamp, msg: ExecuteMsg)
    -> Map<DepositKey, Timestamp> {
    match msg {
        ExecuteMsg::PutSwap { deposits } => stamped(ledger, deposits@, now),
        _ => ledger,
    }
}

/// Whether a request can be carried out: a batch has a greatest size.
pub open spec fn admissible(msg: ExecuteMsg) -> bool {
    msg matches ExecuteMsg::PutSwap { deposits } ==> deposits.len() <= MAX_BATCH
}

/// Carries out one operation for `sender` at time `now`.
pub fn execute(
    state: &mut State,
    ledger: &mut Ledger,
    now: Timestamp,
    sender: &String,
    msg: ExecuteMsg,
) -> (result: Result<Response, ContractError>)
    requires
        admissible(msg),
    ensures
        outcome_view(result) == execute_outcome(old(state)@, old(ledger)@, now, sender@, msg),
        final(state)@ == state_after(old(state)@, sender@, msg),
        final(ledger)@ == ledger_after(old(ledger)@, now, msg),
{
    match msg {
        ExecuteMsg::PutSwap { deposits } => swap(state, ledger, now, deposits),
        ExecuteMsg::SetPaloma {  } => set_paloma(state, sender),
        ExecuteMsg::UpdateCompass { new_compass } => update_compass(state, sender, new_compass),
        ExecuteMsg::UpdateRefundWallet { new_refund_wallet } => update_refund_wallet(
            state,
            sender,
            new_refund_wallet,
        ),
        ExecuteMsg::UpdateFee { fee } => update_fee(state, sender, fee),
        ExecuteMsg::UpdateJobId { new_job_id } => update_job_id(state, sender, new_job_id),
    }
}

/// A batch of which no key is eligible is answered with `AllPending`:
/// nothing is dispatched.
pub proof fn law_all_held_is_all_pending(
    state: StateView,
    ledger: Map<DepositKey, Timestamp>,
    deposits: Seq<Deposit>,
    now: Timestamp,
)
    requires
        forall|i: int|
            0 <= i < deposits.len() ==> !eligible(
                ledger,
                #[trigger] deposits[i].key(),
                now,
                state.retry_delay,
            ),
    ensures
        swap_outcome(state, selected(ledger, deposits, now, state.retry_delay)) == Err::<
            ResponseView,
            ContractError,
        >(ContractError::AllPending {  }),
{
    law_nothing_selected_iff_all_held(ledger, deposits, now, state.retry_delay);
}

/// A swap that succeeds dispatches exactly one instruction.
pub proof fn law_swap_dispatches_once(state: StateView, passed: Seq<Deposit>)
    ensures
        swap_outcome(state, passed) matches Ok(response) ==> response.messages.len() == 1,
{
}

/// Whoever is not the owner is refused every operation but the swap, and
/// neither the configuration nor the ledger changes.
pub proof fn law_non_owner_is_refused(
    state: StateView,
    ledger: Map<DepositKey, Timestamp>,
    now: Timestamp,
    sender: Seq<char>,
    msg: ExecuteMsg,
)
    requires
        !is_owner(state, sender),
        !(msg is PutSwap),
    ensures
        execute_outcome(state, ledger, now, sender, msg) == Err::<ResponseView, ContractError>(
            ContractError::Unauthorized {  },
        ),
        state_after(state, sender, msg) == state,
        ledger_after(ledger, now, msg) == ledger,
{
}

/// No operation changes the owner, the retry delay or the metadata.
pub proof fn law_only_job_id_changes(state: StateView, sender: Seq<char>, msg: ExecuteMsg)
    ensures
        state_after(state, sender, msg).owner == state.owner,
        state_after(state, sender, msg).retry_delay == state.retry_delay,
        state_after(state, sender, msg).metadata == state.metadata,
{
}

} // verus!
