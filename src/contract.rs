use vstd::prelude::*;

use crate::error::ContractError;
use crate::ledger::{amount_of, Contributions};
use crate::msg::{
    Coin, ExecuteMsg, GetContributionResponse, GetProjectInfoResponse, InstantiateMsg,
    MessageInfo, QueryMsg, QueryResponse, ReceiveMsg, Response, Transfer,
};
use crate::state::{credited, has_failed, status_at, ProjectInfo, State, Status, TokenConfig};

verus! {

/// The amount of the first attached coin of denomination `denom`, if any.
pub open spec fn pledged_amount(funds: Seq<Coin>, denom: Seq<char>) -> Option<u128>
    decreases funds.len(),
{
    if funds.len() == 0 {
        None
    } else if funds[0].denom@ == denom {
        Some(funds[0].amount)
    } else {
        pledged_amount(funds.drop_first(), denom)
    }
}

/// Guards shared by both kinds of pledge, in the order they are checked:
/// the organizer may not pledge, a failed project takes no pledges, and
/// pledges close at the deadline.
pub open spec fn pledge_guard(p: ProjectInfo, contributor: Seq<char>, now: u64) -> Option<
    ContractError,
> {
    if contributor == p.project_owner@ {
        Some(ContractError::OwnerCannotContribute)
    } else if p.status == Status::Failed {
        Some(ContractError::ProjectNotOngoing)
    } else if p.end_time <= now {
        Some(ContractError::DeadlineExceeded)
    } else {
        None
    }
}

/// Result of a native pledge: the amount credited to the caller, or the
/// first failed precondition.
pub open spec fn contribute_outcome(s: State, info: MessageInfo, now: u64) -> Result<
    u128,
    ContractError,
> {
    match s.config {
        TokenConfig::CW20 { .. } => Err(ContractError::WrongTokenKind),
        TokenConfig::Native { denom } => match pledge_guard(s.project, info.sender@, now) {
            Some(e) => Err(e),
            None => match pledged_amount(info.funds@, denom@) {
                Some(a) => Ok(a),
                None => Err(ContractError::DenomNotSent),
            },
        },
    }
}

/// Result of a token notification: the amount credited to the account on
/// whose behalf the token notifies, or the first failed precondition.
pub open spec fn receive_outcome(s: State, info: MessageInfo, wrapped: ReceiveMsg, now: u64) -> Result<
    u128,
    ContractError,
> {
    match s.config {
        TokenConfig::Native { .. } => Err(ContractError::WrongTokenKind),
        TokenConfig::CW20 { addr } => match pledge_guard(s.project, wrapped.sender@, now) {
            Some(e) => Err(e),
            None => if info.sender@ != addr@ {
                Err(ContractError::WrongTokenSender)
            } else {
                Ok(wrapped.amount)
            },
        },
    }
}

/// Where a pledge would be accepted, the new total fits in 128 bits.
pub open spec fn pledge_fits(s: State, outcome: Result<u128, ContractError>) -> bool {
    outcome is Ok ==> s.project.current_amount + outcome->Ok_0 <= u128::MAX
}

/// A pledge of `outcome` by `contributor` took `pre` to `post` with response
/// `r`: on acceptance the project is credited, the contributor's entry
/// grows by the amount and the pledge is reported; on rejection nothing
/// changes.
pub open spec fn pledge_post(
    pre: State,
    post: State,
    contributor: String,
    outcome: Result<u128, ContractError>,
    r: Result<Response, ContractError>,
) -> bool {
    &&& post.wf()
    &&& match outcome {
        Err(e) => r == Err::<Response, ContractError>(e) && post == pre,
        Ok(a) => {
            &&& r == Ok::<Response, ContractError>(
                Response::Contributed { contributor, token: pre.config, amount: a },
            )
            &&& post.config == pre.config
            &&& post.project == credited(pre.project, a)
            &&& post.contributions@ == pre.contributions@.insert(
                contributor@,
                (amount_of(pre.contributions@, contributor@) + a) as u128,
            )
            &&& post.contributions.total() == pre.contributions.total() + a
        },
    }
}

/// Result of a withdrawal: the whole total goes to the organizer.
pub open spec fn withdraw_outcome(s: State, info: MessageInfo, now: u64) -> Result<
    Response,
    ContractError,
> {
    if info.sender@ != s.project.project_owner@ {
        Err(ContractError::NotProjectOwner)
    } else if now < s.project.end_time {
        Err(ContractError::ProjectNotEnded)
    } else if s.project.status != Status::Succeeded {
        Err(ContractError::ProjectNotSucceeded)
    } else {
        Ok(
            Response::Payout(
                Transfer {
                    token: s.config,
                    recipient: s.project.project_owner,
                    amount: s.project.current_amount,
                },
            ),
        )
    }
}

/// A refund took `pre` to `post` with response `r`: it is owed after the
/// deadline of a failed project to a caller with a ledger entry, stores
/// `Failed`, removes that entry and pays out exactly its amount.
pub open spec fn refund_post(
    pre: State,
    post: State,
    info: MessageInfo,
    now: u64,
    r: Result<Response, ContractError>,
) -> bool {
    &&& post.wf()
    &&& if now < pre.project.end_time {
        r == Err::<Response, ContractError>(ContractError::ProjectNotEnded) && post == pre
    } else if !has_failed(pre.project, now) {
        r == Err::<Response, ContractError>(ContractError::ProjectNotFailed) && post == pre
    } else if !pre.contributions@.contains_key(info.sender@) {
        r == Err::<Response, ContractError>(ContractError::NoContribution) && post == pre
    } else {
        &&& r == Ok::<Response, ContractError>(
            Response::Payout(
                Transfer {
                    token: pre.config,
                    recipient: info.sender,
                    amount: pre.contributions@[info.sender@],
                },
            ),
        )
        &&& post.config == pre.config
        &&& post.project == (ProjectInfo { status: Status::Failed, ..pre.project })
        &&& post.contributions@ == pre.contributions@.remove(info.sender@)
        &&& post.contributions.total() == pre.contributions.total()
            - pre.contributions@[info.sender@]
    }
}

/// Creates the project: the caller is its organizer, nothing is pledged yet.
pub fn instantiate(sender: String, msg: InstantiateMsg) -> (r: State)
    ensures
        r.wf(),
        r.config == msg.token,
        r.project == (ProjectInfo {
            title: msg.title,
            description: msg.description,
            project_owner: sender,
            target_amount: msg.target_amount,
            end_time: msg.end_time,
            current_amount: 0,
            status: Status::Ongoing,
        }),
        r.contributions@ == Map::<Seq<char>, u128>::empty(),
{
    let project = ProjectInfo {
        title: msg.title,
        description: msg.description,
        project_owner: sender,
        target_amount: msg.target_amount,
        end_time: msg.end_time,
        current_amount: 0,
        status: Status::Ongoing,
    };
    State { config: msg.token, project, contributions: Contributions::new() }
}

/// Checks the guards shared by both kinds of pledge.
fn check_pledge(p: &ProjectInfo, contributor: &String, now: u64) -> (r: Option<ContractError>)
    ensures
        r == pledge_guard(*p, contributor@, now),
{
    if *contributor == p.project_owner {
        Some(ContractError::OwnerCannotContribute)
    } else if p.status == Status::Failed {
        Some(ContractError::ProjectNotOngoing)
    } else if p.end_time <= now {
        Some(ContractError::DeadlineExceeded)
    } else {
        None
    }
}

/// Finds the first attached coin of denomination `denom`.
fn find_pledge(funds: &Vec<Coin>, denom: &String) -> (r: Option<u128>)
    ensures
        r == pledged_amount(funds@, denom@),
{
    let mut i: usize = 0;
    assert(funds@.subrange(0, funds@.len() as int) =~= funds@);
    while i < funds.len()
        invariant
            i <= funds@.len(),
            pledged_amount(funds@, denom@) == pledged_amount(funds@.subrange(i as int, funds@.len() as int), denom@),
        decreases funds@.len() - i,
    {
        let ghost rest = funds@.subrange(i as int, funds@.len() as int);
        assert(rest.drop_first() =~= funds@.subrange(i + 1, funds@.len() as int));
        if funds[i].denom == *denom {
            return Some(funds[i].amount);
        }
        i = i + 1;
    }
    None
}

/// Credits an accepted pledge to the project and to the contributor's entry.
fn credit(state: &mut State, contributor: &String, amount: u128)
    requires
        old(state).wf(),
        old(state).project.status != Status::Failed,
        old(state).project.current_amount + amount <= u128::MAX,
    ensures
        final(state).wf(),
        final(state).config == old(state).config,
        final(state).project == credited(old(state).project, amount),
        final(state).contributions@ == old(state).contributions@.insert(
            contributor@,
            (amount_of(old(state).contributions@, contributor@) + amount) as u128,
        ),
        final(state).contributions.total() == old(state).contributions.total() + amount,
{
    let total = state.project.current_amount + amount;
    state.project.current_amount = total;
    if state.project.target_amount <= total && state.project.status != Status::Succeeded {
        state.project.status = Status::Succeeded;
    }
    state.contributions.add(contributor, amount);
    assert forall|k: Seq<char>| #[trigger]
        state.contributions@.contains_key(k) implies state.contributions@[k]
        <= state.project.current_amount by {
        if k != contributor@ {
            assert(old(state).contributions@.contains_key(k));
        }
    }
}

/// Pledge of native funds attached to the call.
pub fn try_contribute(state: &mut State, info: &MessageInfo, now: u64) -> (r: Result<
    Response,
    ContractError,
>)
    requires
        old(state).wf(),
        pledge_fits(*old(state), contribute_outcome(*old(state), *info, now)),
    ensures
        pledge_post(*old(state), *final(state), info.sender, contribute_outcome(*old(state), *info, now), r),
{
    let denom = match &state.config {
        TokenConfig::Native { denom } => denom,
        TokenConfig::CW20 { .. } => {
            return Err(ContractError::WrongTokenKind);
        },
    };
    if let Some(e) = check_pledge(&state.project, &info.sender, now) {
        return Err(e);
    }
    let amount = match find_pledge(&info.funds, denom) {
        Some(a) => a,
        None => {
            return Err(ContractError::DenomNotSent);
        },
    };
    let token = state.config.duplicate();
    credit(state, &info.sender, amount);
    Ok(Response::Contributed { contributor: info.sender.clone(), token, amount })
}

/// Pledge of a delegated token: `info.sender` is the token account that
/// notifies, `wrapped.sender` the contributor who is credited.
pub fn try_recieve_and_contribute(
    state: &mut State,
    info: &MessageInfo,
    wrapped: &ReceiveMsg,
    now: u64,
) -> (r: Result<Response, ContractError>)
    requires
        old(state).wf(),
        pledge_fits(*old(state), receive_outcome(*old(state), *info, *wrapped, now)),
    ensures
        pledge_post(
            *old(state),
            *final(state),
            wrapped.sender,
            receive_outcome(*old(state), *info, *wrapped, now),
            r,
        ),
{
    let addr = match &state.config {
        TokenConfig::Native { .. } => {
            return Err(ContractError::WrongTokenKind);
        },
        TokenConfig::CW20 { addr } => addr,
    };
    if let Some(e) = check_pledge(&state.project, &wrapped.sender, now) {
        return Err(e);
    }
    if info.sender != *addr {
        return Err(ContractError::WrongTokenSender);
    }
    let token = state.config.duplicate();
    credit(state, &wrapped.sender, wrapped.amount);
    Ok(Response::Contributed { contributor: wrapped.sender.clone(), token, amount: wrapped.amount })
}

/// The organizer collects the whole total of a succeeded project after the
/// deadline. The state is left as it is.
pub fn try_withdraw(state: &State, info: &MessageInfo, now: u64) -> (r: Result<
    Response,
    ContractError,
>)
    ensures
        r == withdraw_outcome(*state, *info, now),
        r is Ok <==> (info.sender@ == state.project.project_owner@ && state.project.end_time <= now
            && state.project.status == Status::Succeeded),
        r is Ok ==> r->Ok_0 == Response::Payout(
            Transfer {
                token: state.config,
                recipient: state.project.project_owner,
                amount: state.project.current_amount,
            },
        ),
{
    if info.sender != state.project.project_owner {
        return Err(ContractError::NotProjectOwner);
    }
    if now < state.project.end_time {
        return Err(ContractError::ProjectNotEnded);
    }
    if state.project.status != Status::Succeeded {
        return Err(ContractError::ProjectNotSucceeded);
    }
    Ok(
        Response::Payout(
            Transfer {
                token: state.config.duplicate(),
                recipient: state.project.project_owner.clone(),
                amount: state.project.current_amount,
            },
        ),
    )
}

/// A contributor takes back their whole pledge from a project that failed.
pub fn try_refund(state: &mut State, info: &MessageInfo, now: u64) -> (r: Result<
    Response,
    ContractError,
>)
    requires
        old(state).wf(),
    ensures
        refund_post(*old(state), *final(state), *info, now, r),
        r is Ok <==> (old(state).project.end_time <= now && has_failed(old(state).project, now)
            && old(state).contributions@.contains_key(info.sender@)),
{
    if now < state.project.end_time {
        return Err(ContractError::ProjectNotEnded);
    }
    if state.project.status_as_of(now) != Status::Failed {
        return Err(ContractError::ProjectNotFailed);
    }
    let amount = match state.contributions.get(&info.sender) {
        Some(a) => a,
        None => {
            return Err(ContractError::NoContribution);
        },
    };
    state.contributions.remove(&info.sender);
    state.project.status = Status::Failed;
    assert forall|k: Seq<char>| #[trigger]
        state.contributions@.contains_key(k) implies state.contributions@[k]
        <= state.project.current_amount by {
        assert(old(state).contributions@.contains_key(k));
    }
    Ok(
        Response::Payout(
            Transfer { token: state.config.duplicate(), recipient: info.sender.clone(), amount },
        ),
    )
}

/// Whether an accepted pledge would keep the total within 128 bits, which
/// `execute` requires of a well-formed state.
pub fn execute_fits(state: &State, now: u64, info: &MessageInfo, msg: &ExecuteMsg) -> (r: bool)
    ensures
        state.wf() ==> r == execute_pre(*state, now, *info, *msg),
{
    let amount = match (msg, &state.config) {
        (ExecuteMsg::Contribute {  }, TokenConfig::Native { denom }) => {
            if check_pledge(&state.project, &info.sender, now).is_some() {
                None
            } else {
                find_pledge(&info.funds, denom)
            }
        },
        (ExecuteMsg::Receive(wrapped), TokenConfig::CW20 { addr }) => {
            if check_pledge(&state.project, &wrapped.sender, now).is_some() || info.sender != *addr {
                None
            } else {
                Some(wrapped.amount)
            }
        },
        _ => None,
    };
    match amount {
        Some(a) => a <= u128::MAX - state.project.current_amount,
        None => true,
    }
}

/// What `execute` requires: the invariant, and room in 128 bits for an
/// accepted pledge.
pub open spec fn execute_pre(s: State, now: u64, info: MessageInfo, msg: ExecuteMsg) -> bool {
    &&& s.wf()
    &&& match msg {
        ExecuteMsg::Contribute {  } => pledge_fits(s, contribute_outcome(s, info, now)),
        ExecuteMsg::Receive(wrapped) => pledge_fits(s, receive_outcome(s, info, wrapped, now)),
        _ => true,
    }
}

/// One operation took `pre` to `post` with response `r`.
pub open spec fn execute_post(
    pre: State,
    post: State,
    now: u64,
    info: MessageInfo,
    msg: ExecuteMsg,
    r: Result<Response, ContractError>,
) -> bool {
    match msg {
        ExecuteMsg::Contribute {  } => pledge_post(
            pre,
            post,
            info.sender,
            contribute_outcome(pre, info, now),
            r,
        ),
        ExecuteMsg::Receive(wrapped) => pledge_post(
            pre,
            post,
            wrapped.sender,
            receive_outcome(pre, info, wrapped, now),
            r,
        ),
        ExecuteMsg::Withdraw {  } => {
            &&& r == withdraw_outcome(pre, info, now)
            &&& post == pre
        },
        ExecuteMsg::Refund {  } => refund_post(pre, post, info, now, r),
    }
}

/// Dispatches an operation to its handler. No operation takes a project
/// back from `Succeeded`, nor back to `Ongoing`.
pub fn execute(state: &mut State, now: u64, info: &MessageInfo, msg: &ExecuteMsg) -> (r: Result<
    Response,
    ContractError,
>)
    requires
        execute_pre(*old(state), now, *info, *msg),
    ensures
        execute_post(*old(state), *final(state), now, *info, *msg, r),
        old(state).project.status == Status::Succeeded ==> final(state).project.status
            == Status::Succeeded,
        old(state).project.status != Status::Ongoing ==> final(state).project.status
            != Status::Ongoing,
{
    match msg {
        ExecuteMsg::Contribute {  } => try_contribute(state, info, now),
        ExecuteMsg::Receive(wrapped) => try_recieve_and_contribute(state, info, wrapped, now),
        ExecuteMsg::Withdraw {  } => try_withdraw(state, info, now),
        ExecuteMsg::Refund {  } => try_refund(state, info, now),
    }
}

/// The snapshot that `query_project_info` returns.
pub open spec fn query_project_info_spec(s: State, now: u64) -> GetProjectInfoResponse {
    GetProjectInfoResponse {
        title: s.project.title,
        description: s.project.description,
        project_owner: s.project.project_owner,
        token: s.config,
        target_amount: s.project.target_amount,
        end_time: s.project.end_time,
        current_amount: s.project.current_amount,
        status: status_at(s.project, now),
    }
}

/// Snapshot of the project; where the deadline passed with the target unmet
/// it reports `Failed`, without storing it.
pub fn query_project_info(state: &State, now: u64) -> (r: GetProjectInfoResponse)
    ensures
        r == query_project_info_spec(*state, now),
{
    GetProjectInfoResponse {
        title: state.project.title.clone(),
        description: state.project.description.clone(),
        project_owner: state.project.project_owner.clone(),
        token: state.config.duplicate(),
        target_amount: state.project.target_amount,
        end_time: state.project.end_time,
        current_amount: state.project.current_amount,
        status: state.project.status_as_of(now),
    }
}

/// The asset and the amount pledged by `address`, zero where it has no entry.
pub fn query_contribution(state: &State, address: &String) -> (r: GetContributionResponse)
    requires
        state.wf(),
    ensures
        r == (GetContributionResponse {
            token: state.config,
            amount: amount_of(state.contributions@, address@),
        }),
{
    let amount = match state.contributions.get(address) {
        Some(a) => a,
        None => 0,
    };
    GetContributionResponse { token: state.config.duplicate(), amount }
}

/// Answers a read-only query.
pub fn query(state: &State, now: u64, msg: &QueryMsg) -> (r: QueryResponse)
    requires
        state.wf(),
    ensures
        match msg {
            QueryMsg::GetProjectInfo {  } => r == QueryResponse::ProjectInfo(
                query_project_info_spec(*state, now),
            ),
            QueryMsg::GetContribution { address } => r == QueryResponse::Contribution(
                GetContributionResponse {
                    token: state.config,
                    amount: amount_of(state.contributions@, address@),
                },
            ),
        },
{
    match msg {
        QueryMsg::GetProjectInfo {  } => QueryResponse::ProjectInfo(query_project_info(state, now)),
        QueryMsg::GetContribution { address } => QueryResponse::Contribution(
            query_contribution(state, address),
        ),
    }
}

} // verus!
