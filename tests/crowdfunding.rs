use crowd_funding::contract::{
    execute, instantiate, query, query_contribution, query_project_info, try_contribute,
    try_recieve_and_contribute, try_refund, try_withdraw,
};
use crowd_funding::error::{ContractError, ErrorKind};
use crowd_funding::msg::{
    Coin, ExecuteMsg, GetContributionResponse, InstantiateMsg, MessageInfo, QueryMsg,
    QueryResponse, ReceiveMsg, Response, Transfer,
};
use crowd_funding::state::{State, Status, TokenConfig};

const DEADLINE: u64 = 1_000;

fn native() -> TokenConfig {
    TokenConfig::Native { denom: "uatom".to_string() }
}

fn token() -> TokenConfig {
    TokenConfig::CW20 { addr: "token".to_string() }
}

fn project(config: TokenConfig, target: u128) -> State {
    instantiate(
        "owner".to_string(),
        InstantiateMsg {
            title: "Garden".to_string(),
            description: "A community garden".to_string(),
            token: config,
            target_amount: target,
            end_time: DEADLINE,
        },
    )
}

fn coin(denom: &str, amount: u128) -> Coin {
    Coin { denom: denom.to_string(), amount }
}

fn info(sender: &str, funds: Vec<Coin>) -> MessageInfo {
    MessageInfo { sender: sender.to_string(), funds }
}

fn pledge(state: &mut State, sender: &str, amount: u128, now: u64) -> Result<Response, ContractError> {
    try_contribute(state, &info(sender, vec![coin("uatom", amount)]), now)
}

fn notify(state: &mut State, from: &str, sender: &str, amount: u128, now: u64) -> Result<Response, ContractError> {
    let wrapped = ReceiveMsg { sender: sender.to_string(), amount };
    try_recieve_and_contribute(state, &info(from, vec![]), &wrapped, now)
}

fn contribution_of(state: &State, addr: &str) -> u128 {
    query_contribution(state, &addr.to_string()).amount
}

#[test]
fn scenario_two_pledges_reach_target() {
    let mut s = project(native(), 100);
    pledge(&mut s, "alice", 60, 10).unwrap();
    assert_eq!(s.project.status, Status::Ongoing);
    assert_eq!(s.project.current_amount, 60);
    let r = pledge(&mut s, "bob", 40, 20).unwrap();
    assert_eq!(
        r,
        Response::Contributed { contributor: "bob".to_string(), token: native(), amount: 40 }
    );
    assert_eq!(s.project.status, Status::Succeeded);
    assert_eq!(s.project.current_amount, 100);
}

#[test]
fn scenario_refund_of_failed_project() {
    let mut s = project(native(), 100);
    pledge(&mut s, "carol", 30, 10).unwrap();
    assert_eq!(query_project_info(&s, DEADLINE).status, Status::Failed);
    let r = try_refund(&mut s, &info("carol", vec![]), DEADLINE + 5).unwrap();
    assert_eq!(
        r,
        Response::Payout(Transfer { token: native(), recipient: "carol".to_string(), amount: 30 })
    );
    assert_eq!(contribution_of(&s, "carol"), 0);
    assert_eq!(s.contributions.get(&"carol".to_string()), None);
    // the refund stores the failure, and the query agrees with it
    assert_eq!(s.project.status, Status::Failed);
    assert_eq!(s.project.current_amount, 30);
    assert_eq!(query_project_info(&s, DEADLINE + 5).status, Status::Failed);
    let again = try_refund(&mut s, &info("carol", vec![]), DEADLINE + 6);
    assert_eq!(again, Err(ContractError::NoContribution));
    assert_eq!(again.unwrap_err().kind(), ErrorKind::NotFound);
}

#[test]
fn scenario_withdraw_of_succeeded_project() {
    let mut s = project(native(), 100);
    pledge(&mut s, "alice", 70, 10).unwrap();
    pledge(&mut s, "bob", 50, 20).unwrap();
    let expected =
        Response::Payout(Transfer { token: native(), recipient: "owner".to_string(), amount: 120 });
    let r = try_withdraw(&s, &info("owner", vec![]), DEADLINE).unwrap();
    assert_eq!(r, expected);
    // Withdraw leaves the state untouched, so a second call pays out again.
    let r2 = try_withdraw(&s, &info("owner", vec![]), DEADLINE + 1).unwrap();
    assert_eq!(r2, expected);
}

#[test]
fn scenario_wrong_denom_rejected() {
    let mut s = project(native(), 100);
    pledge(&mut s, "alice", 10, 5).unwrap();
    let r = try_contribute(&mut s, &info("bob", vec![coin("uosmo", 50)]), 10);
    assert_eq!(r, Err(ContractError::DenomNotSent));
    assert_eq!(r.unwrap_err().kind(), ErrorKind::WrongAsset);
    assert_eq!(s.project.current_amount, 10);
    assert_eq!(contribution_of(&s, "bob"), 0);
}

#[test]
fn no_funds_attached_rejected() {
    let mut s = project(native(), 100);
    let r = try_contribute(&mut s, &info("bob", vec![]), 10);
    assert_eq!(r, Err(ContractError::DenomNotSent));
    assert_eq!(s.project.current_amount, 0);
}

#[test]
fn first_matching_coin_is_pledged() {
    let mut s = project(native(), 100);
    let funds = vec![coin("uosmo", 7), coin("uatom", 12), coin("uatom", 99)];
    let r = try_contribute(&mut s, &info("bob", funds), 10).unwrap();
    assert_eq!(
        r,
        Response::Contributed { contributor: "bob".to_string(), token: native(), amount: 12 }
    );
    assert_eq!(s.project.current_amount, 12);
    assert_eq!(contribution_of(&s, "bob"), 12);
}

#[test]
fn organizer_cannot_pledge() {
    let mut s = project(native(), 100);
    let r = pledge(&mut s, "owner", 10, 5);
    assert_eq!(r, Err(ContractError::OwnerCannotContribute));
    assert_eq!(r.unwrap_err().kind(), ErrorKind::Unauthorized);
    // also after the deadline, where another guard would fail too
    assert_eq!(pledge(&mut s, "owner", 10, DEADLINE + 1), Err(ContractError::OwnerCannotContribute));
    let mut t = project(token(), 100);
    assert_eq!(notify(&mut t, "token", "owner", 10, 5), Err(ContractError::OwnerCannotContribute));
    assert_eq!(s.project.current_amount, 0);
    assert_eq!(t.project.current_amount, 0);
}

#[test]
fn status_flips_exactly_at_target() {
    let mut s = project(native(), 100);
    pledge(&mut s, "a", 50, 1).unwrap();
    pledge(&mut s, "b", 49, 2).unwrap();
    assert_eq!(s.project.current_amount, 99);
    assert_eq!(s.project.status, Status::Ongoing);
    pledge(&mut s, "c", 1, 3).unwrap();
    assert_eq!(s.project.current_amount, 100);
    assert_eq!(s.project.status, Status::Succeeded);
    pledge(&mut s, "d", 25, 4).unwrap();
    assert_eq!(s.project.current_amount, 125);
    assert_eq!(s.project.status, Status::Succeeded);
}

#[test]
fn pledges_of_one_contributor_accumulate() {
    let mut s = project(native(), 1_000);
    pledge(&mut s, "alice", 5, 1).unwrap();
    pledge(&mut s, "bob", 3, 2).unwrap();
    pledge(&mut s, "alice", 8, 3).unwrap();
    assert_eq!(contribution_of(&s, "alice"), 13);
    assert_eq!(contribution_of(&s, "bob"), 3);
    assert_eq!(contribution_of(&s, "nobody"), 0);
    assert_eq!(s.project.current_amount, 16);
}

#[test]
fn pledge_at_deadline_rejected() {
    let mut s = project(native(), 100);
    let r = pledge(&mut s, "alice", 10, DEADLINE);
    assert_eq!(r, Err(ContractError::DeadlineExceeded));
    assert_eq!(r.unwrap_err().kind(), ErrorKind::NotYetEligible);
    assert!(pledge(&mut s, "alice", 10, DEADLINE - 1).is_ok());
}

#[test]
fn zero_target_succeeds_on_first_pledge() {
    let mut s = project(native(), 0);
    assert_eq!(s.project.status, Status::Ongoing);
    pledge(&mut s, "alice", 0, 1).unwrap();
    assert_eq!(s.project.status, Status::Succeeded);
}

#[test]
fn largest_total_accepted() {
    let mut s = project(native(), u128::MAX);
    pledge(&mut s, "alice", u128::MAX - 1, 1).unwrap();
    assert_eq!(s.project.status, Status::Ongoing);
    pledge(&mut s, "bob", 1, 2).unwrap();
    assert_eq!(s.project.current_amount, u128::MAX);
    assert_eq!(s.project.status, Status::Succeeded);
}

#[test]
fn withdraw_rejections() {
    let mut s = project(native(), 100);
    pledge(&mut s, "alice", 40, 1).unwrap();
    let r = try_withdraw(&s, &info("alice", vec![]), DEADLINE);
    assert_eq!(r, Err(ContractError::NotProjectOwner));
    assert_eq!(r.unwrap_err().kind(), ErrorKind::Unauthorized);
    let r = try_withdraw(&s, &info("owner", vec![]), DEADLINE - 1);
    assert_eq!(r, Err(ContractError::ProjectNotEnded));
    let r = try_withdraw(&s, &info("owner", vec![]), DEADLINE);
    assert_eq!(r, Err(ContractError::ProjectNotSucceeded));
    assert_eq!(r.unwrap_err().kind(), ErrorKind::InvalidState);
    // a succeeded project still waits for its deadline
    pledge(&mut s, "bob", 60, 2).unwrap();
    assert_eq!(try_withdraw(&s, &info("owner", vec![]), 3), Err(ContractError::ProjectNotEnded));
}

#[test]
fn refund_rejections() {
    let mut s = project(native(), 100);
    pledge(&mut s, "alice", 40, 1).unwrap();
    let r = try_refund(&mut s, &info("alice", vec![]), DEADLINE - 1);
    assert_eq!(r, Err(ContractError::ProjectNotEnded));
    let r = try_refund(&mut s, &info("bob", vec![]), DEADLINE);
    assert_eq!(r, Err(ContractError::NoContribution));
    pledge(&mut s, "bob", 60, 2).unwrap();
    let r = try_refund(&mut s, &info("alice", vec![]), DEADLINE);
    assert_eq!(r, Err(ContractError::ProjectNotFailed));
    assert_eq!(r.unwrap_err().kind(), ErrorKind::InvalidState);
    assert_eq!(contribution_of(&s, "alice"), 40);
}

#[test]
fn refund_leaves_other_entries_and_total() {
    let mut s = project(native(), 100);
    pledge(&mut s, "alice", 10, 1).unwrap();
    pledge(&mut s, "bob", 20, 2).unwrap();
    try_refund(&mut s, &info("alice", vec![]), DEADLINE).unwrap();
    assert_eq!(contribution_of(&s, "alice"), 0);
    assert_eq!(contribution_of(&s, "bob"), 20);
    assert_eq!(s.project.current_amount, 30);
    assert_eq!(s.project.status, Status::Failed);
    let r = try_refund(&mut s, &info("bob", vec![]), DEADLINE).unwrap();
    assert_eq!(
        r,
        Response::Payout(Transfer { token: native(), recipient: "bob".to_string(), amount: 20 })
    );
}

#[test]
fn query_before_deadline_never_failed() {
    let mut s = project(native(), 100);
    assert_eq!(query_project_info(&s, 0).status, Status::Ongoing);
    pledge(&mut s, "alice", 1, 1).unwrap();
    assert_eq!(query_project_info(&s, DEADLINE - 1).status, Status::Ongoing);
    assert_eq!(query_project_info(&s, DEADLINE).status, Status::Failed);
    // the query does not store what it reports
    assert_eq!(s.project.status, Status::Ongoing);
}

#[test]
fn query_reports_full_snapshot() {
    let mut s = project(token(), 50);
    notify(&mut s, "token", "alice", 50, 1).unwrap();
    let r = query_project_info(&s, DEADLINE + 100);
    assert_eq!(r.title, "Garden");
    assert_eq!(r.description, "A community garden");
    assert_eq!(r.project_owner, "owner");
    assert_eq!(r.token, token());
    assert_eq!(r.target_amount, 50);
    assert_eq!(r.end_time, DEADLINE);
    assert_eq!(r.current_amount, 50);
    assert_eq!(r.status, Status::Succeeded);
}

#[test]
fn delegated_pledge_credits_requesting_sender() {
    let mut s = project(token(), 100);
    let r = notify(&mut s, "token", "alice", 30, 1).unwrap();
    assert_eq!(
        r,
        Response::Contributed { contributor: "alice".to_string(), token: token(), amount: 30 }
    );
    assert_eq!(contribution_of(&s, "alice"), 30);
    assert_eq!(contribution_of(&s, "token"), 0);
    assert_eq!(s.project.current_amount, 30);
}

#[test]
fn delegated_pledge_from_wrong_account_rejected() {
    let mut s = project(token(), 100);
    let r = notify(&mut s, "other_token", "alice", 30, 1);
    assert_eq!(r, Err(ContractError::WrongTokenSender));
    assert_eq!(r.unwrap_err().kind(), ErrorKind::WrongAsset);
    assert_eq!(s.project.current_amount, 0);
}

#[test]
fn pledge_of_wrong_settlement_kind_rejected() {
    let mut s = project(token(), 100);
    let r = pledge(&mut s, "alice", 10, 1);
    assert_eq!(r, Err(ContractError::WrongTokenKind));
    assert_eq!(r.unwrap_err().kind(), ErrorKind::WrongAsset);
    let mut n = project(native(), 100);
    assert_eq!(notify(&mut n, "token", "alice", 10, 1), Err(ContractError::WrongTokenKind));
}

#[test]
fn delegated_payouts_go_through_token_account() {
    let mut s = project(token(), 100);
    notify(&mut s, "token", "alice", 100, 1).unwrap();
    let r = try_withdraw(&s, &info("owner", vec![]), DEADLINE).unwrap();
    assert_eq!(
        r,
        Response::Payout(Transfer { token: token(), recipient: "owner".to_string(), amount: 100 })
    );
    let mut f = project(token(), 100);
    notify(&mut f, "token", "bob", 9, 1).unwrap();
    let r = try_refund(&mut f, &info("bob", vec![]), DEADLINE).unwrap();
    assert_eq!(
        r,
        Response::Payout(Transfer { token: token(), recipient: "bob".to_string(), amount: 9 })
    );
}

#[test]
fn execute_and_query_dispatch() {
    let mut s = project(native(), 10);
    let r = execute(&mut s, 1, &info("alice", vec![coin("uatom", 10)]), &ExecuteMsg::Contribute {});
    assert!(r.is_ok());
    let wrapped = ReceiveMsg { sender: "bob".to_string(), amount: 1 };
    let r = execute(&mut s, 1, &info("token", vec![]), &ExecuteMsg::Receive(wrapped));
    assert_eq!(r, Err(ContractError::WrongTokenKind));
    let r = execute(&mut s, DEADLINE, &info("alice", vec![]), &ExecuteMsg::Refund {});
    assert_eq!(r, Err(ContractError::ProjectNotFailed));
    let r = execute(&mut s, DEADLINE, &info("owner", vec![]), &ExecuteMsg::Withdraw {}).unwrap();
    assert_eq!(
        r,
        Response::Payout(Transfer { token: native(), recipient: "owner".to_string(), amount: 10 })
    );
    let q = query(&s, DEADLINE, &QueryMsg::GetContribution { address: "alice".to_string() });
    assert_eq!(q, QueryResponse::Contribution(GetContributionResponse { token: native(), amount: 10 }));
    match query(&s, DEADLINE, &QueryMsg::GetProjectInfo {}) {
        QueryResponse::ProjectInfo(p) => assert_eq!(p.status, Status::Succeeded),
        other => panic!("unexpected response {:?}", other),
    }
}

#[test]
fn error_kinds() {
    assert_eq!(ContractError::ProjectNotOngoing.kind(), ErrorKind::InvalidState);
    assert_eq!(ContractError::ProjectNotSucceeded.kind(), ErrorKind::InvalidState);
    assert_eq!(ContractError::ProjectNotEnded.kind(), ErrorKind::NotYetEligible);
    assert_eq!(ContractError::NotProjectOwner.kind(), ErrorKind::Unauthorized);
}

#[test]
fn pledge_after_refund_rejected() {
    let mut s = project(native(), 100);
    pledge(&mut s, "alice", 10, 1).unwrap();
    try_refund(&mut s, &info("alice", vec![]), DEADLINE).unwrap();
    assert_eq!(s.project.status, Status::Failed);
    let r = pledge(&mut s, "bob", 10, DEADLINE + 1);
    assert_eq!(r, Err(ContractError::ProjectNotOngoing));
    assert_eq!(r.unwrap_err().kind(), ErrorKind::InvalidState);
    assert_eq!(s.project.current_amount, 10);
    assert_eq!(contribution_of(&s, "bob"), 0);
}
