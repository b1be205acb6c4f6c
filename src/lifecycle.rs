use vstd::prelude::*;

use crate::contract::{
    contribute_outcome, execute_post, pledge_fits, pledge_post, query_project_info_spec,
    receive_outcome, refund_post,
};
use crate::error::ContractError;
use crate::msg::{ExecuteMsg, MessageInfo, ReceiveMsg, Response};
use crate::state::{credited, has_failed, status_at, ProjectInfo, State, Status};

verus! {

/// Sum of a sequence of pledged amounts.
pub open spec fn sum_of(amounts: Seq<u128>) -> int
    decreases amounts.len(),
{
    if amounts.len() == 0 {
        0
    } else {
        sum_of(amounts.drop_last()) + amounts.last()
    }
}

/// The project after accepting the pledges `amounts`, in order.
pub open spec fn credited_all(p: ProjectInfo, amounts: Seq<u128>) -> ProjectInfo
    decreases amounts.len(),
{
    if amounts.len() == 0 {
        p
    } else {
        credited(credited_all(p, amounts.drop_last()), amounts.last())
    }
}

proof fn lemma_sum_of_prefix(amounts: Seq<u128>, k: int)
    requires
        0 <= k <= amounts.len(),
    ensures
        0 <= sum_of(amounts.take(k)) <= sum_of(amounts),
    decreases amounts.len(),
{
    if k == amounts.len() {
        assert(amounts.take(k) =~= amounts);
        if amounts.len() > 0 {
            lemma_sum_of_prefix(amounts.drop_last(), k - 1);
        }
    } else {
        assert(amounts.drop_last().take(k) =~= amounts.take(k));
        lemma_sum_of_prefix(amounts.drop_last(), k);
        lemma_sum_of_prefix(amounts.drop_last(), amounts.len() - 1);
        assert(amounts.drop_last().take(amounts.len() - 1) =~= amounts.drop_last());
    }
}

proof fn lemma_credited_all(p: ProjectInfo, amounts: Seq<u128>)
    requires
        p.current_amount == 0,
        p.status == Status::Ongoing,
        sum_of(amounts) <= u128::MAX,
    ensures
        credited_all(p, amounts).current_amount == sum_of(amounts),
        credited_all(p, amounts).target_amount == p.target_amount,
        credited_all(p, amounts).status == Status::Succeeded <==> (amounts.len() > 0
            && p.target_amount <= sum_of(amounts)),
    decreases amounts.len(),
{
    if amounts.len() > 0 {
        let rest = amounts.drop_last();
        lemma_sum_of_prefix(amounts, amounts.len() - 1);
        assert(amounts.take(amounts.len() - 1) =~= rest);
        lemma_credited_all(p, rest);
    }
}

/// Pledges accumulate: starting from a fresh project, after any prefix of a
/// run of accepted pledges the total is the sum of that prefix, and the
/// status is `Succeeded` exactly when some pledge has been made and the sum
/// has reached the target. Once `Succeeded`, it stays so.
pub proof fn lemma_pledges_accumulate(p: ProjectInfo, amounts: Seq<u128>)
    requires
        p.current_amount == 0,
        p.status == Status::Ongoing,
        sum_of(amounts) <= u128::MAX,
    ensures
        forall|k: int|
            0 <= k <= amounts.len() ==> {
                let q = #[trigger] credited_all(p, amounts.take(k));
                &&& q.current_amount == sum_of(amounts.take(k))
                &&& (q.status == Status::Succeeded <==> (k > 0 && p.target_amount <= sum_of(
                    amounts.take(k),
                )))
            },
        forall|j: int, k: int|
            0 <= j <= k <= amounts.len() && #[trigger] credited_all(p, amounts.take(j)).status
                == Status::Succeeded ==> #[trigger] credited_all(p, amounts.take(k)).status
                == Status::Succeeded,
{
    assert forall|k: int| 0 <= k <= amounts.len() implies {
        let q = #[trigger] credited_all(p, amounts.take(k));
        &&& q.current_amount == sum_of(amounts.take(k))
        &&& (q.status == Status::Succeeded <==> (k > 0 && p.target_amount <= sum_of(
            amounts.take(k),
        )))
    } by {
        lemma_sum_of_prefix(amounts, k);
        lemma_credited_all(p, amounts.take(k));
    }
    assert forall|j: int, k: int|
        0 <= j <= k <= amounts.len() && #[trigger] credited_all(p, amounts.take(j)).status
            == Status::Succeeded implies #[trigger] credited_all(p, amounts.take(k)).status
            == Status::Succeeded by {
        lemma_sum_of_prefix(amounts, k);
        lemma_sum_of_prefix(amounts, j);
        lemma_sum_of_prefix(amounts.take(k), j);
        assert(amounts.take(k).take(j) =~= amounts.take(j));
        lemma_credited_all(p, amounts.take(j));
        lemma_credited_all(p, amounts.take(k));
    }
}

/// The organizer can never pledge, natively or through a token
/// notification, whatever the amount and the time.
pub proof fn lemma_organizer_never_pledges(
    s: State,
    info: MessageInfo,
    wrapped: ReceiveMsg,
    now: u64,
)
    ensures
        info.sender@ == s.project.project_owner@ ==> contribute_outcome(s, info, now) is Err,
        wrapped.sender@ == s.project.project_owner@ ==> receive_outcome(s, info, wrapped, now) is Err,
{
}

/// `states` is a run of operations: `msgs[i]`, sent by `infos[i]` at time
/// `times[i]`, took `states[i]` to `states[i + 1]` with response `results[i]`.
pub open spec fn is_run(
    states: Seq<State>,
    times: Seq<u64>,
    infos: Seq<MessageInfo>,
    msgs: Seq<ExecuteMsg>,
    results: Seq<Result<Response, ContractError>>,
) -> bool {
    &&& states.len() == msgs.len() + 1
    &&& times.len() == msgs.len()
    &&& infos.len() == msgs.len()
    &&& results.len() == msgs.len()
    &&& forall|i: int|
        0 <= i < msgs.len() ==> #[trigger] execute_post(
            states[i],
            states[i + 1],
            times[i],
            infos[i],
            msgs[i],
            results[i],
        )
}

proof fn lemma_pledge_run_credits(
    states: Seq<State>,
    times: Seq<u64>,
    infos: Seq<MessageInfo>,
    msgs: Seq<ExecuteMsg>,
    results: Seq<Result<Response, ContractError>>,
    amounts: Seq<u128>,
    k: int,
)
    requires
        is_run(states, times, infos, msgs, results),
        amounts.len() == msgs.len(),
        forall|i: int|
            0 <= i < msgs.len() ==> (#[trigger] msgs[i] is Contribute || msgs[i] is Receive)
                && results[i] is Ok && results[i]->Ok_0 is Contributed
                && results[i]->Ok_0->Contributed_amount == amounts[i],
        0 <= k <= msgs.len(),
    ensures
        states[k].project == credited_all(states[0].project, amounts.take(k)),
    decreases k,
{
    if k == 0 {
        assert(amounts.take(0) =~= Seq::<u128>::empty());
    } else {
        lemma_pledge_run_credits(states, times, infos, msgs, results, amounts, k - 1);
        assert(amounts.take(k).drop_last() =~= amounts.take(k - 1));
        let i = k - 1;
        assert(execute_post(states[i], states[i + 1], times[i], infos[i], msgs[i], results[i]));
        assert(msgs[i] is Contribute || msgs[i] is Receive);
    }
}

/// Pledges accumulate over a run of accepted pledges from a fresh project:
/// after the first `k` of them the total is their sum, and the status is
/// `Succeeded` exactly when `k > 0` and that sum has reached the target; it
/// never flips earlier and never back.
pub proof fn lemma_pledge_run(
    states: Seq<State>,
    times: Seq<u64>,
    infos: Seq<MessageInfo>,
    msgs: Seq<ExecuteMsg>,
    results: Seq<Result<Response, ContractError>>,
    amounts: Seq<u128>,
)
    requires
        is_run(states, times, infos, msgs, results),
        states[0].project.current_amount == 0,
        states[0].project.status == Status::Ongoing,
        amounts.len() == msgs.len(),
        forall|i: int|
            0 <= i < msgs.len() ==> (#[trigger] msgs[i] is Contribute || msgs[i] is Receive)
                && results[i] is Ok && results[i]->Ok_0 is Contributed
                && results[i]->Ok_0->Contributed_amount == amounts[i],
        sum_of(amounts) <= u128::MAX,
    ensures
        forall|k: int|
            0 <= k <= msgs.len() ==> {
                &&& (#[trigger] states[k]).project.current_amount == sum_of(amounts.take(k))
                &&& (states[k].project.status == Status::Succeeded <==> (k > 0
                    && states[0].project.target_amount <= sum_of(amounts.take(k))))
            },
        forall|j: int, k: int|
            0 <= j <= k <= msgs.len() && (#[trigger] states[j]).project.status
                == Status::Succeeded ==> (#[trigger] states[k]).project.status
                == Status::Succeeded,
{
    lemma_pledges_accumulate(states[0].project, amounts);
    assert forall|k: int| 0 <= k <= msgs.len() implies states[k].project == credited_all(
        states[0].project,
        amounts.take(k),
    ) by {
        lemma_pledge_run_credits(states, times, infos, msgs, results, amounts, k);
    }
    assert forall|j: int, k: int|
        0 <= j <= k <= msgs.len() && (#[trigger] states[j]).project.status
            == Status::Succeeded implies (#[trigger] states[k]).project.status
            == Status::Succeeded by {
        lemma_pledge_run_credits(states, times, infos, msgs, results, amounts, j);
        lemma_pledge_run_credits(states, times, infos, msgs, results, amounts, k);
        assert(credited_all(states[0].project, amounts.take(j)).status == Status::Succeeded);
    }
}

proof fn lemma_settled_stays(
    states: Seq<State>,
    times: Seq<u64>,
    infos: Seq<MessageInfo>,
    msgs: Seq<ExecuteMsg>,
    results: Seq<Result<Response, ContractError>>,
    x: Seq<char>,
    n: int,
)
    requires
        is_run(states, times, infos, msgs, results),
        1 <= n <= msgs.len(),
        states[1].project.status == Status::Failed,
        !states[1].contributions@.contains_key(x),
    ensures
        states[n].project == states[1].project,
        !states[n].contributions@.contains_key(x),
    decreases n,
{
    if n > 1 {
        lemma_settled_stays(states, times, infos, msgs, results, x, n - 1);
        let i = n - 1;
        assert(execute_post(states[i], states[i + 1], times[i], infos[i], msgs[i], results[i]));
    }
}

/// A refund settles once: after a successful refund, however many operations
/// follow, any later refund by the same caller fails for want of a ledger
/// entry.
pub proof fn lemma_refund_settles_once(
    states: Seq<State>,
    times: Seq<u64>,
    infos: Seq<MessageInfo>,
    msgs: Seq<ExecuteMsg>,
    results: Seq<Result<Response, ContractError>>,
)
    requires
        is_run(states, times, infos, msgs, results),
        msgs.len() > 0,
        msgs[0] is Refund,
        results[0] is Ok,
        forall|i: int| 0 <= i < msgs.len() ==> times[0] <= #[trigger] times[i],
    ensures
        forall|i: int|
            0 < i < msgs.len() && #[trigger] msgs[i] is Refund && infos[i].sender@
                == infos[0].sender@ ==> results[i] == Err::<Response, ContractError>(
                ContractError::NoContribution,
            ),
{
    let z: int = 0;
    assert(execute_post(states[z], states[z + 1], times[z], infos[z], msgs[z], results[z]));
    assert forall|i: int|
        0 < i < msgs.len() && #[trigger] msgs[i] is Refund && infos[i].sender@
            == infos[0].sender@ implies results[i] == Err::<Response, ContractError>(
        ContractError::NoContribution,
    ) by {
        lemma_settled_stays(states, times, infos, msgs, results, infos[0].sender@, i);
        assert(execute_post(states[i], states[i + 1], times[i], infos[i], msgs[i], results[i]));
        assert(times[0] <= times[i]);
    }
}

/// Before the deadline the project query never reports `Failed`, whatever
/// has been raised.
pub proof fn lemma_no_failure_before_deadline(s: State, now: u64)
    requires
        s.wf(),
        now < s.project.end_time,
    ensures
        query_project_info_spec(s, now).status != Status::Failed,
{
}

/// Accounting: the amount raised exceeds what the ledger holds by exactly
/// what has been refunded. An accepted pledge raises the total and the
/// ledger alike; a refund lowers the ledger by exactly the amount it pays out
/// and leaves the total as it was.
pub proof fn lemma_accounting_balances(
    pre: State,
    post: State,
    contributor: String,
    outcome: Result<u128, ContractError>,
    r: Result<Response, ContractError>,
    info: MessageInfo,
    now: u64,
)
    ensures
        pledge_post(pre, post, contributor, outcome, r) && outcome is Ok && pledge_fits(pre, outcome)
            ==> post.project.current_amount - post.contributions.total()
            == pre.project.current_amount - pre.contributions.total(),
        refund_post(pre, post, info, now, r) && r is Ok ==> ({
            let paid = r->Ok_0->Payout_0.amount;
            &&& post.project.current_amount == pre.project.current_amount
            &&& post.contributions.total() == pre.contributions.total() - paid
        }),
{
}

/// A project that succeeded is never seen as failed, at any time.
pub proof fn lemma_success_is_final(p: ProjectInfo, now: u64)
    requires
        p.status == Status::Succeeded,
    ensures
        status_at(p, now) == Status::Succeeded,
{
}

} // verus!
