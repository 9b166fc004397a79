//! What the retry loop does over whole runs: how often the sprint is
//! asked for and the record is written while tokens are refused.

use crate::config::ConfigView;
use crate::endpoints::active_sprint_address;
use crate::protocol::{ActionView, CommandView, EventView, FailureView};
use crate::session::{
    after_lookup, opening_with, transition, Phase, RetryPolicy, SessionView, StageView,
};
use crate::sprint::{resolved_sprint, ResolveError};
use crate::status::{is_success, UNAUTHORIZED};
use crate::text::trimmed;
use vstd::prelude::*;

verus! {

/// The session after a series of events, and what the caller was told to
/// do after each of them.
pub open spec fn run(session: SessionView, events: Seq<EventView>) -> (SessionView, Seq<ActionView>)
    decreases events.len(),
{
    if events.len() == 0 {
        (session, Seq::empty())
    } else {
        let (before, told) = run(session, events.drop_last());
        let (after, action) = transition(before, events.last());
        (after, told.push(action))
    }
}

/// How many of the actions ask the tracker for the active sprint.
pub open spec fn attempts(actions: Seq<ActionView>) -> nat
    decreases actions.len(),
{
    if actions.len() == 0 {
        0
    } else {
        attempts(actions.drop_last()) + if actions.last().resolves() {
            1nat
        } else {
            0nat
        }
    }
}

/// How many of the actions write the config store.
pub open spec fn writes(actions: Seq<ActionView>) -> nat
    decreases actions.len(),
{
    if actions.len() == 0 {
        0
    } else {
        writes(actions.drop_last()) + if actions.last().stores() {
            1nat
        } else {
            0nat
        }
    }
}

/// One round of a refused token: the body of the 401 reply, and the line
/// that the operator then answers the prompt with.
pub struct Refusal {
    pub body: Seq<char>,
    pub answer: Seq<char>,
}

/// The events of a series of refused tokens: for each round the 401
/// reply, then the operator's answer.
pub open spec fn refusals(rounds: Seq<Refusal>) -> Seq<EventView>
    decreases rounds.len(),
{
    if rounds.len() == 0 {
        Seq::empty()
    } else {
        refusals(rounds.drop_last()).push(
            EventView::SprintReply { status: UNAUTHORIZED, body: rounds.last().body },
        ).push(EventView::Answer { line: rounds.last().answer })
    }
}

/// What the caller was told in round `i` of a series of refused tokens:
/// the action after the 401 reply and the action after the answer.
pub open spec fn round(told: Seq<ActionView>, i: int) -> (ActionView, ActionView) {
    (told[2 * i], told[2 * i + 1])
}

/// The record after a series of refused tokens: it holds the last token
/// that was entered, and is otherwise as it was.
pub open spec fn rotated(config: ConfigView, rounds: Seq<Refusal>) -> ConfigView {
    if rounds.len() == 0 {
        config
    } else {
        config.with_token(trimmed(rounds.last().answer))
    }
}

/// While tokens are refused, and the policy allows another one, the
/// session goes round: each 401 reply is answered by a prompt, each token
/// entered by a write of the record with that token and a new query for
/// the sprint. After the rounds the session is resolving again, with the
/// last token entered.
pub proof fn lemma_refused_tokens(start: SessionView, rounds: Seq<Refusal>)
    requires
        start.stage is Resolving,
        start.policy.allows(rounds.len()),
    ensures
        ({
            let (end, told) = run(start, refusals(rounds));
            &&& end == SessionView {
                config: rotated(start.config, rounds),
                policy: start.policy.after(rounds.len()),
                ..start
            }
            &&& told.len() == 2 * rounds.len()
            &&& forall|i: int|
                0 <= i < rounds.len() ==> #[trigger] round(told, i) == (
                    ActionView::AskToken,
                    ActionView::StoreAndFetchSprint {
                        config: start.config.with_token(trimmed(rounds[i].answer)),
                        url: active_sprint_address(start.config.domain, start.config.board_id),
                    },
                )
            &&& attempts(told) == rounds.len()
            &&& writes(told) == rounds.len()
        }),
    decreases rounds.len(),
{
    if rounds.len() > 0 {
        let earlier = rounds.drop_last();
        lemma_refused_tokens(start, earlier);
        let events = refusals(rounds);
        assert(events.drop_last().drop_last() == refusals(earlier));
        let told_mid = run(start, refusals(earlier)).1;
        let told_asked = run(start, events.drop_last()).1;
        let told = run(start, events).1;
        assert(told.drop_last() == told_asked);
        assert(told_asked.drop_last() == told_mid);
        assert(attempts(told) == attempts(told_asked) + 1);
        assert(writes(told) == writes(told_asked) + 1);
        assert forall|i: int| 0 <= i < rounds.len() implies #[trigger] round(told, i) == (
            ActionView::AskToken,
            ActionView::StoreAndFetchSprint {
                config: start.config.with_token(trimmed(rounds[i].answer)),
                url: active_sprint_address(start.config.domain, start.config.board_id),
            },
        ) by {
            if i < earlier.len() {
                assert(round(told, i) == round(told_mid, i));
            }
        }
    }
}

/// After any number of refused tokens and one token that is accepted, the
/// sprint has been asked for once more than there were refusals, and the
/// record has been written once for each refusal, each time right after
/// the new token was entered. The record then holds the accepted token,
/// and the session goes on to the command, unless the reply names no
/// sprint. This holds under every policy that allows that many retries,
/// so always where the retries are unbounded.
pub proof fn lemma_retry_until_accepted(
    config: ConfigView,
    command: CommandView,
    policy: RetryPolicy,
    rounds: Seq<Refusal>,
    status: u16,
    body: Seq<char>,
)
    requires
        is_success(status),
        policy.allows(rounds.len()),
    ensures
        ({
            let (start, first) = opening_with(config, command, policy);
            let (end, told) = run(
                start,
                refusals(rounds).push(EventView::SprintReply { status, body }),
            );
            let all = seq![first] + told;
            &&& attempts(all) == rounds.len() + 1
            &&& writes(all) == rounds.len()
            &&& end.config == rotated(config, rounds)
            &&& end.command == command
            &&& (end.stage, told.last()) == after_lookup(end.config, command, resolved_sprint(body))
            &&& resolved_sprint(body) is Ok ==> end.stage.phase() == Phase::Dispatching
        }),
{
    let (start, first) = opening_with(config, command, policy);
    lemma_refused_tokens(start, rounds);
    let events = refusals(rounds).push(EventView::SprintReply { status, body });
    assert(events.drop_last() == refusals(rounds));
    let (end, told) = run(start, events);
    assert(told.drop_last() == run(start, refusals(rounds)).1);
    lemma_counts_after(first, told);
    lemma_first_step_of_command(end.config, command, resolved_sprint(body));
}

/// Under a policy that allows `limit` retries, the refusal after the last
/// retry ends the session: the sprint has then been asked for `limit + 1`
/// times, the record has been written `limit` times, and the failure
/// carries the status of the refusal.
pub proof fn lemma_retries_run_out(
    config: ConfigView,
    command: CommandView,
    limit: u64,
    rounds: Seq<Refusal>,
    body: Seq<char>,
)
    requires
        rounds.len() == limit,
    ensures
        ({
            let (start, first) = opening_with(config, command, RetryPolicy::AtMost(limit));
            let (end, told) = run(
                start,
                refusals(rounds).push(EventView::SprintReply { status: UNAUTHORIZED, body }),
            );
            let all = seq![first] + told;
            &&& attempts(all) == limit + 1
            &&& writes(all) == limit
            &&& end.stage == StageView::Aborted
            &&& told.last() == ActionView::Fail {
                failure: FailureView::SprintLookup { status: UNAUTHORIZED },
            }
        }),
{
    let (start, first) = opening_with(config, command, RetryPolicy::AtMost(limit));
    lemma_refused_tokens(start, rounds);
    let events = refusals(rounds).push(EventView::SprintReply { status: UNAUTHORIZED, body });
    assert(events.drop_last() == refusals(rounds));
    let told = run(start, events).1;
    assert(told.drop_last() == run(start, refusals(rounds)).1);
    lemma_counts_after(first, told);
}

proof fn lemma_counts_after(first: ActionView, told: Seq<ActionView>)
    ensures
        attempts(seq![first] + told) == attempts(told) + if first.resolves() {
            1nat
        } else {
            0nat
        },
        writes(seq![first] + told) == writes(told) + if first.stores() {
            1nat
        } else {
            0nat
        },
    decreases told.len(),
{
    if told.len() == 0 {
        assert(seq![first].drop_last() == Seq::<ActionView>::empty());
        assert(attempts(Seq::<ActionView>::empty()) == 0);
        assert(writes(Seq::<ActionView>::empty()) == 0);
    } else {
        lemma_counts_after(first, told.drop_last());
        assert((seq![first] + told).drop_last() == seq![first] + told.drop_last());
    }
}

proof fn lemma_first_step_of_command(
    config: ConfigView,
    command: CommandView,
    lookup: Result<u64, ResolveError>,
)
    ensures
        !after_lookup(config, command, lookup).1.resolves(),
        lookup is Ok ==> after_lookup(config, command, lookup).0.phase() == Phase::Dispatching,
{
}

} // verus!
