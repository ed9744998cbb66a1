//! Whole runs of the machine: what a request goes through from its first event
//! to its last, and what holds of every such run.

use crate::credential::{
    authorization_name, authorization_of, bearer_credential, AuthorizationView,
};
use crate::gate::{
    is_terminal, spec_step, AuthError, GateActionView, GateEventView, GateStateView, IdentityView,
    VerifierFailure,
};
use crate::headers::{first_value, is_text, text_of};
use vstd::prelude::*;

verus! {

/// The state the machine is in after taking `events` in order from `state`.
pub open spec fn state_after(state: GateStateView, events: Seq<GateEventView>) -> GateStateView
    decreases events.len(),
{
    if events.len() == 0 {
        state
    } else {
        state_after(spec_step(state, events[0]).0, events.skip(1))
    }
}

/// The actions the machine asks for while taking `events` in order from `state`,
/// one for each event.
pub open spec fn actions_of(state: GateStateView, events: Seq<GateEventView>) -> Seq<
    GateActionView,
>
    decreases events.len(),
{
    if events.len() == 0 {
        Seq::empty()
    } else {
        seq![spec_step(state, events[0]).1] + actions_of(
            spec_step(state, events[0]).0,
            events.skip(1),
        )
    }
}

/// The event that reports the `Authorization` header of a request with the
/// given headers.
pub open spec fn header_event(entries: Map<Seq<char>, Seq<Seq<u8>>>) -> GateEventView {
    GateEventView::HeaderRead(authorization_of(first_value(entries, authorization_name())))
}

/// Whether a header value is text of the form `Bearer <token>`.
pub open spec fn is_bearer(value: Seq<u8>) -> bool {
    is_text(value) && bearer_credential(text_of(value)) is Some
}

/// The machine asks for one action per event.
pub proof fn lemma_one_action_per_event(state: GateStateView, events: Seq<GateEventView>)
    ensures
        actions_of(state, events).len() == events.len(),
    decreases events.len(),
{
    if events.len() > 0 {
        lemma_one_action_per_event(spec_step(state, events[0]).0, events.skip(1));
    }
}

/// Once a request has ended, no event moves the machine or makes it ask for
/// anything.
pub proof fn lemma_terminal_is_final(state: GateStateView, events: Seq<GateEventView>)
    requires
        is_terminal(state),
    ensures
        state_after(state, events) == state,
        actions_of(state, events).len() == events.len(),
        forall|i: int|
            0 <= i < events.len() ==> #[trigger] actions_of(state, events)[i]
                == GateActionView::Idle,
    decreases events.len(),
{
    if events.len() > 0 {
        lemma_terminal_is_final(state, events.skip(1));
    }
}

/// What the first event of a run decides: the run goes on from the state the
/// first step leads to.
pub proof fn lemma_run_unfolds(state: GateStateView, first: GateEventView, later: Seq<GateEventView>)
    ensures
        state_after(state, seq![first] + later) == state_after(spec_step(state, first).0, later),
        actions_of(state, seq![first] + later) == seq![spec_step(state, first).1] + actions_of(
            spec_step(state, first).0,
            later,
        ),
{
    let events = seq![first] + later;
    assert(events[0] == first);
    assert(events.skip(1) =~= later);
}

/// A request without an `Authorization` header is answered with 401 and
/// "Authorization header missing."; the verifier is never asked, whatever is
/// reported to the machine afterwards.
pub proof fn lemma_missing_header_is_rejected(
    entries: Map<Seq<char>, Seq<Seq<u8>>>,
    later: Seq<GateEventView>,
)
    requires
        !entries.dom().contains(authorization_name()),
    ensures
        ({
            let events = seq![header_event(entries)] + later;
            let actions = actions_of(GateStateView::Start, events);
            &&& state_after(GateStateView::Start, events) == GateStateView::HeaderMissing
            &&& actions.len() == events.len()
            &&& actions[0] == GateActionView::Respond { error: AuthError::MissingHeader }
            &&& forall|i: int| 1 <= i < actions.len() ==> #[trigger] actions[i] == GateActionView::Idle
            &&& forall|i: int| 0 <= i < actions.len() ==> !(#[trigger] actions[i] is Verify)
        }),
        AuthError::MissingHeader.spec_status() == 401,
        AuthError::MissingHeader.spec_message() == "Authorization header missing."@,
{
    lemma_run_unfolds(GateStateView::Start, header_event(entries), later);
    lemma_terminal_is_final(GateStateView::HeaderMissing, later);
}

/// A request whose `Authorization` header is not `Bearer <token>` is answered
/// with 401 and "Authorization header format invalid."; the verifier is never
/// asked.
pub proof fn lemma_malformed_header_is_rejected(
    entries: Map<Seq<char>, Seq<Seq<u8>>>,
    later: Seq<GateEventView>,
)
    requires
        entries.dom().contains(authorization_name()),
        !is_bearer(entries[authorization_name()][0]),
    ensures
        ({
            let events = seq![header_event(entries)] + later;
            let actions = actions_of(GateStateView::Start, events);
            &&& state_after(GateStateView::Start, events) == GateStateView::HeaderMalformed
            &&& actions.len() == events.len()
            &&& actions[0] == GateActionView::Respond { error: AuthError::MalformedHeader }
            &&& forall|i: int| 1 <= i < actions.len() ==> #[trigger] actions[i] == GateActionView::Idle
            &&& forall|i: int| 0 <= i < actions.len() ==> !(#[trigger] actions[i] is Verify)
        }),
        AuthError::MalformedHeader.spec_status() == 401,
        AuthError::MalformedHeader.spec_message() == "Authorization header format invalid."@,
{
    lemma_run_unfolds(GateStateView::Start, header_event(entries), later);
    lemma_terminal_is_final(GateStateView::HeaderMalformed, later);
}

/// A request with a bearer token that the verifier turns down, for whatever
/// reason, is answered with 401 and "Authorization token invalid."; the
/// verifier is asked once, about that token, and no identity is attached.
pub proof fn lemma_refused_token_is_rejected(
    entries: Map<Seq<char>, Seq<Seq<u8>>>,
    failure: VerifierFailure,
    later: Seq<GateEventView>,
)
    requires
        entries.dom().contains(authorization_name()),
        is_bearer(entries[authorization_name()][0]),
    ensures
        ({
            let token = text_of(entries[authorization_name()][0]).skip(7);
            let events = seq![header_event(entries), GateEventView::VerifierReturned(Err(failure))]
                + later;
            let actions = actions_of(GateStateView::Start, events);
            &&& state_after(GateStateView::Start, events) == GateStateView::Rejected
            &&& actions.len() == events.len()
            &&& actions[0] == GateActionView::Verify { token }
            &&& actions[1] == GateActionView::Respond { error: AuthError::InvalidToken }
            &&& forall|i: int| 2 <= i < actions.len() ==> #[trigger] actions[i] == GateActionView::Idle
            &&& forall|i: int| 0 <= i < actions.len() ==> !(#[trigger] actions[i] is Attach)
        }),
        AuthError::InvalidToken.spec_status() == 401,
        AuthError::InvalidToken.spec_message() == "Authorization token invalid."@,
{
    let refusal = GateEventView::VerifierReturned(Err(failure));
    let tail = seq![refusal] + later;
    assert(seq![header_event(entries), refusal] + later =~= seq![header_event(entries)] + tail);
    lemma_run_unfolds(GateStateView::Start, header_event(entries), tail);
    lemma_run_unfolds(GateStateView::CredentialExtracted, refusal, later);
    lemma_terminal_is_final(GateStateView::Rejected, later);
}

/// A request with a bearer token that the verifier accepts is admitted: the
/// verifier is asked once, about that token, the identity it returned is
/// attached, and the request is passed to the next handler with that identity.
pub proof fn lemma_accepted_token_is_admitted(
    entries: Map<Seq<char>, Seq<Seq<u8>>>,
    identity: IdentityView,
    later: Seq<GateEventView>,
)
    requires
        entries.dom().contains(authorization_name()),
        is_bearer(entries[authorization_name()][0]),
    ensures
        ({
            let token = text_of(entries[authorization_name()][0]).skip(7);
            let events = seq![
                header_event(entries),
                GateEventView::VerifierReturned(Ok(identity)),
                GateEventView::IdentityAttached,
            ] + later;
            let actions = actions_of(GateStateView::Start, events);
            &&& state_after(GateStateView::Start, events) == GateStateView::Admitted { identity }
            &&& actions.len() == events.len()
            &&& actions[0] == GateActionView::Verify { token }
            &&& actions[1] == GateActionView::Attach { identity }
            &&& actions[2] == GateActionView::Forward
            &&& forall|i: int| 3 <= i < actions.len() ==> #[trigger] actions[i] == GateActionView::Idle
            &&& forall|i: int| 0 <= i < actions.len() ==> !(#[trigger] actions[i] is Respond)
        }),
{
    let accepted = GateEventView::VerifierReturned(Ok(identity));
    let attached = GateEventView::IdentityAttached;
    let tail2 = seq![attached] + later;
    let tail1 = seq![accepted] + tail2;
    assert(seq![header_event(entries), accepted, attached] + later =~= seq![header_event(entries)]
        + tail1);
    lemma_run_unfolds(GateStateView::Start, header_event(entries), tail1);
    lemma_run_unfolds(GateStateView::CredentialExtracted, accepted, tail2);
    lemma_run_unfolds(GateStateView::Verified { identity }, attached, later);
    lemma_terminal_is_final(GateStateView::Admitted { identity }, later);
}

/// Two requests with the same bearer token, each accepted by the verifier, are
/// two admissions of their own: each ends with the identity that its own
/// verification returned, whatever the other one returned.
pub proof fn lemma_admissions_are_independent(
    entries: Map<Seq<char>, Seq<Seq<u8>>>,
    first: IdentityView,
    second: IdentityView,
)
    requires
        entries.dom().contains(authorization_name()),
        is_bearer(entries[authorization_name()][0]),
    ensures
        ({
            let one = seq![
                header_event(entries),
                GateEventView::VerifierReturned(Ok(first)),
                GateEventView::IdentityAttached,
            ];
            let two = seq![
                header_event(entries),
                GateEventView::VerifierReturned(Ok(second)),
                GateEventView::IdentityAttached,
            ];
            &&& state_after(GateStateView::Start, one) == GateStateView::Admitted { identity: first }
            &&& state_after(GateStateView::Start, two) == GateStateView::Admitted { identity: second }
            &&& actions_of(GateStateView::Start, one)[0] == actions_of(GateStateView::Start, two)[0]
            &&& actions_of(GateStateView::Start, one)[1] == GateActionView::Attach { identity: first }
            &&& actions_of(GateStateView::Start, two)[1] == GateActionView::Attach { identity: second }
        }),
{
    let one = seq![
        header_event(entries),
        GateEventView::VerifierReturned(Ok(first)),
        GateEventView::IdentityAttached,
    ];
    let two = seq![
        header_event(entries),
        GateEventView::VerifierReturned(Ok(second)),
        GateEventView::IdentityAttached,
    ];
    assert(one + Seq::empty() =~= one);
    assert(two + Seq::empty() =~= two);
    lemma_accepted_token_is_admitted(entries, first, Seq::empty());
    lemma_accepted_token_is_admitted(entries, second, Seq::empty());
}

/// The actions that answer a request: the rejection, or the hand-over to the
/// next handler.
pub open spec fn is_answer(action: GateActionView) -> bool {
    action is Respond || action is Forward
}

/// Whether the verifier is reported to have accepted a token with `identity`.
pub open spec fn accepted_in(events: Seq<GateEventView>, identity: IdentityView) -> bool {
    exists|i: int|
        0 <= i < events.len() && #[trigger] events[i] == GateEventView::VerifierReturned(
            Ok(identity),
        )
}

/// Whether a state carries `identity`.
pub open spec fn holds_identity(state: GateStateView, identity: IdentityView) -> bool {
    state == (GateStateView::Verified { identity }) || state == (GateStateView::Admitted {
        identity,
    })
}

/// The action asked for at the `k`-th event is the one the transition table
/// gives for that event in the state reached by the events before it.
pub proof fn lemma_action_at(state: GateStateView, events: Seq<GateEventView>, k: int)
    requires
        0 <= k < events.len(),
    ensures
        actions_of(state, events).len() == events.len(),
        actions_of(state, events)[k] == spec_step(state_after(state, events.take(k)), events[k]).1,
    decreases k,
{
    lemma_one_action_per_event(state, events);
    let next = spec_step(state, events[0]).0;
    lemma_one_action_per_event(next, events.skip(1));
    if k == 0 {
        assert(events.take(0) =~= Seq::<GateEventView>::empty());
    } else {
        lemma_action_at(next, events.skip(1), k - 1);
        let before = events.take(k);
        assert(before[0] == events[0]);
        assert(before.skip(1) =~= events.skip(1).take(k - 1));
    }
}

/// Away from the start the verifier is never asked.
pub proof fn lemma_verifier_is_asked_from_start_only(
    state: GateStateView,
    events: Seq<GateEventView>,
)
    requires
        !(state is Start),
    ensures
        !(state_after(state, events) is Start),
        forall|i: int|
            0 <= i < events.len() ==> !(#[trigger] actions_of(state, events)[i] is Verify),
    decreases events.len(),
{
    lemma_one_action_per_event(state, events);
    if events.len() > 0 {
        let next = spec_step(state, events[0]).0;
        lemma_verifier_is_asked_from_start_only(next, events.skip(1));
        lemma_one_action_per_event(next, events.skip(1));
        assert forall|i: int| 0 <= i < events.len() implies !(#[trigger] actions_of(
            state,
            events,
        )[i] is Verify) by {
            if i > 0 {
                assert(actions_of(state, events)[i] == actions_of(next, events.skip(1))[i - 1]);
            }
        }
    }
}

/// Whatever is reported to the machine, and in whatever order, it asks the
/// verifier at most once for a request.
pub proof fn lemma_verifier_is_asked_at_most_once(state: GateStateView, events: Seq<GateEventView>)
    ensures
        forall|i: int, j: int|
            0 <= i < j < events.len() ==> !(#[trigger] actions_of(state, events)[i] is Verify
                && #[trigger] actions_of(state, events)[j] is Verify),
    decreases events.len(),
{
    lemma_one_action_per_event(state, events);
    if events.len() > 0 {
        let next = spec_step(state, events[0]).0;
        let rest = events.skip(1);
        lemma_verifier_is_asked_at_most_once(next, rest);
        lemma_one_action_per_event(next, rest);
        if spec_step(state, events[0]).1 is Verify {
            lemma_verifier_is_asked_from_start_only(next, rest);
        }
        assert forall|i: int, j: int| 0 <= i < j < events.len() implies !(#[trigger] actions_of(
            state,
            events,
        )[i] is Verify && #[trigger] actions_of(state, events)[j] is Verify) by {
            assert(actions_of(state, events)[j] == actions_of(next, rest)[j - 1]);
            if i > 0 {
                assert(actions_of(state, events)[i] == actions_of(next, rest)[i - 1]);
            }
        }
    }
}

/// Whatever is reported to the machine, and in whatever order, a request is
/// answered at most once: after a rejection or a hand-over nothing follows.
pub proof fn lemma_request_is_answered_at_most_once(
    state: GateStateView,
    events: Seq<GateEventView>,
)
    ensures
        forall|i: int, j: int|
            0 <= i < j < events.len() ==> !(is_answer(#[trigger] actions_of(state, events)[i])
                && is_answer(#[trigger] actions_of(state, events)[j])),
    decreases events.len(),
{
    lemma_one_action_per_event(state, events);
    if events.len() > 0 {
        let next = spec_step(state, events[0]).0;
        let rest = events.skip(1);
        lemma_request_is_answered_at_most_once(next, rest);
        lemma_one_action_per_event(next, rest);
        if is_answer(spec_step(state, events[0]).1) {
            lemma_terminal_is_final(next, rest);
        }
        assert forall|i: int, j: int| 0 <= i < j < events.len() implies !(is_answer(
            #[trigger] actions_of(state, events)[i],
        ) && is_answer(#[trigger] actions_of(state, events)[j])) by {
            assert(actions_of(state, events)[j] == actions_of(next, rest)[j - 1]);
            if i > 0 {
                assert(actions_of(state, events)[i] == actions_of(next, rest)[i - 1]);
            }
        }
    }
}

/// No identity without the verifier: an identity that a state carries at the
/// end of a run was carried from the beginning or is one with which the
/// verifier was reported to accept a token.
pub proof fn lemma_identity_comes_from_the_verifier(
    state: GateStateView,
    events: Seq<GateEventView>,
    identity: IdentityView,
)
    requires
        holds_identity(state_after(state, events), identity),
    ensures
        holds_identity(state, identity) || accepted_in(events, identity),
    decreases events.len(),
{
    if events.len() > 0 {
        let next = spec_step(state, events[0]).0;
        let rest = events.skip(1);
        lemma_identity_comes_from_the_verifier(next, rest, identity);
        if holds_identity(next, identity) {
            if !holds_identity(state, identity) {
                assert(events[0] == GateEventView::VerifierReturned(Ok(identity)));
            }
        } else {
            let i = choose|i: int|
                0 <= i < rest.len() && #[trigger] rest[i] == GateEventView::VerifierReturned(
                    Ok(identity),
                );
            assert(events[i + 1] == rest[i]);
        }
    }
}

/// No admission without the verifier: where a request is handed to the next
/// handler, the verifier was reported before to accept its token, and the
/// request ends admitted with the identity of that report.
pub proof fn lemma_forward_needs_acceptance(events: Seq<GateEventView>, k: int)
    requires
        0 <= k < events.len(),
        actions_of(GateStateView::Start, events)[k] is Forward,
    ensures
        exists|identity: IdentityView|
            #[trigger] accepted_in(events.take(k), identity) && state_after(
                GateStateView::Start,
                events.take(k + 1),
            ) == (GateStateView::Admitted { identity }),
{
    lemma_action_at(GateStateView::Start, events, k);
    let before = state_after(GateStateView::Start, events.take(k));
    assert(before is Verified);
    let identity = before->Verified_identity;
    lemma_identity_comes_from_the_verifier(GateStateView::Start, events.take(k), identity);
    lemma_run_appends(GateStateView::Start, events.take(k), events[k]);
    assert(events.take(k).push(events[k]) =~= events.take(k + 1));
    assert(accepted_in(events.take(k), identity));
}

/// An identity is attached only when the verifier has just accepted a token
/// with it.
pub proof fn lemma_attach_needs_acceptance(events: Seq<GateEventView>, k: int)
    requires
        0 <= k < events.len(),
        actions_of(GateStateView::Start, events)[k] is Attach,
    ensures
        events[k] == GateEventView::VerifierReturned(
            Ok(actions_of(GateStateView::Start, events)[k]->Attach_identity),
        ),
{
    lemma_action_at(GateStateView::Start, events, k);
}

/// Taking one more event at the end of a run is one more step from where the
/// run ended.
pub proof fn lemma_run_appends(state: GateStateView, events: Seq<GateEventView>, last: GateEventView)
    ensures
        state_after(state, events.push(last)) == spec_step(state_after(state, events), last).0,
    decreases events.len(),
{
    if events.len() == 0 {
        let one = events.push(last);
        assert(one[0] == last);
        assert(one.skip(1) =~= Seq::<GateEventView>::empty());
        assert(state_after(spec_step(state, last).0, one.skip(1)) == spec_step(state, last).0);
    } else {
        let next = spec_step(state, events[0]).0;
        lemma_run_appends(next, events.skip(1), last);
        let all = events.push(last);
        assert(all[0] == events[0]);
        assert(all.skip(1) =~= events.skip(1).push(last));
    }
}

} // verus!
