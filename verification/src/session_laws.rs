//! What holds of every session, whatever events reach it.

use vstd::prelude::*;
use crate::session::{next, ActionView, EventView, Phase, SessionView};

verus! {

/// The session after a run of events, and the actions it asked for, one for each event.
pub open spec fn run(s: SessionView, events: Seq<EventView>) -> (SessionView, Seq<ActionView>)
    decreases events.len(),
{
    if events.len() == 0 {
        (s, Seq::empty())
    } else {
        let before = run(s, events.drop_last());
        let step = next(before.0, events.last());
        (step.0, before.1.push(step.1))
    }
}

/// A call is signed and submitted only on the operator's yes to the confirmation.
pub proof fn submission_needs_consent(s: SessionView, e: EventView)
    ensures
        next(s, e).1 is SignAndSubmit ==> s.phase == Phase::AwaitingConfirmation && e
            == (EventView::Confirmed { submit: true }),
{
}

/// Declining the confirmation ends the session as canceled, and asks for no
/// submission.
pub proof fn declining_cancels(s: SessionView)
    requires
        s.phase == Phase::AwaitingConfirmation,
    ensures
        next(s, EventView::Confirmed { submit: false }).0.phase == Phase::Canceled,
        next(s, EventView::Confirmed { submit: false }).1 is Finish,
        next(s, EventView::Confirmed { submit: false }).1->Finish_result is Canceled,
{
}

/// Once a session has ended, whatever is reported to it changes nothing and asks for
/// nothing: after a cancellation no call is ever submitted.
pub proof fn nothing_follows_the_end(s: SessionView, events: Seq<EventView>)
    requires
        s.phase == Phase::Canceled || s.phase == Phase::Done || s.phase == Phase::Failed,
    ensures
        run(s, events).0 == s,
        run(s, events).1.len() == events.len(),
        forall|i: int| 0 <= i < events.len() ==> run(s, events).1[i] == ActionView::Nothing,
    decreases events.len(),
{
    if events.len() > 0 {
        nothing_follows_the_end(s, events.drop_last());
    }
}

/// Only the operator naming a signer, when asked, changes the signer.
pub proof fn signer_is_sticky(s: SessionView, e: EventView)
    requires
        !(s.phase == Phase::Prepared && e is SignerEntered),
    ensures
        next(s, e).0.command.suri == s.command.suri,
{
}

/// A signer that is known is not asked for again.
pub proof fn known_signer_is_not_asked_for(s: SessionView, e: EventView)
    requires
        s.command.suri.len() > 0,
    ensures
        !(next(s, e).1 is AskSigner),
{
}

/// A submission is signed by the session's signer.
pub proof fn submission_bears_the_signer(s: SessionView, e: EventView)
    requires
        next(s, e).1 is SignAndSubmit,
    ensures
        next(s, e).1->SignAndSubmit_signer == s.command.suri,
        next(s, e).1->SignAndSubmit_target == s.command.url,
{
}

/// Across any number of calls in one session the signer stays what it was, as long as
/// the operator does not name another: every submission of the run bears it.
pub proof fn signer_outlives_calls(s: SessionView, events: Seq<EventView>)
    requires
        forall|i: int| 0 <= i < events.len() ==> !(#[trigger] events[i] is SignerEntered),
    ensures
        run(s, events).0.command.suri == s.command.suri,
        run(s, events).1.len() == events.len(),
        forall|i: int|
            0 <= i < events.len() && (#[trigger] run(s, events).1[i]) is SignAndSubmit ==> run(
                s,
                events,
            ).1[i]->SignAndSubmit_signer == s.command.suri,
    decreases events.len(),
{
    if events.len() > 0 {
        let earlier = events.drop_last();
        assert forall|i: int| 0 <= i < earlier.len() implies !(#[trigger] earlier[i]
            is SignerEntered) by {
            assert(earlier[i] == events[i]);
        }
        signer_outlives_calls(s, earlier);
        let before = run(s, earlier);
        assert(!(events[events.len() - 1] is SignerEntered));
        signer_is_sticky(before.0, events.last());
    }
}

/// Asking for another call forgets pallet and extrinsic and keeps endpoint and signer.
pub proof fn repeating_keeps_the_connection(s: SessionView)
    requires
        s.phase == Phase::RepeatPrompt,
    ensures
        next(s, EventView::RepeatAnswered { again: true }).0.phase == Phase::Configuring,
        next(s, EventView::RepeatAnswered { again: true }).0.command.pallet is None,
        next(s, EventView::RepeatAnswered { again: true }).0.command.extrinsic is None,
        next(s, EventView::RepeatAnswered { again: true }).0.command.url == s.command.url,
        next(s, EventView::RepeatAnswered { again: true }).0.command.suri == s.command.suri,
        next(s, EventView::RepeatAnswered { again: true }).1 == (ActionView::Configure {
            repeat: true,
        }),
{
}

} // verus!
