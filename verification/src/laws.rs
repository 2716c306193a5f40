use vstd::prelude::*;
use crate::address::IpAddress;
use crate::domain::{
    first_dot, has_dot, is_first_dot, lemma_first_dot_is, split_at_first_dot, DomainSpecView,
};
use crate::failure::FailureView;
use crate::record::{
    first_match, has_match, is_first_match, lemma_first_match_is, listed, looked_up, ListResponse,
    Record,
};
use crate::updater::{
    first_phase, out_of_turn, set_ip_step, update_step, ActionView, Command, Event, Phase,
};

verus! {

/// A name that holds a `.` is cut at the first one: the first part holds no
/// `.`, and the first part, a `.` and the second part spell the name again.
pub proof fn lemma_split_rejoins(text: Seq<char>)
    requires
        has_dot(text),
    ensures
        is_first_dot(text, first_dot(text)),
        !has_dot(split_at_first_dot(text).subdomain),
        split_at_first_dot(text).subdomain + seq!['.'] + split_at_first_dot(text).domain == text,
{
    let some = choose|i: int| 0 <= i < text.len() && text[i] == '.';
    lemma_some_dot_is_first(text, some);
    let at = first_dot(text);
    let parts = split_at_first_dot(text);
    assert forall|i: int| 0 <= i < parts.subdomain.len() implies parts.subdomain[i] != '.' by {
        assert(parts.subdomain[i] == text[i]);
    }
    assert(parts.subdomain + seq!['.'] + parts.domain =~= text);
}

/// Where a text holds a `.` at `at`, one place up to `at` is that of its
/// first `.`.
proof fn lemma_some_dot_is_first(text: Seq<char>, at: int)
    requires
        0 <= at < text.len(),
        text[at] == '.',
    ensures
        is_first_dot(text, first_dot(text)),
        first_dot(text) <= at,
    decreases at,
{
    if exists|j: int| 0 <= j < at && text[j] == '.' {
        let j = choose|j: int| 0 <= j < at && text[j] == '.';
        lemma_some_dot_is_first(text, j);
    } else {
        lemma_first_dot_is(text, at);
    }
}

/// Where some record carries the subdomain at `at`, one place up to `at` is
/// that of the first record that carries it.
proof fn lemma_some_match_is_first(records: Seq<Record>, subdomain: Seq<char>, at: int)
    requires
        0 <= at < records.len(),
        records[at].subdomain@ == subdomain,
    ensures
        first_match(records, subdomain) is Some,
        is_first_match(records, subdomain, first_match(records, subdomain)->Some_0),
        first_match(records, subdomain)->Some_0 <= at,
    decreases at,
{
    if exists|j: int| 0 <= j < at && (#[trigger] records[j]).subdomain@ == subdomain {
        let j = choose|j: int| 0 <= j < at && (#[trigger] records[j]).subdomain@ == subdomain;
        lemma_some_match_is_first(records, subdomain, j);
    } else {
        lemma_first_match_is(records, subdomain, at);
    }
}

/// A lookup gives the first record, in the order of the listing, that carries
/// the subdomain: `at` is the place that the lookup names exactly when the
/// record there carries the subdomain and none before it does. The lookup
/// names no place exactly when no record carries the subdomain, as in an
/// empty listing.
pub proof fn lemma_lookup_is_first_match(records: Seq<Record>, subdomain: Seq<char>, at: int)
    ensures
        first_match(records, subdomain) == Some(at) <==> is_first_match(records, subdomain, at),
        first_match(records, subdomain) is None <==> !has_match(records, subdomain),
        records.len() == 0 ==> first_match(records, subdomain) is None,
{
    if is_first_match(records, subdomain, at) {
        lemma_first_match_is(records, subdomain, at);
    }
    if first_match(records, subdomain) == Some(at) {
        let some = choose|i: int|
            0 <= i < records.len() && (#[trigger] records[i]).subdomain@ == subdomain;
        lemma_some_match_is_first(records, subdomain, some);
    }
}

/// A listing that is the error variant gives the registrar's failure with the
/// text that the listing carries, whatever subdomain is looked up: in reading
/// it, in looking a record up, and in either phase that waits for records.
pub proof fn lemma_registrar_error_surfaces(
    error: String,
    target: DomainSpecView,
    value: IpAddress,
)
    ensures
        listed(ListResponse::Error { error }) == Err::<Seq<Record>, FailureView>(
            FailureView::Registrar { message: error@ },
        ),
        looked_up(ListResponse::Error { error }, target.subdomain) is Err,
        looked_up(ListResponse::Error { error }, target.subdomain)->Err_0 == (
        FailureView::Registrar { message: error@ }),
        update_step(Phase::Listing, Event::Records(ListResponse::Error { error }), target) == (
            Phase::Closed,
            ActionView::Fail(FailureView::Registrar { message: error@ }),
        ),
        set_ip_step(Phase::Lookup { value }, Event::Records(ListResponse::Error { error }), target)
            == (Phase::Closed, ActionView::Fail(FailureView::Registrar { message: error@ })),
{
}

/// With the record's address and the caller's own in hand, the run is over
/// without an edit exactly when the two are the same address. Where they
/// differ, the records are asked for again, and the edit that follows names
/// the first record that carries the subdomain and holds the caller's own
/// address.
pub proof fn lemma_update_edits_iff_different(
    current: IpAddress,
    own: IpAddress,
    listing: ListResponse,
    target: DomainSpecView,
)
    ensures
        update_step(Phase::Resolving { current }, Event::RealIp(own), target) == (
            Phase::Closed,
            ActionView::Finish,
        ) <==> current == own,
        current != own ==> update_step(Phase::Resolving { current }, Event::RealIp(own), target)
            == (Phase::Lookup { value: own }, ActionView::ListRecords { domain: target.domain }),
        looked_up(listing, target.subdomain) is Ok ==> update_step(
            Phase::Lookup { value: own },
            Event::Records(listing),
            target,
        ) == (
            Phase::Editing,
            ActionView::EditRecord {
                domain: target.domain,
                record_id: looked_up(listing, target.subdomain)->Ok_0.id,
                content: own,
            },
        ),
{
}

/// A run that brings a record to the caller's own address asks for an edit
/// in one place only: after it found that the record's address and the
/// caller's differ. So where they are the same, no edit is ever asked for,
/// and a run that is over asks for nothing more.
pub proof fn lemma_update_edits_only_on_difference(
    phase: Phase,
    event: Event,
    target: DomainSpecView,
)
    ensures
        update_step(phase, event, target).1 is EditRecord ==> phase is Lookup,
        update_step(phase, event, target).0 is Lookup ==> phase is Resolving && event is RealIp
            && phase->current != event->RealIp_0 && update_step(phase, event, target).0->value
            == event->RealIp_0,
        update_step(Phase::Closed, event, target) == out_of_turn(),
{
}

/// A run that writes a given value asks for an edit with that value as soon
/// as the record is found, whatever the record holds: two listings whose
/// first records for the subdomain have the same number lead to the same
/// edit.
pub proof fn lemma_set_always_edits(
    value: IpAddress,
    listing: ListResponse,
    other: ListResponse,
    target: DomainSpecView,
)
    requires
        looked_up(listing, target.subdomain) is Ok,
        looked_up(other, target.subdomain) is Ok,
        looked_up(listing, target.subdomain)->Ok_0.id == looked_up(
            other,
            target.subdomain,
        )->Ok_0.id,
    ensures
        first_phase(Command::SetValue { value }) == (Phase::Lookup { value }),
        set_ip_step(Phase::Lookup { value }, Event::Records(listing), target) == (
            Phase::Editing,
            ActionView::EditRecord {
                domain: target.domain,
                record_id: looked_up(listing, target.subdomain)->Ok_0.id,
                content: value,
            },
        ),
        set_ip_step(Phase::Lookup { value }, Event::Records(listing), target) == set_ip_step(
            Phase::Lookup { value },
            Event::Records(other),
            target,
        ),
{
}

/// How many steps a run can still take from a phase.
pub open spec fn steps_left(phase: Phase) -> nat {
    match phase {
        Phase::Listing => 5,
        Phase::Parsing => 4,
        Phase::Resolving { current } => 3,
        Phase::Lookup { value } => 2,
        Phase::Editing => 1,
        Phase::Closed => 0,
    }
}

/// A run never goes back: every step from a phase in which the run waits
/// leads to a phase from which fewer steps are left, and a run that is over
/// stays over. A step that ends the run says so in its action, and no other
/// step does.
pub proof fn lemma_run_moves_forward(phase: Phase, event: Event, target: DomainSpecView)
    ensures
        phase != Phase::Closed ==> steps_left(update_step(phase, event, target).0) < steps_left(
            phase,
        ),
        phase == Phase::Closed ==> update_step(phase, event, target).0 == Phase::Closed,
        update_step(phase, event, target).0 == Phase::Closed <==> (update_step(
            phase,
            event,
            target,
        ).1 is Finish || update_step(phase, event, target).1 is Fail),
        set_ip_step(phase, event, target).0 == Phase::Closed || (phase is Lookup && set_ip_step(
            phase,
            event,
            target,
        ).0 == Phase::Editing),
{
}

/// The actions that a run asks for, one for each event, from a phase on.
pub open spec fn actions_from(phase: Phase, events: Seq<Event>, target: DomainSpecView) -> Seq<
    ActionView,
>
    decreases events.len(),
{
    if events.len() == 0 {
        Seq::empty()
    } else {
        let step = update_step(phase, events[0], target);
        seq![step.1] + actions_from(step.0, events.skip(1), target)
    }
}

/// How many of the actions are edits.
pub open spec fn edits(actions: Seq<ActionView>) -> nat
    decreases actions.len(),
{
    if actions.len() == 0 {
        0
    } else {
        (if actions[0] is EditRecord {
            1nat
        } else {
            0nat
        }) + edits(actions.skip(1))
    }
}

/// How many of the actions ask for the records.
pub open spec fn listings(actions: Seq<ActionView>) -> nat
    decreases actions.len(),
{
    if actions.len() == 0 {
        0
    } else {
        (if actions[0] is ListRecords {
            1nat
        } else {
            0nat
        }) + listings(actions.skip(1))
    }
}

/// Whatever events come, and in whatever order, a run asks for one edit at
/// most, and after its first request for the records for one more at most.
/// Once the edit was sent, or the run is over, it asks for neither.
pub proof fn lemma_one_edit_at_most(phase: Phase, events: Seq<Event>, target: DomainSpecView)
    ensures
        edits(actions_from(phase, events, target)) <= 1,
        listings(actions_from(phase, events, target)) <= 1,
        phase == Phase::Editing || phase == Phase::Closed ==> edits(
            actions_from(phase, events, target),
        ) == 0,
        phase is Lookup || phase == Phase::Editing || phase == Phase::Closed ==> listings(
            actions_from(phase, events, target),
        ) == 0,
    decreases events.len(),
{
    if events.len() > 0 {
        let step = update_step(phase, events[0], target);
        let rest = actions_from(step.0, events.skip(1), target);
        let all = actions_from(phase, events, target);
        lemma_one_edit_at_most(step.0, events.skip(1), target);
        assert(all[0] == step.1);
        assert(all.skip(1) =~= rest);
    }
}

/// Where the record's address and the caller's own are the same, a run that
/// has both in hand asks for no edit, whatever events follow.
pub proof fn lemma_same_address_never_edits(
    current: IpAddress,
    events: Seq<Event>,
    target: DomainSpecView,
)
    requires
        events.len() > 0,
        events[0] == Event::RealIp(current),
    ensures
        edits(actions_from(Phase::Resolving { current }, events, target)) == 0,
{
    let step = update_step(Phase::Resolving { current }, events[0], target);
    let rest = actions_from(step.0, events.skip(1), target);
    let all = actions_from(Phase::Resolving { current }, events, target);
    lemma_one_edit_at_most(step.0, events.skip(1), target);
    assert(all[0] == step.1);
    assert(all.skip(1) =~= rest);
}

} // verus!
