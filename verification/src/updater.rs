use vstd::prelude::*;
use crate::address::IpAddress;
use crate::domain::{has_dot, split_at_first_dot, split_domain, DomainSpec, DomainSpecView};
use crate::failure::{fault_failure, Failure, FailureView, Fault};
use crate::record::{find_record, looked_up, ListResponse, UpdateResponse};

verus! {

/// What a run is asked to do with the record of a subdomain.
#[derive(Clone, Copy, Debug, PartialEq, Eq, Structural)]
pub enum Command {
    /// Write `value` to the record, whatever the record holds.
    SetValue { value: IpAddress },
    /// Write the caller's own address to the record, unless the record holds
    /// it already.
    Update,
}

/// What a run is waiting for.
#[derive(Clone, Copy, Debug, PartialEq, Eq, Structural)]
pub enum Phase {
    /// The records were asked for, to read what the record holds.
    Listing,
    /// The record's content was handed out to be read as an address.
    Parsing,
    /// The caller's own address was asked for; the record holds `current`.
    Resolving { current: IpAddress },
    /// The records were asked for, to learn the number of the record that
    /// `value` is to be written to.
    Lookup { value: IpAddress },
    /// The edit was sent.
    Editing,
    /// The run is over.
    Closed,
}

/// What came back from the work that the last [`Action`] asked for.
#[derive(Clone, Debug, PartialEq, Eq)]
pub enum Event {
    /// The registrar's answer to a request for the records.
    Records(ListResponse),
    /// The address that the handed-out content spells, if it spells one.
    Parsed(Option<IpAddress>),
    /// The caller's own address.
    RealIp(IpAddress),
    /// The registrar's answer to an edit.
    Edited(UpdateResponse),
    /// The exchange went wrong before an answer could be read.
    Broken(Fault),
}

/// What is to be done next in a run.
#[derive(Clone, Debug, PartialEq, Eq)]
pub enum Action {
    /// Ask the registrar for the records of `domain`.
    ListRecords { domain: String },
    /// Read `text` as an address.
    ParseAddress { text: String },
    /// Ask for the caller's own address.
    ResolveRealIp,
    /// Ask the registrar to write `content` to the record of `domain` that is
    /// numbered `record_id`. This is the only request that changes anything.
    EditRecord { domain: String, record_id: i64, content: IpAddress },
    /// Nothing more: the run has done what it was asked to do.
    Finish,
    /// Nothing more: the run has failed.
    Fail(Failure),
}

/// What an [`Action`] is, with its texts as sequences of characters.
pub enum ActionView {
    ListRecords { domain: Seq<char> },
    ParseAddress { text: Seq<char> },
    ResolveRealIp,
    EditRecord { domain: Seq<char>, record_id: i64, content: IpAddress },
    Finish,
    Fail(FailureView),
}

impl View for Action {
    type V = ActionView;

    open spec fn view(&self) -> ActionView {
        match *self {
            Action::ListRecords { domain } => ActionView::ListRecords { domain: domain@ },
            Action::ParseAddress { text } => ActionView::ParseAddress { text: text@ },
            Action::ResolveRealIp => ActionView::ResolveRealIp,
            Action::EditRecord { domain, record_id, content } => ActionView::EditRecord {
                domain: domain@,
                record_id,
                content,
            },
            Action::Finish => ActionView::Finish,
            Action::Fail(failure) => ActionView::Fail(failure@),
        }
    }
}

/// The phase in which a run of `command` begins, once the records have been
/// asked for.
pub open spec fn first_phase(command: Command) -> Phase {
    match command {
        Command::SetValue { value } => Phase::Lookup { value },
        Command::Update => Phase::Listing,
    }
}

/// How an event that the run was not waiting for is met: the run is over.
pub open spec fn out_of_turn() -> (Phase, ActionView) {
    (Phase::Closed, ActionView::Fail(FailureView::OutOfTurn))
}

/// How a fault is met in any phase but the last: the run is over, with the
/// failure that the fault stands for.
pub open spec fn broken(fault: Fault) -> (Phase, ActionView) {
    (Phase::Closed, ActionView::Fail(fault_failure(fault)))
}

/// One step of writing a value to the record of the target's subdomain.
///
/// With the records in hand, the edit names the first record that carries
/// the subdomain and holds the value that the run was given; what the record
/// holds plays no part. With the registrar's answer to the edit in hand, the
/// run is over: done, or failed with the registrar's text.
pub open spec fn set_ip_step(phase: Phase, event: Event, target: DomainSpecView) -> (
    Phase,
    ActionView,
) {
    match phase {
        Phase::Lookup { value } => match event {
            Event::Records(response) => match looked_up(response, target.subdomain) {
                Ok(record) => (
                    Phase::Editing,
                    ActionView::EditRecord {
                        domain: target.domain,
                        record_id: record.id,
                        content: value,
                    },
                ),
                Err(failure) => (Phase::Closed, ActionView::Fail(failure)),
            },
            Event::Broken(fault) => broken(fault),
            _ => out_of_turn(),
        },
        Phase::Editing => match event {
            Event::Edited(UpdateResponse::Success { .. }) => (
                Phase::Closed,
                ActionView::Finish,
            ),
            Event::Edited(UpdateResponse::Error { error }) => (
                Phase::Closed,
                ActionView::Fail(FailureView::Registrar { message: error@ }),
            ),
            Event::Broken(fault) => broken(fault),
            _ => out_of_turn(),
        },
        _ => out_of_turn(),
    }
}

/// One step of reading the address that the record of the target's subdomain
/// holds.
///
/// With the records in hand, the content of the first record that carries
/// the subdomain is handed out to be read as an address; no other record's
/// content is read. With the address in hand, the caller's own address is
/// asked for; content that spells no address ends the run.
pub open spec fn current_ip_step(phase: Phase, event: Event, target: DomainSpecView) -> (
    Phase,
    ActionView,
) {
    match phase {
        Phase::Listing => match event {
            Event::Records(response) => match looked_up(response, target.subdomain) {
                Ok(record) => (Phase::Parsing, ActionView::ParseAddress { text: record.content }),
                Err(failure) => (Phase::Closed, ActionView::Fail(failure)),
            },
            Event::Broken(fault) => broken(fault),
            _ => out_of_turn(),
        },
        Phase::Parsing => match event {
            Event::Parsed(Some(current)) => (
                Phase::Resolving { current },
                ActionView::ResolveRealIp,
            ),
            Event::Parsed(None) => (Phase::Closed, ActionView::Fail(FailureView::Parse)),
            Event::Broken(fault) => broken(fault),
            _ => out_of_turn(),
        },
        _ => out_of_turn(),
    }
}

/// One step of bringing the record of the target's subdomain to the caller's
/// own address.
///
/// The record's address is read as [`current_ip_step`] says; then the
/// caller's own address is asked for; where the two are the same address the
/// run is over, and where they differ the caller's address is written as
/// [`set_ip_step`] says.
pub open spec fn update_step(phase: Phase, event: Event, target: DomainSpecView) -> (
    Phase,
    ActionView,
) {
    match phase {
        Phase::Listing => current_ip_step(phase, event, target),
        Phase::Parsing => current_ip_step(phase, event, target),
        Phase::Resolving { current } => match event {
            Event::RealIp(own) => if current == own {
                (Phase::Closed, ActionView::Finish)
            } else {
                (Phase::Lookup { value: own }, ActionView::ListRecords { domain: target.domain })
            },
            Event::Broken(fault) => broken(fault),
            _ => out_of_turn(),
        },
        Phase::Lookup { value } => set_ip_step(phase, event, target),
        Phase::Editing => set_ip_step(phase, event, target),
        Phase::Closed => out_of_turn(),
    }
}

/// Begins a run: cuts the full domain name at its first `.` and says in which
/// phase the run waits and what is to be done first.
///
/// A name without a `.` is refused with [`Failure::Config`], and nothing is
/// to be done. For every other name the first thing to do is to ask for the
/// records.
pub fn open(command: Command, full: &str) -> (r: Result<(DomainSpec, Phase, Action), Failure>)
    ensures
        has_dot(full@) ==> r is Ok && r->Ok_0.0@ == split_at_first_dot(full@) && r->Ok_0.1
            == first_phase(command) && r->Ok_0.2@ == (ActionView::ListRecords {
            domain: split_at_first_dot(full@).domain,
        }),
        !has_dot(full@) ==> r is Err && r->Err_0@ == FailureView::Config,
{
    let target = match split_domain(full) {
        Ok(target) => target,
        Err(failure) => {
            return Err(failure);
        },
    };
    let phase = match command {
        Command::SetValue { value } => Phase::Lookup { value },
        Command::Update => Phase::Listing,
    };
    let first = Action::ListRecords { domain: target.domain.clone() };
    Ok((target, phase, first))
}

/// Takes one step of writing a value to the record of the target's subdomain: from the
/// phase in which the run waits and the event that came, to the phase in
/// which it waits next and what is to be done.
pub fn set_ip(phase: Phase, event: Event, target: &DomainSpec) -> (r: (Phase, Action))
    ensures
        r.0 == set_ip_step(phase, event, target@).0,
        r.1@ == set_ip_step(phase, event, target@).1,
{
    match phase {
        Phase::Lookup { value } => match event {
            Event::Records(response) => match find_record(response, target.subdomain.as_str()) {
                Ok(record) => (
                    Phase::Editing,
                    Action::EditRecord {
                        domain: target.domain.clone(),
                        record_id: record.id,
                        content: value,
                    },
                ),
                Err(failure) => (Phase::Closed, Action::Fail(failure)),
            },
            Event::Broken(fault) => (Phase::Closed, Action::Fail(fault.failure())),
            _ => (Phase::Closed, Action::Fail(Failure::OutOfTurn)),
        },
        Phase::Editing => match event {
            Event::Edited(UpdateResponse::Success { .. }) => (Phase::Closed, Action::Finish),
            Event::Edited(UpdateResponse::Error { error }) => (
                Phase::Closed,
                Action::Fail(Failure::Registrar { message: error }),
            ),
            Event::Broken(fault) => (Phase::Closed, Action::Fail(fault.failure())),
            _ => (Phase::Closed, Action::Fail(Failure::OutOfTurn)),
        },
        _ => (Phase::Closed, Action::Fail(Failure::OutOfTurn)),
    }
}

/// Takes one step of reading the address that the record of the target's
/// subdomain holds: from the phase in which the run waits and the event that
/// came, to the phase in which it waits next and what is to be done.
pub fn current_ip(phase: Phase, event: Event, target: &DomainSpec) -> (r: (Phase, Action))
    ensures
        r.0 == current_ip_step(phase, event, target@).0,
        r.1@ == current_ip_step(phase, event, target@).1,
{
    match phase {
        Phase::Listing => match event {
            Event::Records(response) => match find_record(response, target.subdomain.as_str()) {
                Ok(record) => (Phase::Parsing, Action::ParseAddress { text: record.content }),
                Err(failure) => (Phase::Closed, Action::Fail(failure)),
            },
            Event::Broken(fault) => (Phase::Closed, Action::Fail(fault.failure())),
            _ => (Phase::Closed, Action::Fail(Failure::OutOfTurn)),
        },
        Phase::Parsing => match event {
            Event::Parsed(Some(current)) => (Phase::Resolving { current }, Action::ResolveRealIp),
            Event::Parsed(None) => (Phase::Closed, Action::Fail(Failure::Parse)),
            Event::Broken(fault) => (Phase::Closed, Action::Fail(fault.failure())),
            _ => (Phase::Closed, Action::Fail(Failure::OutOfTurn)),
        },
        _ => (Phase::Closed, Action::Fail(Failure::OutOfTurn)),
    }
}

/// Takes one step of bringing the record of the target's subdomain to the
/// caller's own address: from the phase in which the run waits and the event
/// that came, to the phase in which it waits next and what is to be done.
pub fn update(phase: Phase, event: Event, target: &DomainSpec) -> (r: (Phase, Action))
    ensures
        r.0 == update_step(phase, event, target@).0,
        r.1@ == update_step(phase, event, target@).1,
{
    match phase {
        Phase::Listing => current_ip(phase, event, target),
        Phase::Parsing => current_ip(phase, event, target),
        Phase::Resolving { current } => match event {
            Event::RealIp(own) => if current == own {
                (Phase::Closed, Action::Finish)
            } else {
                (Phase::Lookup { value: own }, Action::ListRecords { domain: target.domain.clone() })
            },
            Event::Broken(fault) => (Phase::Closed, Action::Fail(fault.failure())),
            _ => (Phase::Closed, Action::Fail(Failure::OutOfTurn)),
        },
        Phase::Lookup { value } => set_ip(phase, event, target),
        Phase::Editing => set_ip(phase, event, target),
        Phase::Closed => (Phase::Closed, Action::Fail(Failure::OutOfTurn)),
    }
}

} // verus!
