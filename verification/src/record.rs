use vstd::prelude::*;
use crate::failure::{Failure, FailureView};

verus! {

/// One entry of the registrar's directory.
#[derive(Clone, Debug, PartialEq, Eq)]
pub struct Record {
    /// The number by which the registrar knows the entry; an edit names it.
    pub id: i64,
    /// The entry's value, as the registrar wrote it.
    pub content: String,
    /// The label that the entry stands for.
    pub subdomain: String,
}

/// What a [`Record`] is, with its texts as sequences of characters.
pub struct RecordView {
    pub id: i64,
    pub content: Seq<char>,
    pub subdomain: Seq<char>,
}

impl View for Record {
    type V = RecordView;

    open spec fn view(&self) -> RecordView {
        RecordView { id: self.id, content: self.content@, subdomain: self.subdomain@ }
    }
}

/// The registrar's answer to a request for the records of a domain: the
/// records, or the text of an error.
#[derive(Clone, Debug, PartialEq, Eq)]
pub enum ListResponse {
    Success { records: Vec<Record> },
    Error { error: String },
}

/// The registrar's answer to an edit: the record as it now is, or the text of
/// an error.
#[derive(Clone, Debug, PartialEq, Eq)]
pub enum UpdateResponse {
    Success { record: Record },
    Error { error: String },
}

/// Whether `at` is the place of the first record that carries `subdomain`.
/// Labels are compared character by character, as they were written.
pub open spec fn is_first_match(records: Seq<Record>, subdomain: Seq<char>, at: int) -> bool {
    &&& 0 <= at < records.len()
    &&& records[at].subdomain@ == subdomain
    &&& forall|j: int| 0 <= j < at ==> (#[trigger] records[j]).subdomain@ != subdomain
}

/// Whether any record carries `subdomain`.
pub open spec fn has_match(records: Seq<Record>, subdomain: Seq<char>) -> bool {
    exists|i: int| 0 <= i < records.len() && (#[trigger] records[i]).subdomain@ == subdomain
}

/// The place of the first record that carries `subdomain`, counted in the
/// order of the listing; `None` where no record carries it.
pub open spec fn first_match(records: Seq<Record>, subdomain: Seq<char>) -> Option<int> {
    if has_match(records, subdomain) {
        Some(choose|at: int| is_first_match(records, subdomain, at))
    } else {
        None
    }
}

/// Only one place can be that of the first match, so `first_match` names it.
pub proof fn lemma_first_match_is(records: Seq<Record>, subdomain: Seq<char>, at: int)
    requires
        is_first_match(records, subdomain, at),
    ensures
        first_match(records, subdomain) == Some(at),
{
    assert(records[at].subdomain@ == subdomain);
    assert(has_match(records, subdomain));
    let chosen = choose|k: int| is_first_match(records, subdomain, k);
    assert(is_first_match(records, subdomain, chosen));
    if chosen < at {
        assert(records[chosen].subdomain@ == subdomain);
    } else if at < chosen {
        assert(records[at].subdomain@ == subdomain);
    }
}

/// What reading a listing gives: the records of the success variant, or the
/// registrar's failure with the text of the error variant.
pub open spec fn listed(response: ListResponse) -> Result<Seq<Record>, FailureView> {
    match response {
        ListResponse::Success { records } => Ok(records@),
        ListResponse::Error { error } => Err(FailureView::Registrar { message: error@ }),
    }
}

/// What looking `subdomain` up in a listing gives: the first record that
/// carries it; `NotFound` where none does; the registrar's failure where the
/// listing is the error variant.
pub open spec fn looked_up(response: ListResponse, subdomain: Seq<char>) -> Result<
    RecordView,
    FailureView,
> {
    match listed(response) {
        Ok(records) => match first_match(records, subdomain) {
            Some(at) => Ok(records[at]@),
            None => Err(FailureView::NotFound),
        },
        Err(failure) => Err(failure),
    }
}

/// A result of records, with texts as sequences of characters.
pub open spec fn records_view(r: Result<Vec<Record>, Failure>) -> Result<
    Seq<Record>,
    FailureView,
> {
    match r {
        Ok(records) => Ok(records@),
        Err(failure) => Err(failure@),
    }
}

/// A result of one record, with texts as sequences of characters.
pub open spec fn record_view(r: Result<Record, Failure>) -> Result<RecordView, FailureView> {
    match r {
        Ok(record) => Ok(record@),
        Err(failure) => Err(failure@),
    }
}

/// Reads a listing: the records of the success variant, in the order in which
/// they came; for the error variant [`Failure::Registrar`] with the
/// registrar's text, unchanged.
pub fn find_all_records(response: ListResponse) -> (r: Result<Vec<Record>, Failure>)
    ensures
        records_view(r) == listed(response),
{
    match response {
        ListResponse::Success { records } => Ok(records),
        ListResponse::Error { error } => Err(Failure::Registrar { message: error }),
    }
}

/// Looks `subdomain` up in a listing and gives the first record that carries
/// exactly that label.
///
/// Where several records carry it, the one that the registrar listed first is
/// given. Where none does, or the listing is empty, the result is
/// [`Failure::NotFound`]. An error variant gives [`Failure::Registrar`].
pub fn find_record(response: ListResponse, subdomain: &str) -> (r: Result<Record, Failure>)
    ensures
        record_view(r) == looked_up(response, subdomain@),
{
    let mut records = match find_all_records(response) {
        Ok(records) => records,
        Err(failure) => {
            return Err(failure);
        },
    };
    let wanted: String = subdomain.to_owned();
    let n: usize = records.len();
    let mut i: usize = 0;
    while i < n
        invariant
            listed(response) == Ok::<Seq<Record>, FailureView>(records@),
            n == records@.len(),
            i <= n,
            wanted@ == subdomain@,
            forall|j: int| 0 <= j < i ==> (#[trigger] records@[j]).subdomain@ != subdomain@,
        decreases n - i,
    {
        if records[i].subdomain == wanted {
            proof {
                lemma_first_match_is(records@, subdomain@, i as int);
            }
            let found = records.remove(i);
            return Ok(found);
        }
        i = i + 1;
    }
    Err(Failure::NotFound)
}

} // verus!
