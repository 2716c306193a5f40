use vstd::prelude::*;
use vstd::string::*;
use crate::failure::{Failure, FailureView};

verus! {

/// A full domain name cut at its first `.`: the label before it, and the
/// registered domain after it.
#[derive(Clone, Debug, PartialEq, Eq)]
pub struct DomainSpec {
    pub subdomain: String,
    pub domain: String,
}

/// What a [`DomainSpec`] is: its two texts as sequences of characters.
pub struct DomainSpecView {
    pub subdomain: Seq<char>,
    pub domain: Seq<char>,
}

impl View for DomainSpec {
    type V = DomainSpecView;

    open spec fn view(&self) -> DomainSpecView {
        DomainSpecView { subdomain: self.subdomain@, domain: self.domain@ }
    }
}

/// Whether `text` holds a `.` anywhere.
pub open spec fn has_dot(text: Seq<char>) -> bool {
    exists|i: int| 0 <= i < text.len() && text[i] == '.'
}

/// Whether `at` is the place of the first `.` in `text`.
pub open spec fn is_first_dot(text: Seq<char>, at: int) -> bool {
    &&& 0 <= at < text.len()
    &&& text[at] == '.'
    &&& forall|j: int| 0 <= j < at ==> text[j] != '.'
}

/// The place of the first `.` in a text that holds one.
pub open spec fn first_dot(text: Seq<char>) -> int
    recommends
        has_dot(text),
{
    choose|at: int| is_first_dot(text, at)
}

/// The two parts of a text that holds a `.`: what stands before the first
/// `.`, and what stands after it. The `.` itself belongs to neither.
pub open spec fn split_at_first_dot(text: Seq<char>) -> DomainSpecView
    recommends
        has_dot(text),
{
    DomainSpecView {
        subdomain: text.subrange(0, first_dot(text)),
        domain: text.subrange(first_dot(text) + 1, text.len() as int),
    }
}

/// Only one place can be that of the first `.`, so `first_dot` is that place.
pub proof fn lemma_first_dot_is(text: Seq<char>, at: int)
    requires
        is_first_dot(text, at),
    ensures
        has_dot(text),
        first_dot(text) == at,
{
    let chosen = first_dot(text);
    assert(is_first_dot(text, chosen));
    if chosen < at {
        assert(text[chosen] == '.');
    } else if at < chosen {
        assert(text[at] == '.');
    }
}

/// Cuts a full domain name at its first `.`.
///
/// A name without a `.` is refused with [`Failure::Config`]; every other name
/// is cut, whatever else it holds.
pub fn split_domain(full: &str) -> (r: Result<DomainSpec, Failure>)
    ensures
        has_dot(full@) ==> r is Ok && r->Ok_0@ == split_at_first_dot(full@),
        !has_dot(full@) ==> r is Err && r->Err_0@ == FailureView::Config,
{
    let n: usize = full.unicode_len();
    let mut i: usize = 0;
    while i < n
        invariant
            n == full@.len(),
            i <= n,
            forall|j: int| 0 <= j < i ==> full@[j] != '.',
        decreases n - i,
    {
        if full.get_char(i) == '.' {
            proof {
                lemma_first_dot_is(full@, i as int);
            }
            let subdomain = full.substring_char(0, i).to_owned();
            let domain = full.substring_char(i + 1, n).to_owned();
            return Ok(DomainSpec { subdomain, domain });
        }
        i = i + 1;
    }
    Err(Failure::Config)
}

} // verus!
