//! Lookup outcomes and the matches that are made of them.
//!
//! The database is queried by the caller, once for each extracted indicator
//! and in extraction order. What came back is handed in as one [`Lookup`] per
//! indicator; which of them count as matches is decided here.

use vstd::prelude::*;
use crate::extract::{indicator_views, Indicator, IndicatorView};

verus! {

/// What the database holds for an indicator that it lists.
#[derive(Clone, Debug)]
pub enum Payload {
    /// The indicator is a network address: the data of the network that
    /// holds it, and that network's prefix length.
    Network { data: String, prefix_len: u8 },
    /// The indicator matches patterns: their identifiers, and the data
    /// record of each.
    Pattern { pattern_ids: Vec<u32>, records: Vec<String> },
}

/// The outcome of one database query.
#[derive(Clone, Debug)]
pub enum Lookup {
    /// The query reported an error.
    Failed,
    /// The database holds no entries of the indicator's class.
    Absent,
    /// The database does not list the indicator.
    NotFound,
    /// The database lists the indicator.
    Found(Payload),
}

/// An extracted indicator that the database lists, with what it holds for it.
#[derive(Clone, Copy, Debug)]
pub struct ThreatMatch<'a> {
    pub indicator: &'a Indicator,
    pub payload: &'a Payload,
}

/// A [`Payload`] as plain values.
pub enum PayloadView {
    Network { data: Seq<char>, prefix_len: u8 },
    Pattern { pattern_ids: Seq<u32>, records: Seq<Seq<char>> },
}

/// A [`Lookup`] as plain values.
pub enum LookupView {
    Failed,
    Absent,
    NotFound,
    Found(PayloadView),
}

/// A [`ThreatMatch`] as plain values.
pub struct MatchView {
    pub indicator: IndicatorView,
    pub payload: PayloadView,
}

impl View for Payload {
    type V = PayloadView;

    open spec fn view(&self) -> PayloadView {
        match *self {
            Payload::Network { data, prefix_len } => PayloadView::Network {
                data: data@,
                prefix_len,
            },
            Payload::Pattern { pattern_ids, records } => PayloadView::Pattern {
                pattern_ids: pattern_ids@,
                records: records@.map_values(|text: String| text@),
            },
        }
    }
}

impl View for Lookup {
    type V = LookupView;

    open spec fn view(&self) -> LookupView {
        match *self {
            Lookup::Failed => LookupView::Failed,
            Lookup::Absent => LookupView::Absent,
            Lookup::NotFound => LookupView::NotFound,
            Lookup::Found(payload) => LookupView::Found(payload@),
        }
    }
}

impl<'a> View for ThreatMatch<'a> {
    type V = MatchView;

    open spec fn view(&self) -> MatchView {
        MatchView { indicator: (*self.indicator)@, payload: (*self.payload)@ }
    }
}

/// The views of `outcomes`, in order.
pub open spec fn lookup_views(outcomes: Seq<Lookup>) -> Seq<LookupView> {
    outcomes.map_values(|outcome: Lookup| outcome@)
}

/// The views of `matches`, in order.
pub open spec fn match_views(matches: Seq<ThreatMatch>) -> Seq<MatchView> {
    matches.map_values(|m: ThreatMatch| m@)
}

impl LookupView {
    /// What a query found, if it found anything. An error, an empty class
    /// and a plain miss all count as nothing.
    pub open spec fn payload(self) -> Option<PayloadView> {
        match self {
            LookupView::Found(payload) => Some(payload),
            _ => None,
        }
    }
}

/// The matches among `found`: each indicator whose query found something,
/// with what it found, in extraction order. The outcome of the indicator at
/// position `i` is `outcomes[i]`; an indicator without an outcome is no
/// match.
pub open spec fn selected(found: Seq<IndicatorView>, outcomes: Seq<LookupView>) -> Seq<MatchView>
    decreases found.len(),
{
    if found.len() == 0 {
        Seq::empty()
    } else {
        let last = found.len() - 1;
        let earlier = selected(found.drop_last(), outcomes);
        if last < outcomes.len() && outcomes[last].payload() is Some {
            earlier.push(
                MatchView { indicator: found[last], payload: outcomes[last].payload()->0 },
            )
        } else {
            earlier
        }
    }
}

impl Lookup {
    /// What the query found, if it found anything.
    pub fn payload(&self) -> (payload: Option<&Payload>)
        ensures
            match payload {
                Some(payload) => self@.payload() == Some(payload@),
                None => self@.payload() is None,
            },
    {
        match self {
            Lookup::Found(payload) => Some(payload),
            _ => None,
        }
    }
}

/// Picks the matches among the extracted indicators, given the outcome of
/// each one's database query.
pub fn select_matches<'a>(found: &'a [Indicator], outcomes: &'a [Lookup]) -> (matches: Vec<
    ThreatMatch<'a>,
>)
    ensures
        match_views(matches@) == selected(
            indicator_views(found@),
            lookup_views(outcomes@),
        ),
{
    let ghost found_views = indicator_views(found@);
    let ghost outcome_views = lookup_views(outcomes@);
    let mut matches: Vec<ThreatMatch<'a>> = Vec::new();
    let mut i: usize = 0;
    while i < found.len()
        invariant
            i <= found.len(),
            found_views == indicator_views(found@),
            outcome_views == lookup_views(outcomes@),
            match_views(matches@) == selected(found_views.take(i as int), outcome_views),
        decreases found.len() - i,
    {
        assert(found_views.take(i + 1).drop_last() =~= found_views.take(i as int));
        if i < outcomes.len() {
            if let Some(payload) = outcomes[i].payload() {
                matches.push(ThreatMatch { indicator: &found[i], payload });
            }
        }
        i += 1;
    }
    assert(found_views.take(found.len() as int) =~= found_views);
    matches
}

} // verus!
