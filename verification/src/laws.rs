//! What holds of the filter as a whole: the laws that its parts add up to.
//!
//! Each law is stated over the models that the contracts of the executable
//! functions use, and is proved from their definitions.

use vstd::prelude::*;
use crate::extract::IndicatorView;
use crate::json::{
    get_field, json_text, lemma_put_field_keeps_others, lemma_put_field_keeps_places,
    lemma_put_field_sets, parsed_json, JsonFields, JsonTree,
};
use crate::matches::{selected, LookupView};
use crate::output::OutputBuffer;
use crate::record::{enriched_fields, matches_tree, Disposition, PassThrough};
use crate::state::{reload_due, Action, Event, Notice, Stage, StateView, Step};

verus! {

impl<D> Stage<D> {
    /// How many actions the caller may still be asked for before the record
    /// in hand can be processed.
    pub open spec fn pending_actions(self) -> nat {
        match self {
            Stage::AwaitingConfig => 4,
            Stage::AwaitingDatabase(_) => 3,
            Stage::AwaitingStat(_) => 2,
            Stage::AwaitingReload(_) => 1,
            _ => 0,
        }
    }

    /// The event that the machine is waiting for, if `event` is of that
    /// kind.
    pub open spec fn awaits(self, event: Event<D>) -> bool {
        match self {
            Stage::AwaitingConfig => event is Config,
            Stage::AwaitingDatabase(_) => event is Database,
            Stage::AwaitingStat(_) => event is Stat,
            Stage::AwaitingReload(_) => event is Database,
            _ => false,
        }
    }
}

/// No record is dropped and none is made up: whatever the state and the
/// inputs, a record that is passed through comes out as it went in, and any
/// other comes out as its enriched text. The buffer holds that one record and
/// its terminator.
pub proof fn law_every_record_comes_out<D>(
    state: StateView<D>,
    record: Seq<u8>,
    found: Seq<IndicatorView>,
    outcomes: Seq<LookupView>,
)
    ensures
        match state.disposition(record, found, outcomes) {
            Disposition::PassedThrough(_) => state.output(record, found, outcomes) == record,
            Disposition::Enriched => state.decision(record, found, outcomes) == Ok::<
                Seq<u8>,
                PassThrough,
            >(state.output(record, found, outcomes)),
        },
        OutputBuffer::framed(state.output(record, found, outcomes)).len() == state.output(
            record,
            found,
            outcomes,
        ).len() + 1,
        OutputBuffer::framed(state.output(record, found, outcomes)).last() == 0u8,
        OutputBuffer::framed(state.output(record, found, outcomes)).drop_last() == state.output(
            record,
            found,
            outcomes,
        ),
{
    let output = state.output(record, found, outcomes);
    assert(OutputBuffer::framed(output).drop_last() =~= output);
}

/// The caller's loop ends: an event that the machine was waiting for brings
/// it closer to processing the record, and after a record or such an event
/// the machine asks for an action exactly as long as something is pending.
/// A record needs at most four actions. Any other event changes nothing.
pub proof fn law_actions_run_out<D>(state: StateView<D>, event: Event<D>)
    ensures
        event is Record || state.stage.awaits(event) ==> (state.next(event).1.action is Process)
            == (state.next(event).0.stage.pending_actions() == 0),
        state.next(event).0.stage.pending_actions() <= 4,
        state.stage.awaits(event) ==> state.next(event).0.stage.pending_actions()
            < state.stage.pending_actions(),
        !(event is Record) && !state.stage.awaits(event) ==> state.next(event) == (
            state,
            Step::proceed(),
        ),
        match state.next(event).1.action {
            Action::ReadConfig => state.next(event).0.stage is AwaitingConfig,
            Action::ReadDatabase(_) => state.next(event).0.stage is AwaitingDatabase
                || state.next(event).0.stage is AwaitingReload,
            Action::StatDatabase(_) => state.next(event).0.stage is AwaitingStat,
            Action::Process => true,
        },
{
}

/// The three handles go together: a filter has a configuration, a database
/// and an extractor, or none of them. No event changes that.
pub proof fn law_handles_go_together<D>(state: StateView<D>, event: Event<D>)
    ensures
        state.config() is Some == state.usable(),
        state.database() is Some == state.usable(),
        state.extractor() is Some == state.usable(),
        state.database_mtime() is Some ==> state.usable(),
        state.next(event).0.config() is Some == state.next(event).0.usable(),
        state.next(event).0.database() is Some == state.next(event).0.usable(),
        state.next(event).0.extractor() is Some == state.next(event).0.usable(),
{
}

/// Where nothing matches, nothing changes: if the extractor found nothing,
/// or the database has none of what it found, the output is the input, byte
/// for byte, and so is the buffer up to its terminator.
pub proof fn law_unchanged_without_match<D>(
    state: StateView<D>,
    record: Seq<u8>,
    found: Seq<IndicatorView>,
    outcomes: Seq<LookupView>,
)
    requires
        found.len() == 0 || forall|i: int|
            0 <= i < found.len() && i < outcomes.len() ==> (#[trigger] outcomes[i]).payload()
                is None,
    ensures
        state.output(record, found, outcomes) == record,
        OutputBuffer::framed(state.output(record, found, outcomes)) == OutputBuffer::framed(
            record,
        ),
        state.disposition(record, found, outcomes) is PassedThrough,
{
    law_no_hits_no_matches(found, outcomes);
}

/// Where no query found anything, there are no matches.
pub proof fn law_no_hits_no_matches(found: Seq<IndicatorView>, outcomes: Seq<LookupView>)
    requires
        found.len() == 0 || forall|i: int|
            0 <= i < found.len() && i < outcomes.len() ==> (#[trigger] outcomes[i]).payload()
                is None,
    ensures
        selected(found, outcomes).len() == 0,
    decreases found.len(),
{
    if found.len() > 0 {
        law_no_hits_no_matches(found.drop_last(), outcomes);
    }
}

/// The position among the extracted indicators of the one that match `k` is
/// made of.
pub open spec fn source_of(found: Seq<IndicatorView>, outcomes: Seq<LookupView>, k: int) -> int
    decreases found.len(),
{
    if found.len() == 0 {
        -1
    } else if k < selected(found.drop_last(), outcomes).len() {
        source_of(found.drop_last(), outcomes, k)
    } else {
        found.len() - 1
    }
}

/// The matches are the indicators that the database lists, in extraction
/// order. Each match is made of one extracted indicator and of what that
/// indicator's own query found; a later match is made of a later indicator;
/// and every indicator whose query found something makes a match.
pub proof fn law_matches_follow_extraction(found: Seq<IndicatorView>, outcomes: Seq<LookupView>)
    ensures
        selected(found, outcomes).len() <= found.len(),
        forall|k: int|
            0 <= k < selected(found, outcomes).len() ==> {
                let i = #[trigger] source_of(found, outcomes, k);
                &&& k <= i < found.len()
                &&& i < outcomes.len()
                &&& outcomes[i].payload() == Some(selected(found, outcomes)[k].payload)
                &&& found[i] == selected(found, outcomes)[k].indicator
            },
        forall|k: int, l: int|
            0 <= k < l < selected(found, outcomes).len() ==> #[trigger] source_of(
                found,
                outcomes,
                k,
            ) < #[trigger] source_of(found, outcomes, l),
        forall|i: int|
            0 <= i < found.len() && i < outcomes.len() && (#[trigger] outcomes[i]).payload()
                is Some ==> exists|k: int|
                0 <= k < selected(found, outcomes).len() && #[trigger] source_of(
                    found,
                    outcomes,
                    k,
                ) == i,
    decreases found.len(),
{
    if found.len() > 0 {
        let earlier = found.drop_last();
        let last = found.len() - 1;
        law_matches_follow_extraction(earlier, outcomes);
        let all = selected(found, outcomes);
        let before = selected(earlier, outcomes);
        assert forall|k: int| 0 <= k < all.len() implies {
            let i = #[trigger] source_of(found, outcomes, k);
            &&& k <= i < found.len()
            &&& i < outcomes.len()
            &&& outcomes[i].payload() == Some(all[k].payload)
            &&& found[i] == all[k].indicator
        } by {
            if k < before.len() {
                let i = source_of(earlier, outcomes, k);
                assert(all[k] == before[k]);
                assert(found[i] == earlier[i]);
            }
        }
        assert forall|k: int, l: int| 0 <= k < l < all.len() implies #[trigger] source_of(
            found,
            outcomes,
            k,
        ) < #[trigger] source_of(found, outcomes, l) by {
            assert(source_of(found, outcomes, k) == source_of(earlier, outcomes, k));
            if l < before.len() {
                assert(source_of(found, outcomes, l) == source_of(earlier, outcomes, l));
            } else {
                assert(source_of(earlier, outcomes, k) < earlier.len());
                assert(source_of(found, outcomes, l) == last);
            }
        }
        assert forall|i: int|
            0 <= i < found.len() && i < outcomes.len() && (#[trigger] outcomes[i]).payload()
                is Some implies exists|k: int|
            0 <= k < all.len() && #[trigger] source_of(found, outcomes, k) == i by {
            if i < last {
                let k = choose|k: int|
                    0 <= k < before.len() && #[trigger] source_of(earlier, outcomes, k) == i;
                assert(source_of(found, outcomes, k) == i);
            } else {
                assert(source_of(found, outcomes, before.len() as int) == i);
            }
        }
    }
}

/// The shape of an enriched record: where the filter is usable, at least one
/// indicator is listed and the record is an object, the output is the text
/// of the record's fields with the flag field and the output field set, if
/// that text can be printed, and the record itself if not. Setting the two
/// removes, moves and changes no other field; the output field holds the list
/// of matches; the flag field holds `true`, unless both go by one name.
pub proof fn law_enrichment_shape<D>(
    state: StateView<D>,
    record: Seq<u8>,
    found: Seq<IndicatorView>,
    outcomes: Seq<LookupView>,
    fields: JsonFields,
)
    requires
        state.config() is Some,
        selected(found, outcomes).len() > 0,
        parsed_json(record) == Some(JsonTree::Object(fields)),
    ensures
        ({
            let config = state.config()->0;
            let matches = selected(found, outcomes);
            let enriched = enriched_fields(
                fields,
                config.flag_field@,
                config.output_field@,
                matches,
            );
            &&& state.output(record, found, outcomes) == match json_text(
                JsonTree::Object(enriched),
            ) {
                Some(text) => text,
                None => record,
            }
            &&& get_field(enriched, config.output_field@) == Some(matches_tree(matches))
            &&& config.flag_field@ != config.output_field@ ==> get_field(
                enriched,
                config.flag_field@,
            ) == Some(JsonTree::Bool(true))
            &&& forall|name: Seq<char>|
                name != config.flag_field@ && name != config.output_field@ ==> #[trigger] get_field(
                    enriched,
                    name,
                ) == get_field(fields, name)
            &&& fields.len() <= enriched.len() <= fields.len() + 2
            &&& forall|i: int|
                0 <= i < fields.len() ==> (#[trigger] enriched[i]).0 == fields[i].0
            &&& forall|i: int|
                0 <= i < fields.len() && fields[i].0 != config.flag_field@ && fields[i].0
                    != config.output_field@ ==> #[trigger] enriched[i] == fields[i]
        }),
{
    let config = state.config()->0;
    let matches = selected(found, outcomes);
    let flag = config.flag_field@;
    let output = config.output_field@;
    let flagged = crate::json::put_field(fields, flag, JsonTree::Bool(true));
    let enriched = enriched_fields(fields, flag, output, matches);
    lemma_put_field_sets(flagged, output, matches_tree(matches));
    lemma_put_field_sets(fields, flag, JsonTree::Bool(true));
    lemma_put_field_keeps_places(fields, flag, JsonTree::Bool(true));
    lemma_put_field_keeps_places(flagged, output, matches_tree(matches));
    if flag != output {
        lemma_put_field_keeps_others(flagged, output, matches_tree(matches), flag);
    }
    assert forall|name: Seq<char>| name != flag && name != output implies #[trigger] get_field(
        enriched,
        name,
    ) == get_field(fields, name) by {
        lemma_put_field_keeps_others(fields, flag, JsonTree::Bool(true), name);
        lemma_put_field_keeps_others(flagged, output, matches_tree(matches), name);
    }
    assert forall|i: int| 0 <= i < fields.len() implies (#[trigger] enriched[i]).0
        == fields[i].0 by {
        assert(flagged[i].0 == fields[i].0);
    }
    assert forall|i: int|
        0 <= i < fields.len() && fields[i].0 != flag && fields[i].0 != output implies #[trigger] enriched[i]
        == fields[i] by {
        assert(flagged[i] == fields[i]);
    }
}

/// A record that is structured but no object is never enriched, whatever
/// was found in it.
pub proof fn law_non_object_passes_through<D>(
    state: StateView<D>,
    record: Seq<u8>,
    found: Seq<IndicatorView>,
    outcomes: Seq<LookupView>,
)
    requires
        parsed_json(record) is Some,
        !(parsed_json(record)->0 is Object),
    ensures
        state.output(record, found, outcomes) == record,
        state.disposition(record, found, outcomes) is PassedThrough,
{
}

/// A record that is no structured data is never enriched, whatever was found
/// in it.
pub proof fn law_unparsable_passes_through<D>(
    state: StateView<D>,
    record: Seq<u8>,
    found: Seq<IndicatorView>,
    outcomes: Seq<LookupView>,
)
    requires
        parsed_json(record) is None,
    ensures
        state.output(record, found, outcomes) == record,
        state.disposition(record, found, outcomes) is PassedThrough,
{
}

/// Initialisation happens once. The configuration is asked for when the
/// first record reaches a fresh filter and never again; a filter that has
/// begun its initialisation stays initialised; and only the answer to that
/// one request can report a missing configuration.
pub proof fn law_initialization_happens_once<D>(state: StateView<D>, event: Event<D>)
    ensures
        state.next(event).1.action is ReadConfig <==> state.stage is Fresh && event is Record,
        state.initialized() ==> state.next(event).0.initialized(),
        event is Record ==> state.next(event).0.initialized(),
        state.next(event).1.notice == Some(Notice::ConfigMissing) <==> state.stage
            is AwaitingConfig && event == Event::<D>::Config(None),
        state.next(event).0.usable() && !state.usable() ==> state.stage is AwaitingDatabase
            && event is Database,
{
}

/// The state that a filter is in after `events`, one after the other.
pub open spec fn state_after<D>(state: StateView<D>, events: Seq<Event<D>>) -> StateView<D>
    decreases events.len(),
{
    if events.len() == 0 {
        state
    } else {
        state_after(state, events.drop_last()).next(events.last()).0
    }
}

/// The machine's answers to `events`, one after the other.
pub open spec fn answers<D>(state: StateView<D>, events: Seq<Event<D>>) -> Seq<Step>
    decreases events.len(),
{
    if events.len() == 0 {
        Seq::empty()
    } else {
        answers(state, events.drop_last()).push(
            state_after(state, events.drop_last()).next(events.last()).1,
        )
    }
}

/// How many of `steps` ask for the configuration document.
pub open spec fn config_requests(steps: Seq<Step>) -> nat
    decreases steps.len(),
{
    if steps.len() == 0 {
        0
    } else if steps.last().action is ReadConfig {
        config_requests(steps.drop_last()) + 1
    } else {
        config_requests(steps.drop_last())
    }
}

/// How many of `steps` report that the initialisation has failed.
pub open spec fn initialization_failures(steps: Seq<Step>) -> nat
    decreases steps.len(),
{
    if steps.len() == 0 {
        0
    } else if steps.last().notice == Some(Notice::ConfigMissing) || steps.last().notice == Some(
        Notice::ExtractorBuildFailed,
    ) {
        initialization_failures(steps.drop_last()) + 1
    } else {
        initialization_failures(steps.drop_last())
    }
}

/// However many records and other events a filter sees, in whatever order,
/// it asks for its configuration at most once, and reports at most once that
/// its initialisation failed: once and not once for every record. It has
/// asked exactly when it is no longer fresh, and a filter that was not fresh
/// to begin with never asks.
pub proof fn law_one_initialization_for_all_records<D>(
    state: StateView<D>,
    events: Seq<Event<D>>,
)
    ensures
        config_requests(answers(state, events)) == if state.initialized() || !state_after(
            state,
            events,
        ).initialized() {
            0nat
        } else {
            1nat
        },
        initialization_failures(answers(state, events)) <= 1,
        state_after(state, events).stage is Fresh || state_after(state, events).stage
            is AwaitingConfig ==> initialization_failures(answers(state, events)) == 0,
        state.stage is Inert || state.usable() ==> initialization_failures(
            answers(state, events),
        ) == 0,
        state.initialized() ==> state_after(state, events).initialized(),
    decreases events.len(),
{
    if events.len() > 0 {
        let earlier = events.drop_last();
        law_one_initialization_for_all_records(state, earlier);
        assert(answers(state, events).drop_last() =~= answers(state, earlier));
        if state.usable() {
            law_usable_filter_stays_usable(state, earlier);
        }
        if state.stage is Inert {
            law_inert_filter_stays_inert(state, earlier);
        }
    }
}

/// No sequence of events takes a usable filter out of service: whatever
/// fails later, a filter that works goes on working.
pub proof fn law_usable_filter_stays_usable<D>(state: StateView<D>, events: Seq<Event<D>>)
    requires
        state.usable(),
    ensures
        state_after(state, events).usable(),
    decreases events.len(),
{
    if events.len() > 0 {
        law_usable_filter_stays_usable(state, events.drop_last());
    }
}

/// No sequence of events brings an inert filter into service: a failed
/// initialisation is final.
pub proof fn law_inert_filter_stays_inert<D>(state: StateView<D>, events: Seq<Event<D>>)
    requires
        state.stage is Inert,
    ensures
        state_after(state, events).stage is Inert,
    decreases events.len(),
{
    if events.len() > 0 {
        law_inert_filter_stays_inert(state, events.drop_last());
    }
}

/// An inert filter stays inert and silent: no event makes it usable, asks
/// for an action or reports anything, and every record passes through it
/// unchanged.
pub proof fn law_inert_filter_passes_through<D>(
    state: StateView<D>,
    event: Event<D>,
    record: Seq<u8>,
    found: Seq<IndicatorView>,
    outcomes: Seq<LookupView>,
)
    requires
        state.stage is Inert,
    ensures
        state.next(event).0.stage is Inert,
        state.next(event).1 == Step::proceed(),
        state.output(record, found, outcomes) == record,
        state.next(event).0.output(record, found, outcomes) == record,
        state.candidates(record) == Seq::<IndicatorView>::empty(),
{
}

/// The cadence of reload checks. A usable filter with nothing pending asks
/// for the file's modification time exactly when a check is due for the
/// record's timestamp. That timestamp then becomes the time of the last
/// check, so that no further check is due before a whole interval of record
/// time has passed; a record for which none is due changes nothing but the
/// timestamp in hand.
pub proof fn law_reload_cadence<D>(state: StateView<D>, now: u32, later: u32)
    requires
        state.stage is Ready,
    ensures
        ({
            let interval = state.config()->0.reload_interval_secs;
            let (checked, step) = state.next(Event::Record(now));
            &&& step.action is StatDatabase <==> reload_due(
                interval,
                state.last_reload_check_sec,
                now,
            )
            &&& step.action is StatDatabase ==> checked.last_reload_check_sec == now
                && step.action == Action::StatDatabase(state.config()->0.database)
            &&& !(step.action is StatDatabase) ==> step.action is Process && checked.stage
                == state.stage && checked.last_reload_check_sec == state.last_reload_check_sec
            &&& step.notice is None
            &&& step.action is StatDatabase && later < now + interval ==> !reload_due(
                interval,
                checked.last_reload_check_sec,
                later,
            )
            &&& interval == 0 ==> step.action is Process
        }),
{
}

/// A reload never takes a working filter out of service: from the request
/// for the file's modification time to the end of the check the filter stays
/// usable with its configuration and its extractor, and its database changes
/// only when a changed file was read and parsed.
pub proof fn law_reload_keeps_filter_usable<D>(state: StateView<D>, event: Event<D>)
    requires
        state.usable(),
    ensures
        state.next(event).0.usable(),
        state.next(event).0.config() == state.config(),
        state.next(event).0.extractor() == state.extractor(),
        state.next(event).0.database() != state.database() ==> state.stage is AwaitingReload
            && event is Database && event->Database_0 is Some,
        state.stage is AwaitingStat && event == Event::<D>::Stat(None) ==> state.next(event).0.stage
            == Stage::Ready(state.stage->AwaitingStat_0) && state.next(event).1
            == Step::proceed(),
        state.stage is AwaitingReload && event == Event::<D>::Database(None) ==> state.next(
            event,
        ).0.stage == Stage::Ready(state.stage->AwaitingReload_0),
{
}

} // verus!
