//! The per-record pipeline: from a record and the outcome of its database
//! queries to the bytes that are handed back.
//!
//! Every path through the pipeline ends in one of two ways: the record is
//! enriched, or it is passed through unchanged for one of the reasons of
//! [`PassThrough`]. There is no third way, and no way to drop a record.

use vstd::prelude::*;
use serde_json::Value;
use crate::config::Config;
use crate::extract::{extract_indicators, extraction, indicator_views, Indicator, IndicatorView};
use crate::json::{
    get_field, json_bool, json_insert, json_list, json_number, json_object, json_string,
    json_text, json_tree, json_trees, lemma_get_after_push, lemma_put_new_field, parse_json,
    parsed_json, print_json, put_field, JsonFields, JsonNumber, JsonTree,
};
use crate::matches::{
    lookup_views, match_views, select_matches, selected, Lookup, LookupView, MatchView, Payload,
    PayloadView, ThreatMatch,
};
use crate::output::{pass_through, OutputBuffer};
use crate::state::{FilterState, StateView};

verus! {

/// Why a record is handed back unchanged.
#[derive(Clone, Copy, Debug, PartialEq, Eq, Structural)]
pub enum PassThrough {
    /// The filter is not usable: it was never initialised, or its
    /// initialisation failed.
    Inert,
    /// The extractor found no indicator in the record.
    NoIndicators,
    /// The database lists none of the indicators found.
    NoMatches,
    /// The record is not valid structured data.
    RecordUnparsable,
    /// The record is structured, but not an object: it has no fields.
    RecordNotEnrichable,
    /// The enriched record could not be printed.
    SerializationFailed,
}

/// What became of a record.
#[derive(Clone, Copy, Debug, PartialEq, Eq, Structural)]
pub enum Disposition {
    /// The record was handed back with the matches attached.
    Enriched,
    /// The record was handed back unchanged.
    PassedThrough(PassThrough),
}

/// An unsigned number as a document.
pub open spec fn number_tree(number: u64) -> JsonTree {
    JsonTree::Number(JsonNumber::Unsigned(number))
}

/// The document that reports what the database holds for an indicator.
pub open spec fn payload_tree(payload: PayloadView) -> JsonTree {
    match payload {
        PayloadView::Network { data, prefix_len } => JsonTree::Object(
            seq![
                ("data"@, JsonTree::Text(data)),
                ("prefix_len"@, number_tree(prefix_len as u64)),
            ],
        ),
        PayloadView::Pattern { pattern_ids, records } => JsonTree::Object(
            seq![
                (
                    "pattern_ids"@,
                    JsonTree::List(pattern_ids.map_values(|id: u32| number_tree(id as u64))),
                ),
                (
                    "data"@,
                    JsonTree::List(records.map_values(|text: Seq<char>| JsonTree::Text(text))),
                ),
            ],
        ),
    }
}

/// The document that reports one match: the indicator, the name of its type,
/// its span in the record as `[start, end]`, and what the database holds.
pub open spec fn match_tree(found: MatchView) -> JsonTree {
    JsonTree::Object(
        seq![
            ("indicator"@, JsonTree::Text(found.indicator.value)),
            ("type"@, JsonTree::Text(found.indicator.kind.spec_name())),
            (
                "span"@,
                JsonTree::List(
                    seq![
                        number_tree(found.indicator.start as u64),
                        number_tree(found.indicator.end as u64),
                    ],
                ),
            ),
            ("result"@, payload_tree(found.payload)),
        ],
    )
}

/// The document that lists `matches`, in their order.
pub open spec fn matches_tree(matches: Seq<MatchView>) -> JsonTree {
    JsonTree::List(matches.map_values(|found: MatchView| match_tree(found)))
}

/// The fields of an enriched record: those of the record, with the flag
/// field set to `true` and then the output field set to the list of matches.
/// Either replaces a field of the same name.
pub open spec fn enriched_fields(
    fields: JsonFields,
    flag_field: Seq<char>,
    output_field: Seq<char>,
    matches: Seq<MatchView>,
) -> JsonFields {
    put_field(
        put_field(fields, flag_field, JsonTree::Bool(true)),
        output_field,
        matches_tree(matches),
    )
}

/// The enriched form of a parsed record, or the reason why there is none:
/// the record did not parse, or what it holds is no object.
pub open spec fn enriched_document(
    parsed: Option<JsonTree>,
    flag_field: Seq<char>,
    output_field: Seq<char>,
    matches: Seq<MatchView>,
) -> Result<JsonTree, PassThrough> {
    match parsed {
        None => Err(PassThrough::RecordUnparsable),
        Some(JsonTree::Object(fields)) => Ok(
            JsonTree::Object(enriched_fields(fields, flag_field, output_field, matches)),
        ),
        Some(_) => Err(PassThrough::RecordNotEnrichable),
    }
}

/// The text of an enriched record, or the reason why the record is passed
/// through, for a usable filter with the configuration `config`. The reasons
/// are tried in this order: nothing was extracted; nothing extracted is
/// listed; the record is no structured data; it is no object; the enriched
/// record cannot be printed.
pub open spec fn enrichment(
    config: Config,
    record: Seq<u8>,
    found: Seq<IndicatorView>,
    outcomes: Seq<LookupView>,
) -> Result<Seq<u8>, PassThrough> {
    let matches = selected(found, outcomes);
    if found.len() == 0 {
        Err(PassThrough::NoIndicators)
    } else if matches.len() == 0 {
        Err(PassThrough::NoMatches)
    } else {
        match enriched_document(
            parsed_json(record),
            config.flag_field@,
            config.output_field@,
            matches,
        ) {
            Err(reason) => Err(reason),
            Ok(document) => match json_text(document) {
                Some(text) => Ok(text),
                None => Err(PassThrough::SerializationFailed),
            },
        }
    }
}

impl<D> StateView<D> {
    /// The indicators that the filter extracts from `record`: those that its
    /// extractor finds in the whole of the record's bytes, and none while the
    /// filter is not usable.
    pub open spec fn candidates(self, record: Seq<u8>) -> Seq<IndicatorView> {
        match self.extractor() {
            Some(extractor) => extraction(extractor, record),
            None => Seq::empty(),
        }
    }

    /// What the filter decides for `record`, given the indicators found in
    /// it and the outcome of the database query for each.
    pub open spec fn decision(
        self,
        record: Seq<u8>,
        found: Seq<IndicatorView>,
        outcomes: Seq<LookupView>,
    ) -> Result<Seq<u8>, PassThrough> {
        match self.config() {
            Some(config) => enrichment(config, record, found, outcomes),
            None => Err(PassThrough::Inert),
        }
    }

    /// The record that the filter hands back for `record`: the enriched
    /// text, or the record itself.
    pub open spec fn output(
        self,
        record: Seq<u8>,
        found: Seq<IndicatorView>,
        outcomes: Seq<LookupView>,
    ) -> Seq<u8> {
        match self.decision(record, found, outcomes) {
            Ok(text) => text,
            Err(_) => record,
        }
    }

    /// What becomes of `record`.
    pub open spec fn disposition(
        self,
        record: Seq<u8>,
        found: Seq<IndicatorView>,
        outcomes: Seq<LookupView>,
    ) -> Disposition {
        match self.decision(record, found, outcomes) {
            Ok(_) => Disposition::Enriched,
            Err(reason) => Disposition::PassedThrough(reason),
        }
    }
}

/// The names of the fields of a match and of a payload are all different
/// where they stand in one object.
proof fn lemma_field_names_differ()
    ensures
        "indicator"@ != "type"@,
        "indicator"@ != "span"@,
        "indicator"@ != "result"@,
        "type"@ != "span"@,
        "type"@ != "result"@,
        "span"@ != "result"@,
        "data"@ != "prefix_len"@,
        "pattern_ids"@ != "data"@,
{
    reveal_strlit("indicator");
    reveal_strlit("type");
    reveal_strlit("span");
    reveal_strlit("result");
    reveal_strlit("data");
    reveal_strlit("prefix_len");
    reveal_strlit("pattern_ids");
    assert("indicator"@.len() == 9 && "result"@.len() == 6);
    assert("type"@.len() == 4 && "span"@.len() == 4);
    assert("data"@.len() == 4 && "prefix_len"@.len() == 10 && "pattern_ids"@.len() == 11);
    assert("type"@[0] != "span"@[0]);
}

/// Sets a field of a document under construction whose name is new to it.
fn add_field(document: &mut Value, name: &str, value: Value, Ghost(fields): Ghost<JsonFields>)
    requires
        json_tree(*old(document)) == JsonTree::Object(fields),
        get_field(fields, name@) is None,
    ensures
        json_tree(*final(document)) == JsonTree::Object(fields.push((name@, json_tree(value)))),
{
    proof {
        lemma_put_new_field(fields, name@, json_tree(value));
    }
    json_insert(document, name.to_owned(), value);
}

/// The list of the pattern identifiers of a payload, as a document.
fn render_identifiers(identifiers: &Vec<u32>) -> (list: Value)
    ensures
        json_tree(list) == JsonTree::List(
            identifiers@.map_values(|id: u32| number_tree(id as u64)),
        ),
{
    let mut items: Vec<Value> = Vec::new();
    let mut i: usize = 0;
    while i < identifiers.len()
        invariant
            i <= identifiers.len(),
            items@.len() == i,
            forall|j: int|
                0 <= j < i ==> json_tree(#[trigger] items@[j]) == number_tree(
                    identifiers@[j] as u64,
                ),
        decreases identifiers.len() - i,
    {
        items.push(json_number(identifiers[i] as u64));
        i += 1;
    }
    assert(json_trees(items@) =~= identifiers@.map_values(|id: u32| number_tree(id as u64)));
    json_list(items)
}

/// The list of the data texts of a payload, as a document.
fn render_texts(texts: &Vec<String>) -> (list: Value)
    ensures
        json_tree(list) == JsonTree::List(
            texts@.map_values(|text: String| text@).map_values(
                |text: Seq<char>| JsonTree::Text(text),
            ),
        ),
{
    let mut items: Vec<Value> = Vec::new();
    let mut i: usize = 0;
    while i < texts.len()
        invariant
            i <= texts.len(),
            items@.len() == i,
            forall|j: int|
                0 <= j < i ==> json_tree(#[trigger] items@[j]) == JsonTree::Text(texts@[j]@),
        decreases texts.len() - i,
    {
        items.push(json_string(texts[i].clone()));
        i += 1;
    }
    assert(json_trees(items@) =~= texts@.map_values(|text: String| text@).map_values(
        |text: Seq<char>| JsonTree::Text(text),
    ));
    json_list(items)
}

/// What the database holds for an indicator, as a document.
fn render_payload(payload: &Payload) -> (document: Value)
    ensures
        json_tree(document) == payload_tree(payload@),
{
    proof {
        lemma_field_names_differ();
    }
    let mut document = json_object();
    let ghost empty: JsonFields = Seq::empty();
    match payload {
        Payload::Network { data, prefix_len } => {
            let data_value = json_string(data.clone());
            let prefix_value = json_number(*prefix_len as u64);
            add_field(&mut document, "data", data_value, Ghost(empty));
            proof {
                lemma_get_after_push(empty, "data"@, json_tree(data_value), "prefix_len"@);
            }
            add_field(
                &mut document,
                "prefix_len",
                prefix_value,
                Ghost(empty.push(("data"@, json_tree(data_value)))),
            );
            assert(json_tree(document) =~= payload_tree(payload@)) by {
                assert(empty.push(("data"@, json_tree(data_value))).push(
                    ("prefix_len"@, json_tree(prefix_value)),
                ) =~= seq![
                    ("data"@, JsonTree::Text(data@)),
                    ("prefix_len"@, number_tree(*prefix_len as u64)),
                ]);
            }
        },
        Payload::Pattern { pattern_ids, records } => {
            let ids_value = render_identifiers(pattern_ids);
            let data_value = render_texts(records);
            add_field(&mut document, "pattern_ids", ids_value, Ghost(empty));
            proof {
                lemma_get_after_push(empty, "pattern_ids"@, json_tree(ids_value), "data"@);
            }
            add_field(
                &mut document,
                "data",
                data_value,
                Ghost(empty.push(("pattern_ids"@, json_tree(ids_value)))),
            );
            assert(json_tree(document) =~= payload_tree(payload@)) by {
                assert(empty.push(("pattern_ids"@, json_tree(ids_value))).push(
                    ("data"@, json_tree(data_value)),
                ) =~= seq![
                    (
                        "pattern_ids"@,
                        JsonTree::List(pattern_ids@.map_values(|id: u32| number_tree(id as u64))),
                    ),
                    (
                        "data"@,
                        JsonTree::List(
                            records@.map_values(|text: String| text@).map_values(
                                |text: Seq<char>| JsonTree::Text(text),
                            ),
                        ),
                    ),
                ]);
            }
        },
    }
    document
}

/// One match as a document.
pub fn render_match(found: &ThreatMatch) -> (document: Value)
    ensures
        json_tree(document) == match_tree(found@),
{
    proof {
        lemma_field_names_differ();
    }
    let indicator = found.indicator;
    let value = json_string(indicator.value.clone());
    let kind = json_string(indicator.kind.name().to_owned());
    let mut span: Vec<Value> = Vec::new();
    span.push(json_number(indicator.start as u64));
    span.push(json_number(indicator.end as u64));
    assert(json_trees(span@) =~= seq![
        number_tree(indicator.start as u64),
        number_tree(indicator.end as u64),
    ]);
    let span = json_list(span);
    let result = render_payload(found.payload);

    let mut document = json_object();
    let ghost f0: JsonFields = Seq::empty();
    let ghost f1 = f0.push(("indicator"@, json_tree(value)));
    let ghost f2 = f1.push(("type"@, json_tree(kind)));
    let ghost f3 = f2.push(("span"@, json_tree(span)));
    let ghost f4 = f3.push(("result"@, json_tree(result)));
    proof {
        lemma_get_after_push(f0, "indicator"@, json_tree(value), "type"@);
        lemma_get_after_push(f0, "indicator"@, json_tree(value), "span"@);
        lemma_get_after_push(f0, "indicator"@, json_tree(value), "result"@);
        lemma_get_after_push(f1, "type"@, json_tree(kind), "span"@);
        lemma_get_after_push(f1, "type"@, json_tree(kind), "result"@);
        lemma_get_after_push(f2, "span"@, json_tree(span), "result"@);
    }
    add_field(&mut document, "indicator", value, Ghost(f0));
    add_field(&mut document, "type", kind, Ghost(f1));
    add_field(&mut document, "span", span, Ghost(f2));
    add_field(&mut document, "result", result, Ghost(f3));
    assert(f4 =~= seq![
        ("indicator"@, json_tree(value)),
        ("type"@, json_tree(kind)),
        ("span"@, json_tree(span)),
        ("result"@, json_tree(result)),
    ]);
    document
}

/// The list of matches as a document, in their order.
pub fn render_matches(matches: &[ThreatMatch]) -> (list: Value)
    ensures
        json_tree(list) == matches_tree(match_views(matches@)),
{
    let mut items: Vec<Value> = Vec::new();
    let mut i: usize = 0;
    while i < matches.len()
        invariant
            i <= matches.len(),
            items@.len() == i,
            forall|j: int|
                0 <= j < i ==> json_tree(#[trigger] items@[j]) == match_tree(matches@[j]@),
        decreases matches.len() - i,
    {
        items.push(render_match(&matches[i]));
        i += 1;
    }
    assert(json_trees(items@) =~= match_views(matches@).map_values(
        |found: MatchView| match_tree(found),
    ));
    json_list(items)
}

/// What a parse handed back, as plain values.
pub open spec fn parsed_tree(parsed: Result<Value, serde_json::Error>) -> Option<JsonTree> {
    match parsed {
        Ok(document) => Some(json_tree(document)),
        Err(_) => None,
    }
}

/// What an enrichment handed back, as plain values.
pub open spec fn document_tree(enriched: Result<Value, PassThrough>) -> Result<JsonTree, PassThrough> {
    match enriched {
        Ok(document) => Ok(json_tree(document)),
        Err(reason) => Err(reason),
    }
}

/// Attaches `matches` to a parsed record: sets the flag field to `true` and
/// the output field to the list of matches. A record that did not parse, or
/// that is no object, cannot take fields.
pub fn enrich_document(
    parsed: Result<Value, serde_json::Error>,
    config: &Config,
    matches: &[ThreatMatch],
) -> (enriched: Result<Value, PassThrough>)
    ensures
        document_tree(enriched) == enriched_document(
            parsed_tree(parsed),
            config.flag_field@,
            config.output_field@,
            match_views(matches@),
        ),
{
    match parsed {
        Err(_) => Err(PassThrough::RecordUnparsable),
        Ok(document) => {
            let mut document = document;
            if json_insert(&mut document, config.flag_field.clone(), json_bool(true)) {
                json_insert(&mut document, config.output_field.clone(), render_matches(matches));
                Ok(document)
            } else {
                Err(PassThrough::RecordNotEnrichable)
            }
        },
    }
}

/// What printing handed back, as plain values.
pub open spec fn printed_text(printed: Result<Vec<u8>, serde_json::Error>) -> Option<Seq<u8>> {
    match printed {
        Ok(bytes) => Some(bytes@),
        Err(_) => None,
    }
}

/// What a pipeline handed back, as plain values.
pub open spec fn record_text(enriched: Result<Vec<u8>, PassThrough>) -> Result<
    Seq<u8>,
    PassThrough,
> {
    match enriched {
        Ok(bytes) => Ok(bytes@),
        Err(reason) => Err(reason),
    }
}

/// The end of the pipeline: the printed record, or the reason to pass the
/// record through if printing failed.
pub fn printed_record(printed: Result<Vec<u8>, serde_json::Error>) -> (enriched: Result<
    Vec<u8>,
    PassThrough,
>)
    ensures
        record_text(enriched) == match printed_text(printed) {
            Some(text) => Ok::<Seq<u8>, PassThrough>(text),
            None => Err(PassThrough::SerializationFailed),
        },
{
    match printed {
        Ok(bytes) => Ok(bytes),
        Err(_) => Err(PassThrough::SerializationFailed),
    }
}

/// Runs the pipeline for a usable filter: parses the record, picks the
/// matches, attaches them and prints the result.
pub fn enrich_record(
    config: &Config,
    record: &[u8],
    found: &[Indicator],
    outcomes: &[Lookup],
) -> (enriched: Result<Vec<u8>, PassThrough>)
    ensures
        record_text(enriched) == enrichment(
            *config,
            record@,
            indicator_views(found@),
            lookup_views(outcomes@),
        ),
{
    let parsed = parse_json(record);
    if found.len() == 0 {
        return Err(PassThrough::NoIndicators);
    }
    let matches = select_matches(found, outcomes);
    if matches.len() == 0 {
        return Err(PassThrough::NoMatches);
    }
    match enrich_document(parsed, config, matches.as_slice()) {
        Err(reason) => Err(reason),
        Ok(document) => printed_record(print_json(&document)),
    }
}

impl<D> FilterState<D> {
    /// Extracts the indicators of `record` from the whole of its bytes. A
    /// filter that is not usable extracts nothing.
    pub fn candidates(&self, record: &[u8]) -> (found: Vec<Indicator>)
        ensures
            indicator_views(found@) == self@.candidates(record@),
    {
        match self.engine() {
            Some(engine) => extract_indicators(&engine.extractor, record),
            None => Vec::new(),
        }
    }
}

/// Filters one record: writes to `buffer` what goes back to the host, and
/// says what became of the record. `found` are the indicators extracted from
/// the record, `outcomes` what the database answered for each, in the same
/// order.
///
/// Whatever the inputs, the buffer then holds exactly one record and its
/// terminator: the enriched record, or the record as it came.
pub fn matchy_filter<D>(
    state: &FilterState<D>,
    record: &[u8],
    found: &[Indicator],
    outcomes: &[Lookup],
    buffer: &mut OutputBuffer,
) -> (disposition: Disposition)
    ensures
        final(buffer)@ == OutputBuffer::framed(
            state@.output(record@, indicator_views(found@), lookup_views(outcomes@)),
        ),
        disposition == state@.disposition(
            record@,
            indicator_views(found@),
            lookup_views(outcomes@),
        ),
{
    let enriched = match state.config() {
        Some(config) => enrich_record(config, record, found, outcomes),
        None => Err(PassThrough::Inert),
    };
    match enriched {
        Ok(bytes) => {
            buffer.store(bytes.as_slice());
            Disposition::Enriched
        },
        Err(reason) => {
            pass_through(buffer, record);
            Disposition::PassedThrough(reason)
        },
    }
}

} // verus!
