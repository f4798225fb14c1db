use fluent_bit_matchy::extract::{Indicator, IndicatorKind};
use fluent_bit_matchy::matches::{select_matches, Lookup, Payload};
use fluent_bit_matchy::record::{
    enrich_document, enrich_record, matchy_filter, printed_record, render_match, Disposition,
    PassThrough,
};
use fluent_bit_matchy::{
    pass_through, Action, Config, Event, FilterState, Loaded, OutputBuffer,
};

/// Stands for a database in these tests: the indicators it lists.
struct Listed(Vec<(&'static str, Payload)>);

fn network(data: &str, prefix_len: u8) -> Payload {
    Payload::Network { data: data.to_string(), prefix_len }
}

fn query(database: &Listed, indicator: &str) -> Lookup {
    for (listed, payload) in &database.0 {
        if *listed == indicator {
            return Lookup::Found(payload.clone());
        }
    }
    Lookup::NotFound
}

fn custom_fields() -> Config {
    let mut config = Config::with_defaults("./threats.mxy".to_string());
    config.output_field = "threats".to_string();
    config.flag_field = "hit".to_string();
    config
}

fn usable(config: Config, database: Listed) -> FilterState<Listed> {
    let mut state = FilterState::new();
    assert_eq!(state.step(Event::Record(0)).action, Action::ReadConfig);
    let path = config.database.clone();
    assert_eq!(state.step(Event::Config(Some(config))).action, Action::ReadDatabase(path));
    let step = state.step(Event::Database(Some(Loaded { database, modified: None })));
    assert_eq!(step.action, Action::Process);
    assert!(state.is_usable());
    state
}

/// Runs one record through a filter the way a host does, and hands back the
/// buffer's contents.
fn run(state: &FilterState<Listed>, record: &[u8]) -> (Vec<u8>, Disposition) {
    let found = state.candidates(record);
    let outcomes: Vec<Lookup> = match state.database() {
        Some(database) => found.iter().map(|i| query(database, &i.value)).collect(),
        None => Vec::new(),
    };
    let mut buffer = OutputBuffer::new();
    let disposition = matchy_filter(state, record, &found, &outcomes, &mut buffer);
    (buffer.as_slice().to_vec(), disposition)
}

fn terminated(record: &[u8]) -> Vec<u8> {
    let mut bytes = record.to_vec();
    bytes.push(0);
    bytes
}

#[test]
fn listed_address_enriches_the_record() {
    let state = usable(custom_fields(), Listed(vec![("1.2.3.4", network("...", 32))]));
    let record = br#"{"msg":"conn from 1.2.3.4"}"#;
    let (output, disposition) = run(&state, record);
    let expected = br#"{"msg":"conn from 1.2.3.4","hit":true,"threats":[{"indicator":"1.2.3.4","type":"IPv4","span":[18,25],"result":{"data":"...","prefix_len":32}}]}"#;
    assert_eq!(String::from_utf8_lossy(&output), String::from_utf8_lossy(&terminated(expected)));
    assert_eq!(disposition, Disposition::Enriched);
}

#[test]
fn record_without_indicators_is_unchanged() {
    let state = usable(custom_fields(), Listed(vec![("1.2.3.4", network("...", 32))]));
    let record = br#"{"msg":"hello world"}"#;
    let (output, disposition) = run(&state, record);
    assert_eq!(output, terminated(record));
    assert_eq!(disposition, Disposition::PassedThrough(PassThrough::NoIndicators));
}

#[test]
fn plain_text_with_listed_address_is_unchanged() {
    let state = usable(custom_fields(), Listed(vec![("1.2.3.4", network("...", 32))]));
    let record = b"plain log line 1.2.3.4";
    let found = state.candidates(record);
    assert_eq!(found.len(), 1);
    assert_eq!(found[0].value, "1.2.3.4");
    let (output, disposition) = run(&state, record);
    assert_eq!(output, terminated(record));
    assert_eq!(disposition, Disposition::PassedThrough(PassThrough::RecordUnparsable));
}

#[test]
fn unlisted_address_is_unchanged() {
    let state = usable(custom_fields(), Listed(vec![("5.6.7.8", network("...", 32))]));
    let record = br#"{"msg":"conn from 1.2.3.4"}"#;
    let (output, disposition) = run(&state, record);
    assert_eq!(output, terminated(record));
    assert_eq!(disposition, Disposition::PassedThrough(PassThrough::NoMatches));
}

#[test]
fn array_record_is_never_enriched() {
    let state = usable(custom_fields(), Listed(vec![("1.2.3.4", network("...", 32))]));
    let record = br#"["conn from 1.2.3.4"]"#;
    let (output, disposition) = run(&state, record);
    assert_eq!(output, terminated(record));
    assert_eq!(disposition, Disposition::PassedThrough(PassThrough::RecordNotEnrichable));
}

#[test]
fn scalar_record_is_never_enriched() {
    let state = usable(custom_fields(), Listed(vec![("1.2.3.4", network("...", 32))]));
    let record = br#""conn from 1.2.3.4""#;
    let (output, disposition) = run(&state, record);
    assert_eq!(output, terminated(record));
    assert_eq!(disposition, Disposition::PassedThrough(PassThrough::RecordNotEnrichable));
}

#[test]
fn empty_and_binary_records_come_out_as_they_went_in() {
    let state = usable(custom_fields(), Listed(vec![("1.2.3.4", network("...", 32))]));
    let (output, _) = run(&state, b"");
    assert_eq!(output, vec![0u8]);
    let binary = [0u8, 159, 146, 150, 255, 0, 10];
    let (output, _) = run(&state, &binary);
    assert_eq!(output, terminated(&binary));
}

#[test]
fn inert_filter_passes_everything_through() {
    let state: FilterState<Listed> = FilterState::new();
    let record = br#"{"msg":"conn from 1.2.3.4"}"#;
    assert!(state.candidates(record).is_empty());
    let (output, disposition) = run(&state, record);
    assert_eq!(output, terminated(record));
    assert_eq!(disposition, Disposition::PassedThrough(PassThrough::Inert));
}

#[test]
fn default_field_names_are_used() {
    let config = Config::with_defaults("db".to_string());
    let state = usable(config, Listed(vec![("1.2.3.4", network("x", 24))]));
    let record = br#"{"a":1,"ip":"1.2.3.4"}"#;
    let (output, _) = run(&state, record);
    let expected = br#"{"a":1,"ip":"1.2.3.4","threat_detected":true,"matchy_threats":[{"indicator":"1.2.3.4","type":"IPv4","span":[13,20],"result":{"data":"x","prefix_len":24}}]}"#;
    assert_eq!(String::from_utf8_lossy(&output), String::from_utf8_lossy(&terminated(expected)));
}

#[test]
fn existing_fields_are_overwritten_in_place() {
    let state = usable(custom_fields(), Listed(vec![("1.2.3.4", network("d", 8))]));
    let record = br#"{"hit":"old","msg":"1.2.3.4","threats":7,"z":null}"#;
    let (output, _) = run(&state, record);
    let expected = br#"{"hit":true,"msg":"1.2.3.4","threats":[{"indicator":"1.2.3.4","type":"IPv4","span":[20,27],"result":{"data":"d","prefix_len":8}}],"z":null}"#;
    assert_eq!(String::from_utf8_lossy(&output), String::from_utf8_lossy(&terminated(expected)));
}

#[test]
fn one_name_for_both_fields_keeps_the_list() {
    let mut config = custom_fields();
    config.flag_field = "threats".to_string();
    let state = usable(config, Listed(vec![("1.2.3.4", network("d", 8))]));
    let record = br#"{"msg":"1.2.3.4"}"#;
    let (output, _) = run(&state, record);
    let expected = br#"{"msg":"1.2.3.4","threats":[{"indicator":"1.2.3.4","type":"IPv4","span":[8,15],"result":{"data":"d","prefix_len":8}}]}"#;
    assert_eq!(String::from_utf8_lossy(&output), String::from_utf8_lossy(&terminated(expected)));
}

#[test]
fn matches_keep_extraction_order() {
    let database =
        Listed(vec![("9.9.9.9", network("nine", 32)), ("1.2.3.4", network("one", 16))]);
    let state = usable(custom_fields(), database);
    let record = br#"{"a":"1.2.3.4","b":"8.8.8.8","c":"9.9.9.9"}"#;
    let found = state.candidates(record);
    let values: Vec<&str> = found.iter().map(|i| i.value.as_str()).collect();
    assert_eq!(values, vec!["1.2.3.4", "8.8.8.8", "9.9.9.9"]);
    let (output, _) = run(&state, record);
    let expected = br#"{"a":"1.2.3.4","b":"8.8.8.8","c":"9.9.9.9","hit":true,"threats":[{"indicator":"1.2.3.4","type":"IPv4","span":[6,13],"result":{"data":"one","prefix_len":16}},{"indicator":"9.9.9.9","type":"IPv4","span":[34,41],"result":{"data":"nine","prefix_len":32}}]}"#;
    assert_eq!(String::from_utf8_lossy(&output), String::from_utf8_lossy(&terminated(expected)));
}

#[test]
fn disabled_toggle_extracts_nothing_of_that_kind() {
    let mut config = custom_fields();
    config.extract_ipv4 = false;
    let state = usable(config, Listed(vec![("1.2.3.4", network("...", 32))]));
    let record = br#"{"msg":"conn from 1.2.3.4"}"#;
    assert!(state.candidates(record).is_empty());
    let (output, _) = run(&state, record);
    assert_eq!(output, terminated(record));
}

#[test]
fn domains_and_hashes_are_extracted_with_their_kinds() {
    let state = usable(custom_fields(), Listed(vec![]));
    let record = b"seen evil.example.com and 5d41402abc4b2a76b9719d911017c592 today";
    let found = state.candidates(record);
    let kinds: Vec<(String, IndicatorKind, usize, usize)> =
        found.iter().map(|i| (i.value.clone(), i.kind, i.start, i.end)).collect();
    assert_eq!(
        kinds,
        vec![
            ("evil.example.com".to_string(), IndicatorKind::Domain, 5, 21),
            ("5d41402abc4b2a76b9719d911017c592".to_string(), IndicatorKind::Hash(32), 26, 58),
        ]
    );
}

#[test]
fn kinds_are_named_as_the_extractor_names_them() {
    assert_eq!(IndicatorKind::Domain.name(), "Domain");
    assert_eq!(IndicatorKind::Email.name(), "Email");
    assert_eq!(IndicatorKind::Ipv4.name(), "IPv4");
    assert_eq!(IndicatorKind::Ipv6.name(), "IPv6");
    assert_eq!(IndicatorKind::Hash(32).name(), "MD5");
    assert_eq!(IndicatorKind::Hash(40).name(), "SHA1");
    assert_eq!(IndicatorKind::Hash(64).name(), "SHA256");
    assert_eq!(IndicatorKind::Hash(96).name(), "SHA384");
    assert_eq!(IndicatorKind::Hash(128).name(), "SHA512");
    assert_eq!(IndicatorKind::Hash(7).name(), "Hash");
    assert_eq!(IndicatorKind::Bitcoin.name(), "Bitcoin");
    assert_eq!(IndicatorKind::Ethereum.name(), "Ethereum");
    assert_eq!(IndicatorKind::Monero.name(), "Monero");
}

fn indicator(value: &str, kind: IndicatorKind, start: usize, end: usize) -> Indicator {
    Indicator { value: value.to_string(), kind, start, end }
}

#[test]
fn only_found_outcomes_are_selected() {
    let found = vec![
        indicator("a.example", IndicatorKind::Domain, 0, 9),
        indicator("b.example", IndicatorKind::Domain, 10, 19),
        indicator("c.example", IndicatorKind::Domain, 20, 29),
        indicator("d.example", IndicatorKind::Domain, 30, 39),
        indicator("e.example", IndicatorKind::Domain, 40, 49),
    ];
    let outcomes = vec![
        Lookup::Failed,
        Lookup::Found(network("b", 1)),
        Lookup::Absent,
        Lookup::NotFound,
        Lookup::Found(Payload::Pattern { pattern_ids: vec![4, 2], records: vec!["e".to_string()] }),
    ];
    let matches = select_matches(&found, &outcomes);
    let values: Vec<&str> = matches.iter().map(|m| m.indicator.value.as_str()).collect();
    assert_eq!(values, vec!["b.example", "e.example"]);
    assert!(matches!(matches[0].payload, Payload::Network { prefix_len: 1, .. }));
    assert!(matches!(matches[1].payload, Payload::Pattern { .. }));
}

#[test]
fn indicator_without_outcome_is_no_match() {
    let found = vec![
        indicator("a.example", IndicatorKind::Domain, 0, 9),
        indicator("b.example", IndicatorKind::Domain, 10, 19),
    ];
    let outcomes = vec![Lookup::Found(network("a", 1))];
    let matches = select_matches(&found, &outcomes);
    assert_eq!(matches.len(), 1);
    assert_eq!(matches[0].indicator.value, "a.example");
    let none = select_matches(&found, &[]);
    assert!(none.is_empty());
    let surplus = vec![Lookup::NotFound, Lookup::NotFound, Lookup::Found(network("x", 1))];
    assert!(select_matches(&found, &surplus).is_empty());
}

#[test]
fn pattern_match_is_rendered_with_identifiers_and_data() {
    let found = indicator("bad.example.com", IndicatorKind::Domain, 3, 18);
    let payload = Payload::Pattern {
        pattern_ids: vec![7, 0, 4294967295],
        records: vec!["Some(first)".to_string(), "None".to_string()],
    };
    let lookups = [Lookup::Found(payload)];
    let indicators = [found];
    let matches = select_matches(&indicators, &lookups);
    let document = render_match(&matches[0]);
    assert_eq!(
        serde_json::to_string(&document).unwrap(),
        r#"{"indicator":"bad.example.com","type":"Domain","span":[3,18],"result":{"pattern_ids":[7,0,4294967295],"data":["Some(first)","None"]}}"#
    );
}

#[test]
fn enrich_document_tells_the_reasons_apart() {
    let config = custom_fields();
    let indicators = [indicator("1.2.3.4", IndicatorKind::Ipv4, 0, 7)];
    let lookups = [Lookup::Found(network("n", 32))];
    let matches = select_matches(&indicators, &lookups);

    let unparsable = serde_json::from_slice::<serde_json::Value>(b"{not json");
    assert_eq!(
        enrich_document(unparsable, &config, &matches).unwrap_err(),
        PassThrough::RecordUnparsable
    );
    let number = serde_json::from_slice::<serde_json::Value>(b"42");
    assert_eq!(
        enrich_document(number, &config, &matches).unwrap_err(),
        PassThrough::RecordNotEnrichable
    );
    let null = serde_json::from_slice::<serde_json::Value>(b"null");
    assert_eq!(
        enrich_document(null, &config, &matches).unwrap_err(),
        PassThrough::RecordNotEnrichable
    );
    let object = serde_json::from_slice::<serde_json::Value>(b"{}");
    let enriched = enrich_document(object, &config, &matches).unwrap();
    assert_eq!(
        serde_json::to_string(&enriched).unwrap(),
        r#"{"hit":true,"threats":[{"indicator":"1.2.3.4","type":"IPv4","span":[0,7],"result":{"data":"n","prefix_len":32}}]}"#
    );
}

#[test]
fn printing_failure_is_a_reason_to_pass_through() {
    let failure = serde_json::from_slice::<Vec<u8>>(b"oops").map(|_| Vec::new());
    assert_eq!(printed_record(failure).unwrap_err(), PassThrough::SerializationFailed);
    assert_eq!(printed_record(Ok(vec![1, 2, 3])).unwrap(), vec![1, 2, 3]);
}

#[test]
fn enrich_record_follows_the_order_of_reasons() {
    let config = custom_fields();
    let found = [indicator("1.2.3.4", IndicatorKind::Ipv4, 0, 7)];
    let hit = [Lookup::Found(network("n", 32))];
    let miss = [Lookup::NotFound];
    assert_eq!(
        enrich_record(&config, b"not json", &[], &[]).unwrap_err(),
        PassThrough::NoIndicators
    );
    assert_eq!(
        enrich_record(&config, b"not json", &found, &miss).unwrap_err(),
        PassThrough::NoMatches
    );
    assert_eq!(
        enrich_record(&config, b"not json", &found, &hit).unwrap_err(),
        PassThrough::RecordUnparsable
    );
    assert_eq!(
        enrich_record(&config, b"[1]", &found, &hit).unwrap_err(),
        PassThrough::RecordNotEnrichable
    );
    assert_eq!(
        enrich_record(&config, br#"{"k":[1.5,-2,"s",{"n":null}]}"#, &found, &hit).unwrap(),
        br#"{"k":[1.5,-2,"s",{"n":null}],"hit":true,"threats":[{"indicator":"1.2.3.4","type":"IPv4","span":[0,7],"result":{"data":"n","prefix_len":32}}]}"#.to_vec()
    );
}

#[test]
fn buffer_is_overwritten_and_terminated() {
    let mut buffer = OutputBuffer::new();
    assert!(buffer.as_slice().is_empty());
    buffer.store(b"a long first record");
    assert_eq!(buffer.as_slice(), b"a long first record\0");
    buffer.store(b"short");
    assert_eq!(buffer.as_slice(), b"short\0");
    pass_through(&mut buffer, b"");
    assert_eq!(buffer.as_slice(), b"\0");
    pass_through(&mut buffer, b"x\0y");
    assert_eq!(buffer.as_slice(), b"x\0y\0");
}
