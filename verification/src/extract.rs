//! Indicators of compromise found in a record's bytes.
//!
//! The scanning itself is done by `matchy_extractor`. The functions of this
//! module that are marked `external_body` make the calls and are believed,
//! not proved.

use vstd::prelude::*;
use matchy_extractor::{ExtractedItem, Extractor, ExtractorError};
use crate::config::ExtractorToggles;

verus! {

/// `matchy_extractor::Extractor`: a configured scanner. Nothing of its inside
/// is visible here; what it finds is spoken of through `extraction`.
#[verifier::external_type_specification]
#[verifier::external_body]
pub struct ExExtractor(matchy_extractor::Extractor);

/// `matchy_extractor::ExtractorError`: why an extractor could not be built.
/// It is only ever dropped.
#[verifier::external_type_specification]
#[verifier::external_body]
pub struct ExExtractorError(matchy_extractor::ExtractorError);

/// The type of an indicator.
#[derive(Clone, Copy, Debug, PartialEq, Eq)]
pub enum IndicatorKind {
    Domain,
    Email,
    Ipv4,
    Ipv6,
    /// A file hash, with the number of hexadecimal digits of its algorithm.
    Hash(usize),
    Bitcoin,
    Ethereum,
    Monero,
}

/// One indicator that the extractor found in a record.
#[derive(Clone, Debug)]
pub struct Indicator {
    /// The indicator in its canonical form.
    pub value: String,
    /// The indicator's type.
    pub kind: IndicatorKind,
    /// Where it starts in the record, in bytes.
    pub start: usize,
    /// Where it ends in the record, in bytes: the first byte after it.
    pub end: usize,
}

/// An [`Indicator`] as plain values.
pub struct IndicatorView {
    pub value: Seq<char>,
    pub kind: IndicatorKind,
    pub start: usize,
    pub end: usize,
}

impl View for Indicator {
    type V = IndicatorView;

    open spec fn view(&self) -> IndicatorView {
        IndicatorView {
            value: self.value@,
            kind: self.kind,
            start: self.start,
            end: self.end,
        }
    }
}

impl IndicatorKind {
    /// The name under which a type of indicator is reported: the one that
    /// `matchy_extractor` gives to the items of that type. File hashes go by
    /// their algorithm, which the number of digits tells; a hash of any other
    /// length, which the extractor never reports, is a plain `Hash`.
    pub open spec fn spec_name(self) -> Seq<char> {
        match self {
            IndicatorKind::Domain => "Domain"@,
            IndicatorKind::Email => "Email"@,
            IndicatorKind::Ipv4 => "IPv4"@,
            IndicatorKind::Ipv6 => "IPv6"@,
            IndicatorKind::Hash(digits) => if digits == 32 {
                "MD5"@
            } else if digits == 40 {
                "SHA1"@
            } else if digits == 64 {
                "SHA256"@
            } else if digits == 96 {
                "SHA384"@
            } else if digits == 128 {
                "SHA512"@
            } else {
                "Hash"@
            },
            IndicatorKind::Bitcoin => "Bitcoin"@,
            IndicatorKind::Ethereum => "Ethereum"@,
            IndicatorKind::Monero => "Monero"@,
        }
    }

    /// The name under which this type of indicator is reported.
    pub fn name(&self) -> (name: &'static str)
        ensures
            name@ == self.spec_name(),
    {
        match self {
            IndicatorKind::Domain => "Domain",
            IndicatorKind::Email => "Email",
            IndicatorKind::Ipv4 => "IPv4",
            IndicatorKind::Ipv6 => "IPv6",
            IndicatorKind::Hash(digits) => if *digits == 32 {
                "MD5"
            } else if *digits == 40 {
                "SHA1"
            } else if *digits == 64 {
                "SHA256"
            } else if *digits == 96 {
                "SHA384"
            } else if *digits == 128 {
                "SHA512"
            } else {
                "Hash"
            },
            IndicatorKind::Bitcoin => "Bitcoin",
            IndicatorKind::Ethereum => "Ethereum",
            IndicatorKind::Monero => "Monero",
        }
    }
}

/// The views of `found`, in order.
pub open spec fn indicator_views(found: Seq<Indicator>) -> Seq<IndicatorView> {
    found.map_values(|i: Indicator| i@)
}

/// The extractor that `matchy_extractor`'s builder makes for `toggles`, or
/// the error that it reports.
pub uninterp spec fn built_extractor(toggles: ExtractorToggles) -> Result<
    Extractor,
    ExtractorError,
>;

/// The indicators that `extractor` finds in `bytes`, in the order in which it
/// reports them.
pub uninterp spec fn extraction(extractor: Extractor, bytes: Seq<u8>) -> Seq<IndicatorView>;

/// Calls `Extractor::builder`, sets the eight toggles and calls `build`; the
/// builder's other settings keep their defaults. Believed: the outcome depends
/// on the toggles alone, so it is `built_extractor` of them.
#[verifier::external_body]
pub(crate) fn build_extractor(toggles: &ExtractorToggles) -> (built: Result<
    Extractor,
    ExtractorError,
>)
    ensures
        built == built_extractor(*toggles),
{
    Extractor::builder()
        .extract_domains(toggles.domains)
        .extract_emails(toggles.emails)
        .extract_ipv4(toggles.ipv4)
        .extract_ipv6(toggles.ipv6)
        .extract_hashes(toggles.hashes)
        .extract_bitcoin(toggles.bitcoin)
        .extract_ethereum(toggles.ethereum)
        .extract_monero(toggles.monero)
        .build()
}

/// Calls `Extractor::extract_from_chunk` and hands each match out as plain
/// values: `as_value` of its item, the item's variant (for a hash with
/// `HashType::len`), and its span. Believed: the matches depend on the
/// extractor and the bytes alone, so they are `extraction` of the two.
#[verifier::external_body]
pub(crate) fn extract_indicators(extractor: &Extractor, bytes: &[u8]) -> (found: Vec<Indicator>)
    ensures
        indicator_views(found@) == extraction(*extractor, bytes@),
{
    extractor.extract_from_chunk(bytes).into_iter().map(|m| Indicator {
        value: m.item.as_value(),
        start: m.span.0,
        end: m.span.1,
        kind: match m.item {
            ExtractedItem::Domain(_) => IndicatorKind::Domain,
            ExtractedItem::Email(_) => IndicatorKind::Email,
            ExtractedItem::Ipv4(_) => IndicatorKind::Ipv4,
            ExtractedItem::Ipv6(_) => IndicatorKind::Ipv6,
            ExtractedItem::Hash(algorithm, _) => IndicatorKind::Hash(algorithm.len()),
            ExtractedItem::Bitcoin(_) => IndicatorKind::Bitcoin,
            ExtractedItem::Ethereum(_) => IndicatorKind::Ethereum,
            ExtractedItem::Monero(_) => IndicatorKind::Monero,
        },
    }).collect()
}

} // verus!
