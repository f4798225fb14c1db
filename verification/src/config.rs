//! The filter's configuration and its documented defaults.

use vstd::prelude::*;

verus! {

/// Which kinds of indicator the extractor looks for.
#[derive(Clone, Copy, Debug, PartialEq, Eq)]
pub struct ExtractorToggles {
    pub domains: bool,
    pub emails: bool,
    pub ipv4: bool,
    pub ipv6: bool,
    pub hashes: bool,
    pub bitcoin: bool,
    pub ethereum: bool,
    pub monero: bool,
}

/// A parsed configuration document. Immutable once loaded.
#[derive(Clone, Debug)]
pub struct Config {
    /// Path of the threat database file.
    pub database: String,
    /// Seconds of record time between two reload checks; `0` disables them.
    pub reload_interval_secs: u64,
    /// Name of the field that receives the list of matches.
    pub output_field: String,
    /// Name of the field that is set to `true` on a match.
    pub flag_field: String,
    pub extract_domains: bool,
    pub extract_emails: bool,
    pub extract_ipv4: bool,
    pub extract_ipv6: bool,
    pub extract_hashes: bool,
    pub extract_bitcoin: bool,
    pub extract_ethereum: bool,
    pub extract_monero: bool,
}

/// The reload interval of a document that names none: reload checks are off.
pub fn default_reload_interval() -> (secs: u64)
    ensures
        secs == 0,
{
    0
}

/// The output field of a document that names none.
pub fn default_output_field() -> (name: String)
    ensures
        name@ == "matchy_threats"@,
{
    "matchy_threats".to_owned()
}

/// The flag field of a document that names none.
pub fn default_flag_field() -> (name: String)
    ensures
        name@ == "threat_detected"@,
{
    "threat_detected".to_owned()
}

/// The value of an extractor toggle that a document does not set.
pub fn default_true() -> (enabled: bool)
    ensures
        enabled,
{
    true
}

impl ExtractorToggles {
    /// Every kind of indicator enabled.
    pub open spec fn all() -> ExtractorToggles {
        ExtractorToggles {
            domains: true,
            emails: true,
            ipv4: true,
            ipv6: true,
            hashes: true,
            bitcoin: true,
            ethereum: true,
            monero: true,
        }
    }
}

impl Config {
    /// The eight extractor toggles of this configuration.
    pub open spec fn spec_toggles(&self) -> ExtractorToggles {
        ExtractorToggles {
            domains: self.extract_domains,
            emails: self.extract_emails,
            ipv4: self.extract_ipv4,
            ipv6: self.extract_ipv6,
            hashes: self.extract_hashes,
            bitcoin: self.extract_bitcoin,
            ethereum: self.extract_ethereum,
            monero: self.extract_monero,
        }
    }

    /// The configuration of a document that names only the database.
    pub fn with_defaults(database: String) -> (config: Config)
        ensures
            config.database == database,
            config.reload_interval_secs == 0,
            config.output_field@ == "matchy_threats"@,
            config.flag_field@ == "threat_detected"@,
            config.spec_toggles() == ExtractorToggles::all(),
    {
        Config {
            database,
            reload_interval_secs: default_reload_interval(),
            output_field: default_output_field(),
            flag_field: default_flag_field(),
            extract_domains: default_true(),
            extract_emails: default_true(),
            extract_ipv4: default_true(),
            extract_ipv6: default_true(),
            extract_hashes: default_true(),
            extract_bitcoin: default_true(),
            extract_ethereum: default_true(),
            extract_monero: default_true(),
        }
    }

    /// The eight extractor toggles of this configuration.
    #[verifier::when_used_as_spec(spec_toggles)]
    pub fn toggles(&self) -> (toggles: ExtractorToggles)
        ensures
            toggles == self.spec_toggles(),
    {
        ExtractorToggles {
            domains: self.extract_domains,
            emails: self.extract_emails,
            ipv4: self.extract_ipv4,
            ipv6: self.extract_ipv6,
            hashes: self.extract_hashes,
            bitcoin: self.extract_bitcoin,
            ethereum: self.extract_ethereum,
            monero: self.extract_monero,
        }
    }

    /// Whether reload checks are switched on.
    pub open spec fn auto_reload(&self) -> bool {
        self.reload_interval_secs != 0
    }
}

} // verus!
