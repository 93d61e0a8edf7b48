//! Configuration provider: the environment variables the process reads,
//! and the rule that resolves each one to a value.
//!
//! The process reads every variable once at startup; reading the process
//! environment is I/O, so a caller outside the library performs the lookup
//! and hands its raw result here.  `resolve` then returns the literal
//! environment value when the variable was set and the documented default
//! when it was not.

use vstd::prelude::*;

verus! {

/// Port the listener binds to; a fixed constant known at build time.
pub const PORT: u16 = 11706;

/// The environment variables the configuration provider consumes.
#[derive(Clone, Copy, PartialEq, Eq, Structural, Debug)]
pub enum EnvKey {
    Env,
    Component,
    Group,
    Host,
    Apps,
    User,
    DataCentre,
    Zone,
    Country,
    DnsAlias,
    LocalMode,
    Version,
}

/// The documented default for `key` when the variable is unset.  The
/// default for `Version` is the build-time version string, which only the
/// build environment knows, so the caller supplies it.
pub open spec fn default_of(key: EnvKey, build_version: Seq<char>) -> Seq<char> {
    match key {
        EnvKey::Env => "local"@,
        EnvKey::Component => "Rust-Askama-Seed"@,
        EnvKey::Group => "tool"@,
        EnvKey::Host => "local"@,
        EnvKey::Apps => "unknown"@,
        EnvKey::User => "unknown"@,
        EnvKey::DataCentre => "sd16"@,
        EnvKey::Zone => "DRN"@,
        EnvKey::Country => "srb"@,
        EnvKey::DnsAlias => ""@,
        EnvKey::LocalMode => "false"@,
        EnvKey::Version => build_version,
    }
}

/// Resolve one configuration value from the raw result of an environment
/// lookup: the literal environment value when the variable was set, the
/// documented default when it was not.
pub fn resolve(key: EnvKey, value: Option<String>, build_version: &str) -> (r: String)
    ensures
        match value {
            Some(v) => r@ == v@,
            None => r@ == default_of(key, build_version@),
        },
{
    match value {
        Some(v) => v,
        None => match key {
            EnvKey::Env => "local".to_owned(),
            EnvKey::Component => "Rust-Askama-Seed".to_owned(),
            EnvKey::Group => "tool".to_owned(),
            EnvKey::Host => "local".to_owned(),
            EnvKey::Apps => "unknown".to_owned(),
            EnvKey::User => "unknown".to_owned(),
            EnvKey::DataCentre => "sd16".to_owned(),
            EnvKey::Zone => "DRN".to_owned(),
            EnvKey::Country => "srb".to_owned(),
            EnvKey::DnsAlias => "".to_owned(),
            EnvKey::LocalMode => "false".to_owned(),
            EnvKey::Version => build_version.to_owned(),
        },
    }
}

} // verus!
