//! Name resolution: a host name is resolved only if it is allowed.

use crate::config::{pattern_matches, set_options, Config};
use crate::extract::{extract_narrow, narrow_text};
use crate::text::{contains, str_contains};
use crate::utils::logging::{shown, truncate_message};
use vstd::prelude::*;
use vstd::string::*;

verus! {

/// The domain names a signaling endpoint.
pub open spec fn names_signaling_endpoint(domain: Seq<char>) -> bool {
    contains(domain, "dealer"@)
}

/// The domain belongs to the platform itself.
pub open spec fn names_platform(domain: Seq<char>) -> bool {
    contains(domain, "spotify.com"@)
}

/// The rule for host names. Only the allow set is consulted, never the deny
/// set. A name that could not be read arrives as the empty name and is
/// allowed; any other name needs a marker or a match in the allow set.
pub open spec fn domain_allowed(domain: Seq<char>, allow_match: bool) -> bool {
    ||| domain.len() == 0
    ||| names_signaling_endpoint(domain)
    ||| names_platform(domain)
    ||| allow_match
}

/// Whether `domain` may be resolved under `config`.
pub fn is_allowed_domain(domain: &str, config: &Config) -> (allowed: bool)
    ensures
        allowed == domain_allowed(domain@, config.allows(domain@)),
{
    domain.is_empty() || str_contains(domain, "dealer") || str_contains(domain, "spotify.com")
        || config.is_allowlisted(domain)
}

/// A host name with a signaling marker or the platform marker is resolved,
/// whatever the deny set and the allow set hold.
pub proof fn lemma_marked_domain_is_allowed(domain: Seq<char>, config: Config)
    requires
        names_signaling_endpoint(domain) || names_platform(domain),
    ensures
        resolution(domain, config.allows(domain)) == Resolution::Forward,
{
}

/// A host name that one allow pattern matches is resolved, even where a deny
/// pattern matches it too: the deny set has no say in name resolution.
pub proof fn lemma_allowlisted_domain_is_allowed(domain: Seq<char>, config: Config, index: int)
    requires
        0 <= index < config.allow_patterns().len(),
        pattern_matches(set_options(config.allowlist), config.allow_patterns()[index], domain),
    ensures
        resolution(domain, config.allows(domain)) == Resolution::Forward,
{
}

/// The decision on a host name depends on the allow set alone: two
/// configurations whose allow sets hold the same patterns and were built
/// with the same options decide alike, and so does one configuration asked
/// twice.
pub proof fn lemma_resolution_is_repeatable(domain: Seq<char>, first: Config, second: Config)
    requires
        first.allow_patterns() == second.allow_patterns(),
        set_options(first.allowlist) == set_options(second.allowlist),
    ensures
        resolution(domain, first.allows(domain)) == resolution(domain, second.allows(domain)),
{
}

/// The empty host name, which stands for a name that could not be read, and
/// the absent buffer are resolved under every configuration.
pub proof fn lemma_unreadable_domain_is_allowed(config: Config)
    ensures
        narrow_text(None) == Seq::<char>::empty(),
        resolution(Seq::<char>::empty(), config.allows(Seq::<char>::empty()))
            == Resolution::Forward,
{
}

/// What becomes of a resolution call.
#[derive(Clone, Copy, Debug, PartialEq, Eq, Structural)]
pub enum Resolution {
    /// Call the real resolver with the arguments as they came, and return
    /// what it returns.
    Forward,
    /// Return the status for a failed resolution. The real resolver is not
    /// called and nothing is allocated.
    Deny,
}

/// The decision on a resolution call, with the line that reports it.
#[derive(Debug, PartialEq, Eq)]
pub struct ResolutionOutcome {
    pub action: Resolution,
    pub line: String,
}

/// The decision for a host name.
pub open spec fn resolution(domain: Seq<char>, allow_match: bool) -> Resolution {
    if domain_allowed(domain, allow_match) {
        Resolution::Forward
    } else {
        Resolution::Deny
    }
}

/// The line that reports the decision for a host name.
pub open spec fn resolution_line(domain: Seq<char>, action: Resolution) -> Seq<char> {
    match action {
        Resolution::Forward => "[+] getaddrinfo:\t\t "@ + shown(domain),
        Resolution::Deny => "[-] getaddrinfo:\t\t "@ + shown(domain),
    }
}

/// Decides a resolution call from the host-name buffer it came with
/// (`None` for a null pointer).
pub fn on_getaddrinfo(node: Option<&[u8]>, config: &Config) -> (outcome: ResolutionOutcome)
    ensures
        ({
            let domain = narrow_text(
                match node {
                    Some(bytes) => Some(bytes@),
                    None => None,
                },
            );
            &&& outcome.action == resolution(domain, config.allows(domain))
            &&& outcome.line@ == resolution_line(domain, outcome.action)
        }),
{
    let domain = extract_narrow(node);
    if is_allowed_domain(domain.as_str(), config) {
        let mut line = String::from_str("[+] getaddrinfo:\t\t ");
        line.append(truncate_message(domain.as_str()));
        ResolutionOutcome { action: Resolution::Forward, line }
    } else {
        let mut line = String::from_str("[-] getaddrinfo:\t\t ");
        line.append(truncate_message(domain.as_str()));
        ResolutionOutcome { action: Resolution::Deny, line }
    }
}

} // verus!
