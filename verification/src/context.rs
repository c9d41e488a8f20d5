//! Negotiating a GPU context: which configurations to try, and in which order.
//!
//! The order is policy, not configuration: prefer capability, then
//! compatibility, then accept minimal function.

use vstd::prelude::*;

verus! {

/// The family of GPU API a context speaks.
#[derive(Clone, Copy, Debug, PartialEq, Eq, Structural)]
pub enum ContextApi {
    /// The platform's modern desktop API.
    CoreGL,
    /// The embedded API, the one most devices offer.
    GLES,
    /// The old desktop API that still has the fixed-function pipeline.
    LegacyGL,
}

/// The profile asked of the API.
#[derive(Clone, Copy, Debug, PartialEq, Eq, Structural)]
pub enum Profile {
    Core,
    Compat,
    /// No profile is requested; the platform picks.
    Unspecified,
}

/// An API version.
#[derive(Clone, Copy, Debug, PartialEq, Eq, Structural)]
pub struct Version {
    pub major: u8,
    pub minor: u8,
}

/// One set of context attributes to attempt. An absent version asks for the
/// latest one the platform has.
#[derive(Clone, Copy, Debug, PartialEq, Eq, Structural)]
pub struct ContextConfig {
    pub api: ContextApi,
    pub version: Option<Version>,
    pub profile: Profile,
}

/// What is known of the platform when the negotiation starts.
#[derive(Clone, Copy, Debug, PartialEq, Eq, Structural)]
pub struct CapabilityHint {
    /// Whether a window already exists for the context to be created against.
    pub window_available: bool,
}

/// How many configurations a negotiation proposes.
pub const PROPOSAL_LEN: usize = 3;

/// The preferred configuration: the modern API, latest version, core profile.
pub open spec fn preferred_config() -> ContextConfig {
    ContextConfig { api: ContextApi::CoreGL, version: None, profile: Profile::Core }
}

/// The fallback: the embedded API at whatever version there is.
pub open spec fn fallback_config() -> ContextConfig {
    ContextConfig { api: ContextApi::GLES, version: None, profile: Profile::Unspecified }
}

/// The last resort: the legacy API at version 2.1.
pub open spec fn legacy_config() -> ContextConfig {
    ContextConfig {
        api: ContextApi::LegacyGL,
        version: Some(Version { major: 2, minor: 1 }),
        profile: Profile::Unspecified,
    }
}

/// The configurations to attempt for `hint`, first to last.
pub open spec fn proposal(hint: CapabilityHint) -> Seq<ContextConfig> {
    seq![preferred_config(), fallback_config(), legacy_config()]
}

/// The ordered fallback chain of context configurations.
pub struct ContextNegotiator;

impl ContextNegotiator {
    /// The whole proposal for `hint`, first attempt first.
    pub fn propose(hint: CapabilityHint) -> (configs: Vec<ContextConfig>)
        ensures
            configs@ == proposal(hint),
    {
        let mut configs: Vec<ContextConfig> = Vec::new();
        let mut index: usize = 0;
        while index < PROPOSAL_LEN
            invariant
                index <= PROPOSAL_LEN,
                configs@ == proposal(hint).take(index as int),
            decreases PROPOSAL_LEN - index,
        {
            let next = ContextNegotiator::nth(hint, index);
            match next {
                Some(config) => {
                    configs.push(config);
                },
                None => {},
            }
            index = index + 1;
        }
        configs
    }

    /// The attempt at position `index` of the proposal for `hint`, if the
    /// proposal is that long. The proposal can be walked again from the start
    /// at any time: nothing is consumed.
    pub fn nth(hint: CapabilityHint, index: usize) -> (config: Option<ContextConfig>)
        ensures
            config == (if index < proposal(hint).len() {
                Some(proposal(hint)[index as int])
            } else {
                None
            }),
    {
        if index == 0 {
            Some(ContextConfig { api: ContextApi::CoreGL, version: None, profile: Profile::Core })
        } else if index == 1 {
            Some(
                ContextConfig {
                    api: ContextApi::GLES,
                    version: None,
                    profile: Profile::Unspecified,
                },
            )
        } else if index == 2 {
            Some(
                ContextConfig {
                    api: ContextApi::LegacyGL,
                    version: Some(Version { major: 2, minor: 1 }),
                    profile: Profile::Unspecified,
                },
            )
        } else {
            None
        }
    }
}

/// Whatever is known of the platform, the proposal is the same three
/// configurations in the same order: preferred, fallback, legacy.
pub proof fn lemma_proposal_is_fixed(hint: CapabilityHint, other: CapabilityHint)
    ensures
        proposal(hint).len() == 3,
        proposal(hint)[0] == preferred_config(),
        proposal(hint)[1] == fallback_config(),
        proposal(hint)[2] == legacy_config(),
        proposal(hint) == proposal(other),
{
}

} // verus!
