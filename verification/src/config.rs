//! Global configuration: the read-only surface every operation consults.

use vstd::prelude::*;

use crate::errors::ErrorCode;

verus! {

/// Governance-wide parameters, owned by an admin identity.
#[derive(Clone, Copy, Debug, PartialEq, Eq, Structural)]
pub struct GlobalConfig {
    /// Identity allowed to change this configuration.
    pub admin: u64,
    /// Accumulated vote weight a proposal needs before funds may be released.
    pub voting_threshold: u64,
    /// Demurrage rate, in units of 1/10000 of the balance per year.
    pub demurrage_rate: u64,
    /// How long a proposal accepts votes after creation.
    pub proposal_duration_seconds: u64,
    /// How many leading zero hex digits a proposal's proof-of-work must show.
    pub pow_difficulty: u32,
}

/// Create the global configuration, owned by `admin`.
pub fn initialize_config(
    admin: u64,
    voting_threshold: u64,
    demurrage_rate: u64,
    proposal_duration_seconds: u64,
    pow_difficulty: u32,
) -> (r: GlobalConfig)
    ensures
        r == (GlobalConfig {
            admin,
            voting_threshold,
            demurrage_rate,
            proposal_duration_seconds,
            pow_difficulty,
        }),
{
    GlobalConfig { admin, voting_threshold, demurrage_rate, proposal_duration_seconds, pow_difficulty }
}

/// Replace every parameter of the configuration. Only the admin recorded in
/// the configuration may do so; anyone else is rejected with no change.
pub fn update_config(
    config: &mut GlobalConfig,
    caller: u64,
    voting_threshold: u64,
    demurrage_rate: u64,
    proposal_duration_seconds: u64,
    pow_difficulty: u32,
) -> (r: Result<(), ErrorCode>)
    ensures
        caller == old(config).admin ==> r is Ok && *final(config) == (GlobalConfig {
            admin: old(config).admin,
            voting_threshold,
            demurrage_rate,
            proposal_duration_seconds,
            pow_difficulty,
        }),
        caller != old(config).admin ==> r == Err::<(), ErrorCode>(ErrorCode::UnauthorizedAdmin)
            && *final(config) == *old(config),
{
    if config.admin != caller {
        return Err(ErrorCode::UnauthorizedAdmin);
    }
    config.voting_threshold = voting_threshold;
    config.demurrage_rate = demurrage_rate;
    config.proposal_duration_seconds = proposal_duration_seconds;
    config.pow_difficulty = pow_difficulty;
    Ok(())
}

} // verus!
