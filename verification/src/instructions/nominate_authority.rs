//! The first step of handing the authority over: the authority names a successor.

use vstd::prelude::*;
use crate::address::Address;
use crate::errors::PredictionMarketError;
use crate::state::config::Config;

verus! {

/// The records touched when the authority nominates a successor.
#[derive(Clone, Copy, Debug, PartialEq, Eq)]
pub struct NominateAuthority {
    /// Who asks.
    pub admin: Address,
    /// The configuration in force.
    pub global_config: Config,
}

impl NominateAuthority {
    /// The configuration with `new_admin` as the nominee.
    pub open spec fn nominated(config: Config, new_admin: Address) -> Config {
        Config { pending_authority: new_admin, ..config }
    }

    /// Whether the request is granted: only to the authority.
    pub open spec fn outcome(self) -> Result<(), PredictionMarketError> {
        if self.global_config.authority == self.admin {
            Ok(())
        } else {
            Err(PredictionMarketError::IncorrectAuthority)
        }
    }

    /// Records `new_admin` as the nominee. Only the authority may do so:
    /// anybody else is refused with `IncorrectAuthority`. The authority
    /// itself does not change until the nominee accepts.
    pub fn process(&mut self, new_admin: Address) -> (r: Result<(), PredictionMarketError>)
        ensures
            r == old(self).outcome(),
            final(self).admin == old(self).admin,
            r is Ok ==> final(self).global_config == Self::nominated(
                old(self).global_config,
                new_admin,
            ),
            r is Err ==> *final(self) == *old(self),
    {
        if self.global_config.authority != self.admin {
            return Err(PredictionMarketError::IncorrectAuthority);
        }
        self.global_config.pending_authority = new_admin;
        Ok(())
    }
}

} // verus!
