//! The second step of handing the authority over: the nominee accepts.

use vstd::prelude::*;
use crate::address::Address;
use crate::errors::PredictionMarketError;
use crate::instructions::nominate_authority::NominateAuthority;
use crate::state::config::Config;

verus! {

/// The records touched when a nominee accepts the authority.
#[derive(Clone, Copy, Debug, PartialEq, Eq)]
pub struct AcceptAuthority {
    /// Who asks.
    pub new_admin: Address,
    /// The configuration in force.
    pub global_config: Config,
}

impl AcceptAuthority {
    /// `who` has been nominated in `config`.
    pub open spec fn is_nominee(config: Config, who: Address) -> bool {
        !config.pending_authority.is_unset() && config.pending_authority == who
    }

    /// `after` is `config` once `who` has taken the authority: `who` is the
    /// authority, nobody is nominated, and nothing else differs.
    pub open spec fn accepted(config: Config, who: Address, after: Config) -> bool {
        &&& after.authority == who
        &&& after.pending_authority.is_unset()
        &&& after == (Config {
            authority: after.authority,
            pending_authority: after.pending_authority,
            ..config
        })
    }

    /// Whether the request is granted: only to the nominee.
    pub open spec fn outcome(self) -> Result<(), PredictionMarketError> {
        if Self::is_nominee(self.global_config, self.new_admin) {
            Ok(())
        } else {
            Err(PredictionMarketError::IncorrectAuthority)
        }
    }

    /// Makes the caller the authority. Only the nominee may do so: while
    /// nobody is nominated, or for anybody else, it is refused with
    /// `IncorrectAuthority`.
    pub fn process(&mut self) -> (r: Result<(), PredictionMarketError>)
        ensures
            r == old(self).outcome(),
            final(self).new_admin == old(self).new_admin,
            r is Ok ==> Self::accepted(
                old(self).global_config,
                old(self).new_admin,
                final(self).global_config,
            ),
            r is Err ==> *final(self) == *old(self),
    {
        if self.global_config.pending_authority.is_zero() || self.global_config.pending_authority
            != self.new_admin {
            return Err(PredictionMarketError::IncorrectAuthority);
        }
        self.global_config.authority = self.new_admin;
        self.global_config.pending_authority = Address::default();
        Ok(())
    }
}

/// The authority changes hands in two steps. Once the authority `a` has
/// nominated `b`, an acceptance by anybody but `b` is refused with
/// `IncorrectAuthority` and one by `b` is granted; after that `a` may no
/// longer nominate. This holds for a nominee `b` that is a real address and is
/// not `a` itself.
pub proof fn lemma_two_step_transfer(
    config: Config,
    a: Address,
    b: Address,
    c: Address,
    after: Config,
)
    requires
        config.authority == a,
        !b.is_unset(),
        a != b,
        c != b,
        AcceptAuthority::accepted(NominateAuthority::nominated(config, b), b, after),
    ensures
        (NominateAuthority { admin: a, global_config: config }).outcome() is Ok,
        (AcceptAuthority {
            new_admin: c,
            global_config: NominateAuthority::nominated(config, b),
        }).outcome() == Err::<(), PredictionMarketError>(PredictionMarketError::IncorrectAuthority),
        (AcceptAuthority {
            new_admin: b,
            global_config: NominateAuthority::nominated(config, b),
        }).outcome() is Ok,
        (NominateAuthority { admin: a, global_config: after }).outcome() == Err::<
            (),
            PredictionMarketError,
        >(PredictionMarketError::IncorrectAuthority),
{
}

/// Until somebody is nominated, nobody can take the authority.
pub proof fn lemma_accept_needs_nomination(config: Config, who: Address)
    requires
        config.pending_authority.is_unset(),
    ensures
        (AcceptAuthority { new_admin: who, global_config: config }).outcome() == Err::<
            (),
            PredictionMarketError,
        >(PredictionMarketError::IncorrectAuthority),
{
}

} // verus!
