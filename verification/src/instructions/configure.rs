//! Putting a configuration in force.

use vstd::prelude::*;
use crate::address::Address;
use crate::constants::VAULT_SEED_LAMPORTS;
use crate::errors::PredictionMarketError;
use crate::state::config::Config;

verus! {

/// The number of bytes at the head of a stored record that tell its kind.
pub const DISCRIMINATOR_LEN: usize = 8;

/// `data` is a stored record of the kind that `discriminator` stands for: it
/// begins with those eight bytes.
pub open spec fn is_record_of(data: Seq<u8>, discriminator: Seq<u8>) -> bool {
    data.len() >= DISCRIMINATOR_LEN && data.subrange(0, DISCRIMINATOR_LEN as int) == discriminator
}

/// Whether stored bytes may be read as a configuration, and if not, why not.
pub open spec fn record_check(data: Seq<u8>, discriminator: Seq<u8>) -> Result<
    (),
    PredictionMarketError,
> {
    if is_record_of(data, discriminator) {
        Ok(())
    } else {
        Err(PredictionMarketError::IncorrectConfigAccount)
    }
}

/// Checks that stored bytes begin with the discriminator of a configuration.
/// Bytes that are too short for it, or begin otherwise, are refused with
/// `IncorrectConfigAccount`. What follows the discriminator is the
/// configuration itself.
pub fn check_record(data: &[u8], discriminator: &[u8; 8]) -> (r: Result<(), PredictionMarketError>)
    ensures
        r == record_check(data@, discriminator@),
{
    if data.len() < DISCRIMINATOR_LEN {
        return Err(PredictionMarketError::IncorrectConfigAccount);
    }
    let mut i: usize = 0;
    while i < DISCRIMINATOR_LEN
        invariant
            i <= DISCRIMINATOR_LEN,
            data@.len() >= DISCRIMINATOR_LEN,
            forall|j: int| 0 <= j < i ==> data@[j] == discriminator@[j],
        decreases DISCRIMINATOR_LEN - i,
    {
        if data[i] != discriminator[i] {
            assert(data@.subrange(0, DISCRIMINATOR_LEN as int)[i as int] != discriminator@[i as int]);
            return Err(PredictionMarketError::IncorrectConfigAccount);
        }
        i += 1;
    }
    assert(data@.subrange(0, DISCRIMINATOR_LEN as int) =~= discriminator@);
    Ok(())
}

/// Puts the discriminator in front of a serialized configuration: the bytes
/// to store.
pub fn frame_record(discriminator: &[u8; 8], body: &[u8]) -> (r: Vec<u8>)
    ensures
        r@ == discriminator@ + body@,
        record_check(r@, discriminator@) is Ok,
{
    let mut out: Vec<u8> = Vec::new();
    let mut i: usize = 0;
    while i < DISCRIMINATOR_LEN
        invariant
            i <= DISCRIMINATOR_LEN,
            out@ == discriminator@.subrange(0, i as int),
        decreases DISCRIMINATOR_LEN - i,
    {
        out.push(discriminator[i]);
        assert(out@ =~= discriminator@.subrange(0, i + 1));
        i += 1;
    }
    assert(out@ =~= discriminator@);
    let mut k: usize = 0;
    while k < body.len()
        invariant
            k <= body.len(),
            out@ == discriminator@ + body@.subrange(0, k as int),
        decreases body.len() - k,
    {
        out.push(body[k]);
        assert(out@ =~= discriminator@ + body@.subrange(0, k + 1));
        k += 1;
    }
    assert(out@ =~= discriminator@ + body@);
    assert(out@.subrange(0, DISCRIMINATOR_LEN as int) =~= discriminator@);
    out
}

/// What the payer has to fund when a configuration is put in force.
#[derive(Clone, Copy, Debug, PartialEq, Eq, Structural)]
pub struct ConfigureFunding {
    /// What the configuration record lacks to cover its storage cost.
    pub config_top_up: u64,
    /// What goes into the vault: the seed if the vault was empty, else nothing.
    pub vault_seed: u64,
}

/// The records touched by a request to configure the engine.
#[derive(Clone, Copy, Debug, PartialEq, Eq)]
pub struct Configure {
    /// Who asks, and pays.
    pub payer: Address,
    /// The configuration in force, `None` as long as none was ever written.
    pub config: Option<Config>,
    /// The balance held by the configuration record.
    pub config_lamports: u64,
    /// The balance of the vault that holds the markets' base currency.
    pub global_vault_lamports: u64,
}

impl Configure {
    /// `required` less `held`, and zero where nothing is lacking.
    pub open spec fn shortfall(required: u64, held: u64) -> u64 {
        if required > held {
            (required - held) as u64
        } else {
            0
        }
    }

    /// What the payer funds: the shortfall of the record and the vault's seed.
    pub open spec fn funding(self, config_cost: u64) -> ConfigureFunding {
        ConfigureFunding {
            config_top_up: Self::shortfall(config_cost, self.config_lamports),
            vault_seed: if self.global_vault_lamports == 0 {
                VAULT_SEED_LAMPORTS
            } else {
                0
            },
        }
    }

    /// Whether `new_config` is put in force, and if not, why not. An invalid
    /// configuration is refused with the reason `Config::validation` gives;
    /// one that would replace another is refused with `IncorrectAuthority`
    /// unless the payer is the authority of the one in force.
    pub open spec fn outcome(self, new_config: Config, config_cost: u64) -> Result<
        ConfigureFunding,
        PredictionMarketError,
    > {
        if new_config.validation() is Err {
            Err(new_config.validation()->Err_0)
        } else if self.config is Some && self.config->0.authority != self.payer {
            Err(PredictionMarketError::IncorrectAuthority)
        } else {
            Ok(self.funding(config_cost))
        }
    }

    /// The records after `new_config` was put in force.
    pub open spec fn configured(self, new_config: Config, config_cost: u64) -> Configure {
        Configure {
            payer: self.payer,
            config: Some(new_config),
            config_lamports: (self.config_lamports + self.funding(config_cost).config_top_up) as u64,
            global_vault_lamports: (self.global_vault_lamports + self.funding(
                config_cost,
            ).vault_seed) as u64,
        }
    }

    /// Puts `new_config` in force. `config_cost` is what the storage of the
    /// record costs. The first configuration may come from anybody; a later
    /// one only from the authority of the one it replaces, and it replaces
    /// all of it. On refusal nothing changes.
    pub fn handler(&mut self, new_config: Config, config_cost: u64) -> (r: Result<
        ConfigureFunding,
        PredictionMarketError,
    >)
        ensures
            r == old(self).outcome(new_config, config_cost),
            r is Ok ==> *final(self) == old(self).configured(new_config, config_cost),
            r is Err ==> *final(self) == *old(self),
    {
        match new_config.validate() {
            Err(e) => {
                return Err(e);
            },
            Ok(()) => {},
        }
        match self.config {
            Some(current) => {
                if current.authority != self.payer {
                    return Err(PredictionMarketError::IncorrectAuthority);
                }
            },
            None => {},
        }
        let config_top_up: u64 = if config_cost > self.config_lamports {
            config_cost - self.config_lamports
        } else {
            0
        };
        let vault_seed: u64 = if self.global_vault_lamports == 0 {
            VAULT_SEED_LAMPORTS
        } else {
            0
        };
        self.config = Some(new_config);
        self.config_lamports = self.config_lamports + config_top_up;
        self.global_vault_lamports = self.global_vault_lamports + vault_seed;
        Ok(ConfigureFunding { config_top_up, vault_seed })
    }
}

/// Putting the same configuration in force again changes nothing. Once a
/// configuration is in force, its authority may apply it again at the same
/// cost: that is granted, costs nothing and leaves every record as it is.
pub proof fn lemma_reapplying_changes_nothing(ctx: Configure, config: Config, config_cost: u64)
    requires
        ctx.outcome(config, config_cost) is Ok,
        ctx.payer == config.authority,
    ensures
        ({
            let once = ctx.configured(config, config_cost);
            &&& once.outcome(config, config_cost) == Ok::<ConfigureFunding, PredictionMarketError>(
                ConfigureFunding { config_top_up: 0, vault_seed: 0 },
            )
            &&& once.configured(config, config_cost) == once
        }),
{
}

/// Only the authority of the configuration in force replaces it: anybody
/// else is refused with `IncorrectAuthority`, whatever valid configuration is
/// offered.
pub proof fn lemma_only_the_authority_reconfigures(
    ctx: Configure,
    config: Config,
    config_cost: u64,
)
    requires
        ctx.config is Some,
        ctx.config->0.authority != ctx.payer,
        config.is_valid(),
    ensures
        ctx.outcome(config, config_cost) == Err::<ConfigureFunding, PredictionMarketError>(
            PredictionMarketError::IncorrectAuthority,
        ),
{
}

} // verus!
