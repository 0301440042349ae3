//! Solana-facing helpers for POKE token rewards.
//!
//! The disbursement transfer itself is an excluded collaborator; what lives
//! here is the client's configuration (commitment level, token mint and
//! reward vault addresses) and the address plumbing around it.  Solana's
//! own types stay opaque behind declared specifications.

use vstd::prelude::*;

use crate::error::{PokemonEngineError, PokemonResult};
use crate::models::Reward;
use crate::strutil::{concat_u128, spec_u128_decimal, str_eq};

verus! {

#[verifier::external_type_specification]
#[verifier::external_body]
pub struct ExPubkey(solana_sdk::pubkey::Pubkey);

#[verifier::external_type_specification]
#[verifier::external_body]
pub struct ExKeypair(solana_sdk::signature::Keypair);

#[verifier::external_type_specification]
#[verifier::external_body]
pub struct ExCommitmentConfig(solana_sdk::commitment_config::CommitmentConfig);

/// Whether Solana's base58 pubkey parser accepts the string; it depends on
/// the characters alone.
pub uninterp spec fn pubkey_parse_ok(s: Seq<char>) -> bool;

/// Relies on Pubkey's `FromStr`: parses a base58-encoded 32-byte key;
/// success depends on the string alone.
#[verifier::external_body]
fn parse_pubkey(s: &str) -> (r: Option<solana_sdk::pubkey::Pubkey>)
    ensures
        r is Some <==> pubkey_parse_ok(s@),
{
    <solana_sdk::pubkey::Pubkey as core::str::FromStr>::from_str(s).ok()
}

/// Relies on CommitmentConfig::finalized.
#[verifier::external_body]
fn commitment_finalized() -> solana_sdk::commitment_config::CommitmentConfig {
    solana_sdk::commitment_config::CommitmentConfig::finalized()
}

/// Relies on CommitmentConfig::confirmed.
#[verifier::external_body]
fn commitment_confirmed() -> solana_sdk::commitment_config::CommitmentConfig {
    solana_sdk::commitment_config::CommitmentConfig::confirmed()
}

/// Relies on CommitmentConfig::processed.
#[verifier::external_body]
fn commitment_processed() -> solana_sdk::commitment_config::CommitmentConfig {
    solana_sdk::commitment_config::CommitmentConfig::processed()
}

/// Relies on spl_associated_token_account::get_associated_token_address:
/// derives the associated token account address for a wallet and mint.
#[verifier::external_body]
fn ata_address(
    wallet: &solana_sdk::pubkey::Pubkey,
    mint: &solana_sdk::pubkey::Pubkey,
) -> solana_sdk::pubkey::Pubkey {
    spl_associated_token_account::get_associated_token_address(wallet, mint)
}

/// Solana client configuration for reward distribution.
pub struct SolanaClient {
    rpc_url: String,
    commitment: solana_sdk::commitment_config::CommitmentConfig,
    token_mint: Option<solana_sdk::pubkey::Pubkey>,
    reward_vault: Option<solana_sdk::pubkey::Pubkey>,
}

impl SolanaClient {
    /// A token mint address is configured.
    pub closed spec fn has_token_mint(self) -> bool {
        self.token_mint is Some
    }

    /// A reward vault address is configured.
    pub closed spec fn has_reward_vault(self) -> bool {
        self.reward_vault is Some
    }

    /// Create a new Solana client.  An unknown commitment name falls back
    /// to "confirmed"; an unparsable mint or vault address is refused, the
    /// mint checked first.
    pub fn new(
        rpc_url: String,
        commitment: &str,
        token_mint: Option<String>,
        reward_vault: Option<String>,
    ) -> (r: PokemonResult<Self>)
        ensures
            match r {
                Ok(c) => {
                    &&& match token_mint {
                        Some(m) => pubkey_parse_ok(m@) && c.has_token_mint(),
                        None => !c.has_token_mint(),
                    }
                    &&& match reward_vault {
                        Some(v) => pubkey_parse_ok(v@) && c.has_reward_vault(),
                        None => !c.has_reward_vault(),
                    }
                },
                Err(e) => match token_mint {
                    Some(m) => if !pubkey_parse_ok(m@) {
                        e matches PokemonEngineError::Solana(s) && s@ == "Invalid token mint"@
                    } else {
                        &&& reward_vault matches Some(v) && !pubkey_parse_ok(v@)
                        &&& e matches PokemonEngineError::Solana(s) && s@
                            == "Invalid reward vault"@
                    },
                    None => {
                        &&& reward_vault matches Some(v) && !pubkey_parse_ok(v@)
                        &&& e matches PokemonEngineError::Solana(s) && s@
                            == "Invalid reward vault"@
                    },
                },
            },
    {
        let commitment_config = if str_eq(commitment, "finalized") {
            commitment_finalized()
        } else if str_eq(commitment, "confirmed") {
            commitment_confirmed()
        } else if str_eq(commitment, "processed") {
            commitment_processed()
        } else {
            commitment_confirmed()
        };
        let mint = match token_mint {
            Some(m) => match parse_pubkey(m.as_str()) {
                Some(pk) => Some(pk),
                None => {
                    return Err(PokemonEngineError::Solana("Invalid token mint".to_string()));
                },
            },
            None => None,
        };
        let vault = match reward_vault {
            Some(v) => match parse_pubkey(v.as_str()) {
                Some(pk) => Some(pk),
                None => {
                    return Err(PokemonEngineError::Solana("Invalid reward vault".to_string()));
                },
            },
            None => None,
        };
        Ok(
            Self {
                rpc_url,
                commitment: commitment_config,
                token_mint: mint,
                reward_vault: vault,
            },
        )
    }

    /// Distribute a reward to the player's wallet.  The transfer itself is
    /// the excluded disbursement collaborator; this derives the accounts
    /// and returns a placeholder settlement reference built from the
    /// reward's id.
    pub fn distribute_reward(
        &self,
        reward: &Reward,
        player_wallet: &str,
        _vault_keypair: &solana_sdk::signature::Keypair,
    ) -> (r: PokemonResult<String>)
        ensures
            match r {
                Ok(sig) => {
                    &&& pubkey_parse_ok(player_wallet@)
                    &&& self.has_token_mint()
                    &&& self.has_reward_vault()
                    &&& sig@ == "placeholder_signature_"@ + spec_u128_decimal(reward.id)
                },
                Err(e) => if !pubkey_parse_ok(player_wallet@) {
                    e matches PokemonEngineError::Solana(s) && s@ == "Invalid player wallet"@
                } else if !self.has_token_mint() {
                    e matches PokemonEngineError::Solana(s) && s@ == "Token mint not configured"@
                } else {
                    &&& !self.has_reward_vault()
                    &&& e matches PokemonEngineError::Solana(s) && s@
                        == "Reward vault not configured"@
                },
            },
    {
        let player_pubkey = match parse_pubkey(player_wallet) {
            Some(pk) => pk,
            None => {
                return Err(PokemonEngineError::Solana("Invalid player wallet".to_string()));
            },
        };
        let token_mint = match &self.token_mint {
            Some(m) => m,
            None => {
                return Err(PokemonEngineError::Solana("Token mint not configured".to_string()));
            },
        };
        if self.reward_vault.is_none() {
            return Err(PokemonEngineError::Solana("Reward vault not configured".to_string()));
        }
        let _player_token_account = ata_address(&player_pubkey, token_mint);
        Ok(concat_u128("placeholder_signature_", reward.id))
    }

    /// Get the token balance for a wallet address; querying the chain is
    /// outside this core, so a reachable account reads as zero.
    pub fn get_token_balance(&self, wallet_address: &str) -> (r: PokemonResult<u64>)
        ensures
            match r {
                Ok(balance) => {
                    &&& pubkey_parse_ok(wallet_address@)
                    &&& self.has_token_mint()
                    &&& balance == 0
                },
                Err(e) => if !pubkey_parse_ok(wallet_address@) {
                    e matches PokemonEngineError::Solana(s) && s@ == "Invalid wallet address"@
                } else {
                    &&& !self.has_token_mint()
                    &&& e matches PokemonEngineError::Solana(s) && s@
                        == "Token mint not configured"@
                },
            },
    {
        let pubkey = match parse_pubkey(wallet_address) {
            Some(pk) => pk,
            None => {
                return Err(PokemonEngineError::Solana("Invalid wallet address".to_string()));
            },
        };
        let token_mint = match &self.token_mint {
            Some(m) => m,
            None => {
                return Err(PokemonEngineError::Solana("Token mint not configured".to_string()));
            },
        };
        let _token_account = ata_address(&pubkey, token_mint);
        Ok(0)
    }

    /// Verify a transaction signature; chain queries are outside this core,
    /// so this always reports success.
    pub fn verify_transaction(&self, _signature: &str) -> (r: PokemonResult<bool>)
        ensures
            r matches Ok(b) && b,
    {
        Ok(true)
    }
}

} // verus!
