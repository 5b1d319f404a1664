use vstd::prelude::*;
use vstd::string::StringExecFns;
use crate::codec::{decode_balance, decode_balance_spec, decode_metadata, decode_metadata_spec,
    RemoteResult};
use crate::errors::{AmmError, AssetSide};
use crate::pricing;
use crate::pricing::quote_result;

verus! {

/// The descriptive record of one asset: its display symbol and the decimal
/// precision of its smallest unit. Absent until bootstrap completes.
#[derive(Debug)]
pub struct TokenMetadata {
    pub symbol: String,
    pub decimals: u8,
}

/// Both assets' metadata, available only once bootstrap has completed.
#[derive(Debug)]
pub struct MetadataTokens {
    pub metadata_token_a: TokenMetadata,
    pub metadata_token_b: TokenMetadata,
}

/// What one settlement orchestration carries between the deposit
/// notification and the moment both balance queries have resolved.
#[derive(Debug)]
pub struct SettlementContext {
    /// The depositor, owed the counter-asset.
    pub counterparty: String,
    /// Which asset was deposited; the trade's direction.
    pub token_received: AssetSide,
    /// How much of it was deposited.
    pub amount_received: u128,
}

/// The decision taken on a deposit notification that passed the caller
/// guard.
#[derive(Debug)]
pub enum DepositOutcome {
    /// The depositor is the owner seeding reserves: a zero-value success,
    /// with no settlement.
    OwnerDeposit,
    /// A trade: query both ledger balances and settle with this context.
    Settle(SettlementContext),
}

/// The one outbound transfer that settles a trade.
#[derive(Debug)]
pub struct TransferCommand {
    /// The asset to pay out: always the one opposite the deposit.
    pub token: AssetSide,
    /// Who receives it.
    pub recipient: String,
    /// How much of it.
    pub amount: u128,
    /// The minimum nonzero registration stipend a ledger requires to accept
    /// a transfer to a possibly-unregistered recipient.
    pub attached_stipend: u128,
}

/// The exchange: the two asset identities, the owner, the locally tracked
/// reserves, and the metadata cache that bootstrap fills.
pub struct Amm {
    pub owner_address: String,
    pub account_asset_a: String,
    pub token_a_pool_amount: u128,
    pub account_asset_b: String,
    pub token_b_pool_amount: u128,
    pub metadata_token_a: Option<TokenMetadata>,
    pub metadata_token_b: Option<TokenMetadata>,
}

/// The settlement decision once both balance queries have decoded, both
/// observed after the deposit landed. The deposited asset's observed
/// balance is corrected back to its pre-deposit reserve before pricing; a
/// balance below the deposit contradicts the notification and is as
/// unusable as an undecodable payload.
pub open spec fn settlement_result(
    token_received: AssetSide,
    amount_received: u128,
    balance_a: u128,
    balance_b: u128,
) -> Result<u128, AmmError> {
    let balance_in = if token_received is AssetA {
        balance_a
    } else {
        balance_b
    };
    let reserve_out = if token_received is AssetA {
        balance_b
    } else {
        balance_a
    };
    if balance_in < amount_received {
        Err(AmmError::RemoteDecodeFailure(token_received))
    } else {
        quote_result((balance_in - amount_received) as u128, reserve_out, amount_received)
    }
}

impl Amm {
    /// Does `caller` name one of the two configured asset ledgers?
    pub open spec fn is_authorized_caller(self, caller: Seq<char>) -> bool {
        caller == self.account_asset_a@ || caller == self.account_asset_b@
    }

    /// The trade direction an authorized caller implies: a deposit reported
    /// by asset a's ledger is a deposit of asset a.
    pub open spec fn deposit_side(self, caller: Seq<char>) -> AssetSide {
        if caller == self.account_asset_a@ {
            AssetSide::AssetA
        } else {
            AssetSide::AssetB
        }
    }

    /// A fresh exchange: empty reserves, no metadata yet. The embedding
    /// host must follow construction with the two metadata fetches whose
    /// results `initialization_metadata` consumes.
    pub fn new(owner_address: String, account_asset_a: String, account_asset_b: String) -> (r:
        Amm)
        ensures
            r.owner_address == owner_address,
            r.account_asset_a == account_asset_a,
            r.account_asset_b == account_asset_b,
            r.token_a_pool_amount == 0,
            r.token_b_pool_amount == 0,
            r.metadata_token_a is None,
            r.metadata_token_b is None,
    {
        Amm {
            owner_address,
            account_asset_a,
            token_a_pool_amount: 0,
            account_asset_b,
            token_b_pool_amount: 0,
            metadata_token_a: None,
            metadata_token_b: None,
        }
    }

    /// The bootstrap continuation: consumes the two metadata-fetch results,
    /// positionally ordered to match the two assets. Both must decode, or
    /// the exchange is left exactly as it was, with the failing asset
    /// named; metadata is written only on the all-success path.
    pub fn initialization_metadata(
        &mut self,
        result_a: &RemoteResult,
        result_b: &RemoteResult,
    ) -> (r: Result<(), AmmError>)
        requires
            !(result_a is NotReady),
            !(result_b is NotReady),
        ensures
            match (decode_metadata_spec(*result_a), decode_metadata_spec(*result_b)) {
                (Some(ma), Some(mb)) => {
                    &&& r == Ok::<(), AmmError>(())
                    &&& final(self).metadata_token_a == Some(ma)
                    &&& final(self).metadata_token_b == Some(mb)
                    &&& final(self).owner_address == old(self).owner_address
                    &&& final(self).account_asset_a == old(self).account_asset_a
                    &&& final(self).account_asset_b == old(self).account_asset_b
                    &&& final(self).token_a_pool_amount == old(self).token_a_pool_amount
                    &&& final(self).token_b_pool_amount == old(self).token_b_pool_amount
                },
                (None, _) => {
                    &&& r == Err::<(), AmmError>(AmmError::RemoteDecodeFailure(AssetSide::AssetA))
                    &&& *final(self) == *old(self)
                },
                (Some(_), None) => {
                    &&& r == Err::<(), AmmError>(AmmError::RemoteDecodeFailure(AssetSide::AssetB))
                    &&& *final(self) == *old(self)
                },
            },
    {
        let ma = match decode_metadata(result_a) {
            Some(m) => m,
            None => {
                return Err(AmmError::RemoteDecodeFailure(AssetSide::AssetA));
            },
        };
        let mb = match decode_metadata(result_b) {
            Some(m) => m,
            None => {
                return Err(AmmError::RemoteDecodeFailure(AssetSide::AssetB));
            },
        };
        self.metadata_token_a = Some(ma);
        self.metadata_token_b = Some(mb);
        Ok(())
    }

    /// The deposit notification entry point. `predecessor_id` is the ledger
    /// that reports the deposit, `sender_id` the depositor. An identity
    /// that is neither configured ledger is rejected before anything else;
    /// the owner's deposits seed reserves without settlement; any other
    /// deposit yields the context the settlement continuation needs.
    pub fn ft_on_transfer(
        &self,
        predecessor_id: &String,
        sender_id: &String,
        amount: u128,
    ) -> (r: Result<DepositOutcome, AmmError>)
        ensures
            !self.is_authorized_caller(predecessor_id@) ==> r == Err::<
                DepositOutcome,
                AmmError,
            >(AmmError::UnauthorizedCaller),
            self.is_authorized_caller(predecessor_id@) && sender_id@ == self.owner_address@ ==> r
                == Ok::<DepositOutcome, AmmError>(DepositOutcome::OwnerDeposit),
            self.is_authorized_caller(predecessor_id@) && sender_id@ != self.owner_address@ ==> {
                &&& r matches Ok(DepositOutcome::Settle(ctx))
                &&& ctx.counterparty@ == sender_id@
                &&& ctx.token_received == self.deposit_side(predecessor_id@)
                &&& ctx.amount_received == amount
            },
    {
        let from_asset_a = *predecessor_id == self.account_asset_a;
        let from_asset_b = *predecessor_id == self.account_asset_b;
        if !from_asset_a && !from_asset_b {
            return Err(AmmError::UnauthorizedCaller);
        }
        if *sender_id == self.owner_address {
            return Ok(DepositOutcome::OwnerDeposit);
        }
        let token_received = if from_asset_a {
            AssetSide::AssetA
        } else {
            AssetSide::AssetB
        };
        Ok(
            DepositOutcome::Settle(
                SettlementContext {
                    counterparty: sender_id.clone(),
                    token_received,
                    amount_received: amount,
                },
            ),
        )
    }

    /// The settlement continuation: consumes the two balance-query results,
    /// positionally ordered as asset a then asset b, prices the deposit
    /// against the freshly observed reserves, and decides the outbound
    /// transfer. Undecodable results abort the orchestration with the
    /// failing side named; nothing is mutated on any path.
    pub fn cb_transfer_token(
        &self,
        counterparty: &String,
        token_received: AssetSide,
        amount_received: u128,
        result_a: &RemoteResult,
        result_b: &RemoteResult,
    ) -> (r: Result<TransferCommand, AmmError>)
        requires
            !(result_a is NotReady),
            !(result_b is NotReady),
        ensures
            decode_balance_spec(*result_a) is None ==> r == Err::<
                TransferCommand,
                AmmError,
            >(AmmError::RemoteDecodeFailure(AssetSide::AssetA)),
            decode_balance_spec(*result_a) is Some && decode_balance_spec(*result_b) is None ==> r
                == Err::<TransferCommand, AmmError>(AmmError::RemoteDecodeFailure(
                AssetSide::AssetB,
            )),
            match (decode_balance_spec(*result_a), decode_balance_spec(*result_b)) {
                (Some(balance_a), Some(balance_b)) => {
                    match settlement_result(token_received, amount_received, balance_a, balance_b) {
                        Ok(amount) => {
                            &&& r matches Ok(cmd)
                            &&& cmd.token == token_received.spec_opposite()
                            &&& cmd.recipient@ == counterparty@
                            &&& cmd.amount == amount
                            &&& cmd.attached_stipend == 1
                        },
                        Err(e) => r == Err::<TransferCommand, AmmError>(e),
                    }
                },
                _ => true,
            },
    {
        let balance_a = match decode_balance(result_a) {
            Some(b) => b,
            None => {
                return Err(AmmError::RemoteDecodeFailure(AssetSide::AssetA));
            },
        };
        let balance_b = match decode_balance(result_b) {
            Some(b) => b,
            None => {
                return Err(AmmError::RemoteDecodeFailure(AssetSide::AssetB));
            },
        };
        let balance_in = match token_received {
            AssetSide::AssetA => balance_a,
            AssetSide::AssetB => balance_b,
        };
        let reserve_out = match token_received {
            AssetSide::AssetA => balance_b,
            AssetSide::AssetB => balance_a,
        };
        if balance_in < amount_received {
            // The ledger reported less of the asset than the deposit alone:
            // the observation is unusable.
            return Err(AmmError::RemoteDecodeFailure(token_received));
        }
        // The balance query observes the ledger after the deposit landed;
        // correct for it so the deposit is not counted twice.
        let pre_deposit_reserve_in = balance_in - amount_received;
        let amount = match pricing::quote(pre_deposit_reserve_in, reserve_out, amount_received) {
            Ok(a) => a,
            Err(e) => {
                return Err(e);
            },
        };
        Ok(
            TransferCommand {
                token: token_received.opposite(),
                recipient: counterparty.clone(),
                amount,
                attached_stipend: 1,
            },
        )
    }

    /// The pair's ticker, `symbol_a-symbol_b`; unavailable until bootstrap
    /// has completed.
    pub fn get_ticker(&self) -> (r: Result<String, AmmError>)
        ensures
            match (self.metadata_token_a, self.metadata_token_b) {
                (Some(ma), Some(mb)) => r matches Ok(t) && t@ == ma.symbol@ + "-"@ + mb.symbol@,
                _ => r == Err::<String, AmmError>(AmmError::UninitializedMetadata),
            },
    {
        match (&self.metadata_token_a, &self.metadata_token_b) {
            (Some(ma), Some(mb)) => {
                let left = ma.symbol.clone().concat("-");
                Ok(left.concat(mb.symbol.as_str()))
            },
            _ => Err(AmmError::UninitializedMetadata),
        }
    }

    /// Both assets' decimal precisions; unavailable until bootstrap has
    /// completed.
    pub fn get_decimals(&self) -> (r: Result<(u8, u8), AmmError>)
        ensures
            match (self.metadata_token_a, self.metadata_token_b) {
                (Some(ma), Some(mb)) => r == Ok::<(u8, u8), AmmError>(
                    (ma.decimals, mb.decimals),
                ),
                _ => r == Err::<(u8, u8), AmmError>(AmmError::UninitializedMetadata),
            },
    {
        match (&self.metadata_token_a, &self.metadata_token_b) {
            (Some(ma), Some(mb)) => Ok((ma.decimals, mb.decimals)),
            _ => Err(AmmError::UninitializedMetadata),
        }
    }

    /// The locally tracked reserve of one asset.
    pub fn get_pool_token_amount(&self, is_token_a: bool) -> (r: u128)
        ensures
            r == if is_token_a {
                self.token_a_pool_amount
            } else {
                self.token_b_pool_amount
            },
    {
        if is_token_a {
            self.token_a_pool_amount
        } else {
            self.token_b_pool_amount
        }
    }

    /// A read-only quote against the locally tracked reserves. The positive
    /// direction prices an asset-a deposit paid out in asset b; the
    /// negative direction is the mirror.
    pub fn get_ratio_atob(&self, pay_token_amount: u128, is_positive: bool) -> (r: Result<
        u128,
        AmmError,
    >)
        ensures
            is_positive ==> r == quote_result(
                self.token_a_pool_amount,
                self.token_b_pool_amount,
                pay_token_amount,
            ),
            !is_positive ==> r == quote_result(
                self.token_b_pool_amount,
                self.token_a_pool_amount,
                pay_token_amount,
            ),
    {
        if is_positive {
            pricing::quote(self.token_a_pool_amount, self.token_b_pool_amount, pay_token_amount)
        } else {
            pricing::quote(self.token_b_pool_amount, self.token_a_pool_amount, pay_token_amount)
        }
    }

    /// The metadata snapshot of both assets; unavailable until bootstrap
    /// has completed.
    pub fn metadata_tokens(&self) -> (r: Result<MetadataTokens, AmmError>)
        ensures
            match (self.metadata_token_a, self.metadata_token_b) {
                (Some(ma), Some(mb)) => {
                    &&& r matches Ok(m)
                    &&& m.metadata_token_a == ma
                    &&& m.metadata_token_b == mb
                },
                _ => r == Err::<MetadataTokens, AmmError>(AmmError::UninitializedMetadata),
            },
    {
        match (&self.metadata_token_a, &self.metadata_token_b) {
            (Some(ma), Some(mb)) => Ok(
                MetadataTokens {
                    metadata_token_a: TokenMetadata {
                        symbol: ma.symbol.clone(),
                        decimals: ma.decimals,
                    },
                    metadata_token_b: TokenMetadata {
                        symbol: mb.symbol.clone(),
                        decimals: mb.decimals,
                    },
                },
            ),
            _ => Err(AmmError::UninitializedMetadata),
        }
    }
}

} // verus!
