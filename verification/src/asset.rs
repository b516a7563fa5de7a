use vstd::prelude::*;

use crate::error::ContractError;

verus! {

/// The identity half of an asset: either a native denomination, attached
/// directly to a call, or a contract token, moved through an allowance.
#[derive(Debug, PartialEq, Eq)]
pub enum AssetInfo {
    Native { denom: String },
    Token { contract_addr: String },
}

/// A fungible amount tagged with its identity. Immutable value type.
#[derive(Debug, PartialEq, Eq)]
pub struct Asset {
    pub info: AssetInfo,
    pub amount: u128,
}

/// One native coin attached to a call by its sender.
#[derive(Debug, PartialEq, Eq)]
pub struct Coin {
    pub denom: String,
    pub amount: u128,
}

/// One outbound instruction handed back to the host, which executes the
/// whole returned list in order, all or nothing.
#[derive(Debug, PartialEq, Eq)]
pub enum Instruction {
    /// Send native coins held by the contract to a recipient.
    TransferNative { recipient: String, denom: String, amount: u128 },
    /// Tell a token contract to move the engine's own balance to a recipient.
    TransferToken { token: String, recipient: String, amount: u128 },
    /// Tell a token contract to move a pre-approved balance from its owner
    /// to a recipient. Used only to take offer asset and fee into escrow.
    PullToken { token: String, owner: String, recipient: String, amount: u128 },
    /// Swap the full offer asset at a venue pool. No slippage bound is
    /// passed through and no recipient is overridden: the engine's own floor
    /// check is the sole protection, and the proceeds return to the contract
    /// before being redistributed.
    Swap { pool: String, offer: Asset },
}

impl Clone for AssetInfo {
    fn clone(&self) -> (r: Self)
        ensures
            r == *self,
    {
        match self {
            AssetInfo::Native { denom } => AssetInfo::Native { denom: denom.clone() },
            AssetInfo::Token { contract_addr } => AssetInfo::Token {
                contract_addr: contract_addr.clone(),
            },
        }
    }
}

impl Clone for Asset {
    fn clone(&self) -> (r: Self)
        ensures
            r == *self,
    {
        Asset { info: self.info.clone(), amount: self.amount }
    }
}

impl Clone for Coin {
    fn clone(&self) -> (r: Self)
        ensures
            r == *self,
    {
        Coin { denom: self.denom.clone(), amount: self.amount }
    }
}

/// The first attached coin of the given denomination, if any.
pub open spec fn spec_first_coin(funds: Seq<Coin>, denom: Seq<char>) -> Option<Coin>
    decreases funds.len(),
{
    if funds.len() == 0 {
        None
    } else if funds[0].denom@ == denom {
        Some(funds[0])
    } else {
        spec_first_coin(funds.subrange(1, funds.len() as int), denom)
    }
}

/// A claimed native payment is honest when the first attached coin of its
/// denomination carries exactly the declared amount, or nothing of that
/// denomination is attached and the declared amount is zero. Token assets
/// are pulled through an allowance, so no attachment is expected.
pub open spec fn spec_attached_ok(asset: Asset, funds: Seq<Coin>) -> bool {
    match asset.info {
        AssetInfo::Native { denom } => match spec_first_coin(funds, denom@) {
            Some(coin) => coin.amount == asset.amount,
            None => asset.amount == 0,
        },
        AssetInfo::Token { .. } => true,
    }
}

/// The transfer instruction paying this asset out to a recipient: a native
/// coin transfer for native assets, a token-contract call for token assets.
pub open spec fn spec_transfer(asset: Asset, recipient: String) -> Instruction {
    match asset.info {
        AssetInfo::Native { denom } => Instruction::TransferNative {
            recipient,
            denom,
            amount: asset.amount,
        },
        AssetInfo::Token { contract_addr } => Instruction::TransferToken {
            token: contract_addr,
            recipient,
            amount: asset.amount,
        },
    }
}

/// The pull instruction taking this asset from an approving owner into a
/// recipient's custody. Only token assets can be pulled; native assets must
/// already be attached.
pub open spec fn spec_pull(asset: Asset, owner: String, recipient: String) -> Option<Instruction> {
    match asset.info {
        AssetInfo::Token { contract_addr } => Some(
            Instruction::PullToken { token: contract_addr, owner, recipient, amount: asset.amount },
        ),
        AssetInfo::Native { .. } => None,
    }
}

proof fn lemma_first_coin_found(funds: Seq<Coin>, denom: Seq<char>, i: int)
    requires
        0 <= i < funds.len(),
        funds[i].denom@ == denom,
        forall|k: int| 0 <= k < i ==> funds[k].denom@ != denom,
    ensures
        spec_first_coin(funds, denom) == Some(funds[i]),
    decreases i,
{
    if i > 0 {
        lemma_first_coin_found(funds.subrange(1, funds.len() as int), denom, i - 1);
    }
}

proof fn lemma_first_coin_absent(funds: Seq<Coin>, denom: Seq<char>)
    requires
        forall|k: int| 0 <= k < funds.len() ==> funds[k].denom@ != denom,
    ensures
        spec_first_coin(funds, denom) is None,
    decreases funds.len(),
{
    if funds.len() > 0 {
        lemma_first_coin_absent(funds.subrange(1, funds.len() as int), denom);
    }
}

impl Asset {
    /// Whether this asset is a contract token, as opposed to a native coin.
    pub open spec fn spec_is_token(self) -> bool {
        self.info is Token
    }

    /// Checks that a declared native asset was actually attached to the
    /// call; a no-op for token assets, whose funds move by allowance.
    pub fn assert_attached(&self, funds: &Vec<Coin>) -> (r: Result<(), ContractError>)
        ensures
            r == if spec_attached_ok(*self, funds@) {
                Ok::<(), ContractError>(())
            } else {
                Err::<(), ContractError>(ContractError::PaymentMismatch)
            },
    {
        match &self.info {
            AssetInfo::Token { .. } => Ok(()),
            AssetInfo::Native { denom } => {
                let n = funds.len();
                let mut i: usize = 0;
                while i < n
                    invariant
                        n == funds@.len(),
                        0 <= i <= n,
                        forall|k: int| 0 <= k < i ==> funds@[k].denom@ != denom@,
                        self.info == (AssetInfo::Native { denom: *denom }),
                    decreases n - i,
                {
                    let coin = &funds[i];
                    if coin.denom == *denom {
                        proof {
                            lemma_first_coin_found(funds@, denom@, i as int);
                        }
                        if coin.amount == self.amount {
                            return Ok(());
                        } else {
                            return Err(ContractError::PaymentMismatch);
                        }
                    }
                    i += 1;
                }
                proof {
                    lemma_first_coin_absent(funds@, denom@);
                }
                if self.amount == 0 {
                    Ok(())
                } else {
                    Err(ContractError::PaymentMismatch)
                }
            },
        }
    }

    /// Builds the instruction paying this asset to `recipient`. Pure
    /// construction: no side effect beyond the returned value.
    pub fn to_transfer_instruction(&self, recipient: String) -> (r: Instruction)
        ensures
            r == spec_transfer(*self, recipient),
    {
        match &self.info {
            AssetInfo::Native { denom } => Instruction::TransferNative {
                recipient,
                denom: denom.clone(),
                amount: self.amount,
            },
            AssetInfo::Token { contract_addr } => Instruction::TransferToken {
                token: contract_addr.clone(),
                recipient,
                amount: self.amount,
            },
        }
    }

    /// Builds the instruction pulling this token asset from `owner` into
    /// `recipient`'s custody. Native assets cannot be pulled.
    pub fn to_pull_instruction(&self, owner: String, recipient: String) -> (r: Instruction)
        requires
            self.spec_is_token(),
        ensures
            Some(r) == spec_pull(*self, owner, recipient),
    {
        match &self.info {
            AssetInfo::Token { contract_addr } => Instruction::PullToken {
                token: contract_addr.clone(),
                owner,
                recipient,
                amount: self.amount,
            },
            // A native asset cannot be pulled; the precondition rules this
            // arm out, so the value it names is never built.
            AssetInfo::Native { .. } => Instruction::PullToken {
                token: String::new(),
                owner,
                recipient,
                amount: self.amount,
            },
        }
    }
}

} // verus!
