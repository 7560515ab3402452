//! A plain fungible asset: balances that an administrator mints and that
//! holders pass on.
//!
//! The credit line moves its two assets through ledgers of this kind. The
//! rules are here; where the balances are kept is the host's business, so
//! each function takes the balances it was read and returns the ones to
//! write.

use vstd::prelude::*;

verus! {

/// The most decimal places that an asset may have.
pub const MAX_DECIMALS: u32 = 18;

/// How an asset presents itself. `S` is the host's type of text.
#[derive(Debug)]
pub struct TokenMetadata<S> {
    pub decimal: u32,
    pub name: S,
    pub symbol: S,
}

/// What an initialized asset holds besides its balances.
#[derive(Debug)]
pub struct TokenInstance<A, S> {
    /// Who may mint.
    pub admin: A,
    pub metadata: TokenMetadata<S>,
    /// All that was ever minted.
    pub total_supply: i128,
}

/// Why a call on the asset ends without effect.
#[derive(Clone, Copy, Debug, PartialEq, Eq, Hash, Structural)]
pub enum TokenAbort {
    /// The asset was initialized before.
    AlreadyInitialized,
    /// More than eighteen decimal places were asked for.
    DecimalTooLarge,
    /// The asset has not been initialized.
    NotInitialized,
    /// The amount was negative.
    NegativeAmount,
    /// The sender holds less than the amount.
    InsufficientBalance,
    /// The new balance or supply cannot be represented.
    Overflow,
}

impl TokenAbort {
    /// The words with which the call ends.
    pub open spec fn message_of(self) -> Seq<char> {
        match self {
            TokenAbort::AlreadyInitialized => "Already initialized"@,
            TokenAbort::DecimalTooLarge => "Decimal must not be greater than 18"@,
            TokenAbort::NotInitialized => "Not initialized"@,
            TokenAbort::NegativeAmount => "Amount must be non-negative"@,
            TokenAbort::InsufficientBalance => "Insufficient balance"@,
            TokenAbort::Overflow => "Balance out of range"@,
        }
    }

    /// The words with which the call ends.
    pub fn message(self) -> (text: &'static str)
        ensures
            text@ == self.message_of(),
    {
        match self {
            TokenAbort::AlreadyInitialized => "Already initialized",
            TokenAbort::DecimalTooLarge => "Decimal must not be greater than 18",
            TokenAbort::NotInitialized => "Not initialized",
            TokenAbort::NegativeAmount => "Amount must be non-negative",
            TokenAbort::InsufficientBalance => "Insufficient balance",
            TokenAbort::Overflow => "Balance out of range",
        }
    }
}

/// The balance of a holder: what is stored for it, or zero where nothing is.
pub open spec fn balance_or_zero(stored: Option<i128>) -> i128 {
    match stored {
        Some(balance) => balance,
        None => 0,
    }
}

/// The asset. It holds its instance data, which is absent until `initialize`
/// has run.
#[derive(Debug)]
pub struct UsdcToken<A, S> {
    pub instance: Option<TokenInstance<A, S>>,
}

impl<A, S> UsdcToken<A, S> {
    /// Whether the asset has been initialized.
    pub open spec fn initialized(self) -> bool {
        self.instance is Some
    }

    /// All that was minted so far; zero before the asset is initialized.
    pub open spec fn supply(self) -> int {
        match self.instance {
            Some(instance) => instance.total_supply as int,
            None => 0,
        }
    }

    /// The asset that `initialize` sets up: nothing minted yet.
    pub open spec fn initialized_with(admin: A, decimal: u32, name: S, symbol: S) -> Self {
        UsdcToken {
            instance: Some(
                TokenInstance {
                    admin,
                    metadata: TokenMetadata { decimal, name, symbol },
                    total_supply: 0,
                },
            ),
        }
    }

    /// Why a call of `initialize` with `decimal` places fails, if it does.
    pub open spec fn initialize_outcome(self, decimal: u32) -> Result<(), TokenAbort> {
        if self.initialized() {
            Err(TokenAbort::AlreadyInitialized)
        } else if decimal > MAX_DECIMALS {
            Err(TokenAbort::DecimalTooLarge)
        } else {
            Ok(())
        }
    }

    /// What minting `amount` to a holder with the stored balance `stored`
    /// returns: the holder's new balance.
    pub open spec fn mint_outcome(self, stored: Option<i128>, amount: i128) -> Result<
        i128,
        TokenAbort,
    > {
        if !self.initialized() {
            Err(TokenAbort::NotInitialized)
        } else if amount < 0 {
            Err(TokenAbort::NegativeAmount)
        } else if balance_or_zero(stored) + amount > i128::MAX || self.supply() + amount
            > i128::MAX {
            Err(TokenAbort::Overflow)
        } else {
            Ok((balance_or_zero(stored) + amount) as i128)
        }
    }

    /// An asset that has not been initialized.
    pub fn new() -> (token: Self)
        ensures
            !token.initialized(),
    {
        UsdcToken { instance: None }
    }

    /// Sets the administrator and the metadata, once, with nothing minted. A
    /// second call, or more than eighteen decimal places, ends without effect.
    pub fn initialize(&mut self, admin: A, decimal: u32, name: S, symbol: S) -> (outcome: Result<
        (),
        TokenAbort,
    >)
        ensures
            outcome == old(self).initialize_outcome(decimal),
            outcome is Ok ==> *final(self) == Self::initialized_with(admin, decimal, name, symbol),
            outcome is Err ==> *final(self) == *old(self),
    {
        if self.instance.is_some() {
            return Err(TokenAbort::AlreadyInitialized);
        }
        if decimal > MAX_DECIMALS {
            return Err(TokenAbort::DecimalTooLarge);
        }
        self.instance = Some(
            TokenInstance { admin, metadata: TokenMetadata { decimal, name, symbol }, total_supply: 0 },
        );
        Ok(())
    }

    /// Whether the asset has been initialized.
    pub fn is_initialized(&self) -> (initialized: bool)
        ensures
            initialized == self.initialized(),
    {
        self.instance.is_some()
    }

    /// The administrator, who alone may mint; none before the asset is
    /// initialized.
    pub fn admin(&self) -> (admin: Option<&A>)
        ensures
            admin is Some <==> self.initialized(),
            admin matches Some(a) ==> *a == self.instance.unwrap().admin,
    {
        match &self.instance {
            Some(instance) => Some(&instance.admin),
            None => None,
        }
    }

    /// All that was minted so far; zero before the asset is initialized.
    pub fn total_supply(&self) -> (supply: i128)
        ensures
            supply == self.supply(),
    {
        match &self.instance {
            Some(instance) => instance.total_supply,
            None => 0,
        }
    }

    /// Creates `amount` new units for a holder whose stored balance is
    /// `stored`: returns the holder's new balance and raises the total supply
    /// by the amount. On failure the supply stays as it was.
    pub fn mint(&mut self, stored: Option<i128>, amount: i128) -> (outcome: Result<i128, TokenAbort>)
        ensures
            outcome == old(self).mint_outcome(stored, amount),
            outcome is Ok ==> final(self).supply() == old(self).supply() + amount,
            outcome is Ok ==> final(self).instance.unwrap().admin == old(self).instance.unwrap().admin
                && final(self).instance.unwrap().metadata == old(self).instance.unwrap().metadata,
            outcome is Err ==> *final(self) == *old(self),
    {
        let supply: i128 = match &self.instance {
            Some(instance) => instance.total_supply,
            None => {
                return Err(TokenAbort::NotInitialized);
            },
        };
        if amount < 0 {
            return Err(TokenAbort::NegativeAmount);
        }
        let held: i128 = self.balance(stored);
        let raised: i128 = match held.checked_add(amount) {
            Some(sum) => sum,
            None => {
                return Err(TokenAbort::Overflow);
            },
        };
        let minted: i128 = match supply.checked_add(amount) {
            Some(sum) => sum,
            None => {
                return Err(TokenAbort::Overflow);
            },
        };
        match &mut self.instance {
            Some(instance) => {
                instance.total_supply = minted;
            },
            None => {},
        }
        Ok(raised)
    }

    /// The balance of a holder: what is stored for it, or zero where nothing
    /// is.
    pub fn balance(&self, stored: Option<i128>) -> (balance: i128)
        ensures
            balance == balance_or_zero(stored),
    {
        match stored {
            Some(balance) => balance,
            None => 0,
        }
    }

    /// Moves `amount` from a sender to a recipient, given the balances of both:
    /// returns the new balances, sender first. The amount must not be negative
    /// and the sender must hold it. What the two hold together stays the same.
    pub fn transfer(&self, from_balance: i128, to_balance: i128, amount: i128) -> (outcome: Result<
        (i128, i128),
        TokenAbort,
    >)
        ensures
            outcome == transfer_outcome(from_balance, to_balance, amount),
            outcome matches Ok(balances) ==> balances.0 + balances.1 == from_balance + to_balance,
    {
        if amount < 0 {
            return Err(TokenAbort::NegativeAmount);
        }
        if from_balance < amount {
            return Err(TokenAbort::InsufficientBalance);
        }
        match to_balance.checked_add(amount) {
            Some(raised) => Ok((from_balance - amount, raised)),
            None => Err(TokenAbort::Overflow),
        }
    }

    /// The number of decimal places of the asset.
    pub fn decimals(&self) -> (outcome: Result<u32, TokenAbort>)
        ensures
            match self.instance {
                Some(instance) => outcome == Ok::<u32, TokenAbort>(instance.metadata.decimal),
                None => outcome == Err::<u32, TokenAbort>(TokenAbort::NotInitialized),
            },
    {
        match &self.instance {
            Some(instance) => Ok(instance.metadata.decimal),
            None => Err(TokenAbort::NotInitialized),
        }
    }

    /// The name of the asset.
    pub fn name(&self) -> (outcome: Result<&S, TokenAbort>)
        ensures
            match self.instance {
                Some(instance) => outcome matches Ok(name) && *name == instance.metadata.name,
                None => outcome == Err::<&S, TokenAbort>(TokenAbort::NotInitialized),
            },
    {
        match &self.instance {
            Some(instance) => Ok(&instance.metadata.name),
            None => Err(TokenAbort::NotInitialized),
        }
    }

    /// The symbol of the asset.
    pub fn symbol(&self) -> (outcome: Result<&S, TokenAbort>)
        ensures
            match self.instance {
                Some(instance) => outcome matches Ok(symbol) && *symbol == instance.metadata.symbol,
                None => outcome == Err::<&S, TokenAbort>(TokenAbort::NotInitialized),
            },
    {
        match &self.instance {
            Some(instance) => Ok(&instance.metadata.symbol),
            None => Err(TokenAbort::NotInitialized),
        }
    }
}

/// What a transfer of `amount` does to the balances of the sender and of the
/// recipient: the two new balances, sender first.
pub open spec fn transfer_outcome(from_balance: i128, to_balance: i128, amount: i128) -> Result<
    (i128, i128),
    TokenAbort,
> {
    if amount < 0 {
        Err(TokenAbort::NegativeAmount)
    } else if from_balance < amount {
        Err(TokenAbort::InsufficientBalance)
    } else if to_balance + amount > i128::MAX {
        Err(TokenAbort::Overflow)
    } else {
        Ok(((from_balance - amount) as i128, (to_balance + amount) as i128))
    }
}

} // verus!
