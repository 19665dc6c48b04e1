//! A token that hands every identity a fixed amount the first time the
//! identity is looked at or takes part in a call.
use vstd::prelude::*;
use crate::port::TransferError;
use crate::identity::Address;
use crate::store::Store;
use crate::token::{
    after_mint, after_move, after_spend, allowance_in, balance_in, check_allowance, check_move,
    move_refusal, spend_refusal, MockErc20, TokenView,
};
use crate::store::Grant;
use crate::uint256::U256;

verus! {

/// What an identity is given on first use.
pub const AIRDROP_AMOUNT: u64 = 5_000_000_000_000_000_000;

/// The token as a mathematical value: the balances and allowances, and the
/// identities that were given their first amount.
pub ghost struct AutoMintView {
    pub token: TokenView,
    pub minted: Set<Address>,
}

/// The token after `user` was given its first amount, if it had not been.
pub open spec fn after_airdrop(v: AutoMintView, user: Address) -> AutoMintView {
    if v.minted.contains(user) {
        v
    } else {
        AutoMintView {
            token: after_mint(v.token, user, AIRDROP_AMOUNT as nat),
            minted: v.minted.insert(user),
        }
    }
}

/// A token that mints on first use.
pub struct AutoMintErc20 {
    token: MockErc20,
    minted: Store<Address, bool>,
}

impl View for AutoMintErc20 {
    type V = AutoMintView;

    closed spec fn view(&self) -> AutoMintView {
        AutoMintView {
            token: self.token@,
            minted: Set::new(|a: Address| self.minted@.contains_key(a) && self.minted@[a]),
        }
    }
}

impl AutoMintErc20 {
    /// A token without a name, a supply or holders.
    pub fn new() -> (r: AutoMintErc20)
        ensures
            r@.token == MockErc20::new_view(),
            r@.minted == Set::<Address>::empty(),
    {
        let r = AutoMintErc20 { token: MockErc20::new(), minted: Store::new() };
        assert(r@.minted =~= Set::<Address>::empty());
        r
    }

    /// The name of the token.
    pub fn name(&self) -> (r: String)
        ensures
            r@ == self@.token.name,
    {
        self.token.name()
    }

    /// The symbol of the token.
    pub fn symbol(&self) -> (r: String)
        ensures
            r@ == self@.token.symbol,
    {
        self.token.symbol()
    }

    /// The number of decimals of the token.
    pub fn decimals(&self) -> (r: U256)
        ensures
            r@ == self@.token.decimals,
    {
        self.token.decimals()
    }

    /// The supply of the token: what was minted so far, modulo 2^256.
    pub fn total_supply(&self) -> (r: U256)
        ensures
            r@ == self@.token.total_supply,
    {
        self.token.total_supply()
    }

    /// Whether `user` was given its first amount.
    fn has_minted(&self, user: &Address) -> (r: bool)
        ensures
            r == self@.minted.contains(*user),
    {
        match self.minted.get(user) {
            Some(done) => done,
            None => false,
        }
    }

    /// Gives `user` its first amount, unless it was given before.
    fn ensure_airdrop(&mut self, user: Address)
        ensures
            final(self)@ == after_airdrop(old(self)@, user),
    {
        if !self.has_minted(&user) {
            self.token.mint(user, U256::from_u64(AIRDROP_AMOUNT));
            self.minted.set(user, true);
            assert(self@.minted =~= old(self)@.minted.insert(user));
        }
    }

    /// What `user` would hold right after `ensure_airdrop`.
    fn balance_after_airdrop(&self, user: Address) -> (r: U256)
        ensures
            r@ == balance_in(after_airdrop(self@, user).token.balances, user),
    {
        let balance = self.token.balance_of(user);
        if self.has_minted(&user) {
            balance
        } else {
            balance.wrapping_add(U256::from_u64(AIRDROP_AMOUNT))
        }
    }

    /// What `owner` holds, after it was given its first amount.
    pub fn balance_of(&mut self, owner: Address) -> (r: U256)
        ensures
            final(self)@ == after_airdrop(old(self)@, owner),
            r@ == balance_in(final(self)@.token.balances, owner),
    {
        self.ensure_airdrop(owner);
        self.token.balance_of(owner)
    }

    /// What `spender` may spend of `owner`'s tokens; `owner` is given its
    /// first amount.
    pub fn allowance(&mut self, owner: Address, spender: Address) -> (r: U256)
        ensures
            final(self)@ == after_airdrop(old(self)@, owner),
            r@ == allowance_in(final(self)@.token.allowances, owner, spender),
    {
        self.ensure_airdrop(owner);
        self.token.allowance(owner, spender)
    }

    /// Gives `sender` its first amount and moves `amount` from it to `to`.
    /// Fails with `ZeroAmount` where the amount is zero and with
    /// `InsufficientBalance` where `sender` then holds less, and in that case
    /// changes nothing, not even giving the first amount.
    pub fn transfer(&mut self, sender: Address, to: Address, amount: U256) -> (r: Result<
        (),
        TransferError,
    >)
        ensures
            match move_refusal(after_airdrop(old(self)@, sender).token.balances, sender, amount@) {
                Some(e) => r == Err::<(), TransferError>(e) && final(self)@ == old(self)@,
                None => r.is_ok() && final(self)@ == (AutoMintView {
                    token: TokenView {
                        balances: after_move(
                            after_airdrop(old(self)@, sender).token.balances,
                            sender,
                            to,
                            amount@,
                        ),
                        ..after_airdrop(old(self)@, sender).token
                    },
                    ..after_airdrop(old(self)@, sender)
                }),
            },
    {
        match check_move(self.balance_after_airdrop(sender), amount) {
            Err(e) => { return Err(e); },
            Ok(()) => {},
        }
        self.ensure_airdrop(sender);
        self.token.move_tokens(sender, to, amount)
    }

    /// Gives `sender` its first amount and lets `spender` spend up to
    /// `amount` of `sender`'s tokens. Always returns `true`.
    pub fn approve(&mut self, sender: Address, spender: Address, amount: U256) -> (r: bool)
        ensures
            r,
            final(self)@ == (AutoMintView {
                token: TokenView {
                    allowances: old(self)@.token.allowances.insert(
                        Grant { owner: sender, spender },
                        amount@,
                    ),
                    ..after_airdrop(old(self)@, sender).token
                },
                ..after_airdrop(old(self)@, sender)
            }),
    {
        self.ensure_airdrop(sender);
        self.token.approve(sender, spender, amount)
    }

    /// Gives `from` its first amount and moves `amount` from it to `to` on
    /// behalf of `sender`, out of what `sender` may spend. Fails with
    /// `InsufficientAllowance`, `ZeroAmount` or `InsufficientBalance`, tested
    /// in this order, and in that case changes nothing, not even giving the
    /// first amount.
    pub fn transfer_from(&mut self, sender: Address, from: Address, to: Address, amount: U256) -> (r:
        Result<(), TransferError>)
        ensures
            match spend_refusal(after_airdrop(old(self)@, from).token, sender, from, amount@) {
                Some(e) => r == Err::<(), TransferError>(e) && final(self)@ == old(self)@,
                None => r.is_ok() && final(self)@ == (AutoMintView {
                    token: after_spend(
                        after_airdrop(old(self)@, from).token,
                        sender,
                        from,
                        to,
                        amount@,
                    ),
                    ..after_airdrop(old(self)@, from)
                }),
            },
    {
        match check_allowance(self.token.allowance(from, sender), amount) {
            Err(e) => { return Err(e); },
            Ok(()) => {},
        }
        match check_move(self.balance_after_airdrop(from), amount) {
            Err(e) => { return Err(e); },
            Ok(()) => {},
        }
        self.ensure_airdrop(from);
        self.token.transfer_from(sender, from, to, amount)
    }
}

} // verus!
