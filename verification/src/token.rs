//! A plain fungible token: balances, allowances and transfers. It stands in
//! for a token contract wherever the ledger needs one to move bounties.
use vstd::prelude::*;
use crate::port::{PortCall, TransferError, TransferView, ValueTransferPort};
use crate::identity::Address;
use crate::store::{Grant, Store};
use crate::uint256::{wrapping_difference, wrapping_sum, U256};

verus! {

/// The token as a mathematical value. An identity without an entry in
/// `balances` holds nothing, and a grant without an entry in `allowances`
/// allows nothing.
pub ghost struct TokenView {
    pub name: Seq<char>,
    pub symbol: Seq<char>,
    pub decimals: nat,
    pub total_supply: nat,
    pub balances: Map<Address, nat>,
    pub allowances: Map<Grant, nat>,
}

/// What `holder` holds.
pub open spec fn balance_in(balances: Map<Address, nat>, holder: Address) -> nat {
    if balances.contains_key(holder) {
        balances[holder]
    } else {
        0
    }
}

/// What `spender` may spend of `owner`'s tokens.
pub open spec fn allowance_in(allowances: Map<Grant, nat>, owner: Address, spender: Address) -> nat {
    if allowances.contains_key(Grant { owner, spender }) {
        allowances[Grant { owner, spender }]
    } else {
        0
    }
}

/// Why moving `amount` from `from` is refused, if it is: the amount must be
/// positive and `from` must hold it, tested in this order.
pub open spec fn move_refusal(balances: Map<Address, nat>, from: Address, amount: nat) -> Option<
    TransferError,
> {
    if amount == 0 {
        Some(TransferError::ZeroAmount)
    } else if balance_in(balances, from) < amount {
        Some(TransferError::InsufficientBalance)
    } else {
        None
    }
}

/// The balances after `amount` moved from `from` to `to`: first taken from
/// `from`, then added to what `to` holds by then, modulo 2^256.
pub open spec fn after_move(balances: Map<Address, nat>, from: Address, to: Address, amount: nat) -> Map<
    Address,
    nat,
> {
    let taken = balances.insert(from, wrapping_difference(balance_in(balances, from), amount));
    taken.insert(to, wrapping_sum(balance_in(taken, to), amount))
}

/// The token after `amount` new tokens were given to `to`.
pub open spec fn after_mint(t: TokenView, to: Address, amount: nat) -> TokenView {
    TokenView {
        total_supply: wrapping_sum(t.total_supply, amount),
        balances: t.balances.insert(to, wrapping_sum(balance_in(t.balances, to), amount)),
        ..t
    }
}

/// The token after `spender` moved `amount` from `from` to `to`.
pub open spec fn after_spend(
    t: TokenView,
    spender: Address,
    from: Address,
    to: Address,
    amount: nat,
) -> TokenView {
    TokenView {
        balances: after_move(t.balances, from, to, amount),
        allowances: t.allowances.insert(
            Grant { owner: from, spender },
            (allowance_in(t.allowances, from, spender) - amount) as nat,
        ),
        ..t
    }
}

/// Why a transfer of `amount` from `from` by `spender` is refused, if it is:
/// the spender's allowance must cover the amount, then the amount must be
/// positive and `from` must hold it.
pub open spec fn spend_refusal(t: TokenView, spender: Address, from: Address, amount: nat) -> Option<
    TransferError,
> {
    if allowance_in(t.allowances, from, spender) < amount {
        Some(TransferError::InsufficientAllowance)
    } else {
        move_refusal(t.balances, from, amount)
    }
}

/// Tests that `amount` can be moved out of a balance of `balance`: the
/// amount must be positive and the balance must cover it, tested in this
/// order.
pub fn check_move(balance: U256, amount: U256) -> (r: Result<(), TransferError>)
    ensures
        r == (if amount@ == 0 {
            Err::<(), TransferError>(TransferError::ZeroAmount)
        } else if balance@ < amount@ {
            Err(TransferError::InsufficientBalance)
        } else {
            Ok(())
        }),
{
    if amount.is_zero() {
        Err(TransferError::ZeroAmount)
    } else if !amount.le(balance) {
        Err(TransferError::InsufficientBalance)
    } else {
        Ok(())
    }
}

/// Tests that an allowance of `allowance` covers `amount`.
pub fn check_allowance(allowance: U256, amount: U256) -> (r: Result<(), TransferError>)
    ensures
        r == (if allowance@ < amount@ {
            Err::<(), TransferError>(TransferError::InsufficientAllowance)
        } else {
            Ok(())
        }),
{
    if !amount.le(allowance) {
        Err(TransferError::InsufficientAllowance)
    } else {
        Ok(())
    }
}

/// A token with balances and allowances.
pub struct MockErc20 {
    name: String,
    symbol: String,
    decimals: U256,
    total_supply: U256,
    balances: Store<Address, U256>,
    allowances: Store<Grant, U256>,
}

impl View for MockErc20 {
    type V = TokenView;

    closed spec fn view(&self) -> TokenView {
        TokenView {
            name: self.name@,
            symbol: self.symbol@,
            decimals: self.decimals@,
            total_supply: self.total_supply@,
            balances: Map::new(
                |a: Address| self.balances@.contains_key(a),
                |a: Address| self.balances@[a]@,
            ),
            allowances: Map::new(
                |g: Grant| self.allowances@.contains_key(g),
                |g: Grant| self.allowances@[g]@,
            ),
        }
    }
}

impl MockErc20 {
    /// The token without a name, a supply or holders.
    pub open spec fn new_view() -> TokenView {
        TokenView {
            name: Seq::empty(),
            symbol: Seq::empty(),
            decimals: 0,
            total_supply: 0,
            balances: Map::empty(),
            allowances: Map::empty(),
        }
    }

    /// A token without a name, a supply or holders.
    pub fn new() -> (r: MockErc20)
        ensures
            r@ == MockErc20::new_view(),
    {
        let r = MockErc20 {
            name: String::new(),
            symbol: String::new(),
            decimals: U256::zero(),
            total_supply: U256::zero(),
            balances: Store::new(),
            allowances: Store::new(),
        };
        assert(r@.balances =~= Map::empty());
        assert(r@.allowances =~= Map::empty());
        r
    }

    /// Names the token and hands its whole supply to `sender`.
    pub fn init(&mut self, sender: Address, name: String, symbol: String, decimals: U256, supply: U256)
        ensures
            final(self)@ == (TokenView {
                name: name@,
                symbol: symbol@,
                decimals: decimals@,
                total_supply: supply@,
                balances: old(self)@.balances.insert(sender, supply@),
                allowances: old(self)@.allowances,
            }),
    {
        self.name = name;
        self.symbol = symbol;
        self.decimals = decimals;
        self.total_supply = supply;
        self.balances.set(sender, supply);
        assert(self@.balances =~= old(self)@.balances.insert(sender, supply@));
        assert(self@.allowances =~= old(self)@.allowances);
    }

    /// The name of the token.
    pub fn name(&self) -> (r: String)
        ensures
            r@ == self@.name,
    {
        self.name.clone()
    }

    /// The symbol of the token.
    pub fn symbol(&self) -> (r: String)
        ensures
            r@ == self@.symbol,
    {
        self.symbol.clone()
    }

    /// The number of decimals of the token.
    pub fn decimals(&self) -> (r: U256)
        ensures
            r@ == self@.decimals,
    {
        self.decimals
    }

    /// The supply of the token.
    pub fn total_supply(&self) -> (r: U256)
        ensures
            r@ == self@.total_supply,
    {
        self.total_supply
    }

    /// What `owner` holds.
    pub fn balance_of(&self, owner: Address) -> (r: U256)
        ensures
            r@ == balance_in(self@.balances, owner),
    {
        match self.balances.get(&owner) {
            Some(amount) => amount,
            None => U256::zero(),
        }
    }

    /// What `spender` may spend of `owner`'s tokens.
    pub fn allowance(&self, owner: Address, spender: Address) -> (r: U256)
        ensures
            r@ == allowance_in(self@.allowances, owner, spender),
    {
        match self.allowances.get(&Grant { owner, spender }) {
            Some(amount) => amount,
            None => U256::zero(),
        }
    }

    /// Makes `amount` new tokens and gives them to `to`; the balance and the
    /// supply grow modulo 2^256.
    pub(crate) fn mint(&mut self, to: Address, amount: U256)
        ensures
            final(self)@ == after_mint(old(self)@, to, amount@),
    {
        let balance = self.balance_of(to);
        self.balances.set(to, balance.wrapping_add(amount));
        self.total_supply = self.total_supply.wrapping_add(amount);
        assert(self@.balances =~= after_mint(old(self)@, to, amount@).balances);
        assert(self@.allowances =~= old(self)@.allowances);
    }

    /// Moves `amount` from `from` to `to`, or fails and changes nothing.
    pub(crate) fn move_tokens(&mut self, from: Address, to: Address, amount: U256) -> (r: Result<
        (),
        TransferError,
    >)
        ensures
            match move_refusal(old(self)@.balances, from, amount@) {
                Some(e) => r == Err::<(), TransferError>(e) && final(self)@ == old(self)@,
                None => r.is_ok() && final(self)@ == (TokenView {
                    balances: after_move(old(self)@.balances, from, to, amount@),
                    ..old(self)@
                }),
            },
    {
        let from_balance = self.balance_of(from);
        match check_move(from_balance, amount) {
            Err(e) => { return Err(e); },
            Ok(()) => {},
        }
        self.balances.set(from, from_balance.wrapping_sub(amount));
        let ghost taken = self@.balances;
        assert(taken =~= old(self)@.balances.insert(
            from,
            wrapping_difference(balance_in(old(self)@.balances, from), amount@),
        ));
        let to_balance = self.balance_of(to);
        self.balances.set(to, to_balance.wrapping_add(amount));
        assert(self@.balances =~= after_move(old(self)@.balances, from, to, amount@));
        assert(self@.allowances =~= old(self)@.allowances);
        Ok(())
    }

    /// Moves `amount` from `sender` to `to`. Fails with `ZeroAmount` where
    /// the amount is zero and with `InsufficientBalance` where `sender`
    /// holds less, and then changes nothing.
    pub fn transfer(&mut self, sender: Address, to: Address, amount: U256) -> (r: Result<
        (),
        TransferError,
    >)
        ensures
            match move_refusal(old(self)@.balances, sender, amount@) {
                Some(e) => r == Err::<(), TransferError>(e) && final(self)@ == old(self)@,
                None => r.is_ok() && final(self)@ == (TokenView {
                    balances: after_move(old(self)@.balances, sender, to, amount@),
                    ..old(self)@
                }),
            },
    {
        self.move_tokens(sender, to, amount)
    }

    /// Lets `spender` spend up to `amount` of `sender`'s tokens, in place of
    /// what it could spend before. Always returns `true`.
    pub fn approve(&mut self, sender: Address, spender: Address, amount: U256) -> (r: bool)
        ensures
            r,
            final(self)@ == (TokenView {
                allowances: old(self)@.allowances.insert(
                    Grant { owner: sender, spender },
                    amount@,
                ),
                ..old(self)@
            }),
    {
        self.allowances.set(Grant { owner: sender, spender }, amount);
        assert(self@.allowances =~= old(self)@.allowances.insert(
            Grant { owner: sender, spender },
            amount@,
        ));
        assert(self@.balances =~= old(self)@.balances);
        true
    }

    /// Moves `amount` from `from` to `to` on behalf of `sender`, and takes
    /// the amount off what `sender` may still spend of `from`'s tokens. Fails
    /// with `InsufficientAllowance` where `sender` may spend less, with
    /// `ZeroAmount` where the amount is zero and with `InsufficientBalance`
    /// where `from` holds less, tested in this order, and then changes
    /// nothing.
    pub fn transfer_from(&mut self, sender: Address, from: Address, to: Address, amount: U256) -> (r:
        Result<(), TransferError>)
        ensures
            match spend_refusal(old(self)@, sender, from, amount@) {
                Some(e) => r == Err::<(), TransferError>(e) && final(self)@ == old(self)@,
                None => r.is_ok() && final(self)@ == after_spend(
                    old(self)@,
                    sender,
                    from,
                    to,
                    amount@,
                ),
            },
    {
        let current_allowance = self.allowance(from, sender);
        match check_allowance(current_allowance, amount) {
            Err(e) => { return Err(e); },
            Ok(()) => {},
        }
        match self.move_tokens(from, to, amount) {
            Err(e) => { return Err(e); },
            Ok(()) => {},
        }
        let ghost moved = self@;
        self.allowances.set(Grant { owner: from, spender: sender }, current_allowance.wrapping_sub(amount));
        assert(self@.allowances =~= old(self)@.allowances.insert(
            Grant { owner: from, spender: sender },
            (allowance_in(old(self)@.allowances, from, sender) - amount@) as nat,
        ));
        assert(self@.balances =~= moved.balances);
        Ok(())
    }
}

/// A token in the role of the ledger's transfer capability: it moves the one
/// asset `asset`, spending allowances and paying out as `custodian`.
pub struct TokenPort {
    pub token: MockErc20,
    pub asset: Address,
    pub custodian: Address,
    pub calls: Ghost<Seq<PortCall>>,
}

impl TokenPort {
    /// A port for `token`, known to the ledger as `asset`, that acts as
    /// `custodian`.
    pub fn new(token: MockErc20, asset: Address, custodian: Address) -> (r: TokenPort)
        ensures
            r.token == token,
            r.asset == asset,
            r.custodian == custodian,
            r.calls() == Seq::<PortCall>::empty(),
    {
        TokenPort { token, asset, custodian, calls: Ghost(Seq::empty()) }
    }

    /// What a pull through the port returns: another asset than the token's
    /// own is `Rejected`; otherwise the token decides, with the custodian as
    /// the spender.
    pub open spec fn pull_refusal(&self, asset: Address, from: Address, amount: nat) -> Option<
        TransferError,
    > {
        if asset != self.asset {
            Some(TransferError::Rejected)
        } else {
            spend_refusal(self.token@, self.custodian, from, amount)
        }
    }

    /// What a push through the port returns: another asset than the token's
    /// own is `Rejected`; otherwise the token decides, with the custodian as
    /// the sender.
    pub open spec fn push_refusal(&self, asset: Address, amount: nat) -> Option<TransferError> {
        if asset != self.asset {
            Some(TransferError::Rejected)
        } else {
            move_refusal(self.token@.balances, self.custodian, amount)
        }
    }
}

impl ValueTransferPort for TokenPort {
    open spec fn calls(&self) -> Seq<PortCall> {
        self.calls@
    }

    /// Moves `amount` from `from` to `to` out of what `from` lets the
    /// custodian spend.
    fn pull(&mut self, asset: Address, from: Address, to: Address, amount: U256) -> (r: Result<
        (),
        TransferError,
    >)
        ensures
            final(self).asset == old(self).asset,
            final(self).custodian == old(self).custodian,
            match old(self).pull_refusal(asset, from, amount@) {
                Some(e) => r == Err::<(), TransferError>(e) && final(self).token@ == old(self).token@,
                None => r.is_ok() && final(self).token@ == after_spend(
                    old(self).token@,
                    old(self).custodian,
                    from,
                    to,
                    amount@,
                ),
            },
    {
        let r = if !asset.same(&self.asset) {
            Err(TransferError::Rejected)
        } else {
            self.token.transfer_from(self.custodian, from, to, amount)
        };
        proof {
            self.calls@ = self.calls@.push(
                PortCall {
                    transfer: TransferView::Pull { asset, from, to, amount: amount@ },
                    done: r.is_ok(),
                },
            );
        }
        r
    }

    /// Moves `amount` from the custodian to `to`.
    fn push(&mut self, asset: Address, to: Address, amount: U256) -> (r: Result<(), TransferError>)
        ensures
            final(self).asset == old(self).asset,
            final(self).custodian == old(self).custodian,
            match old(self).push_refusal(asset, amount@) {
                Some(e) => r == Err::<(), TransferError>(e) && final(self).token@ == old(self).token@,
                None => r.is_ok() && final(self).token@ == (TokenView {
                    balances: after_move(
                        old(self).token@.balances,
                        old(self).custodian,
                        to,
                        amount@,
                    ),
                    ..old(self).token@
                }),
            },
    {
        let r = if !asset.same(&self.asset) {
            Err(TransferError::Rejected)
        } else {
            self.token.transfer(self.custodian, to, amount)
        };
        proof {
            self.calls@ = self.calls@.push(
                PortCall {
                    transfer: TransferView::Push { asset, to, amount: amount@ },
                    done: r.is_ok(),
                },
            );
        }
        r
    }
}

} // verus!
