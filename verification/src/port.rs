//! The capability to move tokens, as the ledger sees it.
use vstd::prelude::*;
use crate::identity::Address;
use crate::uint256::U256;

verus! {

/// Why a token transfer was refused.
#[derive(Clone, Copy, Debug, PartialEq, Eq, Structural)]
pub enum TransferError {
    /// The amount is zero.
    ZeroAmount,
    /// The sender holds less than the amount.
    InsufficientBalance,
    /// The spender may spend less than the amount.
    InsufficientAllowance,
    /// The token refused the transfer for another reason.
    Rejected,
}

/// A transfer of `amount` units of `asset` from `from` into the custody of
/// `to`, to be made when a task is created.
#[derive(Clone, Copy, Debug, PartialEq, Eq)]
pub struct Pull {
    pub asset: Address,
    pub from: Address,
    pub to: Address,
    pub amount: U256,
}

/// A release of `amount` units of `asset` out of custody to `to`, to be made
/// when a submission is approved.
#[derive(Clone, Copy, Debug, PartialEq, Eq)]
pub struct Push {
    pub asset: Address,
    pub to: Address,
    pub amount: U256,
}

/// A transfer as a mathematical value.
pub ghost enum TransferView {
    Pull { asset: Address, from: Address, to: Address, amount: nat },
    Push { asset: Address, to: Address, amount: nat },
}

impl View for Pull {
    type V = TransferView;

    open spec fn view(&self) -> TransferView {
        TransferView::Pull {
            asset: self.asset,
            from: self.from,
            to: self.to,
            amount: self.amount@,
        }
    }
}

impl View for Push {
    type V = TransferView;

    open spec fn view(&self) -> TransferView {
        TransferView::Push { asset: self.asset, to: self.to, amount: self.amount@ }
    }
}

/// One call of a port: the transfer that was asked for, and whether it was
/// made.
pub ghost struct PortCall {
    pub transfer: TransferView,
    pub done: bool,
}

/// The capability to move tokens. The ledger calls it once per created task
/// and once per approval, and commits an operation only where the call
/// returned `Ok`. An implementation promises nothing of what a transfer does,
/// only that each call is recorded with its answer.
pub trait ValueTransferPort {
    /// The calls made so far, oldest first.
    spec fn calls(&self) -> Seq<PortCall>;

    /// Moves `amount` units of `asset` from `from` to `to`.
    fn pull(&mut self, asset: Address, from: Address, to: Address, amount: U256) -> (r: Result<
        (),
        TransferError,
    >)
        ensures
            final(self).calls() == old(self).calls().push(
                PortCall {
                    transfer: TransferView::Pull { asset, from, to, amount: amount@ },
                    done: r.is_ok(),
                },
            ),
    ;

    /// Moves `amount` units of `asset` out of custody to `to`.
    fn push(&mut self, asset: Address, to: Address, amount: U256) -> (r: Result<(), TransferError>)
        ensures
            final(self).calls() == old(self).calls().push(
                PortCall {
                    transfer: TransferView::Push { asset, to, amount: amount@ },
                    done: r.is_ok(),
                },
            ),
    ;
}

/// A port that moves nothing. It refuses every pull while `fail_pull` is
/// set and every push while `fail_push` is set, with `Rejected`, and keeps
/// the transfers that it let pass, oldest first.
pub struct ScriptedPort {
    pub fail_pull: bool,
    pub fail_push: bool,
    pub pulls: Vec<Pull>,
    pub pushes: Vec<Push>,
    pub calls: Ghost<Seq<PortCall>>,
}

impl ScriptedPort {
    /// A port that has seen no call yet.
    pub fn new(fail_pull: bool, fail_push: bool) -> (r: ScriptedPort)
        ensures
            r.fail_pull == fail_pull,
            r.fail_push == fail_push,
            r.pulls@ == Seq::<Pull>::empty(),
            r.pushes@ == Seq::<Push>::empty(),
            r.calls() == Seq::<PortCall>::empty(),
    {
        ScriptedPort {
            fail_pull,
            fail_push,
            pulls: Vec::new(),
            pushes: Vec::new(),
            calls: Ghost(Seq::empty()),
        }
    }
}

impl ValueTransferPort for ScriptedPort {
    open spec fn calls(&self) -> Seq<PortCall> {
        self.calls@
    }

    fn pull(&mut self, asset: Address, from: Address, to: Address, amount: U256) -> (r: Result<
        (),
        TransferError,
    >)
        ensures
            final(self).fail_pull == old(self).fail_pull,
            final(self).fail_push == old(self).fail_push,
            final(self).pushes == old(self).pushes,
            old(self).fail_pull ==> r == Err::<(), TransferError>(TransferError::Rejected) && final(self).pulls == old(self).pulls,
            !old(self).fail_pull ==> r.is_ok() && final(self).pulls@ == old(self).pulls@.push(
                Pull { asset, from, to, amount },
            ),
    {
        let r = if self.fail_pull {
            Err(TransferError::Rejected)
        } else {
            self.pulls.push(Pull { asset, from, to, amount });
            Ok(())
        };
        proof {
            self.calls@ = self.calls@.push(
                PortCall {
                    transfer: TransferView::Pull { asset, from, to, amount: amount@ },
                    done: r.is_ok(),
                },
            );
        }
        r
    }

    fn push(&mut self, asset: Address, to: Address, amount: U256) -> (r: Result<(), TransferError>)
        ensures
            final(self).fail_pull == old(self).fail_pull,
            final(self).fail_push == old(self).fail_push,
            final(self).pulls == old(self).pulls,
            old(self).fail_push ==> r == Err::<(), TransferError>(TransferError::Rejected) && final(self).pushes == old(self).pushes,
            !old(self).fail_push ==> r.is_ok() && final(self).pushes@ == old(self).pushes@.push(
                Push { asset, to, amount },
            ),
    {
        let r = if self.fail_push {
            Err(TransferError::Rejected)
        } else {
            self.pushes.push(Push { asset, to, amount });
            Ok(())
        };
        proof {
            self.calls@ = self.calls@.push(
                PortCall {
                    transfer: TransferView::Push { asset, to, amount: amount@ },
                    done: r.is_ok(),
                },
            );
        }
        r
    }
}

} // verus!
