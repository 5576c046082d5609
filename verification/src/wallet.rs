//! Wallets as the store keeps them.

use vstd::prelude::*;
use crate::utils::Name;

verus! {

/// A wallet: its name, whether it is the default one, and whether its key
/// is kept without a password.
#[derive(Debug)]
pub struct Wallet {
    pub name: Name,
    pub is_default: bool,
    pub is_unsafe: bool,
}

pub struct WalletView {
    pub name: Seq<char>,
    pub is_default: bool,
    pub is_unsafe: bool,
}

impl View for Wallet {
    type V = WalletView;

    open spec fn view(&self) -> WalletView {
        WalletView { name: self.name@, is_default: self.is_default, is_unsafe: self.is_unsafe }
    }
}

impl Wallet {
    /// Whether both wallets are the same.
    pub fn same(&self, other: &Wallet) -> (r: bool)
        ensures
            r == (self@ == other@),
    {
        self.name.same(&other.name) && self.is_default == other.is_default && self.is_unsafe == other.is_unsafe
    }
}

} // verus!
