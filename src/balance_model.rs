use vstd::prelude::*;

verus! {

/// The kind of an account, as text.
#[derive(Debug)]
pub struct AccountType {
    pub text: String,
}

/// An account of the customer.
#[derive(Debug)]
pub struct Account {
    pub iban: String,
    pub account_id: String,
}

/// An amount and its currency unit, as the API writes them.
#[derive(Debug)]
pub struct Balance {
    pub value: String,
    pub unit: String,
}

/// The balance of one account.
#[derive(Debug)]
pub struct AccountBalance {
    pub account: Account,
    pub account_id: String,
    pub balance: Balance,
}

/// Where a page of results stands in the whole.
#[derive(Debug, Default)]
pub struct Paging {
    pub index: i32,
    pub matches: i32,
}

/// The balances of all accounts.
#[derive(Debug)]
pub struct AccountsBalancesResponse {
    pub accounts: Vec<AccountBalance>,
    pub paging: Paging,
}

} // verus!
