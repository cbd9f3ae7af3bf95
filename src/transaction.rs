use vstd::prelude::*;

use crate::balance_model::Paging;

verus! {

/// Why reading transactions failed.
#[derive(Debug, Clone, Copy, PartialEq, Eq, Structural)]
pub enum TransactionsError {
    ResponseError,
}

/// Which page of which account's transactions to read.
#[derive(Debug)]
pub struct TransactionsReq {
    pub account_uuid: String,
    pub page: i32,
    pub transaction_state: String,
}

/// One booked transaction.
#[derive(Debug)]
pub struct Transaction {
    pub reference: String,
}

/// An amount and its currency unit.
#[derive(Debug)]
pub struct Amount {
    pub value: String,
    pub unit: String,
}

/// The party that sent a payment.
#[derive(Debug)]
pub struct Remitter {
    pub holder_name: String,
}

/// The kind of a transaction.
#[derive(Debug)]
pub struct TransactionType {
    pub key: String,
    pub text: String,
}

/// A page of transactions.
#[derive(Debug, Default)]
pub struct TransactionsResponse {
    pub paging: Paging,
    pub values: Vec<Transaction>,
}

} // verus!
