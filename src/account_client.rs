use vstd::prelude::*;

use crate::balance_model::AccountsBalancesResponse;
use crate::session_client::{
    bearer, bearer_value, is_uuid_v4_text, new_uuid_string, pair, pairs_view, BodyView, HttpRequest, Method,
    RequestBody, RequestView, HTTP_OK, HTTP_UNAUTHORIZED,
};
use crate::session_model::{info_header_json, HttpRequestInfoHeader, Session};
use crate::transaction::TransactionsResponse;
use crate::utils::{decimal, decimal_u32};

verus! {

/// How a request for account data failed.
#[derive(Debug, Clone, Copy, PartialEq, Eq, Structural)]
pub enum AccountClientError {
    /// The remote system rejected the bearer token.
    Unauthorized,
    /// Any other failure.
    Unknown,
}

/// A client of the banking endpoints that works with a ready session.
pub struct AccountClient {
    pub session: Session,
    pub client: reqwest::Client,
    pub url: String,
    pub session_id: String,
}

/// The headers of every request for account data.
pub open spec fn account_headers(
    access_token: Seq<char>,
    session_id: Seq<char>,
    request_id: Seq<char>,
) -> Seq<(Seq<char>, Seq<char>)> {
    seq![
        ("accept"@, "application/json"@),
        ("content-type"@, "application/json"@),
        ("authorization"@, bearer(access_token)),
        ("x-http-request-info"@, info_header_json(session_id, request_id)),
    ]
}

impl AccountClient {
    /// A client for `session` against the API at `url`, with a newly generated
    /// correlation id.
    pub fn new(session: Session, client: reqwest::Client, url: String) -> (r: Self)
        ensures
            r.session == session,
            r.client == client,
            r.url == url,
            is_uuid_v4_text(r.session_id@),
    {
        AccountClient { session, client, url, session_id: new_uuid_string() }
    }

    /// The request for the balances of all accounts.
    pub open spec fn accounts_request_spec(&self, request_id: Seq<char>) -> RequestView {
        RequestView {
            method: Method::Get,
            url: self.url@ + "/banking/clients/user/v2/accounts/balances"@,
            headers: account_headers(self.session.access_token@, self.session_id@, request_id),
            body: BodyView::Empty,
        }
    }

    /// The request for one page of an account's booked transactions.
    pub open spec fn transactions_request_spec(
        &self,
        account_id: Seq<char>,
        index: u32,
        request_id: Seq<char>,
    ) -> RequestView {
        RequestView {
            method: Method::Get,
            url: self.url@ + "/banking/v1/accounts/"@ + account_id
                + "/transactions?transactionState=BOOKED&paging-first="@ + decimal(index as nat),
            headers: account_headers(self.session.access_token@, self.session_id@, request_id),
            body: BodyView::Empty,
        }
    }

    fn headers(&self, request_id: &str) -> (r: Vec<(String, String)>)
        ensures
            pairs_view(r@) =~= account_headers(
                self.session.access_token@,
                self.session_id@,
                request_id@,
            ),
    {
        let info = HttpRequestInfoHeader::from(self.session_id.clone(), String::from_str(request_id));
        let mut headers: Vec<(String, String)> = Vec::new();
        headers.push(pair("accept", String::from_str("application/json")));
        headers.push(pair("content-type", String::from_str("application/json")));
        headers.push(pair("authorization", bearer_value(&self.session.access_token)));
        headers.push(pair("x-http-request-info", info.to_json()));
        headers
    }

    /// Builds the request for the balances of all accounts.
    pub fn accounts_request(&self, request_id: &str) -> (r: HttpRequest)
        ensures
            r@ == self.accounts_request_spec(request_id@),
    {
        let mut url = self.url.clone();
        url.append("/banking/clients/user/v2/accounts/balances");
        HttpRequest { method: Method::Get, url, headers: self.headers(request_id), body: RequestBody::Empty }
    }

    /// Builds the request for the booked transactions of `account_id`, from
    /// position `index` on.
    pub fn transactions_request(&self, account_id: &str, index: u32, request_id: &str) -> (r:
        HttpRequest)
        ensures
            r@ == self.transactions_request_spec(account_id@, index, request_id@),
    {
        let mut url = self.url.clone();
        url.append("/banking/v1/accounts/");
        url.append(account_id);
        url.append("/transactions?transactionState=BOOKED&paging-first=");
        let idx = decimal_u32(index);
        url.append(idx.as_str());
        HttpRequest { method: Method::Get, url, headers: self.headers(request_id), body: RequestBody::Empty }
    }
}

/// What the balances request yields: the balances on 200, a rejected token on
/// 401, an unknown failure otherwise or when the body could not be read.
pub open spec fn accounts_outcome(
    status: Option<u16>,
    body: Option<AccountsBalancesResponse>,
) -> Result<AccountsBalancesResponse, AccountClientError> {
    if status == Some(HTTP_OK) && body is Some {
        Ok(body->0)
    } else if status == Some(HTTP_UNAUTHORIZED) {
        Err(AccountClientError::Unauthorized)
    } else {
        Err(AccountClientError::Unknown)
    }
}

/// What the transactions request yields: the page on 200, an unknown failure
/// otherwise.
pub open spec fn transactions_outcome(
    status: Option<u16>,
    body: Option<TransactionsResponse>,
) -> Result<TransactionsResponse, AccountClientError> {
    if status == Some(HTTP_OK) && body is Some {
        Ok(body->0)
    } else {
        Err(AccountClientError::Unknown)
    }
}

/// Interprets the reply to the balances request.
pub fn accounts_result(status: Option<u16>, body: Option<AccountsBalancesResponse>) -> (r: Result<
    AccountsBalancesResponse,
    AccountClientError,
>)
    ensures
        r == accounts_outcome(status, body),
{
    if status == Some(HTTP_OK) {
        if let Some(b) = body {
            return Ok(b);
        }
    }
    if status == Some(HTTP_UNAUTHORIZED) {
        Err(AccountClientError::Unauthorized)
    } else {
        Err(AccountClientError::Unknown)
    }
}

/// Interprets the reply to the transactions request.
pub fn transactions_result(status: Option<u16>, body: Option<TransactionsResponse>) -> (r: Result<
    TransactionsResponse,
    AccountClientError,
>)
    ensures
        r == transactions_outcome(status, body),
{
    match body {
        Some(b) => if status == Some(HTTP_OK) {
            Ok(b)
        } else {
            Err(AccountClientError::Unknown)
        },
        None => Err(AccountClientError::Unknown),
    }
}

/// The offsets of the pages still to read after a first page of `page_size`
/// transactions out of `total`: every multiple of the page size from the second
/// page on that lies below the total. An empty first page ends the reading.
pub fn transaction_page_indices(page_size: usize, total: i32) -> (r: Vec<u32>)
    ensures
        page_size == 0 ==> r@.len() == 0,
        page_size > 0 ==> {
            &&& forall|i: int| 0 <= i < r@.len() ==> r@[i] == (i + 1) * page_size
            &&& (r@.len() + 1) * page_size >= total
            &&& r@.len() == 0 || r@.len() * page_size < total
        },
{
    let mut r: Vec<u32> = Vec::new();
    if page_size == 0 || total <= 0 {
        return r;
    }
    let ps = page_size as u128;
    let t = total as u128;
    let mut idx: u128 = ps;
    assert(idx == (r@.len() + 1) * ps) by (nonlinear_arith)
        requires
            r@.len() == 0,
            idx == ps,
    ;
    while idx < t
        invariant
            ps == page_size,
            ps > 0,
            t == total,
            idx == (r@.len() + 1) * ps,
            forall|i: int| 0 <= i < r@.len() ==> r@[i] == (i + 1) * page_size,
            r@.len() == 0 || r@.len() * page_size < total,
        decreases t + ps - idx,
    {
        let ghost k = r@.len();
        r.push(idx as u32);
        proof {
            assert((k + 2) * ps == (k + 1) * ps + ps) by (nonlinear_arith);
        }
        idx = idx + ps;
    }
    r
}

} // verus!
