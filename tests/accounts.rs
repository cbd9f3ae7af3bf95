use finreport::account_client::{
    accounts_result, transaction_page_indices, transactions_result, AccountClient, AccountClientError,
};
use finreport::balance_model::{AccountsBalancesResponse, Paging};
use finreport::session_client::{HttpRequest, Method, RequestBody};
use finreport::session_model::Session;
use finreport::transaction::{Transaction, TransactionsResponse};
use finreport::utils::decimal_u32;

fn account_client() -> AccountClient {
    let session = Session {
        access_token: "tok".to_string(),
        session_uuid: "sid".to_string(),
        refresh_token: "ref".to_string(),
    };
    AccountClient::new(session, reqwest::Client::new(), "https://api.example".to_string())
}

fn header<'a>(r: &'a HttpRequest, name: &str) -> Option<&'a str> {
    r.headers.iter().find(|(n, _)| n == name).map(|(_, v)| v.as_str())
}

#[test]
fn accounts_request_shape() {
    let c = account_client();
    assert_eq!(c.session_id.len(), 36);
    assert_eq!(c.session_id.chars().nth(14), Some('4'));
    let r = c.accounts_request("5");
    assert_eq!(r.method, Method::Get);
    assert_eq!(r.url, "https://api.example/banking/clients/user/v2/accounts/balances");
    assert_eq!(header(&r, "authorization"), Some("Bearer tok"));
    assert_eq!(header(&r, "content-type"), Some("application/json"));
    assert!(matches!(r.body, RequestBody::Empty));
}

#[test]
fn transactions_request_url_carries_index() {
    let c = account_client();
    let r = c.transactions_request("acc-1", 20, "5");
    assert_eq!(
        r.url,
        "https://api.example/banking/v1/accounts/acc-1/transactions?transactionState=BOOKED&paging-first=20"
    );
    let r = c.transactions_request("acc-1", 4294967295, "5");
    assert!(r.url.ends_with("paging-first=4294967295"));
}

#[test]
fn decimal_of_u32() {
    assert_eq!(decimal_u32(0), "0");
    assert_eq!(decimal_u32(7), "7");
    assert_eq!(decimal_u32(1000000000), "1000000000");
    assert_eq!(decimal_u32(4294967295), "4294967295");
}

#[test]
fn accounts_result_cases() {
    let body = AccountsBalancesResponse { accounts: vec![], paging: Paging { index: 0, matches: 0 } };
    assert!(accounts_result(Some(200), Some(body)).is_ok());
    assert_eq!(accounts_result(Some(200), None).unwrap_err(), AccountClientError::Unknown);
    assert_eq!(accounts_result(Some(401), None).unwrap_err(), AccountClientError::Unauthorized);
    assert_eq!(accounts_result(Some(500), None).unwrap_err(), AccountClientError::Unknown);
    assert_eq!(accounts_result(None, None).unwrap_err(), AccountClientError::Unknown);
}

#[test]
fn transactions_result_cases() {
    let page = TransactionsResponse {
        paging: Paging { index: 0, matches: 1 },
        values: vec![Transaction { reference: "ref-1".to_string() }],
    };
    assert_eq!(transactions_result(Some(200), Some(page)).unwrap().values[0].reference, "ref-1");
    assert_eq!(
        transactions_result(Some(401), Some(TransactionsResponse::default())).unwrap_err(),
        AccountClientError::Unknown
    );
    assert_eq!(transactions_result(Some(200), None).unwrap_err(), AccountClientError::Unknown);
}

#[test]
fn page_indices_follow_page_size() {
    assert_eq!(transaction_page_indices(20, 65), vec![20, 40, 60]);
    assert_eq!(transaction_page_indices(20, 60), vec![20, 40]);
    assert_eq!(transaction_page_indices(20, 20), Vec::<u32>::new());
    assert_eq!(transaction_page_indices(20, 5), Vec::<u32>::new());
    assert_eq!(transaction_page_indices(0, 100), Vec::<u32>::new());
    assert_eq!(transaction_page_indices(7, -3), Vec::<u32>::new());
    assert_eq!(transaction_page_indices(1, 4), vec![1, 2, 3]);
}
