use solana_dev_tools::auth::credentials::Credentials;
use solana_dev_tools::client::api::{ApiClient, ApiKeyRecord, Pagination};
use solana_dev_tools::commands::airdrop::{
    explorer_url, page_footer, status_tone, PageFooter, StatusTone,
};
use solana_dev_tools::commands::apikey::{key_row, KeyRow};
use solana_dev_tools::text::{abbreviated, date_part};

fn client() -> ApiClient {
    ApiClient::new("http://localhost:3000".to_string(), 30)
}

#[test]
fn client_without_credentials_sends_no_authorization() {
    assert_eq!(client().authorization(), None);
    assert_eq!(client().timeout_seconds(), 30);
}

#[test]
fn client_with_credentials_sends_a_bearer_token() {
    let c = Credentials { user_id: "alice".to_string(), api_token: "opaque".to_string() };
    let with = client().with_credentials(c);
    assert_eq!(with.authorization(), Some(format!("{} {}", "Bearer", "opaque")));
    assert_eq!(with.airdrop_url(), "http://localhost:3000/airdrop");
    assert_eq!(with.timeout_seconds(), 30);
}

#[test]
fn addresses_of_the_service() {
    let c = client();
    assert_eq!(c.url("/x"), "http://localhost:3000/x");
    assert_eq!(c.airdrop_url(), "http://localhost:3000/airdrop");
    assert_eq!(
        c.airdrop_history_url(50, 0),
        "http://localhost:3000/airdrop/history?limit=50&offset=0"
    );
    assert_eq!(
        c.airdrop_history_url(u32::MAX, 100),
        "http://localhost:3000/airdrop/history?limit=4294967295&offset=100"
    );
    assert_eq!(c.airdrop_usage_url(), "http://localhost:3000/airdrop/usage");
    assert_eq!(c.api_keys_url(), "http://localhost:3000/auth/api-keys");
    assert_eq!(c.api_key_url("k1"), "http://localhost:3000/auth/api-keys/k1");
    assert_eq!(c.api_key_usage_url("k1"), "http://localhost:3000/auth/api-keys/k1/usage");
}

#[test]
fn long_texts_are_abbreviated() {
    assert_eq!(abbreviated(""), "");
    assert_eq!(abbreviated("short"), "short");
    assert_eq!(abbreviated("123456789012"), "123456789012");
    assert_eq!(abbreviated("1234567890123"), "123456...890123");
    assert_eq!(abbreviated("a rather long line of text"), "a rath...f text");
    assert_eq!(abbreviated("ééééééxüüüüüü"), "éééééé...üüüüüü");
}

#[test]
fn date_is_what_stands_before_the_first_t() {
    assert_eq!(date_part("2024-05-01T12:34:56Z"), "2024-05-01");
    assert_eq!(date_part("2024-05-01"), "2024-05-01");
    assert_eq!(date_part(""), "");
    assert_eq!(date_part("T12:00"), "");
    assert_eq!(date_part("aTbTc"), "a");
    assert_eq!(date_part("2024-05-01t12:00"), "2024-05-01t12:00");
}

#[test]
fn row_of_an_api_key() {
    let key = ApiKeyRecord {
        id: "identifier of a key".to_string(),
        name: "ci".to_string(),
        created_at: "2024-05-01T12:34:56Z".to_string(),
        last_used_at: Some("2024-06-02T01:02:03Z".to_string()),
    };
    assert_eq!(
        key_row(&key),
        KeyRow {
            id: "identi... a key".to_string(),
            name: "ci".to_string(),
            created: "2024-05-01".to_string(),
            last_used: "2024-06-02".to_string(),
        }
    );
    let unused = ApiKeyRecord { last_used_at: None, ..key };
    assert_eq!(key_row(&unused).last_used, "Never");
}

#[test]
fn tone_of_a_status() {
    assert_eq!(status_tone("completed"), StatusTone::Done);
    assert_eq!(status_tone("pending"), StatusTone::Waiting);
    assert_eq!(status_tone("failed"), StatusTone::Failed);
    assert_eq!(status_tone("Completed"), StatusTone::Plain);
    assert_eq!(status_tone(""), StatusTone::Plain);
}

#[test]
fn explorer_address_of_a_transaction() {
    assert_eq!(explorer_url("5sig"), "https://solscan.io/tx/5sig?cluster=devnet");
}

#[test]
fn footer_of_a_page() {
    let more = Pagination { total: 120, limit: 50, offset: 50, has_more: true };
    assert_eq!(
        page_footer(50, 50, &more),
        PageFooter {
            summary: "Showing 51 - 100 of 120 total airdrops".to_string(),
            more: Some("Use --offset 100 to see more".to_string()),
        }
    );
    let last = Pagination { total: 120, limit: 50, offset: 100, has_more: false };
    assert_eq!(
        page_footer(100, 20, &last),
        PageFooter { summary: "Showing 101 - 120 of 120 total airdrops".to_string(), more: None }
    );
}

#[test]
fn footer_does_not_overflow() {
    let p = Pagination { total: u32::MAX, limit: u32::MAX, offset: u32::MAX, has_more: true };
    assert_eq!(
        page_footer(u32::MAX, u32::MAX, &p),
        PageFooter {
            summary: "Showing 4294967296 - 8589934590 of 4294967295 total airdrops".to_string(),
            more: Some("Use --offset 8589934590 to see more".to_string()),
        }
    );
}
