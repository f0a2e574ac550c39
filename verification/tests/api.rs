use bntui::api::{
    bearer_value, endpoint_url, normalize_base_url, pick_txid, send_outcome, send_outcome_from,
    txid_member, Endpoint, JsonMember,
};

fn ok(text: &str) -> Result<String, String> {
    Ok(text.to_string())
}

#[test]
fn the_identifier_is_read_from_txid_or_hash() {
    assert_eq!(send_outcome(true, "200 OK", r#"{"txid":"abc123"}"#.to_string()), ok("abc123"));
    assert_eq!(send_outcome(true, "200 OK", r#"{"hash":"h1"}"#.to_string()), ok("h1"));
    assert_eq!(
        send_outcome(true, "200 OK", r#" {"hash":"h1","txid":"t1","fee":5} "#.to_string()),
        ok("t1")
    );
    assert_eq!(txid_member(r#"{"txid":"abc123"}"#), Some("abc123".to_string()));
    assert_eq!(txid_member(r#"{"hash":"hé"}"#), Some("hé".to_string()));
    assert_eq!(txid_member(r#"{"other":"x"}"#), None);
    assert_eq!(txid_member(r#"["txid","hash"]"#), None);
    assert_eq!(txid_member("not json"), None);
    assert_eq!(txid_member(""), None);
}

#[test]
fn a_txid_that_is_no_string_hides_the_hash() {
    assert_eq!(txid_member(r#"{"txid":5,"hash":"h1"}"#), None);
    assert_eq!(txid_member(r#"{"txid":null,"hash":"h1"}"#), None);
    let body = r#"{"txid":5,"hash":"h1"}"#;
    assert_eq!(send_outcome(true, "200 OK", body.to_string()), ok(body));
}

#[test]
fn picking_prefers_txid() {
    let text = |t: &str| JsonMember::Text(t.to_string());
    assert_eq!(pick_txid(text("t"), text("h")), Some("t".to_string()));
    assert_eq!(pick_txid(text("t"), JsonMember::Missing), Some("t".to_string()));
    assert_eq!(pick_txid(JsonMember::Missing, text("h")), Some("h".to_string()));
    assert_eq!(pick_txid(JsonMember::Other, text("h")), None);
    assert_eq!(pick_txid(JsonMember::Missing, JsonMember::Other), None);
    assert_eq!(pick_txid(JsonMember::Missing, JsonMember::Missing), None);
}

#[test]
fn a_short_bare_body_is_the_identifier() {
    assert_eq!(send_outcome(true, "200 OK", "  deadbeef \n".to_string()), ok("deadbeef"));
    assert_eq!(send_outcome(true, "200 OK", "\"abc\"".to_string()), ok("abc"));
    assert_eq!(send_outcome(true, "200 OK", " \"\"abc\" \n".to_string()), ok("abc"));
    assert_eq!(send_outcome(true, "200 OK", "\" abc \"".to_string()), ok(" abc "));
    let sixty_four = "a".repeat(64);
    assert_eq!(send_outcome(true, "200 OK", sixty_four.clone()), ok(&sixty_four));
    let quoted = format!("\"{}\"", sixty_four);
    assert_eq!(send_outcome(true, "200 OK", quoted), ok(&sixty_four));
}

#[test]
fn an_empty_or_long_body_counts_as_sent() {
    assert_eq!(send_outcome(true, "200 OK", String::new()), ok("sent"));
    assert_eq!(send_outcome(true, "200 OK", "  \n".to_string()), ok("sent"));
    assert_eq!(send_outcome(true, "200 OK", "\"\"".to_string()), ok("sent"));
    assert_eq!(send_outcome(true, "200 OK", "a".repeat(65)), ok("sent"));
    // The limit counts bytes: 21 euro signs are 63 bytes, 22 are 66.
    let fits = "€".repeat(21);
    assert_eq!(send_outcome(true, "200 OK", fits.clone()), ok(&fits));
    assert_eq!(send_outcome(true, "200 OK", "€".repeat(22)), ok("sent"));
    assert_eq!(send_outcome(true, "200 OK", "é".repeat(32)), ok(&"é".repeat(32)));
    assert_eq!(send_outcome(true, "200 OK", "é".repeat(33)), ok("sent"));
}

#[test]
fn a_failed_send_reports_the_body_or_the_status() {
    assert_eq!(
        send_outcome(false, "500 Internal Server Error", String::new()),
        Err("Send failed (HTTP 500 Internal Server Error)".to_string())
    );
    assert_eq!(
        send_outcome(false, "400 Bad Request", "insufficient funds".to_string()),
        Err("insufficient funds".to_string())
    );
    assert_eq!(
        send_outcome(false, "400 Bad Request", r#"{"txid":"abc"}"#.to_string()),
        Err(r#"{"txid":"abc"}"#.to_string())
    );
    assert_eq!(send_outcome(false, "404", " ".to_string()), Err(" ".to_string()));
}

#[test]
fn outcome_from_a_named_identifier() {
    assert_eq!(
        send_outcome_from(true, "200 OK", "whatever".to_string(), Some("t9".to_string())),
        ok("t9")
    );
    assert_eq!(send_outcome_from(true, "200 OK", "bare".to_string(), None), ok("bare"));
    assert_eq!(
        send_outcome_from(false, "503", String::new(), Some("t9".to_string())),
        Err("Send failed (HTTP 503)".to_string())
    );
}

#[test]
fn base_url_loses_its_trailing_slashes() {
    assert_eq!(normalize_base_url("http://localhost:8332"), "http://localhost:8332");
    assert_eq!(normalize_base_url("http://localhost:8332/"), "http://localhost:8332");
    assert_eq!(normalize_base_url("http://localhost:8332///"), "http://localhost:8332");
    assert_eq!(normalize_base_url("/a/b"), "/a/b");
    assert_eq!(normalize_base_url("//"), "");
    assert_eq!(normalize_base_url(""), "");
}

#[test]
fn every_request_has_its_address() {
    let base = "http://localhost:8332";
    let url = |e: Endpoint| endpoint_url(base, e);
    assert_eq!(url(Endpoint::Status), "http://localhost:8332/api/status");
    assert_eq!(url(Endpoint::Mempool), "http://localhost:8332/api/mempool");
    assert_eq!(url(Endpoint::Balance), "http://localhost:8332/api/wallet/balance");
    assert_eq!(url(Endpoint::Address), "http://localhost:8332/api/wallet/address");
    assert_eq!(url(Endpoint::Mining), "http://localhost:8332/api/mining");
    assert_eq!(url(Endpoint::MiningStart), "http://localhost:8332/api/mining/start");
    assert_eq!(url(Endpoint::MiningStop), "http://localhost:8332/api/mining/stop");
    assert_eq!(url(Endpoint::MiningThreads), "http://localhost:8332/api/mining/threads");
    assert_eq!(url(Endpoint::Send), "http://localhost:8332/api/wallet/send");
    assert_eq!(url(Endpoint::Block(0)), "http://localhost:8332/api/block/0");
    assert_eq!(url(Endpoint::Block(1234)), "http://localhost:8332/api/block/1234");
    assert_eq!(
        url(Endpoint::Block(u64::MAX)),
        "http://localhost:8332/api/block/18446744073709551615"
    );
}

#[test]
fn bearer_value_trims_the_token() {
    assert_eq!(bearer_value("secret"), "Bearer secret");
    assert_eq!(bearer_value("  secret\n"), "Bearer secret");
    assert_eq!(bearer_value("a b\r\n"), "Bearer a b");
    assert_eq!(bearer_value(""), "Bearer ");
    assert_eq!(bearer_value("\u{3000}x\u{a0}"), "Bearer x");
}
