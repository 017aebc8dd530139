use wallet_balances::json::{find_member, Json};
use wallet_balances::report::{decimal, failure_reason, report_all, report_line, Config, Stream};
use wallet_balances::rpc::{
    balance_from_body, balance_from_json, classify_exchange, request_body, FetchError,
};

fn config(wallets: &[&str]) -> Config {
    Config {
        wallets: wallets.iter().map(|w| w.to_string()).collect(),
        rpc_url: "http://127.0.0.1:8899".to_string(),
    }
}

fn answer(body: &str) -> Result<u64, FetchError> {
    classify_exchange(Ok(body.to_string()))
}

#[test]
fn single_wallet_balance_goes_to_stdout() {
    let cfg = config(&["Wallet1"]);
    let outcomes = vec![answer("{\"result\":{\"value\":1500000}}")];
    assert!(matches!(outcomes[0], Ok(1500000)));
    let lines = report_all(&cfg, &outcomes);
    assert_eq!(lines.len(), 1);
    assert_eq!(lines[0].stream, Stream::Stdout);
    assert_eq!(lines[0].text, "Wallet1: 1500000 lamports");
}

#[test]
fn server_error_with_empty_body_goes_to_stderr() {
    let cfg = config(&["WalletX"]);
    let outcomes = vec![answer("")];
    assert!(matches!(outcomes[0], Err(FetchError::Parse)));
    let lines = report_all(&cfg, &outcomes);
    assert_eq!(lines.len(), 1);
    assert_eq!(lines[0].stream, Stream::Stderr);
    assert!(lines[0].text.contains("WalletX"));
    assert_eq!(
        lines[0].text,
        "Failed to get balance for WalletX: error decoding response body"
    );
}

#[test]
fn one_good_and_one_malformed_answer_give_two_lines() {
    let cfg = config(&["A", "B"]);
    let outcomes = vec![answer("{\"result\":{\"value\":42}}"), answer("{\"result\":")];
    let lines = report_all(&cfg, &outcomes);
    assert_eq!(lines.len(), 2);
    let out: Vec<&str> = lines
        .iter()
        .filter(|l| l.stream == Stream::Stdout)
        .map(|l| l.text.as_str())
        .collect();
    let err: Vec<&str> = lines
        .iter()
        .filter(|l| l.stream == Stream::Stderr)
        .map(|l| l.text.as_str())
        .collect();
    assert_eq!(out, vec!["A: 42 lamports"]);
    assert_eq!(err, vec!["Failed to get balance for B: error decoding response body"]);
}

#[test]
fn failures_do_not_touch_sibling_lines() {
    let cfg = config(&["A", "B", "C"]);
    let outcomes = vec![
        Ok(1),
        classify_exchange(Err("connection refused".to_string())),
        Ok(3),
    ];
    let lines = report_all(&cfg, &outcomes);
    assert_eq!(lines.len(), 3);
    assert_eq!(lines[0].stream, Stream::Stdout);
    assert_eq!(lines[0].text, "A: 1 lamports");
    assert_eq!(lines[1].stream, Stream::Stderr);
    assert_eq!(lines[1].text, "Failed to get balance for B: connection refused");
    assert_eq!(lines[2].stream, Stream::Stdout);
    assert_eq!(lines[2].text, "C: 3 lamports");
}

#[test]
fn every_wallet_gets_exactly_one_line() {
    let cfg = config(&["A", "B", "A", "D", "E"]);
    let outcomes = vec![
        Ok(10),
        Err(FetchError::InvalidResponse),
        Ok(10),
        Err(FetchError::Parse),
        Ok(0),
    ];
    let lines = report_all(&cfg, &outcomes);
    assert_eq!(lines.len(), 5);
    for (line, wallet) in lines.iter().zip(cfg.wallets.iter()) {
        assert!(line.text.contains(wallet.as_str()));
    }
    assert_eq!(lines[0].text, lines[2].text);
}

#[test]
fn empty_wallet_list_gives_no_lines() {
    let cfg = config(&[]);
    assert!(report_all(&cfg, &vec![]).is_empty());
}

#[test]
fn same_body_is_read_the_same_way_twice() {
    for body in ["{\"result\":{\"value\":7}}", "{\"result\":{}}", "not json", ""] {
        let first = format!("{:?}", balance_from_body(body));
        let second = format!("{:?}", balance_from_body(body));
        assert_eq!(first, second);
    }
}

#[test]
fn missing_value_is_an_invalid_response() {
    assert!(matches!(
        answer("{\"result\":{}}"),
        Err(FetchError::InvalidResponse)
    ));
}

#[test]
fn non_json_body_is_a_parse_failure() {
    assert!(matches!(answer("<html>oops</html>"), Err(FetchError::Parse)));
}

#[test]
fn connection_failure_is_a_transport_failure() {
    match classify_exchange(Err("connection refused".to_string())) {
        Err(FetchError::Transport(cause)) => assert_eq!(cause, "connection refused"),
        other => panic!("unexpected outcome {:?}", other),
    }
}

#[test]
fn values_that_are_not_u64_are_invalid() {
    for body in [
        "{\"result\":{\"value\":-1}}",
        "{\"result\":{\"value\":1.5}}",
        "{\"result\":{\"value\":18446744073709551616}}",
        "{\"result\":{\"value\":\"12\"}}",
        "{\"result\":12}",
        "{\"value\":12}",
        "[1,2]",
        "null",
    ] {
        assert!(
            matches!(answer(body), Err(FetchError::InvalidResponse)),
            "{}",
            body
        );
    }
}

#[test]
fn largest_balance_is_read() {
    assert!(matches!(
        answer("{\"jsonrpc\":\"2.0\",\"result\":{\"context\":{\"slot\":1},\"value\":18446744073709551615},\"id\":1}"),
        Ok(u64::MAX)
    ));
}

#[test]
fn error_member_is_not_read() {
    assert!(matches!(
        answer("{\"jsonrpc\":\"2.0\",\"error\":{\"code\":-32602,\"message\":\"bad\"},\"id\":1}"),
        Err(FetchError::InvalidResponse)
    ));
}

#[test]
fn request_body_quotes_the_wallet() {
    assert_eq!(
        request_body("Wallet1"),
        "{\"jsonrpc\":\"2.0\",\"id\":1,\"method\":\"getBalance\",\"params\":[\"Wallet1\"]}"
    );
    assert_eq!(
        request_body("a\"b\\c"),
        "{\"jsonrpc\":\"2.0\",\"id\":1,\"method\":\"getBalance\",\"params\":[\"a\\\"b\\\\c\"]}"
    );
}

#[test]
fn request_body_parses_back_as_json() {
    let body = request_body("W");
    let v: serde_json::Value = serde_json::from_str(&body).unwrap();
    assert_eq!(v["method"], "getBalance");
    assert_eq!(v["params"][0], "W");
    assert_eq!(v["id"], 1);
}

#[test]
fn decimal_numerals() {
    assert_eq!(decimal(0), "0");
    assert_eq!(decimal(9), "9");
    assert_eq!(decimal(10), "10");
    assert_eq!(decimal(1500000), "1500000");
    assert_eq!(decimal(u64::MAX), "18446744073709551615");
}

#[test]
fn failure_reasons_in_words() {
    assert_eq!(failure_reason(&FetchError::Parse), "error decoding response body");
    assert_eq!(failure_reason(&FetchError::InvalidResponse), "Invalid response from RPC");
    assert_eq!(failure_reason(&FetchError::Transport("timed out".to_string())), "timed out");
}

#[test]
fn single_report_line() {
    let line = report_line("W", &Ok(5));
    assert_eq!(line.stream, Stream::Stdout);
    assert_eq!(line.text, "W: 5 lamports");
    let line = report_line("W", &Err(FetchError::InvalidResponse));
    assert_eq!(line.stream, Stream::Stderr);
    assert_eq!(line.text, "Failed to get balance for W: Invalid response from RPC");
}

#[test]
fn first_of_repeated_keys_is_found() {
    let entries = vec![
        ("a".to_string(), Json::Unsigned(1)),
        ("b".to_string(), Json::Unsigned(2)),
        ("b".to_string(), Json::Unsigned(3)),
    ];
    assert_eq!(find_member(&entries, &"b".to_string()), Some(1));
    assert_eq!(find_member(&entries, &"c".to_string()), None);
}

#[test]
fn balance_from_model() {
    let doc = Json::Object(vec![(
        "result".to_string(),
        Json::Object(vec![("value".to_string(), Json::Unsigned(99))]),
    )]);
    assert!(matches!(balance_from_json(&doc), Ok(99)));
    let doc = Json::Object(vec![(
        "result".to_string(),
        Json::Object(vec![("value".to_string(), Json::Negative(-4))]),
    )]);
    assert!(matches!(balance_from_json(&doc), Err(FetchError::InvalidResponse)));
    assert!(matches!(balance_from_json(&Json::Null), Err(FetchError::InvalidResponse)));
}
