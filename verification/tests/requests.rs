use escher::{Client, Number, Side};

#[test]
fn init_keeps_the_base_address() {
    let c = Client::init(String::from("https://venue.example"));
    assert_eq!(c.url, "https://venue.example");
}

#[test]
fn sign_in_request_posts_credentials_to_sign_in() {
    let c = Client::init(String::from("https://venue.example"));
    let r = c.sign_in_request("trader@example.com", "hunter2");
    assert_eq!(r.url, "https://venue.example/sign-in");
    assert_eq!(
        r.body,
        "{\"email\":\"trader@example.com\",\"password\":\"hunter2\"}"
    );
    assert!(r.access_key.is_none());
}

#[test]
fn sign_in_request_escapes_the_credentials() {
    let c = Client::init(String::from("https://venue.example"));
    let r = c.sign_in_request("a\"b", "p\\q\nr");
    assert_eq!(r.body, "{\"email\":\"a\\\"b\",\"password\":\"p\\\\q\\nr\"}");
}

#[test]
fn refresh_request_posts_token_and_email_to_sign_in() {
    let c = Client::init(String::from("https://venue.example"));
    let r = c.refresh_token_request("rt-9", "trader@example.com");
    assert_eq!(r.url, "https://venue.example/sign-in");
    assert_eq!(
        r.body,
        "{\"refreshToken\":\"rt-9\",\"email\":\"trader@example.com\"}"
    );
    assert!(r.access_key.is_none());
}

#[test]
fn quote_request_serializes_sell_side_lowercase() {
    let c = Client::init(String::from("https://venue.example"));
    let r = c.quote_request(String::from("tok"), "BTC-USD", "1.5", Side::Sell);
    assert_eq!(r.url, "https://venue.example/quotes");
    assert_eq!(
        r.body,
        "{\"product_id\":\"BTC-USD\",\"base_currency_size\":\"1.5\",\"side\":\"sell\"}"
    );
    assert_eq!(r.access_key.as_deref(), Some("tok"));
}

#[test]
fn quote_request_serializes_buy_side_lowercase() {
    let c = Client::init(String::from("https://venue.example"));
    let r = c.quote_request(String::from("tok"), "ETH-USD", "0.25", Side::Buy);
    assert_eq!(
        r.body,
        "{\"product_id\":\"ETH-USD\",\"base_currency_size\":\"0.25\",\"side\":\"buy\"}"
    );
}

#[test]
fn accept_quote_request_omits_quantity_for_full_size() {
    let c = Client::init(String::from("https://venue.example"));
    let r = c.accept_quote_request(String::from("tok"), "q1", None);
    assert_eq!(r.url, "https://venue.example/quotes/accept");
    assert_eq!(r.body, "{\"quote_id\":\"q1\"}");
    assert_eq!(r.access_key.as_deref(), Some("tok"));
}

#[test]
fn accept_quote_request_carries_a_partial_quantity() {
    let c = Client::init(String::from("https://venue.example"));
    let half = Number::new(String::from("0.5")).unwrap();
    let r = c.accept_quote_request(String::from("tok"), "q1", Some(&half));
    assert_eq!(r.body, "{\"quote_id\":\"q1\",\"quantity\":0.5}");
}

#[test]
fn built_bodies_reparse_to_the_given_fields() {
    let c = Client::init(String::from("https://venue.example"));
    let email = "weird\"user\\name\n\u{1f600}@example.com";
    let password = "p w\td\u{8}end";
    let r = c.sign_in_request(email, password);
    let parsed = escher::json::parse_json(&r.body).expect("the built body must be JSON");
    match &parsed {
        escher::Json::Obj(ms) => {
            match escher::json::obj_lookup(ms, "email") {
                Some(escher::Json::Str(t)) => assert_eq!(t, email),
                _ => panic!("email missing from the built body"),
            }
            match escher::json::obj_lookup(ms, "password") {
                Some(escher::Json::Str(t)) => assert_eq!(t, password),
                _ => panic!("password missing from the built body"),
            }
        },
        _ => panic!("the built body must be an object"),
    }
}

#[test]
fn side_tokens_round_trip() {
    assert!(matches!(Side::from_token(Side::Buy.token()), Some(Side::Buy)));
    assert!(matches!(Side::from_token(Side::Sell.token()), Some(Side::Sell)));
    assert_eq!(Side::Buy.token(), "buy");
    assert_eq!(Side::Sell.token(), "sell");
    assert!(Side::from_token("hold").is_none());
}

#[test]
fn number_tokens_follow_the_json_grammar() {
    assert!(Number::new(String::from("0.5")).is_some());
    assert!(Number::new(String::from("-12.75e2")).is_some());
    assert!(Number::new(String::from("3")).is_some());
    assert!(Number::new(String::from("01")).is_none());
    assert!(Number::new(String::from("1.")).is_none());
    assert!(Number::new(String::from("half")).is_none());
    assert!(Number::new(String::from("")).is_none());
    let n = Number::new(String::from("2.25")).unwrap();
    assert_eq!(n.as_str(), "2.25");
}
