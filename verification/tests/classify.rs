use escher::{
    classify_accept_quote_response, classify_auth_response, classify_quote_response, Error, Side,
};

#[test]
fn quote_success_body_classifies_as_quote() {
    let body = "{\"quote_id\":\"q1\",\"product_id\":\"BTC-USD\",\"base_currency\":\"BTC\",\
                \"price\":\"50000.00\",\"base_currency_size\":\"1.5\",\
                \"quote_currency_size\":\"75000.00\",\"side\":\"buy\",\
                \"created_at\":\"2023-01-01T00:00:00Z\",\"expiry\":\"2023-01-01T00:05:00Z\"}";
    let q = classify_quote_response(body).unwrap();
    assert_eq!(q.quote_id, "q1");
    assert_eq!(q.product_id, "BTC-USD");
    assert_eq!(q.base_currency, "BTC");
    assert_eq!(q.price, "50000.00");
    assert_eq!(q.price.parse::<f32>().unwrap(), 50000.0f32);
    assert_eq!(q.base_currency_size.parse::<f32>().unwrap(), 1.5f32);
    assert_eq!(q.quote_currency_size, "75000.00");
    assert!(matches!(q.side, Side::Buy));
    assert_eq!(q.created_at, "2023-01-01T00:00:00Z");
    assert_eq!(q.expiry, "2023-01-01T00:05:00Z");
}

#[test]
fn auth_success_body_classifies_as_auth_response() {
    let body = "{\"AuthenticationResult\":{\"AccessToken\":\"at-1\",\"RefreshToken\":\"rt-2\",\
                \"TokenType\":\"Bearer\"},\"ChallengeParameters\":{}}";
    let a = classify_auth_response(body).unwrap();
    assert_eq!(a.authentication_result.access_token, "at-1");
    assert_eq!(a.authentication_result.refresh_token, "rt-2");
}

#[test]
fn accept_success_body_classifies_as_accept_quote() {
    let body = "{\"success\":true,\"quote_id\":\"q1\",\"order\":{\
                \"id\":\"o1\",\"product_id\":\"BTC-USD\",\"order_type\":\"market\",\
                \"order_status\":\"done\",\"time_in_force\":\"IOC\",\
                \"fill_price\":\"50000.00\",\"fill_qty\":\"1.5\",\"price\":\"50000.00\",\
                \"order_size\":\"1.5\",\"client_side\":\"sell\",\"status\":\"filled\",\
                \"executed_value\":\"75000.00\"}}";
    let a = classify_accept_quote_response(body).unwrap();
    assert!(a.success);
    assert_eq!(a.quote_id, "q1");
    assert_eq!(a.order.id, "o1");
    assert_eq!(a.order.fill_price.parse::<f32>().unwrap(), 50000.0f32);
    assert!(matches!(a.order.client_side, Side::Sell));
    assert_eq!(a.order.executed_value, "75000.00");
}

#[test]
fn accept_error_body_is_a_handled_error() {
    let body = "{\"success\":false,\"message\":\"quote expired\"}";
    match classify_accept_quote_response(body) {
        Err(Error::HandledError(e)) => {
            assert!(!e.success);
            assert_eq!(e.message, "quote expired");
        },
        _ => panic!("expected a handled error"),
    }
}

#[test]
fn error_body_is_handled_for_every_operation() {
    let body = "{\"success\":false,\"message\":\"insufficient balance\"}";
    assert!(matches!(
        classify_auth_response(body),
        Err(Error::HandledError(_))
    ));
    assert!(matches!(
        classify_quote_response(body),
        Err(Error::HandledError(_))
    ));
    match classify_quote_response(body) {
        Err(Error::HandledError(e)) => assert_eq!(e.text(), "insufficient balance"),
        _ => panic!("expected a handled error"),
    }
}

#[test]
fn neither_shape_is_a_decoding_error() {
    for body in ["{}", "{\"foo\":1}", "not json at all", "[1,2]", "{\"success\":false}"] {
        assert!(matches!(
            classify_quote_response(body),
            Err(Error::DecodingError(_))
        ));
        assert!(matches!(
            classify_auth_response(body),
            Err(Error::DecodingError(_))
        ));
        assert!(matches!(
            classify_accept_quote_response(body),
            Err(Error::DecodingError(_))
        ));
    }
}

#[test]
fn error_shape_with_true_success_flag_is_still_handled() {
    let body = "{\"success\":true,\"message\":\"odd but well-formed\"}";
    match classify_quote_response(body) {
        Err(Error::HandledError(e)) => {
            assert!(e.success);
            assert_eq!(e.message, "odd but well-formed");
        },
        _ => panic!("expected a handled error"),
    }
}

#[test]
fn malformed_numeric_string_fails_the_decode() {
    let body = "{\"quote_id\":\"q1\",\"product_id\":\"BTC-USD\",\"base_currency\":\"BTC\",\
                \"price\":\"fifty\",\"base_currency_size\":\"1.5\",\
                \"quote_currency_size\":\"75000.00\",\"side\":\"buy\",\
                \"created_at\":\"t0\",\"expiry\":\"t1\"}";
    assert!(matches!(
        classify_quote_response(body),
        Err(Error::DecodingError(_))
    ));
}

#[test]
fn numeric_strings_allow_signs_points_and_exponents() {
    let body = "{\"quote_id\":\"q1\",\"product_id\":\"BTC-USD\",\"base_currency\":\"BTC\",\
                \"price\":\"-1.5e3\",\"base_currency_size\":\"01\",\
                \"quote_currency_size\":\".5\",\"side\":\"sell\",\
                \"created_at\":\"t0\",\"expiry\":\"t1\"}";
    let q = classify_quote_response(body).unwrap();
    assert_eq!(q.price.parse::<f32>().unwrap(), -1500.0f32);
    assert_eq!(q.base_currency_size.parse::<f32>().unwrap(), 1.0f32);
    assert_eq!(q.quote_currency_size.parse::<f32>().unwrap(), 0.5f32);
    assert!(matches!(q.side, Side::Sell));
}

#[test]
fn wrong_side_token_fails_the_decode() {
    let body = "{\"quote_id\":\"q1\",\"product_id\":\"BTC-USD\",\"base_currency\":\"BTC\",\
                \"price\":\"1\",\"base_currency_size\":\"1\",\
                \"quote_currency_size\":\"1\",\"side\":\"BUY\",\
                \"created_at\":\"t0\",\"expiry\":\"t1\"}";
    assert!(matches!(
        classify_quote_response(body),
        Err(Error::DecodingError(_))
    ));
}

#[test]
fn bodies_with_escapes_and_whitespace_still_classify() {
    let body = " { \"success\" : false , \"message\" : \"a \\\"quoted\\\" word\\nand a line\" } ";
    match classify_quote_response(body) {
        Err(Error::HandledError(e)) => {
            assert_eq!(e.message, "a \"quoted\" word\nand a line");
        },
        _ => panic!("expected a handled error"),
    }
}

#[test]
fn unicode_escapes_decode_in_messages() {
    let body = "{\"success\":false,\"message\":\"\\u0041 \\u00e9 \\ud83d\\ude00\"}";
    match classify_quote_response(body) {
        Err(Error::HandledError(e)) => {
            assert_eq!(e.message, "A \u{e9} \u{1f600}");
        },
        _ => panic!("expected a handled error"),
    }
}

#[test]
fn lone_surrogate_escapes_are_rejected() {
    for body in [
        "{\"success\":false,\"message\":\"\\ud83d\"}",
        "{\"success\":false,\"message\":\"\\ude00\"}",
        "{\"success\":false,\"message\":\"\\ud83dx\"}",
        "{\"success\":false,\"message\":\"\\uZZZZ\"}",
    ] {
        assert!(matches!(
            classify_quote_response(body),
            Err(Error::DecodingError(_))
        ));
    }
}

#[test]
fn trailing_commas_are_not_json() {
    let body = "{\"success\":false,\"message\":\"x\",}";
    assert!(matches!(
        classify_quote_response(body),
        Err(Error::DecodingError(_))
    ));
}

#[test]
fn unicode_text_passes_through_classification() {
    let body = "{\"success\":false,\"message\":\"solde insuffisant \u{20ac}\"}";
    match classify_auth_response(body) {
        Err(Error::HandledError(e)) => {
            assert_eq!(e.message, "solde insuffisant \u{20ac}");
        },
        _ => panic!("expected a handled error"),
    }
}
