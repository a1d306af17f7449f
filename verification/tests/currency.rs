use std::str::FromStr;
use stocks::currency::{quote_currency, Currency, QuoteCurrencyError};
use stocks::currency_label::{label_text, shows_currency};

const ALL: [Currency; 9] = [
    Currency::USD,
    Currency::EUR,
    Currency::CAD,
    Currency::MXN,
    Currency::SEK,
    Currency::GBP,
    Currency::SGD,
    Currency::ARS,
    Currency::JPY,
];

#[test]
fn parses_lower_case_codes() {
    assert_eq!(Currency::from_str("usd").unwrap(), Currency::USD);
    assert_eq!(Currency::from_str("eur").unwrap(), Currency::EUR);
    assert_eq!(Currency::from_str("jpy").unwrap(), Currency::JPY);
}

#[test]
fn parses_codes_in_any_case() {
    assert_eq!(Currency::from_str("USD").unwrap(), Currency::USD);
    assert_eq!(Currency::from_str("Gbp").unwrap(), Currency::GBP);
    assert_eq!(Currency::from_str("mXn").unwrap(), Currency::MXN);
    assert_eq!("SGD".parse::<Currency>().unwrap(), Currency::SGD);
}

#[test]
fn lowers_case_by_unicode_rules() {
    // The Kelvin sign lowers to an ASCII `k`.
    assert_eq!(Currency::from_str("SE\u{212A}").unwrap(), Currency::SEK);
}

#[test]
fn rejects_unknown_codes_with_the_input() {
    let err = Currency::from_str("Xyz").unwrap_err();
    assert_eq!(err.input, "Xyz");
    assert!(Currency::from_str("").is_err());
    assert!(Currency::from_str("usd ").is_err());
    assert!(Currency::from_str("dollar").is_err());
}

#[test]
fn every_code_parses_back() {
    for c in ALL {
        assert_eq!(Currency::from_str(&c.to_string()).unwrap(), c);
        assert_eq!(Currency::from_lowercase(&c.to_string().to_lowercase()), Some(c));
    }
}

#[test]
fn error_message_quotes_the_input() {
    let err = Currency::from_str("XYZ").unwrap_err();
    assert_eq!(err.message(), "Unsupported currency: XYZ");
    assert_eq!(Currency::from_str("eUrO").unwrap_err().message(), "Unsupported currency: eUrO");
    assert!(Currency::from_str(" usd").is_err());
    assert!(Currency::from_str("usdx").is_err());
    assert!(Currency::from_str("US").is_err());
}

#[test]
fn from_lowercase_takes_only_lower_case() {
    assert_eq!(Currency::from_lowercase("cad"), Some(Currency::CAD));
    assert_eq!(Currency::from_lowercase("CAD"), None);
    assert_eq!(Currency::from_lowercase("ars"), Some(Currency::ARS));
}

#[test]
fn codes_in_upper_case() {
    let codes: Vec<String> = ALL.iter().map(|c| c.to_string()).collect();
    assert_eq!(codes, vec!["USD", "EUR", "CAD", "MXN", "SEK", "GBP", "SGD", "ARS", "JPY"]);
}

#[test]
fn symbols_of_currencies() {
    let symbols: Vec<String> = ALL.iter().map(|c| c.to_symbol()).collect();
    assert_eq!(symbols, vec!["$", "€", "Cad$", "Mex$", "skr", "£", "S$", "Arg$", "¥"]);
}

#[test]
fn default_currency_is_dollar() {
    assert_eq!(Currency::default(), Currency::USD);
}

#[test]
fn quote_currency_outcomes() {
    assert_eq!(quote_currency(Some("EUR")).unwrap(), Currency::EUR);
    assert!(matches!(quote_currency(None), Err(QuoteCurrencyError::Missing)));
    match quote_currency(Some("chf")) {
        Err(QuoteCurrencyError::Unsupported(e)) => assert_eq!(e.input, "chf"),
        other => panic!("unexpected {:?}", other),
    }
}

#[test]
fn label_texts() {
    assert_eq!(label_text("12.50", Currency::USD), "12.50$");
    assert_eq!(label_text("0.99", Currency::EUR), "0.99€");
    assert!(shows_currency(Currency::USD));
    assert!(shows_currency(Currency::EUR));
    assert!(!shows_currency(Currency::JPY));
}

#[test]
fn label_sign_matches_symbol() {
    for c in ALL {
        if shows_currency(c) {
            assert_eq!(label_text("", c), c.to_symbol());
        }
    }
}
