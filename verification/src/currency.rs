//! The currencies in which quotes are given: their codes, their symbols,
//! and the parsing of a code as it comes from a quote.

use vstd::prelude::*;

verus! {

/// A currency in which a quote can be given.
#[derive(Debug, Clone, Copy, PartialEq, Eq, Structural)]
pub enum Currency {
    USD,
    EUR,
    CAD,
    MXN,
    SEK,
    GBP,
    SGD,
    ARS,
    JPY,
}

/// The code of a currency, in upper case, as `to_string` gives it.
pub open spec fn code_of(c: Currency) -> Seq<char> {
    match c {
        Currency::USD => "USD"@,
        Currency::EUR => "EUR"@,
        Currency::CAD => "CAD"@,
        Currency::MXN => "MXN"@,
        Currency::SEK => "SEK"@,
        Currency::GBP => "GBP"@,
        Currency::SGD => "SGD"@,
        Currency::ARS => "ARS"@,
        Currency::JPY => "JPY"@,
    }
}

/// The code of a currency in lower case: the one spelling that parsing
/// accepts after it has lowered the case of its input.
pub open spec fn lowercase_code_of(c: Currency) -> Seq<char> {
    match c {
        Currency::USD => "usd"@,
        Currency::EUR => "eur"@,
        Currency::CAD => "cad"@,
        Currency::MXN => "mxn"@,
        Currency::SEK => "sek"@,
        Currency::GBP => "gbp"@,
        Currency::SGD => "sgd"@,
        Currency::ARS => "ars"@,
        Currency::JPY => "jpy"@,
    }
}

/// The symbol that is written beside an amount in a currency.
pub open spec fn symbol_of(c: Currency) -> Seq<char> {
    match c {
        Currency::USD => "$"@,
        Currency::EUR => "€"@,
        Currency::CAD => "Cad$"@,
        Currency::MXN => "Mex$"@,
        Currency::SEK => "skr"@,
        Currency::GBP => "£"@,
        Currency::SGD => "S$"@,
        Currency::ARS => "Arg$"@,
        Currency::JPY => "¥"@,
    }
}

/// The currency whose lower-case code is `s`, if there is one.
pub open spec fn currency_of_lowercase(s: Seq<char>) -> Option<Currency> {
    if s == "usd"@ {
        Some(Currency::USD)
    } else if s == "eur"@ {
        Some(Currency::EUR)
    } else if s == "cad"@ {
        Some(Currency::CAD)
    } else if s == "mxn"@ {
        Some(Currency::MXN)
    } else if s == "sek"@ {
        Some(Currency::SEK)
    } else if s == "gbp"@ {
        Some(Currency::GBP)
    } else if s == "sgd"@ {
        Some(Currency::SGD)
    } else if s == "ars"@ {
        Some(Currency::ARS)
    } else if s == "jpy"@ {
        Some(Currency::JPY)
    } else {
        None
    }
}

/// What `str::to_lowercase` makes of a string: its lower-case form by the
/// rules of Unicode, where a character may lower to several characters and
/// a Greek capital sigma lowers according to its place in a word.
pub uninterp spec fn unicode_lowercase(s: Seq<char>) -> Seq<char>;

/// Calls `str::to_lowercase`. The contract claims that the result is the
/// Unicode lower-case form of the input, a function of the input alone, and
/// that a string of ASCII characters lowers as its documentation shows: each
/// letter from `A` to `Z` becomes its small letter and every other character
/// stays. What the mapping does to other characters is left to the name.
#[verifier::external_body]
fn to_lowercase(s: &str) -> (r: String)
    ensures
        r@ == unicode_lowercase(s@),
        vstd::utf8::is_ascii_chars(s@) ==> r@ == ascii_lowercase(s@),
{
    s.to_lowercase()
}

/// Whether two strings hold the same characters.
fn same_chars(a: &str, b: &str) -> (r: bool)
    ensures
        r == (a@ == b@),
{
    let n = a.unicode_len();
    if n != b.unicode_len() {
        return false;
    }
    let mut i: usize = 0;
    while i < n
        invariant
            n == a@.len(),
            n == b@.len(),
            i <= n,
            forall|j: int| 0 <= j < i ==> a@[j] == b@[j],
        decreases n - i,
    {
        if a.get_char(i) != b.get_char(i) {
            return false;
        }
        i = i + 1;
    }
    assert(a@ =~= b@);
    true
}

/// The error of parsing a currency code that names no supported currency.
#[derive(Debug)]
pub struct UnsupportedCurrency {
    /// The code as it was given.
    pub input: String,
}

impl UnsupportedCurrency {
    /// The text of the error, such as `Unsupported currency: XYZ`.
    pub fn message(&self) -> (r: String)
        ensures
            r@ == "Unsupported currency: "@ + self.input@,
    {
        let mut text = String::from_str("Unsupported currency: ");
        text.append(self.input.as_str());
        text
    }
}

/// The lower-case form of a code: each letter from `A` to `Z` becomes the
/// letter from `a` to `z` in its place; every other character stays.
pub open spec fn ascii_lowercase(s: Seq<char>) -> Seq<char> {
    s.map_values(|ch: char| if 65 <= (ch as u32) <= 90 { ((ch as u32) + 32) as char } else { ch })
}

/// Every currency's code, in the case `to_string` writes it, is made of
/// ASCII characters; lowered letter by letter, it is the spelling that `from_lowercase` accepts, and that
/// spelling is read back as the same currency. With the clause of
/// `Currency::from_str` on ASCII input, this makes parsing the result of
/// `to_string` give back the currency.
pub proof fn lemma_code_parses_back(c: Currency)
    ensures
        vstd::utf8::is_ascii_chars(code_of(c)),
        ascii_lowercase(code_of(c)) == lowercase_code_of(c),
        currency_of_lowercase(lowercase_code_of(c)) == Some(c),
{
    reveal_strlit("USD");
    reveal_strlit("usd");
    reveal_strlit("EUR");
    reveal_strlit("eur");
    reveal_strlit("CAD");
    reveal_strlit("cad");
    reveal_strlit("MXN");
    reveal_strlit("mxn");
    reveal_strlit("SEK");
    reveal_strlit("sek");
    reveal_strlit("GBP");
    reveal_strlit("gbp");
    reveal_strlit("SGD");
    reveal_strlit("sgd");
    reveal_strlit("ARS");
    reveal_strlit("ars");
    reveal_strlit("JPY");
    reveal_strlit("jpy");
    match c {
        Currency::USD => {
            assert(ascii_lowercase("USD"@) =~= "usd"@);
        },
        Currency::EUR => {
            assert(ascii_lowercase("EUR"@) =~= "eur"@);
            assert("eur"@[0] != "usd"@[0]);
        },
        Currency::CAD => {
            assert(ascii_lowercase("CAD"@) =~= "cad"@);
            assert("cad"@[0] != "usd"@[0]);
            assert("cad"@[0] != "eur"@[0]);
        },
        Currency::MXN => {
            assert(ascii_lowercase("MXN"@) =~= "mxn"@);
            assert("mxn"@[0] != "usd"@[0]);
            assert("mxn"@[0] != "eur"@[0]);
            assert("mxn"@[0] != "cad"@[0]);
        },
        Currency::SEK => {
            assert(ascii_lowercase("SEK"@) =~= "sek"@);
            assert("sek"@[0] != "usd"@[0]);
            assert("sek"@[0] != "eur"@[0]);
            assert("sek"@[0] != "cad"@[0]);
            assert("sek"@[0] != "mxn"@[0]);
        },
        Currency::GBP => {
            assert(ascii_lowercase("GBP"@) =~= "gbp"@);
            assert("gbp"@[0] != "usd"@[0]);
            assert("gbp"@[0] != "eur"@[0]);
            assert("gbp"@[0] != "cad"@[0]);
            assert("gbp"@[0] != "mxn"@[0]);
            assert("gbp"@[0] != "sek"@[0]);
        },
        Currency::SGD => {
            assert(ascii_lowercase("SGD"@) =~= "sgd"@);
            assert("sgd"@[0] != "usd"@[0]);
            assert("sgd"@[0] != "eur"@[0]);
            assert("sgd"@[0] != "cad"@[0]);
            assert("sgd"@[0] != "mxn"@[0]);
            assert("sgd"@[1] != "sek"@[1]);
            assert("sgd"@[0] != "gbp"@[0]);
        },
        Currency::ARS => {
            assert(ascii_lowercase("ARS"@) =~= "ars"@);
            assert("ars"@[0] != "usd"@[0]);
            assert("ars"@[0] != "eur"@[0]);
            assert("ars"@[0] != "cad"@[0]);
            assert("ars"@[0] != "mxn"@[0]);
            assert("ars"@[0] != "sek"@[0]);
            assert("ars"@[0] != "gbp"@[0]);
            assert("ars"@[0] != "sgd"@[0]);
        },
        Currency::JPY => {
            assert(ascii_lowercase("JPY"@) =~= "jpy"@);
            assert("jpy"@[0] != "usd"@[0]);
            assert("jpy"@[0] != "eur"@[0]);
            assert("jpy"@[0] != "cad"@[0]);
            assert("jpy"@[0] != "mxn"@[0]);
            assert("jpy"@[0] != "sek"@[0]);
            assert("jpy"@[0] != "gbp"@[0]);
            assert("jpy"@[0] != "sgd"@[0]);
            assert("jpy"@[0] != "ars"@[0]);
        },
    }
}

/// A lower-case spelling is read as a currency only when it is that
/// currency's code, and every code is read as its currency: the nine codes
/// `usd`, `eur`, `cad`, `mxn`, `sek`, `gbp`, `sgd`, `ars` and `jpy` and no
/// other spelling.
pub proof fn lemma_only_codes_parse(s: Seq<char>)
    ensures
        currency_of_lowercase(s) matches Some(c) ==> s == lowercase_code_of(c),
        currency_of_lowercase(s) is None ==> forall|c: Currency| s != #[trigger] lowercase_code_of(c),
        currency_of_lowercase(s) is Some <==> (s == "usd"@ || s == "eur"@ || s == "cad"@ || s
            == "mxn"@ || s == "sek"@ || s == "gbp"@ || s == "sgd"@ || s == "ars"@ || s == "jpy"@),
{
    if currency_of_lowercase(s) is None {
        assert forall|c: Currency| s != #[trigger] lowercase_code_of(c) by {
            lemma_code_parses_back(c);
        }
    }
}

/// No two currencies share a code.
pub proof fn lemma_codes_are_distinct(c1: Currency, c2: Currency)
    ensures
        code_of(c1) == code_of(c2) ==> c1 == c2,
{
    lemma_code_parses_back(c1);
    lemma_code_parses_back(c2);
}

impl Default for Currency {
    fn default() -> (r: Currency)
        ensures
            r == Currency::USD,
    {
        Currency::USD
    }
}

impl Currency {
    /// The currency whose code in lower case is `code`, or `None`.
    pub fn from_lowercase(code: &str) -> (r: Option<Currency>)
        ensures
            r == currency_of_lowercase(code@),
            r matches Some(c) ==> code@ == lowercase_code_of(c),
            r is None ==> forall|c: Currency| code@ != #[trigger] lowercase_code_of(c),
            r is Some <==> (code@ == "usd"@ || code@ == "eur"@ || code@ == "cad"@ || code@
                == "mxn"@ || code@ == "sek"@ || code@ == "gbp"@ || code@ == "sgd"@ || code@
                == "ars"@ || code@ == "jpy"@),
    {
        proof {
            lemma_only_codes_parse(code@);
        }
        if same_chars(code, "usd") {
            Some(Currency::USD)
        } else if same_chars(code, "eur") {
            Some(Currency::EUR)
        } else if same_chars(code, "cad") {
            Some(Currency::CAD)
        } else if same_chars(code, "mxn") {
            Some(Currency::MXN)
        } else if same_chars(code, "sek") {
            Some(Currency::SEK)
        } else if same_chars(code, "gbp") {
            Some(Currency::GBP)
        } else if same_chars(code, "sgd") {
            Some(Currency::SGD)
        } else if same_chars(code, "ars") {
            Some(Currency::ARS)
        } else if same_chars(code, "jpy") {
            Some(Currency::JPY)
        } else {
            None
        }
    }

    /// Parses a currency code in any case: the input is lowered with
    /// `str::to_lowercase` and then looked up among the codes.
    pub fn from_str(s: &str) -> (r: Result<Currency, UnsupportedCurrency>)
        ensures
            currency_of_lowercase(unicode_lowercase(s@)) matches Some(c) ==> r == Ok::<
                Currency,
                UnsupportedCurrency,
            >(c),
            currency_of_lowercase(unicode_lowercase(s@)) is None ==> (r matches Err(e)
                && e.input@ == s@),
            vstd::utf8::is_ascii_chars(s@) ==> match currency_of_lowercase(ascii_lowercase(s@)) {
                Some(c) => r == Ok::<Currency, UnsupportedCurrency>(c),
                None => r matches Err(e) && e.input@ == s@,
            },
            r matches Ok(c) ==> unicode_lowercase(s@) == lowercase_code_of(c),
            (forall|c: Currency| unicode_lowercase(s@) != #[trigger] lowercase_code_of(c)) ==> (r matches Err(
                e,
            ) && e.input@ == s@),
    {
        let lower = to_lowercase(s);
        proof {
            lemma_only_codes_parse(unicode_lowercase(s@));
        }
        match Currency::from_lowercase(lower.as_str()) {
            Some(c) => Ok(c),
            None => Err(UnsupportedCurrency { input: String::from_str(s) }),
        }
    }

    /// The code of the currency in upper case, such as `USD`.
    pub fn to_string(&self) -> (r: String)
        ensures
            r@ == code_of(*self),
    {
        match *self {
            Currency::USD => String::from_str("USD"),
            Currency::EUR => String::from_str("EUR"),
            Currency::CAD => String::from_str("CAD"),
            Currency::MXN => String::from_str("MXN"),
            Currency::SEK => String::from_str("SEK"),
            Currency::GBP => String::from_str("GBP"),
            Currency::SGD => String::from_str("SGD"),
            Currency::ARS => String::from_str("ARS"),
            Currency::JPY => String::from_str("JPY"),
        }
    }

    /// The symbol written beside an amount in this currency, such as `$`.
    pub fn to_symbol(&self) -> (r: String)
        ensures
            r@ == symbol_of(*self),
    {
        match *self {
            Currency::USD => String::from_str("$"),
            Currency::EUR => String::from_str("€"),
            Currency::CAD => String::from_str("Cad$"),
            Currency::MXN => String::from_str("Mex$"),
            Currency::SEK => String::from_str("skr"),
            Currency::GBP => String::from_str("£"),
            Currency::SGD => String::from_str("S$"),
            Currency::ARS => String::from_str("Arg$"),
            Currency::JPY => String::from_str("¥"),
        }
    }
}

/// Why the currency of a quote is not known.
#[derive(Debug)]
pub enum QuoteCurrencyError {
    /// The quote names no currency.
    Missing,
    /// The quote names a currency that is not supported.
    Unsupported(UnsupportedCurrency),
}

/// The currency in which a quote is given, from the code that the quote
/// names, if it names one.
pub fn quote_currency(code: Option<&str>) -> (r: Result<Currency, QuoteCurrencyError>)
    ensures
        code is None ==> r matches Err(QuoteCurrencyError::Missing),
        code matches Some(s) ==> match currency_of_lowercase(unicode_lowercase(s@)) {
            Some(c) => r == Ok::<Currency, QuoteCurrencyError>(c),
            None => r matches Err(QuoteCurrencyError::Unsupported(e)) && e.input@ == s@,
        },
{
    match code {
        None => Err(QuoteCurrencyError::Missing),
        Some(s) => match Currency::from_str(s) {
            Ok(c) => Ok(c),
            Err(e) => Err(QuoteCurrencyError::Unsupported(e)),
        },
    }
}

impl std::str::FromStr for Currency {
    type Err = UnsupportedCurrency;

    fn from_str(s: &str) -> (r: Result<Currency, UnsupportedCurrency>)
        ensures
            currency_of_lowercase(unicode_lowercase(s@)) matches Some(c) ==> r == Ok::<
                Currency,
                UnsupportedCurrency,
            >(c),
            currency_of_lowercase(unicode_lowercase(s@)) is None ==> (r matches Err(e)
                && e.input@ == s@),
            vstd::utf8::is_ascii_chars(s@) ==> match currency_of_lowercase(ascii_lowercase(s@)) {
                Some(c) => r == Ok::<Currency, UnsupportedCurrency>(c),
                None => r matches Err(e) && e.input@ == s@,
            },
            r matches Ok(c) ==> unicode_lowercase(s@) == lowercase_code_of(c),
            (forall|c: Currency| unicode_lowercase(s@) != #[trigger] lowercase_code_of(c)) ==> (r matches Err(
                e,
            ) && e.input@ == s@),
    {
        Currency::from_str(s)
    }
}

} // verus!
