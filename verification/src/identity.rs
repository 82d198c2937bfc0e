//! The exchanges that a client can be made for, and their text form.
//!
//! Every exchange has two spellings: a canonical one, capitalised, which is
//! also what it displays as, and the same word in lower case. Parsing accepts
//! exactly these; any other text is an error, never a default.

use vstd::prelude::*;
use crate::text::str_eq;

verus! {

/// An exchange backend.
#[derive(Debug, Clone, Copy, PartialEq, Eq, Hash, Structural)]
pub enum Exchange {
    Binance,
    BinanceUs,
    Coinbase,
    Ftx,
    FtxUs,
    Kraken,
}

/// Why a text could not be read as an exchange.
#[derive(Debug, Clone, Copy, PartialEq, Eq, Structural)]
pub enum ParseExchangeError {
    /// The text is no spelling of any exchange.
    InvalidExchange,
}

/// The lower-case form of an ASCII capital; any other character unchanged.
pub open spec fn ascii_lowercase(c: char) -> char {
    if 'A' <= c && c <= 'Z' {
        ((c as u8) + 32) as char
    } else {
        c
    }
}

impl Exchange {
    /// The canonical spelling: the variant's name as it is written.
    pub open spec fn canonical_name(self) -> Seq<char> {
        match self {
            Exchange::Binance => "Binance"@,
            Exchange::BinanceUs => "BinanceUs"@,
            Exchange::Coinbase => "Coinbase"@,
            Exchange::Ftx => "Ftx"@,
            Exchange::FtxUs => "FtxUs"@,
            Exchange::Kraken => "Kraken"@,
        }
    }

    /// The second accepted spelling, all in lower case.
    pub open spec fn lowercase_name(self) -> Seq<char> {
        match self {
            Exchange::Binance => "binance"@,
            Exchange::BinanceUs => "binanceus"@,
            Exchange::Coinbase => "coinbase"@,
            Exchange::Ftx => "ftx"@,
            Exchange::FtxUs => "ftxus"@,
            Exchange::Kraken => "kraken"@,
        }
    }

    /// Whether `text` is one of the two spellings of this exchange.
    pub open spec fn is_spelled(self, text: Seq<char>) -> bool {
        text == self.canonical_name() || text == self.lowercase_name()
    }

    /// What parsing `text` gives: the exchange that `text` spells, or the
    /// error where it spells none.
    pub open spec fn parse(text: Seq<char>) -> Result<Exchange, ParseExchangeError> {
        if exists|e: Exchange| e.is_spelled(text) {
            Ok(choose|e: Exchange| e.is_spelled(text))
        } else {
            Err(ParseExchangeError::InvalidExchange)
        }
    }
}

impl Exchange {
    /// The text that this exchange displays as: its canonical spelling.
    pub fn to_string(&self) -> (text: String)
        ensures
            text@ == self.canonical_name(),
    {
        match self {
            Exchange::Binance => "Binance".to_owned(),
            Exchange::BinanceUs => "BinanceUs".to_owned(),
            Exchange::Coinbase => "Coinbase".to_owned(),
            Exchange::Ftx => "Ftx".to_owned(),
            Exchange::FtxUs => "FtxUs".to_owned(),
            Exchange::Kraken => "Kraken".to_owned(),
        }
    }
}

impl std::str::FromStr for Exchange {
    type Err = ParseExchangeError;

    /// Reads an exchange from either of its spellings.
    ///
    /// The comparison is exact: `"Kraken"` and `"kraken"` are the Kraken
    /// exchange, `"KRAKEN"` is an error.
    fn from_str(s: &str) -> (parsed: Result<Exchange, ParseExchangeError>)
        ensures
            parsed == Exchange::parse(s@),
    {
        proof {
            lemma_parse(s@);
        }
        if str_eq(s, "Binance") || str_eq(s, "binance") {
            assert(Exchange::Binance.is_spelled(s@));
            Ok(Exchange::Binance)
        } else if str_eq(s, "BinanceUs") || str_eq(s, "binanceus") {
            assert(Exchange::BinanceUs.is_spelled(s@));
            Ok(Exchange::BinanceUs)
        } else if str_eq(s, "Coinbase") || str_eq(s, "coinbase") {
            assert(Exchange::Coinbase.is_spelled(s@));
            Ok(Exchange::Coinbase)
        } else if str_eq(s, "Ftx") || str_eq(s, "ftx") {
            assert(Exchange::Ftx.is_spelled(s@));
            Ok(Exchange::Ftx)
        } else if str_eq(s, "FtxUs") || str_eq(s, "ftxus") {
            assert(Exchange::FtxUs.is_spelled(s@));
            Ok(Exchange::FtxUs)
        } else if str_eq(s, "Kraken") || str_eq(s, "kraken") {
            assert(Exchange::Kraken.is_spelled(s@));
            Ok(Exchange::Kraken)
        } else {
            Err(ParseExchangeError::InvalidExchange)
        }
    }
}

impl ParseExchangeError {
    /// The message of this error.
    pub open spec fn message(self) -> Seq<char> {
        match self {
            ParseExchangeError::InvalidExchange => "invalid exchange"@,
        }
    }

    /// The text that this error displays as.
    pub fn to_string(&self) -> (text: String)
        ensures
            text@ == self.message(),
    {
        match self {
            ParseExchangeError::InvalidExchange => "invalid exchange".to_owned(),
        }
    }
}

/// The characters of the twelve spellings, one by one.
pub proof fn lemma_spellings()
    ensures
        "Binance"@ =~= seq!['B', 'i', 'n', 'a', 'n', 'c', 'e'],
        "binance"@ =~= seq!['b', 'i', 'n', 'a', 'n', 'c', 'e'],
        "BinanceUs"@ =~= seq!['B', 'i', 'n', 'a', 'n', 'c', 'e', 'U', 's'],
        "binanceus"@ =~= seq!['b', 'i', 'n', 'a', 'n', 'c', 'e', 'u', 's'],
        "Coinbase"@ =~= seq!['C', 'o', 'i', 'n', 'b', 'a', 's', 'e'],
        "coinbase"@ =~= seq!['c', 'o', 'i', 'n', 'b', 'a', 's', 'e'],
        "Ftx"@ =~= seq!['F', 't', 'x'],
        "ftx"@ =~= seq!['f', 't', 'x'],
        "FtxUs"@ =~= seq!['F', 't', 'x', 'U', 's'],
        "ftxus"@ =~= seq!['f', 't', 'x', 'u', 's'],
        "Kraken"@ =~= seq!['K', 'r', 'a', 'k', 'e', 'n'],
        "kraken"@ =~= seq!['k', 'r', 'a', 'k', 'e', 'n'],
{
    reveal_strlit("Binance");
    reveal_strlit("binance");
    reveal_strlit("BinanceUs");
    reveal_strlit("binanceus");
    reveal_strlit("Coinbase");
    reveal_strlit("coinbase");
    reveal_strlit("Ftx");
    reveal_strlit("ftx");
    reveal_strlit("FtxUs");
    reveal_strlit("ftxus");
    reveal_strlit("Kraken");
    reveal_strlit("kraken");
}

/// No text is a spelling of two exchanges.
pub proof fn lemma_spelling_is_unambiguous(a: Exchange, b: Exchange, text: Seq<char>)
    requires
        a.is_spelled(text),
        b.is_spelled(text),
    ensures
        a == b,
{
    lemma_spellings();
    // The names of the six exchanges have six different lengths.
    assert(text.len() == a.canonical_name().len());
    assert(text.len() == b.canonical_name().len());
}

/// Parsing gives an exchange exactly for the texts that spell it, and the
/// invalid-exchange error for every text that spells none.
pub proof fn lemma_parse(text: Seq<char>)
    ensures
        forall|e: Exchange| #[trigger]
            e.is_spelled(text) <==> Exchange::parse(text) == Ok::<Exchange, ParseExchangeError>(e),
        (forall|e: Exchange| !#[trigger] e.is_spelled(text)) <==> Exchange::parse(text) is Err,
        Exchange::parse(text) matches Err(error) ==> error == ParseExchangeError::InvalidExchange,
{
    if exists|e: Exchange| e.is_spelled(text) {
        let found = choose|e: Exchange| e.is_spelled(text);
        assert forall|e: Exchange| #[trigger] e.is_spelled(text) implies e == found by {
            lemma_spelling_is_unambiguous(e, found, text);
        }
    }
}

/// What an exchange displays as parses back to that exchange, and so does
/// its lower-case spelling.
pub proof fn lemma_display_parses_back(exchange: Exchange)
    ensures
        Exchange::parse(exchange.canonical_name()) == Ok::<Exchange, ParseExchangeError>(exchange),
        Exchange::parse(exchange.lowercase_name()) == Ok::<Exchange, ParseExchangeError>(exchange),
{
    lemma_parse(exchange.canonical_name());
    lemma_parse(exchange.lowercase_name());
    assert(exchange.is_spelled(exchange.canonical_name()));
    assert(exchange.is_spelled(exchange.lowercase_name()));
}

/// The lower-case spelling of an exchange is its canonical spelling with
/// every capital put in lower case.
pub proof fn lemma_lowercase_name(exchange: Exchange)
    ensures
        exchange.lowercase_name() == exchange.canonical_name().map_values(
            |c: char| ascii_lowercase(c),
        ),
{
    lemma_spellings();
    assert(exchange.lowercase_name() =~= exchange.canonical_name().map_values(
        |c: char| ascii_lowercase(c),
    ));
}

} // verus!
