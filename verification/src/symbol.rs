//! The names of a ticker symbol, as a search gives them.

use vstd::prelude::*;

verus! {

/// The names under which a ticker symbol is listed. The names that a search
/// does not give stay empty.
#[derive(Debug)]
pub struct Symbol {
    /// The ticker, such as `AAPL`.
    pub symbol: String,
    /// The short name of the listed company or fund.
    pub shortname: String,
    /// The long name of the listed company or fund.
    pub longname: String,
}

/// A name that a search may leave out, as the symbol keeps it.
pub open spec fn name_or_empty(name: Option<String>) -> Seq<char> {
    match name {
        Some(n) => n@,
        None => Seq::empty(),
    }
}

/// A name that a search gives is kept whole, whatever its length; a name it
/// leaves out is kept as the empty string.
pub proof fn lemma_names_kept_whole(name: Option<String>)
    ensures
        name matches Some(n) ==> name_or_empty(name) == n@,
        name is None ==> name_or_empty(name).len() == 0,
{
}

impl Symbol {
    /// A symbol with the given ticker and no names yet.
    pub fn new(symbol: &str) -> (r: Symbol)
        ensures
            r.symbol@ == symbol@,
            r.shortname@ == Seq::<char>::empty(),
            r.longname@ == Seq::<char>::empty(),
    {
        Symbol { symbol: String::from_str(symbol), shortname: String::new(), longname: String::new() }
    }

    /// The symbol for one result of a search: its ticker, and the long and
    /// short names that the result gives.
    pub fn from_search_result(symbol: &str, long_name: Option<String>, short_name: Option<String>) -> (r:
        Symbol)
        ensures
            r.symbol@ == symbol@,
            r.longname@ == name_or_empty(long_name),
            r.shortname@ == name_or_empty(short_name),
            long_name matches Some(n) ==> r.longname@ == n@,
            long_name is None ==> r.longname@.len() == 0,
            short_name matches Some(n) ==> r.shortname@ == n@,
            short_name is None ==> r.shortname@.len() == 0,
    {
        let mut result = Symbol::new(symbol);
        if let Some(long_name) = long_name {
            result.longname = long_name;
        }
        if let Some(short_name) = short_name {
            result.shortname = short_name;
        }
        result
    }
}

} // verus!
