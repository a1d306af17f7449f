# stocks

The logic of a GTK stock tracker, verified with Verus.

- `src/currency.rs`: the supported currencies, their codes and symbols, and
  the parsing of a code in any case.
- `src/currency_label.rs`: the text of a label that shows an amount.
- `src/model.rs`: the list of symbols behind the search results, whose edits
  answer with the change notification of a list model.
- `src/symbol.rs`: the names of a ticker symbol as a search gives them.
- `src/chart.rs`: the points of the price chart, the grid line offsets, and
  what setting new points does.
- `app/`: the GTK widgets, which draw, bind properties and fetch quotes.
