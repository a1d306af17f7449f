//! The logic of a stock tracker: the currencies in which quotes are given,
//! the list of symbols that a search yields, and the data behind the chart.

pub mod currency;
pub mod model;
pub mod chart;
pub mod currency_label;
pub mod symbol;
