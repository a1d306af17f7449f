use stocks::model::{ItemsChanged, YahooFinanceModel};
use stocks::symbol::Symbol;

fn change(position: u32, removed: u32, added: u32) -> ItemsChanged {
    ItemsChanged { position, removed, added }
}

#[test]
fn append_reports_the_new_position() {
    let mut model = YahooFinanceModel::new();
    assert_eq!(model.n_items(), 0);
    assert_eq!(model.append("AAPL"), change(0, 0, 1));
    assert_eq!(model.append("MSFT"), change(1, 0, 1));
    assert_eq!(model.n_items(), 2);
    assert_eq!(model.item(0), Some(&"AAPL"));
    assert_eq!(model.item(1), Some(&"MSFT"));
    assert_eq!(model.item(2), None);
}

#[test]
fn remove_shifts_later_items() {
    let mut model = YahooFinanceModel::new();
    model.append(1);
    model.append(2);
    model.append(3);
    assert_eq!(model.remove(1), change(1, 1, 0));
    assert_eq!(model.n_items(), 2);
    assert_eq!(model.item(0), Some(&1));
    assert_eq!(model.item(1), Some(&3));
}

#[test]
fn clear_reports_every_item_removed() {
    let mut model = YahooFinanceModel::new();
    model.append('a');
    model.append('b');
    model.append('c');
    assert_eq!(model.clear(), change(0, 3, 0));
    assert_eq!(model.n_items(), 0);
    assert_eq!(model.item(0), None);
    assert_eq!(model.clear(), change(0, 0, 0));
}

#[test]
fn rows_find_items() {
    let mut model = YahooFinanceModel::new();
    model.append("AAPL");
    model.append("GOOG");
    assert_eq!(model.item_for_row(1), Some(&"GOOG"));
    assert_eq!(model.item_for_row(2), None);
    assert_eq!(model.item_for_row(-1), None);
}

#[test]
fn search_results_become_symbols() {
    let s = Symbol::from_search_result("AAPL", Some("Apple Inc.".to_string()), None);
    assert_eq!(s.symbol, "AAPL");
    assert_eq!(s.longname, "Apple Inc.");
    assert_eq!(s.shortname, "");
    let t = Symbol::from_search_result("MSFT", None, Some("Microsoft".to_string()));
    assert_eq!(t.longname, "");
    assert_eq!(t.shortname, "Microsoft");
    let n = Symbol::new("TSLA");
    assert_eq!(n.symbol, "TSLA");
    assert_eq!(n.longname, "");
}
