use bill_tracker::store::{Bill, Bills};

fn amount_bits(x: f64) -> u64 {
    x.to_bits()
}

fn lookup(all: &[Bill], name: &str) -> Option<u64> {
    all.iter().find(|b| b.name == name).map(|b| b.amount)
}

#[test]
fn empty_store_lists_nothing() {
    let bills = Bills::new();
    assert!(bills.is_empty());
    assert_eq!(bills.get_all().len(), 0);
}

#[test]
fn distinct_adds_list_exactly_those_bills() {
    let mut bills = Bills::new();
    bills.add(Bill { name: "Rent".to_string(), amount: amount_bits(1200.0) });
    bills.add(Bill { name: "Water".to_string(), amount: amount_bits(35.5) });
    bills.add(Bill { name: "Power".to_string(), amount: amount_bits(80.25) });
    let all = bills.get_all();
    assert_eq!(all.len(), 3);
    assert_eq!(lookup(&all, "Rent"), Some(amount_bits(1200.0)));
    assert_eq!(lookup(&all, "Water"), Some(amount_bits(35.5)));
    assert_eq!(lookup(&all, "Power"), Some(amount_bits(80.25)));
    assert_eq!(lookup(&all, "Gas"), None);
}

#[test]
fn add_same_name_replaces_without_growing() {
    let mut bills = Bills::new();
    bills.add(Bill { name: "Rent".to_string(), amount: amount_bits(1200.0) });
    bills.add(Bill { name: "Rent".to_string(), amount: amount_bits(1300.0) });
    let all = bills.get_all();
    assert_eq!(all.len(), 1);
    assert_eq!(lookup(&all, "Rent"), Some(amount_bits(1300.0)));
}

#[test]
fn update_existing_returns_updated_bill() {
    let mut bills = Bills::new();
    bills.add(Bill { name: "Rent".to_string(), amount: amount_bits(1200.0) });
    bills.add(Bill { name: "Water".to_string(), amount: amount_bits(35.5) });
    let updated = bills.update("Rent", amount_bits(999.0));
    let updated = updated.expect("update of an existing name must return the bill");
    assert_eq!(updated.name, "Rent");
    assert_eq!(updated.amount, amount_bits(999.0));
    let all = bills.get_all();
    assert_eq!(all.len(), 2);
    assert_eq!(lookup(&all, "Rent"), Some(amount_bits(999.0)));
    assert_eq!(lookup(&all, "Water"), Some(amount_bits(35.5)));
}

#[test]
fn update_missing_returns_nothing_and_changes_nothing() {
    let mut bills = Bills::new();
    bills.add(Bill { name: "Rent".to_string(), amount: amount_bits(1200.0) });
    assert!(bills.update("Gas", amount_bits(50.0)).is_none());
    let all = bills.get_all();
    assert_eq!(all.len(), 1);
    assert_eq!(lookup(&all, "Rent"), Some(amount_bits(1200.0)));
}

#[test]
fn remove_existing_returns_removed_bill() {
    let mut bills = Bills::new();
    bills.add(Bill { name: "Rent".to_string(), amount: amount_bits(1200.0) });
    bills.add(Bill { name: "Water".to_string(), amount: amount_bits(35.5) });
    let removed = bills.remove("Rent");
    let removed = removed.expect("remove of an existing name must return the bill");
    assert_eq!(removed.name, "Rent");
    assert_eq!(removed.amount, amount_bits(1200.0));
    let all = bills.get_all();
    assert_eq!(all.len(), 1);
    assert_eq!(lookup(&all, "Rent"), None);
    assert_eq!(lookup(&all, "Water"), Some(amount_bits(35.5)));
}

#[test]
fn remove_missing_returns_nothing_and_changes_nothing() {
    let mut bills = Bills::new();
    bills.add(Bill { name: "Rent".to_string(), amount: amount_bits(1200.0) });
    assert!(bills.remove("Gas").is_none());
    let all = bills.get_all();
    assert_eq!(all.len(), 1);
    assert_eq!(lookup(&all, "Rent"), Some(amount_bits(1200.0)));
}

#[test]
fn negative_and_zero_amounts_are_stored_unchanged() {
    let mut bills = Bills::new();
    bills.add(Bill { name: "Refund".to_string(), amount: amount_bits(-12.75) });
    bills.add(Bill { name: "Free".to_string(), amount: amount_bits(0.0) });
    let all = bills.get_all();
    assert_eq!(lookup(&all, "Refund"), Some(amount_bits(-12.75)));
    assert_eq!(lookup(&all, "Free"), Some(amount_bits(0.0)));
}
