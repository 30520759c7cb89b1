use bill_tracker::shell::{AmountInput, Event, Msg, Shell, ShellState};

fn line(text: &str) -> Event {
    Event::Line(Some(text.to_string()))
}

fn empty_line() -> Event {
    Event::Line(None)
}

/// Feeds one amount line the way the host does: an empty (trimmed) line
/// cancels, a line that does not parse as a number is invalid, any other
/// parses to its 64-bit pattern.
fn amount_line(text: &str) -> Event {
    if text.trim().is_empty() {
        Event::Amount(AmountInput::Empty)
    } else {
        match text.trim().parse::<f64>() {
            Ok(x) => Event::Amount(AmountInput::Value(x.to_bits())),
            Err(_) => Event::Amount(AmountInput::Invalid),
        }
    }
}

/// Renders one message the way the host prints it.
fn render(msg: &Msg) -> String {
    match msg {
        Msg::BillLine { name, amount } => format!("{} - {}", name, f64::from_bits(*amount)),
        other => other.fixed_text().expect("fixed message").to_string(),
    }
}

fn render_all(msgs: &[Msg]) -> Vec<String> {
    msgs.iter().map(render).collect()
}

#[test]
fn amount_line_scenarios() {
    assert!(matches!(amount_line("42.5"), Event::Amount(AmountInput::Value(b)) if f64::from_bits(b) == 42.5));
    assert!(matches!(amount_line(""), Event::Amount(AmountInput::Empty)));
    assert!(matches!(amount_line("abc"), Event::Amount(AmountInput::Invalid)));
    assert!(matches!(amount_line("10"), Event::Amount(AmountInput::Value(b)) if f64::from_bits(b) == 10.0));
}

#[test]
fn invalid_amount_reprompts_until_valid() {
    let mut shell = Shell::new();
    let out = shell.step(line("1"));
    assert_eq!(render_all(&out), vec!["Please enter the bill name:"]);
    let out = shell.step(line("Rent"));
    assert_eq!(render_all(&out), vec!["Please enter the bill amount:"]);
    // "abc" is rejected, the shell stays on the amount prompt
    let out = shell.step(amount_line("abc"));
    assert_eq!(render_all(&out), vec!["Invalid amount, please try again."]);
    assert!(matches!(shell.state, ShellState::AddAmount { .. }));
    // "10" is accepted
    let out = shell.step(amount_line("10"));
    assert_eq!(render_all(&out), vec!["Bill added successfully!"]);
    assert!(matches!(shell.state, ShellState::Menu));
    let all = shell.bills.get_all();
    assert_eq!(all.len(), 1);
    assert_eq!(all[0].name, "Rent");
    assert_eq!(f64::from_bits(all[0].amount), 10.0);
}

#[test]
fn end_to_end_add_view_edit_remove() {
    let mut shell = Shell::new();

    // AddBill("Rent", 1200)
    shell.step(line("1"));
    shell.step(line("Rent"));
    let out = shell.step(amount_line("1200"));
    assert_eq!(render_all(&out), vec!["Bill added successfully!"]);

    // ViewBills prints `Rent - 1200`
    let out = shell.step(line("2"));
    assert_eq!(render_all(&out), vec!["Rent - 1200"]);
    assert!(matches!(shell.state, ShellState::Menu));

    // EditBill("Rent", 1300) reports updated
    let out = shell.step(line("4"));
    assert_eq!(render_all(&out), vec!["Rent - 1200", "Please enter the bill name:"]);
    shell.step(line("Rent"));
    let out = shell.step(amount_line("1300"));
    assert_eq!(render_all(&out), vec!["Bill updated successfully!"]);

    // ViewBills shows `Rent - 1300`
    let out = shell.step(line("2"));
    assert_eq!(render_all(&out), vec!["Rent - 1300"]);

    // RemoveBill("Rent") reports removed
    let out = shell.step(line("3"));
    assert_eq!(render_all(&out), vec!["Rent - 1300", "Please enter the bill name:"]);
    let out = shell.step(line("Rent"));
    assert_eq!(render_all(&out), vec!["Bill removed successfully!"]);

    // ViewBills reports "No bills found!"
    let out = shell.step(line("2"));
    assert_eq!(render_all(&out), vec!["No bills found!"]);
}

#[test]
fn remove_and_edit_on_empty_store_abort_without_prompting() {
    let mut shell = Shell::new();
    let out = shell.step(line("3"));
    assert_eq!(render_all(&out), vec!["No bills found!"]);
    assert!(matches!(shell.state, ShellState::Menu));
    let out = shell.step(line("4"));
    assert_eq!(render_all(&out), vec!["No bills found!"]);
    assert!(matches!(shell.state, ShellState::Menu));
}

#[test]
fn cancel_with_empty_line_leaves_store_unchanged() {
    let mut shell = Shell::new();
    // cancel at the name prompt
    shell.step(line("1"));
    let out = shell.step(empty_line());
    assert!(out.is_empty());
    assert!(matches!(shell.state, ShellState::Menu));
    // cancel at the amount prompt
    shell.step(line("1"));
    shell.step(line("Rent"));
    let out = shell.step(amount_line("  "));
    assert!(out.is_empty());
    assert!(matches!(shell.state, ShellState::Menu));
    assert!(shell.bills.is_empty());
}

#[test]
fn cancel_during_remove_and_edit_keeps_bills() {
    let mut shell = Shell::new();
    shell.step(line("1"));
    shell.step(line("Rent"));
    shell.step(amount_line("1200"));
    // remove, then cancel at the name prompt
    shell.step(line("3"));
    let out = shell.step(empty_line());
    assert!(out.is_empty());
    assert_eq!(shell.bills.get_all().len(), 1);
    // edit, then cancel at the amount prompt
    shell.step(line("4"));
    shell.step(line("Rent"));
    let out = shell.step(amount_line(""));
    assert!(out.is_empty());
    assert_eq!(f64::from_bits(shell.bills.get_all()[0].amount), 1200.0);
}

#[test]
fn unknown_names_report_not_found() {
    let mut shell = Shell::new();
    shell.step(line("1"));
    shell.step(line("Rent"));
    shell.step(amount_line("1200"));
    shell.step(line("3"));
    let out = shell.step(line("Gas"));
    assert_eq!(render_all(&out), vec!["Bill not found!"]);
    shell.step(line("4"));
    shell.step(line("Gas"));
    let out = shell.step(amount_line("5"));
    assert_eq!(render_all(&out), vec!["Bill not found!"]);
    assert_eq!(shell.bills.get_all().len(), 1);
    assert_eq!(f64::from_bits(shell.bills.get_all()[0].amount), 1200.0);
}

#[test]
fn invalid_selection_returns_to_menu() {
    let mut shell = Shell::new();
    let out = shell.step(line("6"));
    assert_eq!(render_all(&out), vec!["Invalid option, please try again..."]);
    assert!(matches!(shell.state, ShellState::Menu));
    let out = shell.step(line("hello"));
    assert_eq!(render_all(&out), vec!["Invalid option, please try again..."]);
    let out = shell.step(empty_line());
    assert_eq!(render_all(&out), vec!["Invalid option, please try again..."]);
    assert!(matches!(shell.state, ShellState::Menu));
}

#[test]
fn exit_ends_the_session() {
    let mut shell = Shell::new();
    let out = shell.step(line("5"));
    assert!(out.is_empty());
    assert!(matches!(shell.state, ShellState::Done));
}
