//! The interactive shell, modelled as a state machine.
//!
//! The shell owns the record store and a state that says which input it
//! expects next. The host displays the menu, reads one input at a time and
//! feeds it to `Shell::step` as an `Event`; `step` returns the messages to
//! print. Numeric parsing and formatting of amounts stay with the host:
//! an amount reaches the shell already parsed, as an opaque 64-bit value,
//! and leaves it inside `Msg::BillLine` to be formatted.

use vstd::prelude::*;

verus! {

use crate::menu::{choice_of, MainMenu};
use crate::store::{Bill, Bills};

/// A message for the host to print, one line each. Every variant but
/// `BillLine` has a fixed text, given by `Msg::fixed_text`; a `BillLine` is
/// printed as the name, a separating ` - `, and the formatted amount.
#[derive(Debug, PartialEq)]
pub enum Msg {
    PromptName,
    PromptAmount,
    InvalidOption,
    InvalidAmount,
    BillAdded,
    BillRemoved,
    BillUpdated,
    BillNotFound,
    NoBills,
    BillLine { name: String, amount: u64 },
}

/// Whether `m` is a line of the bill listing.
pub open spec fn is_bill_line(m: Msg) -> bool {
    m is BillLine
}

/// The name a listing line shows.
pub open spec fn line_name(m: Msg) -> Seq<char> {
    match m {
        Msg::BillLine { name, .. } => name@,
        _ => Seq::empty(),
    }
}

/// The amount a listing line shows.
pub open spec fn line_amount(m: Msg) -> u64 {
    match m {
        Msg::BillLine { amount, .. } => amount,
        _ => 0,
    }
}

impl Msg {
    /// The fixed text of every message that has one; a `BillLine` has none,
    /// since its amount is formatted by the host.
    pub fn fixed_text(&self) -> (r: Option<&'static str>)
        ensures
            r is Some <==> !(self is BillLine),
            self is PromptName ==> (r matches Option::Some(t) && t@
                == "Please enter the bill name:"@),
            self is PromptAmount ==> (r matches Option::Some(t) && t@
                == "Please enter the bill amount:"@),
            self is InvalidOption ==> (r matches Option::Some(t) && t@
                == "Invalid option, please try again..."@),
            self is InvalidAmount ==> (r matches Option::Some(t) && t@
                == "Invalid amount, please try again."@),
            self is BillAdded ==> (r matches Option::Some(t) && t@
                == "Bill added successfully!"@),
            self is BillRemoved ==> (r matches Option::Some(t) && t@
                == "Bill removed successfully!"@),
            self is BillUpdated ==> (r matches Option::Some(t) && t@
                == "Bill updated successfully!"@),
            self is BillNotFound ==> (r matches Option::Some(t) && t@ == "Bill not found!"@),
            self is NoBills ==> (r matches Option::Some(t) && t@ == "No bills found!"@),
    {
        match self {
            Msg::PromptName => Option::Some("Please enter the bill name:"),
            Msg::PromptAmount => Option::Some("Please enter the bill amount:"),
            Msg::InvalidOption => Option::Some("Invalid option, please try again..."),
            Msg::InvalidAmount => Option::Some("Invalid amount, please try again."),
            Msg::BillAdded => Option::Some("Bill added successfully!"),
            Msg::BillRemoved => Option::Some("Bill removed successfully!"),
            Msg::BillUpdated => Option::Some("Bill updated successfully!"),
            Msg::BillNotFound => Option::Some("Bill not found!"),
            Msg::NoBills => Option::Some("No bills found!"),
            Msg::BillLine { .. } => Option::None,
        }
    }
}

/// An amount field, as the host hands it in: an empty line (the cancel
/// signal), a line that did not parse as a number, or a parsed amount.
#[derive(Debug, Clone, Copy, PartialEq, Eq)]
pub enum AmountInput {
    Empty,
    Invalid,
    Value(u64),
}

/// One input, handed to `Shell::step`. A `Line` carries a trimmed input
/// line, nothing for an empty one; an `Amount` carries an amount field.
#[derive(Debug, PartialEq)]
pub enum Event {
    Line(Option<String>),
    Amount(AmountInput),
}

/// Where the shell stands: which input it expects next.
#[derive(Debug, PartialEq)]
pub enum ShellState {
    /// Show the menu, then read a selection line.
    Menu,
    /// Read the name of the bill to add.
    AddName,
    /// Read the amount of the bill to add, named `name`.
    AddAmount { name: String },
    /// Read the name of the bill to remove.
    RemoveName,
    /// Read the name of the bill to edit.
    EditName,
    /// Read the new amount of the bill named `name`.
    EditAmount { name: String },
    /// The session is over.
    Done,
}

/// The listing that `out` shows of the store `m`: the no-bills notice for an
/// empty store, otherwise exactly one line per stored bill, with
/// pairwise-distinct names, in unspecified order.
pub open spec fn listing_exact(out: Seq<Msg>, m: Map<Seq<char>, u64>) -> bool {
    if m.dom().len() == 0 {
        out == seq![Msg::NoBills]
    } else {
        &&& out.len() == m.dom().len()
        &&& forall|i: int|
            0 <= i < out.len() ==> is_bill_line(#[trigger] out[i]) && m.contains_pair(
                line_name(out[i]),
                line_amount(out[i]),
            )
        &&& forall|i: int, j: int| 0 <= i < j < out.len() ==> line_name(out[i]) != line_name(out[j])
        &&& forall|k: Seq<char>|
            m.contains_key(k) ==> exists|i: int| 0 <= i < out.len() && line_name(out[i]) == k
    }
}

/// Displays the stored bills: the no-bills notice if there are none,
/// otherwise one listing line per bill.
pub fn view_bills(bills: &Bills) -> (out: Vec<Msg>)
    requires
        bills.wf(),
    ensures
        listing_exact(out@, bills@),
{
    let all = bills.get_all();
    let mut out: Vec<Msg> = Vec::new();
    if all.is_empty() {
        out.push(Msg::NoBills);
        proof {
            assert(out@ =~= seq![Msg::NoBills]);
        }
    } else {
        let n = all.len();
        let mut i: usize = 0;
        while i < n
            invariant
                n == all@.len(),
                i <= n,
                out@.len() == i,
                forall|j: int|
                    0 <= j < i ==> is_bill_line(#[trigger] out@[j]) && line_name(out@[j])
                        == all@[j].name@ && line_amount(out@[j]) == all@[j].amount,
            decreases n - i,
        {
            let nm = all[i].name.clone();
            let am = all[i].amount;
            out.push(Msg::BillLine { name: nm, amount: am });
            i = i + 1;
        }
        proof {
            assert forall|k: Seq<char>| bills@.contains_key(k) implies (exists|i: int|
                0 <= i < out@.len() && line_name(out@[i]) == k) by {
                let i = choose|i: int| 0 <= i < all@.len() && all@[i].name@ == k;
                assert(0 <= i < out@.len() && line_name(out@[i]) == k);
            }
        }
    }
    out
}

/// Adds a bill from its completed fields and reports success.
pub fn add_bill(bills: &mut Bills, name: String, amount: u64) -> (out: Vec<Msg>)
    requires
        old(bills).wf(),
    ensures
        final(bills).wf(),
        final(bills)@ == old(bills)@.insert(name@, amount),
        out@ == seq![Msg::BillAdded],
{
    bills.add(Bill { name, amount });
    let mut out: Vec<Msg> = Vec::new();
    out.push(Msg::BillAdded);
    proof {
        assert(out@ =~= seq![Msg::BillAdded]);
    }
    out
}

/// Removes the bill of the given name and reports whether it was found.
pub fn remove_bill(bills: &mut Bills, name: &str) -> (out: Vec<Msg>)
    requires
        old(bills).wf(),
    ensures
        final(bills).wf(),
        old(bills)@.contains_key(name@) ==> final(bills)@ == old(bills)@.remove(name@) && out@
            == seq![Msg::BillRemoved],
        !old(bills)@.contains_key(name@) ==> final(bills)@ == old(bills)@ && out@
            == seq![Msg::BillNotFound],
{
    let found = bills.remove(name);
    let mut out: Vec<Msg> = Vec::new();
    match found {
        Option::Some(_) => out.push(Msg::BillRemoved),
        Option::None => out.push(Msg::BillNotFound),
    }
    proof {
        if old(bills)@.contains_key(name@) {
            assert(out@ =~= seq![Msg::BillRemoved]);
        } else {
            assert(out@ =~= seq![Msg::BillNotFound]);
        }
    }
    out
}

/// Sets the amount of the bill of the given name and reports whether it
/// was found.
pub fn update_bill(bills: &mut Bills, name: &str, amount: u64) -> (out: Vec<Msg>)
    requires
        old(bills).wf(),
    ensures
        final(bills).wf(),
        old(bills)@.contains_key(name@) ==> final(bills)@ == old(bills)@.insert(name@, amount)
            && out@ == seq![Msg::BillUpdated],
        !old(bills)@.contains_key(name@) ==> final(bills)@ == old(bills)@ && out@
            == seq![Msg::BillNotFound],
{
    let found = bills.update(name, amount);
    let mut out: Vec<Msg> = Vec::new();
    match found {
        Option::Some(_) => out.push(Msg::BillUpdated),
        Option::None => out.push(Msg::BillNotFound),
    }
    proof {
        if old(bills)@.contains_key(name@) {
            assert(out@ =~= seq![Msg::BillUpdated]);
        } else {
            assert(out@ =~= seq![Msg::BillNotFound]);
        }
    }
    out
}

/// What `step` does on a menu selection line.
pub open spec fn menu_transition(pre: Shell, line: Option<String>, post: Shell, out: Seq<Msg>) -> bool {
    match line {
        Option::None => post.state == ShellState::Menu && post.bills@ == pre.bills@ && out
            == seq![Msg::InvalidOption],
        Option::Some(l) => match choice_of(l@) {
            Option::Some(MainMenu::AddBill) => post.state == ShellState::AddName && post.bills@
                == pre.bills@ && out == seq![Msg::PromptName],
            Option::Some(MainMenu::ViewBills) => post.state == ShellState::Menu && post.bills@
                == pre.bills@ && listing_exact(out, pre.bills@),
            Option::Some(MainMenu::RemoveBills) => post.bills@ == pre.bills@ && (if pre.bills@.dom().len() == 0 {
                post.state == ShellState::Menu && listing_exact(out, pre.bills@)
            } else {
                post.state == ShellState::RemoveName && out.len() > 0 && out.last()
                    == Msg::PromptName && listing_exact(out.drop_last(), pre.bills@)
            }),
            Option::Some(MainMenu::EditBill) => post.bills@ == pre.bills@ && (if pre.bills@.dom().len() == 0 {
                post.state == ShellState::Menu && listing_exact(out, pre.bills@)
            } else {
                post.state == ShellState::EditName && out.len() > 0 && out.last()
                    == Msg::PromptName && listing_exact(out.drop_last(), pre.bills@)
            }),
            Option::Some(MainMenu::Exit) => post.state == ShellState::Done && post.bills@
                == pre.bills@ && out == Seq::<Msg>::empty(),
            Option::None => post.state == ShellState::Menu && post.bills@ == pre.bills@ && out
                == seq![Msg::InvalidOption],
        },
    }
}

/// What `step` does on the name line of an addition: cancel on an empty
/// line, else prompt for the amount.
pub open spec fn add_name_transition(pre: Shell, line: Option<String>, post: Shell, out: Seq<Msg>) -> bool {
    post.bills@ == pre.bills@ && match line {
        Option::None => post.state == ShellState::Menu && out == Seq::<Msg>::empty(),
        Option::Some(n) => (post.state matches ShellState::AddAmount { name } && name@ == n@)
            && out == seq![Msg::PromptAmount],
    }
}

/// What `step` does on the name line of a removal: cancel on an empty line,
/// else remove and report.
pub open spec fn remove_name_transition(pre: Shell, line: Option<String>, post: Shell, out: Seq<Msg>) -> bool {
    match line {
        Option::None => post.state == ShellState::Menu && post.bills@ == pre.bills@ && out
            == Seq::<Msg>::empty(),
        Option::Some(n) => post.state == ShellState::Menu && (if pre.bills@.contains_key(n@) {
            post.bills@ == pre.bills@.remove(n@) && out == seq![Msg::BillRemoved]
        } else {
            post.bills@ == pre.bills@ && out == seq![Msg::BillNotFound]
        }),
    }
}

/// What `step` does on the name line of an edit: cancel on an empty line,
/// else prompt for the new amount.
pub open spec fn edit_name_transition(pre: Shell, line: Option<String>, post: Shell, out: Seq<Msg>) -> bool {
    post.bills@ == pre.bills@ && match line {
        Option::None => post.state == ShellState::Menu && out == Seq::<Msg>::empty(),
        Option::Some(n) => (post.state matches ShellState::EditAmount { name } && name@ == n@)
            && out == seq![Msg::PromptAmount],
    }
}

/// What `step` does on the amount field of an addition: cancel on an empty
/// line, ask again after a failed parse, else add and report.
pub open spec fn add_amount_transition(
    pre: Shell,
    name: Seq<char>,
    amt: AmountInput,
    post: Shell,
    out: Seq<Msg>,
) -> bool {
    match amt {
        AmountInput::Empty => post.state == ShellState::Menu && post.bills@ == pre.bills@ && out
            == Seq::<Msg>::empty(),
        AmountInput::Invalid => post.state == pre.state && post.bills@ == pre.bills@ && out
            == seq![Msg::InvalidAmount],
        AmountInput::Value(a) => post.state == ShellState::Menu && post.bills@
            == pre.bills@.insert(name, a) && out == seq![Msg::BillAdded],
    }
}

/// What `step` does on the amount field of an edit: cancel on an empty
/// line, ask again after a failed parse, else update and report.
pub open spec fn edit_amount_transition(
    pre: Shell,
    name: Seq<char>,
    amt: AmountInput,
    post: Shell,
    out: Seq<Msg>,
) -> bool {
    match amt {
        AmountInput::Empty => post.state == ShellState::Menu && post.bills@ == pre.bills@ && out
            == Seq::<Msg>::empty(),
        AmountInput::Invalid => post.state == pre.state && post.bills@ == pre.bills@ && out
            == seq![Msg::InvalidAmount],
        AmountInput::Value(a) => post.state == ShellState::Menu && (if pre.bills@.contains_key(
            name,
        ) {
            post.bills@ == pre.bills@.insert(name, a) && out == seq![Msg::BillUpdated]
        } else {
            post.bills@ == pre.bills@ && out == seq![Msg::BillNotFound]
        }),
    }
}

/// The whole transition relation of the shell, dispatched on the state the
/// step starts from.
pub open spec fn shell_transition(pre: Shell, ev: Event, post: Shell, out: Seq<Msg>) -> bool {
    match pre.state {
        ShellState::Menu => ev matches Event::Line(line) && menu_transition(pre, line, post, out),
        ShellState::AddName => ev matches Event::Line(line) && add_name_transition(
            pre,
            line,
            post,
            out,
        ),
        ShellState::RemoveName => ev matches Event::Line(line) && remove_name_transition(
            pre,
            line,
            post,
            out,
        ),
        ShellState::EditName => ev matches Event::Line(line) && edit_name_transition(
            pre,
            line,
            post,
            out,
        ),
        ShellState::AddAmount { name } => ev matches Event::Amount(a) && add_amount_transition(
            pre,
            name@,
            a,
            post,
            out,
        ),
        ShellState::EditAmount { name } => ev matches Event::Amount(a) && edit_amount_transition(
            pre,
            name@,
            a,
            post,
            out,
        ),
        ShellState::Done => false,
    }
}

/// Which kind of input a state accepts: a `Line` wherever a line is read,
/// an `Amount` wherever an amount is read, nothing once the session is over.
pub open spec fn accepts(state: ShellState, ev: Event) -> bool {
    match state {
        ShellState::Menu | ShellState::AddName | ShellState::RemoveName | ShellState::EditName => ev
            is Line,
        ShellState::AddAmount { .. } | ShellState::EditAmount { .. } => ev is Amount,
        ShellState::Done => false,
    }
}

/// The shell: the record store together with the state of the dialogue.
pub struct Shell {
    pub state: ShellState,
    pub bills: Bills,
}

impl Shell {
    /// The shell's invariant: its store is well formed.
    pub open spec fn inv(&self) -> bool {
        self.bills.wf()
    }

    /// A fresh session: an empty store, at the menu.
    pub fn new() -> (r: Shell)
        ensures
            r.inv(),
            r.state == ShellState::Menu,
            r.bills@ == Map::<Seq<char>, u64>::empty(),
    {
        Shell { state: ShellState::Menu, bills: Bills::new() }
    }

    /// Feeds one input to the shell and returns the messages to print, as
    /// `shell_transition` describes.
    pub fn step(&mut self, ev: Event) -> (out: Vec<Msg>)
        requires
            old(self).inv(),
            accepts(old(self).state, ev),
        ensures
            final(self).inv(),
            shell_transition(*old(self), ev, *final(self), out@),
    {
        match ev {
            Event::Line(line) => {
                match &self.state {
                    ShellState::Menu => self.menu_select(line),
                    ShellState::AddName => {
                        match line {
                            Option::None => {
                                self.state = ShellState::Menu;
                                Vec::new()
                            },
                            Option::Some(n) => {
                                self.state = ShellState::AddAmount { name: n };
                                let mut out: Vec<Msg> = Vec::new();
                                out.push(Msg::PromptAmount);
                                proof {
                                    assert(out@ =~= seq![Msg::PromptAmount]);
                                }
                                out
                            },
                        }
                    },
                    ShellState::RemoveName => {
                        match line {
                            Option::None => {
                                self.state = ShellState::Menu;
                                Vec::new()
                            },
                            Option::Some(n) => {
                                let out = remove_bill(&mut self.bills, n.as_str());
                                self.state = ShellState::Menu;
                                out
                            },
                        }
                    },
                    ShellState::EditName => {
                        match line {
                            Option::None => {
                                self.state = ShellState::Menu;
                                Vec::new()
                            },
                            Option::Some(n) => {
                                self.state = ShellState::EditAmount { name: n };
                                let mut out: Vec<Msg> = Vec::new();
                                out.push(Msg::PromptAmount);
                                proof {
                                    assert(out@ =~= seq![Msg::PromptAmount]);
                                }
                                out
                            },
                        }
                    },
                    _ => unreached(),
                }
            },
            Event::Amount(amt) => {
                match &self.state {
                    ShellState::AddAmount { name } => {
                        match amt {
                            AmountInput::Empty => {
                                self.state = ShellState::Menu;
                                Vec::new()
                            },
                            AmountInput::Invalid => {
                                let mut out: Vec<Msg> = Vec::new();
                                out.push(Msg::InvalidAmount);
                                proof {
                                    assert(out@ =~= seq![Msg::InvalidAmount]);
                                }
                                out
                            },
                            AmountInput::Value(a) => {
                                let n = name.clone();
                                let out = add_bill(&mut self.bills, n, a);
                                self.state = ShellState::Menu;
                                out
                            },
                        }
                    },
                    ShellState::EditAmount { name } => {
                        match amt {
                            AmountInput::Empty => {
                                self.state = ShellState::Menu;
                                Vec::new()
                            },
                            AmountInput::Invalid => {
                                let mut out: Vec<Msg> = Vec::new();
                                out.push(Msg::InvalidAmount);
                                proof {
                                    assert(out@ =~= seq![Msg::InvalidAmount]);
                                }
                                out
                            },
                            AmountInput::Value(a) => {
                                let n = name.clone();
                                let out = update_bill(&mut self.bills, n.as_str(), a);
                                self.state = ShellState::Menu;
                                out
                            },
                        }
                    },
                    _ => unreached(),
                }
            },
        }
    }

    /// Dispatches one menu selection line.
    fn menu_select(&mut self, line: Option<String>) -> (out: Vec<Msg>)
        requires
            old(self).inv(),
            old(self).state == ShellState::Menu,
        ensures
            final(self).inv(),
            menu_transition(*old(self), line, *final(self), out@),
    {
        let l = match line {
            Option::None => {
                let mut out: Vec<Msg> = Vec::new();
                out.push(Msg::InvalidOption);
                proof {
                    assert(out@ =~= seq![Msg::InvalidOption]);
                }
                return out;
            },
            Option::Some(l) => l,
        };
        match MainMenu::from_str(l.as_str()) {
            Option::Some(MainMenu::AddBill) => {
                self.state = ShellState::AddName;
                let mut out: Vec<Msg> = Vec::new();
                out.push(Msg::PromptName);
                proof {
                    assert(out@ =~= seq![Msg::PromptName]);
                }
                out
            },
            Option::Some(MainMenu::ViewBills) => view_bills(&self.bills),
            Option::Some(MainMenu::RemoveBills) => {
                let mut out = view_bills(&self.bills);
                if !self.bills.is_empty() {
                    let ghost shown = out@;
                    out.push(Msg::PromptName);
                    self.state = ShellState::RemoveName;
                    proof {
                        assert(out@.drop_last() =~= shown);
                    }
                }
                out
            },
            Option::Some(MainMenu::EditBill) => {
                let mut out = view_bills(&self.bills);
                if !self.bills.is_empty() {
                    let ghost shown = out@;
                    out.push(Msg::PromptName);
                    self.state = ShellState::EditName;
                    proof {
                        assert(out@.drop_last() =~= shown);
                    }
                }
                out
            },
            Option::Some(MainMenu::Exit) => {
                self.state = ShellState::Done;
                Vec::new()
            },
            Option::None => {
                let mut out: Vec<Msg> = Vec::new();
                out.push(Msg::InvalidOption);
                proof {
                    assert(out@ =~= seq![Msg::InvalidOption]);
                }
                out
            },
        }
    }
}

/// Law: selecting removal or editing while the store is empty aborts at
/// once — the shell stays at the menu, shows only the no-bills notice, and
/// never prompts for a name.
pub proof fn lemma_empty_store_aborts(pre: Shell, line: String, post: Shell, out: Seq<Msg>)
    requires
        pre.state == ShellState::Menu,
        pre.bills@.dom().len() == 0,
        choice_of(line@) == Option::Some(MainMenu::RemoveBills) || choice_of(line@)
            == Option::Some(MainMenu::EditBill),
        menu_transition(pre, Option::Some(line), post, out),
    ensures
        post.state == ShellState::Menu,
        post.bills@ == pre.bills@,
        out == seq![Msg::NoBills],
{
}

} // verus!
