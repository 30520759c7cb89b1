//! The main menu: the five selection codes and the fixed menu text.

use vstd::prelude::*;

verus! {

use vstd::string::StrSliceExecFns;

/// A selection from the main menu.
#[derive(Debug, Clone, Copy, PartialEq, Eq, Structural)]
pub enum MainMenu {
    AddBill,
    ViewBills,
    RemoveBills,
    EditBill,
    Exit,
}

/// The selection that an input line denotes: the single digits `1` to `5`,
/// and nothing else.
pub open spec fn choice_of(s: Seq<char>) -> Option<MainMenu> {
    if s.len() == 1 {
        if s[0] == '1' {
            Option::Some(MainMenu::AddBill)
        } else if s[0] == '2' {
            Option::Some(MainMenu::ViewBills)
        } else if s[0] == '3' {
            Option::Some(MainMenu::RemoveBills)
        } else if s[0] == '4' {
            Option::Some(MainMenu::EditBill)
        } else if s[0] == '5' {
            Option::Some(MainMenu::Exit)
        } else {
            Option::None
        }
    } else {
        Option::None
    }
}

impl MainMenu {
    /// Parses an input line as a selection code.
    pub fn from_str(input: &str) -> (r: Option<MainMenu>)
        ensures
            r == choice_of(input@),
    {
        if input.unicode_len() == 1 {
            let c = input.get_char(0);
            if c == '1' {
                Option::Some(MainMenu::AddBill)
            } else if c == '2' {
                Option::Some(MainMenu::ViewBills)
            } else if c == '3' {
                Option::Some(MainMenu::RemoveBills)
            } else if c == '4' {
                Option::Some(MainMenu::EditBill)
            } else if c == '5' {
                Option::Some(MainMenu::Exit)
            } else {
                Option::None
            }
        } else {
            Option::None
        }
    }

    /// The menu text, one printed line per element (empty elements are the
    /// blank lines around the option list).
    pub fn show() -> (r: Vec<&'static str>)
        ensures
            r@.len() == 11,
            r@[0]@ == ""@,
            r@[1]@ == "Welcome to Bill Tracker!"@,
            r@[2]@ == ""@,
            r@[3]@ == "1. Add Bill"@,
            r@[4]@ == "2. View Bills"@,
            r@[5]@ == "3. Remove Bills"@,
            r@[6]@ == "4. Edit Bill"@,
            r@[7]@ == "5. Exit"@,
            r@[8]@ == ""@,
            r@[9]@ == "Please select an option:"@,
            r@[10]@ == ""@,
    {
        let mut r: Vec<&'static str> = Vec::new();
        r.push("");
        r.push("Welcome to Bill Tracker!");
        r.push("");
        r.push("1. Add Bill");
        r.push("2. View Bills");
        r.push("3. Remove Bills");
        r.push("4. Edit Bill");
        r.push("5. Exit");
        r.push("");
        r.push("Please select an option:");
        r.push("");
        r
    }
}

} // verus!
