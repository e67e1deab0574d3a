use vstd::prelude::*;
use vstd::string::*;

verus! {

#[derive(PartialEq, Eq, Structural, Clone, Copy, Debug)]
pub enum DialogIcon {
    Info,
    Error,
}

/// A modal message box to show to the operator.
pub struct Dialog {
    pub title: String,
    pub text: String,
    pub icon: DialogIcon,
}

/// The dialog that reports an error.
pub fn report_error(text: &str) -> (r: Dialog)
    ensures
        r.title@ == "Cpu Optimizer Error"@,
        r.text@ == text@,
        r.icon == DialogIcon::Error,
{
    Dialog {
        title: String::from_str("Cpu Optimizer Error"),
        text: String::from_str(text),
        icon: DialogIcon::Error,
    }
}

/// The dialog that shows debugging information; only debug builds show it.
pub fn report_debug(text: &str) -> (r: Dialog)
    ensures
        r.title@ == "Cpu Optimizer Debug"@,
        r.text@ == text@,
        r.icon == DialogIcon::Info,
{
    Dialog {
        title: String::from_str("Cpu Optimizer Debug"),
        text: String::from_str(text),
        icon: DialogIcon::Info,
    }
}

} // verus!
