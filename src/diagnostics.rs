use vstd::prelude::*;
use vstd::string::*;

verus! {

/// Why the configuration file could not be located.
#[derive(PartialEq, Eq, Structural, Clone, Copy, Debug)]
pub enum LocationFailure {
    /// The operating system reported an empty image path.
    EmptyPath,
    /// The image path filled the whole buffer and may have been cut short.
    Truncated,
    /// The image path is not well-formed UTF-16.
    NotUtf16,
    /// The image file name has no extension to replace.
    NoExtension,
}

/// A problem worth one error dialog.
#[derive(Clone, Debug)]
pub enum Diagnostic {
    Location(LocationFailure),
    /// The configuration file exists but could not be read as INI.
    UnparsableConfig { path: String },
    /// A recognised key holds a value outside its domain.
    InvalidValue { key: String, raw: String },
    /// The operating system refused the priority class with this flag.
    ApplyFailure { flag: u32 },
}

/// The content of a `Diagnostic`, with text as character sequences.
pub enum Issue {
    Location(LocationFailure),
    UnparsableConfig(Seq<char>),
    InvalidValue(Seq<char>, Seq<char>),
    ApplyFailure(u32),
}

impl View for Diagnostic {
    type V = Issue;

    open spec fn view(&self) -> Issue {
        match self {
            Diagnostic::Location(f) => Issue::Location(*f),
            Diagnostic::UnparsableConfig { path } => Issue::UnparsableConfig(path@),
            Diagnostic::InvalidValue { key, raw } => Issue::InvalidValue(key@, raw@),
            Diagnostic::ApplyFailure { flag } => Issue::ApplyFailure(*flag),
        }
    }
}

pub open spec fn issues_of(ds: Seq<Diagnostic>) -> Seq<Issue> {
    ds.map_values(|d: Diagnostic| d@)
}

/// The decimal spelling of `n`, without leading zeros.
pub open spec fn decimal_spelling(n: nat) -> Seq<char>
    decreases n,
{
    if n < 10 {
        "0123456789"@.subrange(n as int, n + 1int)
    } else {
        decimal_spelling(n / 10) + "0123456789"@.subrange((n % 10) as int, (n % 10) + 1int)
    }
}

pub fn decimal_text(n: u32) -> (r: String)
    ensures
        r@ == decimal_spelling(n as nat),
    decreases n,
{
    let digits = "0123456789";
    proof {
        reveal_strlit("0123456789");
    }
    if n < 10 {
        let k = n as usize;
        String::from_str(digits.substring_char(k, k + 1))
    } else {
        let mut r = decimal_text(n / 10);
        let k = (n % 10) as usize;
        r.append(digits.substring_char(k, k + 1));
        r
    }
}

pub open spec fn location_text(f: LocationFailure) -> Seq<char> {
    match f {
        LocationFailure::EmptyPath => "the library image path is empty."@,
        LocationFailure::Truncated => "the library image path is too long."@,
        LocationFailure::NotUtf16 => "the library image path is not valid UTF-16."@,
        LocationFailure::NoExtension => "the library file name has no extension."@,
    }
}

/// The one-line text of the dialog that reports an issue.
pub open spec fn message_of(i: Issue) -> Seq<char> {
    match i {
        Issue::Location(f) => "Unable to locate the ini file: "@ + location_text(f),
        Issue::UnparsableConfig(path) => "Unable to parse ini file: "@ + path,
        Issue::InvalidValue(key, raw) => "Found key \""@ + key + "\", but unable to parse \""@ + raw
            + "\" as a valid value."@,
        Issue::ApplyFailure(flag) => "Unable to set priority class to "@ + decimal_spelling(
            flag as nat,
        ) + "."@,
    }
}

fn location_str(f: LocationFailure) -> (r: &'static str)
    ensures
        r@ == location_text(f),
{
    match f {
        LocationFailure::EmptyPath => "the library image path is empty.",
        LocationFailure::Truncated => "the library image path is too long.",
        LocationFailure::NotUtf16 => "the library image path is not valid UTF-16.",
        LocationFailure::NoExtension => "the library file name has no extension.",
    }
}

impl Diagnostic {
    pub fn message(&self) -> (r: String)
        ensures
            r@ == message_of(self@),
    {
        match self {
            Diagnostic::Location(f) => {
                let mut r = String::from_str("Unable to locate the ini file: ");
                r.append(location_str(*f));
                r
            },
            Diagnostic::UnparsableConfig { path } => {
                let mut r = String::from_str("Unable to parse ini file: ");
                r.append(path.as_str());
                r
            },
            Diagnostic::InvalidValue { key, raw } => {
                let mut r = String::from_str("Found key \"");
                r.append(key.as_str());
                r.append("\", but unable to parse \"");
                r.append(raw.as_str());
                r.append("\" as a valid value.");
                r
            },
            Diagnostic::ApplyFailure { flag } => {
                let mut r = String::from_str("Unable to set priority class to ");
                let digits = decimal_text(*flag);
                r.append(digits.as_str());
                r.append(".");
                r
            },
        }
    }
}

} // verus!
