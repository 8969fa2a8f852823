//! The choice of the front-end, by name.

use vstd::prelude::*;

verus! {

/// The kind of front-end to use: one for each known front-end.
#[derive(Debug, Clone, Copy, PartialEq, Eq)]
pub enum UIType {
    /// Prints the progress as lines of text.
    Print,
    /// Prints every message in a raw form.
    Raw,
    /// An interactive terminal front-end.
    Curses,
    /// Prints every message as JSON.
    Json,
    /// Prints nothing.
    Silent,
}

/// `c` with an ASCII upper-case letter turned to lower case.
pub open spec fn ascii_lower_char(c: char) -> char {
    if 'A' <= c && c <= 'Z' {
        ((c as u32) + 32) as char
    } else {
        c
    }
}

/// `s` with every ASCII upper-case letter turned to lower case.
pub open spec fn ascii_lowercase(s: Seq<char>) -> Seq<char> {
    s.map_values(|c: char| ascii_lower_char(c))
}

/// Relies on str::to_ascii_lowercase: each ASCII upper-case letter becomes
/// its lower-case letter, and every other character stays.
#[verifier::external_body]
fn to_ascii_lowercase(s: &str) -> (r: String)
    ensures
        r@ == ascii_lowercase(s@),
{
    s.to_ascii_lowercase()
}

/// The front-end that `name` selects, ignoring the case of ASCII letters.
pub open spec fn ui_type_of(name: Seq<char>) -> Option<UIType> {
    let l = ascii_lowercase(name);
    if l == "print"@ {
        Some(UIType::Print)
    } else if l == "raw"@ {
        Some(UIType::Raw)
    } else if l == "curses"@ {
        Some(UIType::Curses)
    } else if l == "json"@ {
        Some(UIType::Json)
    } else if l == "silent"@ {
        Some(UIType::Silent)
    } else {
        None
    }
}

/// The message of the error for a name that selects no front-end.
pub open spec fn unknown_ui_message(name: Seq<char>) -> Seq<char> {
    "Unknown ui: "@ + name
}

impl std::str::FromStr for UIType {
    type Err = String;

    /// Select a front-end by name; names are not case sensitive. An unknown
    /// name gives an error that repeats it.
    fn from_str(s: &str) -> (r: Result<UIType, String>)
        ensures
            match ui_type_of(s@) {
                Some(t) => r == Ok::<UIType, String>(t),
                None => r is Err && r->Err_0@ == unknown_ui_message(s@),
            },
    {
        let lower = to_ascii_lowercase(s);
        if lower == "print".to_owned() {
            Ok(UIType::Print)
        } else if lower == "raw".to_owned() {
            Ok(UIType::Raw)
        } else if lower == "curses".to_owned() {
            Ok(UIType::Curses)
        } else if lower == "json".to_owned() {
            Ok(UIType::Json)
        } else if lower == "silent".to_owned() {
            Ok(UIType::Silent)
        } else {
            Err("Unknown ui: ".to_owned().concat(s))
        }
    }
}

} // verus!
