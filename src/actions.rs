use vstd::prelude::*;
use vstd::string::StrSliceExecFns;

verus! {

/// What the player asks for on a turn.
#[derive(Debug, Clone, Copy, PartialEq, Eq, Structural)]
pub enum Action {
    Scan,
    Hack,
    BruteForce,
    Retreat,
    Status,
    Help,
}

/// `s` without leading and trailing whitespace, as `str::trim` gives it.
pub uninterp spec fn trimmed(s: Seq<char>) -> Seq<char>;

/// `s` in lower case, as `str::to_lowercase` gives it.
pub uninterp spec fn lowercased(s: Seq<char>) -> Seq<char>;

/// Relies on `str::trim`: strips leading and trailing white space.
#[verifier::external_body]
pub(crate) fn trim_text(s: &str) -> (r: &str)
    ensures
        r@ == trimmed(s@),
{
    s.trim()
}

/// Relies on `str::to_lowercase`: the lower-case mapping of each character.
#[verifier::external_body]
pub(crate) fn lowercase_text(s: &str) -> (r: String)
    ensures
        r@ == lowercased(s@),
{
    s.to_lowercase()
}

/// The action that a word of the vocabulary names.
pub open spec fn action_of_word(w: Seq<char>) -> Option<Action> {
    if w == "scan"@ || w == "s"@ {
        Some(Action::Scan)
    } else if w == "hack"@ || w == "h"@ {
        Some(Action::Hack)
    } else if w == "brute"@ || w == "b"@ {
        Some(Action::BruteForce)
    } else if w == "retreat"@ || w == "r"@ {
        Some(Action::Retreat)
    } else if w == "status"@ {
        Some(Action::Status)
    } else if w == "help"@ {
        Some(Action::Help)
    } else {
        None
    }
}

/// Whether `a` and `b` hold the same characters.
pub(crate) fn same_text(a: &str, b: &str) -> (r: bool)
    ensures
        r == (a@ == b@),
{
    let n = a.unicode_len();
    if n != b.unicode_len() {
        return false;
    }
    let mut i: usize = 0;
    while i < n
        invariant
            i <= n,
            n == a@.len(),
            n == b@.len(),
            forall|j: int| 0 <= j < i ==> a@[j] == b@[j],
        decreases n - i,
    {
        if a.get_char(i) != b.get_char(i) {
            return false;
        }
        i += 1;
    }
    assert(a@ =~= b@);
    true
}

impl Action {
    /// The action that an already trimmed, lower-case word names, if any.
    pub fn from_word(w: &str) -> (r: Option<Action>)
        ensures
            r == action_of_word(w@),
    {
        if same_text(w, "scan") || same_text(w, "s") {
            Some(Action::Scan)
        } else if same_text(w, "hack") || same_text(w, "h") {
            Some(Action::Hack)
        } else if same_text(w, "brute") || same_text(w, "b") {
            Some(Action::BruteForce)
        } else if same_text(w, "retreat") || same_text(w, "r") {
            Some(Action::Retreat)
        } else if same_text(w, "status") {
            Some(Action::Status)
        } else if same_text(w, "help") {
            Some(Action::Help)
        } else {
            None
        }
    }

    /// Reads an action, ignoring surrounding white space and case.
    pub fn parse(s: &str) -> (r: Option<Action>)
        ensures
            r == action_of_word(lowercased(trimmed(s@))),
    {
        let word = lowercase_text(trim_text(s));
        Action::from_word(word.as_str())
    }
}

impl std::str::FromStr for Action {
    type Err = ();

    fn from_str(s: &str) -> (r: Result<Action, ()>)
        ensures
            r == (match action_of_word(lowercased(trimmed(s@))) {
                Some(a) => Ok::<Action, ()>(a),
                None => Err::<Action, ()>(()),
            }),
    {
        match Action::parse(s) {
            Some(a) => Ok(a),
            None => Err(()),
        }
    }
}

} // verus!
