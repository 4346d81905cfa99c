//! Event-name utilities.
//!
//! User scripts name event codes in the hardware's own style, such as
//! `KEY_SPACE` or `BTN_LEFT`: a type prefix, an underscore, and a code
//! name. The numeric translation tables themselves belong to the
//! surrounding process; this module holds the naming rules the core owns:
//! which event-type name a prefix belongs to, and how a full event name
//! splits into its type.

use vstd::prelude::*;
use vstd::string::{StrSliceExecFns, StringExecFns};

verus! {

/// Why an event name could not be turned into an event code. The
/// separator check is the core's own; the two lookup failures are
/// reported by the surrounding process when its translation tables know
/// no such type or code.
#[derive(Debug, Clone, PartialEq, Eq)]
pub enum CodeFromStrError {
    /// The name has no underscore to split into `<type>_<code>`.
    NoSeparator(String),
    /// No event type of this name exists.
    UnknownEventType(String),
    /// No event code of this name exists within the named type (second
    /// field: the type's name).
    UnknownEventCode(String, String),
}

/// The event-type name a code prefix belongs to: `BTN`-prefixed codes are
/// key events, every other prefix names its own type.
pub open spec fn spec_type_of_event_code(code: Seq<char>) -> Seq<char> {
    if code == "BTN"@ {
        "KEY"@
    } else {
        code
    }
}

/// Compare two string slices character by character.
fn str_eq(a: &str, b: &str) -> (r: bool)
    ensures
        r == (a@ == b@),
{
    let la = a.unicode_len();
    let lb = b.unicode_len();
    if la != lb {
        return false;
    }
    let mut i: usize = 0;
    while i < la
        invariant
            0 <= i <= la,
            la == a@.len(),
            la == b@.len(),
            forall|k: int| 0 <= k < i ==> a@[k] == b@[k],
        decreases la - i,
    {
        if a.get_char(i) != b.get_char(i) {
            return false;
        }
        i = i + 1;
    }
    proof {
        assert(a@ =~= b@);
    }
    true
}

/// Map a code prefix to the event-type name it belongs to.
pub fn type_of_event_code(code: &str) -> (r: &str)
    ensures
        r@ == spec_type_of_event_code(code@),
{
    if str_eq(code, "BTN") {
        "KEY"
    } else {
        code
    }
}

/// The position of the first underscore in `s` at or after `i`, or
/// `s.len()` when there is none.
pub open spec fn find_sep(s: Seq<char>, i: int) -> int
    decreases s.len() - i,
{
    if i >= s.len() {
        s.len() as int
    } else if s[i] == '_' {
        i
    } else {
        find_sep(s, i + 1)
    }
}

/// The event-type name a full event name belongs to, once a separator is
/// known to exist: `EV_` plus the mapped prefix.
pub open spec fn spec_event_type_name(s: Seq<char>) -> Seq<char> {
    "EV_"@ + spec_type_of_event_code(s.subrange(0, find_sep(s, 0)))
}

/// Split an event name such as `KEY_SPACE` at its first underscore and
/// name the evdev event type it belongs to (`EV_KEY`). Fails exactly when
/// the name has no underscore; the surrounding process then looks the
/// returned type name and the full code name up in its translation
/// tables.
pub fn event_type_name(s: &str) -> (r: Result<String, CodeFromStrError>)
    ensures
        match r {
            Result::Ok(name) => {
                &&& find_sep(s@, 0) < s@.len()
                &&& name@ == spec_event_type_name(s@)
            },
            Result::Err(e) => {
                &&& e matches CodeFromStrError::NoSeparator(orig) && orig@ == s@
                &&& find_sep(s@, 0) == s@.len()
            },
        },
{
    let n = s.unicode_len();
    let mut i: usize = 0;
    while i < n
        invariant
            0 <= i <= n,
            n == s@.len(),
            find_sep(s@, 0) == find_sep(s@, i as int),
        decreases n - i,
    {
        if s.get_char(i) == '_' {
            let prefix = s.substring_char(0, i);
            let mapped = type_of_event_code(prefix);
            let mut name = String::from_str("EV_");
            name.append(mapped);
            return Result::Ok(name);
        }
        i = i + 1;
    }
    Result::Err(CodeFromStrError::NoSeparator(s.to_owned()))
}

} // verus!
