//! Text that crosses the boundary: names go out as NUL-terminated buffers,
//! so a name may not hold a NUL of its own, and diagnostics come back as
//! text.

use vstd::prelude::*;

verus! {

/// Why a name cannot be sent to the boundary.
#[derive(Clone, Copy, Debug, PartialEq, Eq, Structural)]
pub enum NameError {
    /// A subtype name must not be empty.
    Empty,
    /// The name holds a NUL, which would end it early; the position is that
    /// of the first one, counted in chars.
    EmbeddedNul(usize),
}

/// Whether `k` is the position of the first NUL in `s`.
pub open spec fn is_first_nul(s: Seq<char>, k: int) -> bool {
    &&& 0 <= k < s.len()
    &&& s[k] == '\0'
    &&& forall|m: int| 0 <= m < k ==> s[m] != '\0'
}

/// Checks that a parameter name can cross the boundary, that is, holds no
/// NUL.
pub fn check_parameter_name(name: &str) -> (r: Result<(), NameError>)
    ensures
        match r {
            Ok(()) => !name@.contains('\0'),
            Err(NameError::EmbeddedNul(k)) => is_first_nul(name@, k as int),
            Err(NameError::Empty) => false,
        },
{
    let n = name.unicode_len();
    let mut i: usize = 0;
    while i < n
        invariant
            n == name@.len(),
            i <= n,
            forall|m: int| 0 <= m < i ==> name@[m] != '\0',
        decreases n - i,
    {
        if name.get_char(i) == '\0' {
            return Err(NameError::EmbeddedNul(i));
        }
        i = i + 1;
    }
    Ok(())
}

/// Checks that a subtype name can be asked of a factory: it is not empty and
/// holds no NUL.
pub fn check_subtype_name(name: &str) -> (r: Result<(), NameError>)
    ensures
        match r {
            Ok(()) => name@.len() > 0 && !name@.contains('\0'),
            Err(NameError::Empty) => name@.len() == 0,
            Err(NameError::EmbeddedNul(k)) => is_first_nul(name@, k as int),
        },
{
    if name.unicode_len() == 0 {
        return Err(NameError::Empty);
    }
    check_parameter_name(name)
}

/// The error for a parameter whose type the bridge cannot materialize, naming
/// that type.
pub fn unsupported_type_message(name_of_type: &str) -> (r: String)
    ensures
        r@ == "Cannot handle type "@ + name_of_type@,
{
    let mut message = String::from_str("Cannot handle type ");
    message.append(name_of_type);
    message
}

} // verus!
