//! The naming convention that links the boundary's constant names to the
//! bridge's type names: `COMBINATION_RULE` is the family `CombinationRule`,
//! `FLOAT64` is the primitive `f64`.

use vstd::prelude::*;

verus! {

/// The first char of the lowercase mapping of `c`.
pub uninterp spec fn lowercase_head(c: char) -> char;

/// Relies on `char::to_lowercase`: its first char, which depends on `c` alone
/// and is the ASCII lowercase letter for an ASCII uppercase one, and `c` itself
/// for any other ASCII char.
#[verifier::external_body]
fn lowercase_head_of(c: char) -> (r: char)
    ensures
        r == lowercase_head(c),
        'A' <= c <= 'Z' ==> r as u32 == c as u32 + 32,
        (c as u32) < 128 && !('A' <= c <= 'Z') ==> r == c,
{
    c.to_lowercase().collect::<Vec<char>>()[0]
}

/// Relies on `String::push`: appends one char.
#[verifier::external_body]
fn push_char(s: &mut String, c: char)
    ensures
        final(s)@ == old(s)@.push(c),
{
    s.push(c)
}

/// The camel-case form of what follows the first char of a constant's name:
/// an underscore drops and keeps the char after it as it is, every other char
/// is lowercased, and a trailing underscore ends the name.
pub open spec fn camel_tail(t: Seq<char>) -> Seq<char>
    decreases t.len(),
{
    if t.len() == 0 {
        seq![]
    } else if t[0] == '_' {
        if t.len() == 1 {
            seq![]
        } else {
            seq![t[1]] + camel_tail(t.skip(2))
        }
    } else {
        seq![lowercase_head(t[0])] + camel_tail(t.drop_first())
    }
}

/// The type name for a constant's name: its first char as it is, then the
/// camel-case form of the rest.
pub open spec fn rust_type_name(s: Seq<char>) -> Seq<char>
    recommends
        s.len() > 0,
{
    seq![s[0]] + camel_tail(s.drop_first())
}

/// Whether every char of `s` is ASCII.
pub open spec fn is_ascii_text(s: Seq<char>) -> bool {
    forall|k: int| 0 <= k < s.len() ==> (#[trigger] s[k] as u32) < 128
}

/// ASCII lowercasing: an upper-case letter becomes its lower-case letter,
/// every other char stays as it is.
pub open spec fn ascii_lower(c: char) -> char {
    if 'A' <= c <= 'Z' {
        (c as u32 + 32) as char
    } else {
        c
    }
}

/// `camel_tail` for ASCII text, with ASCII lowercasing spelled out.
pub open spec fn ascii_camel_tail(t: Seq<char>) -> Seq<char>
    decreases t.len(),
{
    if t.len() == 0 {
        seq![]
    } else if t[0] == '_' {
        if t.len() == 1 {
            seq![]
        } else {
            seq![t[1]] + ascii_camel_tail(t.skip(2))
        }
    } else {
        seq![ascii_lower(t[0])] + ascii_camel_tail(t.drop_first())
    }
}

/// `rust_type_name` for ASCII text: the first char as it is, then
/// `ascii_camel_tail` of the rest.
pub open spec fn ascii_type_name(s: Seq<char>) -> Seq<char>
    recommends
        s.len() > 0,
{
    seq![s[0]] + ascii_camel_tail(s.drop_first())
}

/// Turns an upper-case, underscore-separated constant name into the name of
/// the type it stands for (`LABELS` to `Labels`, `COMBINATION_RULE` to
/// `CombinationRule`).
pub fn from_sg_enum_to_rust_type(sg_enum: &str) -> (r: String)
    requires
        sg_enum@.len() > 0,
    ensures
        r@ == rust_type_name(sg_enum@),
        is_ascii_text(sg_enum@) ==> r@ == ascii_type_name(sg_enum@),
{
    let n = sg_enum.unicode_len();
    let mut result = String::new();
    push_char(&mut result, sg_enum.get_char(0));
    let mut i: usize = 1;
    while i < n
        invariant
            n == sg_enum@.len(),
            1 <= i <= n,
            rust_type_name(sg_enum@) == result@ + camel_tail(sg_enum@.skip(i as int)),
            is_ascii_text(sg_enum@) ==> ascii_type_name(sg_enum@) == result@ + ascii_camel_tail(
                sg_enum@.skip(i as int),
            ),
        decreases n - i,
    {
        let ghost rest = sg_enum@.skip(i as int);
        let c = sg_enum.get_char(i);
        if c == '_' {
            if i + 1 < n {
                push_char(&mut result, sg_enum.get_char(i + 1));
                assert(rest.skip(2) =~= sg_enum@.skip(i + 2));
                i = i + 2;
            } else {
                assert(rest.len() == 1);
                assert(sg_enum@.skip(n as int) =~= seq![]);
                i = n;
            }
        } else {
            let lower = lowercase_head_of(c);
            proof {
                if is_ascii_text(sg_enum@) {
                    assert((sg_enum@[i as int] as u32) < 128);
                    if 'A' <= c <= 'Z' {
                        assert(lower == (c as u32 + 32) as char);
                    }
                    assert(lower == ascii_lower(c));
                }
            }
            push_char(&mut result, lower);
            assert(rest.drop_first() =~= sg_enum@.skip(i + 1));
            i = i + 1;
        }
    }
    assert(sg_enum@.skip(i as int) =~= seq![]);
    result
}

/// Tells whether two texts are the same.
pub fn same_text(a: &str, b: &str) -> (r: bool)
    ensures
        r == (a@ == b@),
{
    let n = a.unicode_len();
    if n != b.unicode_len() {
        return false;
    }
    let mut i: usize = 0;
    while i < n
        invariant
            n == a@.len(),
            n == b@.len(),
            i <= n,
            forall|k: int| 0 <= k < i ==> a@[k] == b@[k],
        decreases n - i,
    {
        if a.get_char(i) != b.get_char(i) {
            return false;
        }
        i = i + 1;
    }
    assert(a@ =~= b@);
    true
}

/// The names that the boundary gives its first-level type constants.
pub open spec fn is_type_constant_name(s: Seq<char>) -> bool {
    ||| s == "INT32"@
    ||| s == "INT64"@
    ||| s == "FLOAT32"@
    ||| s == "FLOAT64"@
    ||| s == "SGOBJECT"@
}

/// The primitive type that a first-level constant's name stands for; the
/// nested-object constant stands for none.
pub open spec fn primitive_type_name(s: Seq<char>) -> Option<Seq<char>> {
    if s == "INT32"@ {
        Some("i32"@)
    } else if s == "INT64"@ {
        Some("i64"@)
    } else if s == "FLOAT32"@ {
        Some("f32"@)
    } else if s == "FLOAT64"@ {
        Some("f64"@)
    } else {
        None
    }
}

/// Names the primitive type for a first-level type constant (`FLOAT64` is
/// `f64`); `SGOBJECT`, the nested-object constant, has none.
pub fn from_primitive_type_to_rust_type(type_enum: &str) -> (r: Option<String>)
    requires
        is_type_constant_name(type_enum@),
    ensures
        r matches Some(name) ==> primitive_type_name(type_enum@) == Some(name@),
        r is None ==> primitive_type_name(type_enum@) is None,
{
    if same_text(type_enum, "INT32") {
        Some(String::from_str("i32"))
    } else if same_text(type_enum, "INT64") {
        Some(String::from_str("i64"))
    } else if same_text(type_enum, "FLOAT32") {
        Some(String::from_str("f32"))
    } else if same_text(type_enum, "FLOAT64") {
        Some(String::from_str("f64"))
    } else {
        None
    }
}

} // verus!
