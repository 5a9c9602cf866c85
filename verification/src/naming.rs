//! Names of backing objects: the platform's namespace marker in front of the
//! caller's name, and the default name made from a random number.

use vstd::prelude::*;
use vstd::string::*;
use crate::error::Platform;

verus! {

/// The character of a decimal digit.
pub open spec fn digit_char(d: nat) -> char {
    if d == 0 {
        '0'
    } else if d == 1 {
        '1'
    } else if d == 2 {
        '2'
    } else if d == 3 {
        '3'
    } else if d == 4 {
        '4'
    } else if d == 5 {
        '5'
    } else if d == 6 {
        '6'
    } else if d == 7 {
        '7'
    } else if d == 8 {
        '8'
    } else {
        '9'
    }
}

/// The decimal numeral of a number: no sign, no leading zero, `"0"` for zero.
pub open spec fn decimal(n: nat) -> Seq<char>
    decreases n,
{
    if n < 10 {
        seq![digit_char(n)]
    } else {
        decimal(n / 10).push(digit_char(n % 10))
    }
}

/// The marker that a platform puts in front of every segment name.
pub open spec fn namespace_prefix(platform: Platform) -> Seq<char> {
    match platform {
        Platform::Unix => "/shmem_"@,
        Platform::Windows => Seq::<char>::empty(),
        Platform::WindowsGlobal => "Global\\"@,
    }
}

/// The name under which other processes find the backing object.
pub open spec fn qualified(platform: Platform, name: Seq<char>) -> Seq<char> {
    namespace_prefix(platform) + name
}

fn digit(d: u32) -> (text: &'static str)
    requires
        d < 10,
    ensures
        text@ == seq![digit_char(d as nat)],
{
    proof {
        reveal_strlit("0");
        reveal_strlit("1");
        reveal_strlit("2");
        reveal_strlit("3");
        reveal_strlit("4");
        reveal_strlit("5");
        reveal_strlit("6");
        reveal_strlit("7");
        reveal_strlit("8");
        reveal_strlit("9");
    }
    let text = if d == 0 {
        "0"
    } else if d == 1 {
        "1"
    } else if d == 2 {
        "2"
    } else if d == 3 {
        "3"
    } else if d == 4 {
        "4"
    } else if d == 5 {
        "5"
    } else if d == 6 {
        "6"
    } else if d == 7 {
        "7"
    } else if d == 8 {
        "8"
    } else {
        "9"
    };
    assert(text@ =~= seq![digit_char(d as nat)]);
    text
}

/// Writes the decimal numeral of `n` at the end of `s`.
pub fn append_decimal(s: &mut String, n: u32)
    ensures
        final(s)@ == old(s)@ + decimal(n as nat),
    decreases n,
{
    if n >= 10 {
        append_decimal(s, n / 10);
    }
    s.append(digit(n % 10));
    proof {
        assert(final(s)@ =~= old(s)@ + decimal(n as nat));
    }
}

/// The platform-qualified name for a name that the caller chose.
pub fn qualified_name(platform: Platform, name: &str) -> (r: String)
    ensures
        r@ == qualified(platform, name@),
{
    let prefix: &str = match platform {
        Platform::Unix => "/shmem_",
        Platform::Windows => "",
        Platform::WindowsGlobal => "Global\\",
    };
    proof {
        reveal_strlit("");
        assert(""@ =~= Seq::<char>::empty());
    }
    String::from_str(prefix).concat(name)
}

/// The name of a segment for which the caller chose none: the namespace
/// marker and the decimal numeral of `number`.
pub fn numbered_name(platform: Platform, number: u32) -> (r: String)
    ensures
        r@ == qualified(platform, decimal(number as nat)),
{
    let mut s = qualified_name(platform, "");
    proof {
        reveal_strlit("");
        assert(s@ =~= namespace_prefix(platform));
    }
    append_decimal(&mut s, number);
    s
}

} // verus!
