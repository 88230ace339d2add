//! The exact text of every line the server originates: chat fan-out lines,
//! rename announcements and rejections, the greeting, and the farewell.
//! Each builder's contract pins the result down to the character.

use vstd::prelude::*;

verus! {

/// The decimal digit character for a single digit value.
pub open spec fn digit_char(d: nat) -> char {
    if d == 0 {
        '0'
    } else if d == 1 {
        '1'
    } else if d == 2 {
        '2'
    } else if d == 3 {
        '3'
    } else if d == 4 {
        '4'
    } else if d == 5 {
        '5'
    } else if d == 6 {
        '6'
    } else if d == 7 {
        '7'
    } else if d == 8 {
        '8'
    } else {
        '9'
    }
}

/// The decimal representation of `n`, most significant digit first,
/// with no leading zeros (a single `'0'` for zero itself).
pub open spec fn decimal(n: nat) -> Seq<char>
    decreases n,
{
    if n < 10 {
        seq![digit_char(n)]
    } else {
        decimal(n / 10).push(digit_char(n % 10))
    }
}

/// Appends the digit character for `d` to `out`.
fn push_digit(out: &mut String, d: u16)
    requires
        d < 10,
    ensures
        final(out)@ == old(out)@ + seq![digit_char(d as nat)],
{
    let s: &'static str = match d {
        0 => "0",
        1 => "1",
        2 => "2",
        3 => "3",
        4 => "4",
        5 => "5",
        6 => "6",
        7 => "7",
        8 => "8",
        _ => "9",
    };
    proof {
        reveal_strlit("0");
        reveal_strlit("1");
        reveal_strlit("2");
        reveal_strlit("3");
        reveal_strlit("4");
        reveal_strlit("5");
        reveal_strlit("6");
        reveal_strlit("7");
        reveal_strlit("8");
        reveal_strlit("9");
        assert(s@ =~= seq![digit_char(d as nat)]);
    }
    out.append(s);
}

/// Appends the decimal representation of `n` to `out`.
fn push_decimal(out: &mut String, n: u16)
    ensures
        final(out)@ == old(out)@ + decimal(n as nat),
    decreases n,
{
    if n < 10 {
        push_digit(out, n);
    } else {
        push_decimal(out, n / 10);
        push_digit(out, n % 10);
        proof {
            assert(out@ =~= old(out)@ + decimal(n as nat));
        }
    }
}

/// The decimal representation of `n` as a `String`.
pub fn decimal_string(n: u16) -> (r: String)
    ensures
        r@ == decimal(n as nat),
{
    let mut out = String::new();
    push_decimal(&mut out, n);
    proof {
        assert(out@ =~= decimal(n as nat));
    }
    out
}

/// The display name assigned to a fresh connection: `<ip>_<port>`.
pub open spec fn default_name_spec(ip: Seq<char>, port: nat) -> Seq<char> {
    ip + "_"@ + decimal(port)
}

/// Builds the address-derived default display name `<ip>_<port>`.
pub fn default_name(ip: &str, port: u16) -> (r: String)
    ensures
        r@ == default_name_spec(ip@, port as nat),
{
    let mut r = ip.to_owned();
    r.append("_");
    push_decimal(&mut r, port);
    r
}

/// The suffix appended to every relayed chat line: a space, a red heart
/// with its emoji presentation selector, and an exclamation mark.
pub open spec fn heart_suffix() -> Seq<char> {
    " \u{2764}\u{FE0F}!"@
}

/// The line broadcast for an ordinary chat message: `<name>: <msg> <heart>!`.
pub open spec fn chat_line_spec(name: Seq<char>, msg: Seq<char>) -> Seq<char> {
    name + ": "@ + msg + heart_suffix()
}

/// Builds the broadcast text for an ordinary chat message.
pub fn chat_line(name: &str, msg: &str) -> (r: String)
    ensures
        r@ == chat_line_spec(name@, msg@),
{
    let mut r = name.to_owned();
    r.append(": ");
    r.append(msg);
    r.append(" \u{2764}\u{FE0F}!");
    r
}

/// The announcement broadcast after a successful rename: `<old> is now <new>`.
pub open spec fn rename_line_spec(old_name: Seq<char>, new_name: Seq<char>) -> Seq<char> {
    old_name + " is now "@ + new_name
}

/// Builds the rename announcement.
pub fn rename_line(old_name: &str, new_name: &str) -> (r: String)
    ensures
        r@ == rename_line_spec(old_name@, new_name@),
{
    let mut r = old_name.to_owned();
    r.append(" is now ");
    r.append(new_name);
    r
}

/// The private error after a rejected rename: `name <requested> already exists`.
pub open spec fn reject_line_spec(requested: Seq<char>) -> Seq<char> {
    "name "@ + requested + " already exists"@
}

/// Builds the duplicate-name error line.
pub fn reject_line(requested: &str) -> (r: String)
    ensures
        r@ == reject_line_spec(requested@),
{
    let mut r = "name ".to_owned();
    r.append(requested);
    r.append(" already exists");
    r
}

/// The first line written to a fresh connection: `You are <name>`.
pub open spec fn greeting_line_spec(name: Seq<char>) -> Seq<char> {
    "You are "@ + name
}

/// Builds the greeting line.
pub fn greeting_line(name: &str) -> (r: String)
    ensures
        r@ == greeting_line_spec(name@),
{
    let mut r = "You are ".to_owned();
    r.append(name);
    r
}

/// Character-for-character equality of two string slices.
pub fn str_eq(a: &str, b: &str) -> (r: bool)
    ensures
        r == (a@ == b@),
{
    let a_len = a.unicode_len();
    let b_len = b.unicode_len();
    if a_len != b_len {
        return false;
    }
    let mut i: usize = 0;
    while i < a_len
        invariant
            i <= a_len,
            a_len == a@.len(),
            a_len == b@.len(),
            forall|j: int| 0 <= j < i ==> a@[j] == b@[j],
        decreases a_len - i,
    {
        if a.get_char(i) != b.get_char(i) {
            return false;
        }
        i += 1;
    }
    proof {
        assert(a@ =~= b@);
    }
    true
}

/// The farewell line written to a client that asked to quit.
pub fn goodbye_line() -> (r: String)
    ensures
        r@ == "Goodbye!!"@,
{
    "Goodbye!!".to_owned()
}

} // verus!
