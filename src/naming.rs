//! Human-readable connector names, such as `HDMI-A-1` or `DP-2`: the label of
//! the connector's interface type, a dash, and the interface number in decimal.

use vstd::prelude::*;
use vstd::string::StringExecFns;

verus! {

/// The decimal digit for `d`, for `d` in `0..10`.
pub open spec fn digit_char(d: int) -> char {
    if d == 0 {
        '0'
    } else if d == 1 {
        '1'
    } else if d == 2 {
        '2'
    } else if d == 3 {
        '3'
    } else if d == 4 {
        '4'
    } else if d == 5 {
        '5'
    } else if d == 6 {
        '6'
    } else if d == 7 {
        '7'
    } else if d == 8 {
        '8'
    } else {
        '9'
    }
}

/// `n` written in decimal, without leading zeros.
pub open spec fn decimal(n: nat) -> Seq<char>
    decreases n,
{
    if n < 10 {
        seq![digit_char(n as int)]
    } else {
        decimal(n / 10).push(digit_char((n % 10) as int))
    }
}

/// The label that a kernel connector type number stands for (`DP`, `HDMI-A`, ...).
pub uninterp spec fn interface_label_of(kind: u32) -> Seq<char>;

/// The name of a connector of interface type `kind` with interface number `id`.
pub open spec fn connector_name_of(kind: u32, id: u32) -> Seq<char> {
    interface_label_of(kind) + seq!['-'] + decimal(id as nat)
}

/// Relies on drm's `control::connector::Interface::as_str`, applied to the
/// interface that drm's `From<u32>` gives for the kernel's connector type number.
#[verifier::external_body]
fn interface_label(kind: u32) -> (r: &'static str)
    ensures
        r@ == interface_label_of(kind),
{
    ::drm::control::connector::Interface::from(kind).as_str()
}

fn digit_str(d: u32) -> (r: &'static str)
    requires
        d < 10,
    ensures
        r@ == seq![digit_char(d as int)],
{
    proof {
        reveal_strlit("0");
        reveal_strlit("1");
        reveal_strlit("2");
        reveal_strlit("3");
        reveal_strlit("4");
        reveal_strlit("5");
        reveal_strlit("6");
        reveal_strlit("7");
        reveal_strlit("8");
        reveal_strlit("9");
    }
    match d {
        0 => "0",
        1 => "1",
        2 => "2",
        3 => "3",
        4 => "4",
        5 => "5",
        6 => "6",
        7 => "7",
        8 => "8",
        _ => "9",
    }
}

/// `n` in decimal.
pub fn decimal_string(n: u32) -> (r: String)
    ensures
        r@ == decimal(n as nat),
    decreases n,
{
    if n < 10 {
        String::from_str(digit_str(n))
    } else {
        let mut s = decimal_string(n / 10);
        s.append(digit_str(n % 10));
        s
    }
}

/// Joins an interface label and an interface number into a connector name.
pub fn format_connector_name(label: &str, id: u32) -> (r: String)
    ensures
        r@ == label@ + seq!['-'] + decimal(id as nat),
{
    let mut s = String::from_str(label);
    proof {
        reveal_strlit("-");
    }
    s.append("-");
    let digits = decimal_string(id);
    s.append(digits.as_str());
    s
}

/// The name of a connector of interface type `kind` with interface number `id`.
pub fn connector_name(kind: u32, id: u32) -> (r: String)
    ensures
        r@ == connector_name_of(kind, id),
{
    format_connector_name(interface_label(kind), id)
}

} // verus!
