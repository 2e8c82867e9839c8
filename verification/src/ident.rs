//! Stable output identity: a deterministic string derived from the
//! device index, the connector's interface name, and the connector's
//! interface id.  Two outputs are the same output exactly when these
//! three inputs coincide.
use vstd::prelude::*;
use vstd::string::StringExecFns;

verus! {

/// The character for a single decimal digit.
pub open spec fn digit_char(d: nat) -> char {
    ((d + 48) as u8) as char
}

/// Decimal rendering of a natural number, most significant digit first.
pub open spec fn spec_dec(n: nat) -> Seq<char>
    decreases n,
{
    if n < 10 {
        seq![digit_char(n)]
    } else {
        spec_dec(n / 10) + seq![digit_char(n % 10)]
    }
}

/// A one-character string for the digit `d`.
fn digit_str(d: u32) -> (r: &'static str)
    requires
        d < 10,
    ensures
        r@ == seq![digit_char(d as nat)],
{
    let r = match d {
        0 => "0",
        1 => "1",
        2 => "2",
        3 => "3",
        4 => "4",
        5 => "5",
        6 => "6",
        7 => "7",
        8 => "8",
        _ => "9",
    };
    proof {
        reveal_strlit("0");
        reveal_strlit("1");
        reveal_strlit("2");
        reveal_strlit("3");
        reveal_strlit("4");
        reveal_strlit("5");
        reveal_strlit("6");
        reveal_strlit("7");
        reveal_strlit("8");
        reveal_strlit("9");
        assert(r@ =~= seq![digit_char(d as nat)]);
    }
    r
}

/// Render `n` in decimal.
pub fn u32_to_dec(n: u32) -> (r: String)
    ensures
        r@ == spec_dec(n as nat),
    decreases n,
{
    if n < 10 {
        String::from_str(digit_str(n))
    } else {
        let mut s = u32_to_dec(n / 10);
        s.append(digit_str(n % 10));
        s
    }
}

/// The identity of the output at connector `interface`-`interface_id`
/// of device `device`: `card<device>-<interface>-<interface_id>`.
pub open spec fn spec_identity(device: u32, interface: Seq<char>, interface_id: u32) -> Seq<char> {
    "card"@ + spec_dec(device as nat) + "-"@ + interface + "-"@ + spec_dec(interface_id as nat)
}

/// Law: the identity is a pure function of the device index, the
/// connector's interface name, and the connector's interface id;
/// equal inputs give the same identity in every discovery pass.
pub proof fn lemma_identity_pure(
    device1: u32,
    interface1: Seq<char>,
    id1: u32,
    device2: u32,
    interface2: Seq<char>,
    id2: u32,
)
    requires
        device1 == device2,
        interface1 == interface2,
        id1 == id2,
    ensures
        spec_identity(device1, interface1, id1) == spec_identity(device2, interface2, id2),
{
}

/// Build the output identity string.  It depends on the three inputs
/// alone, so rediscovery always reproduces it.
pub fn output_identity(device: u32, interface: &str, interface_id: u32) -> (r: String)
    ensures
        r@ == spec_identity(device, interface@, interface_id),
{
    let mut s = String::from_str("card");
    let dev = u32_to_dec(device);
    s.append(dev.as_str());
    s.append("-");
    s.append(interface);
    s.append("-");
    let id = u32_to_dec(interface_id);
    s.append(id.as_str());
    s
}

} // verus!
