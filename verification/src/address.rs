//! The text form of a socket address, `host:port`.
use vstd::prelude::*;

verus! {

/// The character that writes the digit `d`.
pub open spec fn digit_char(d: nat) -> char
    recommends
        d < 10,
{
    if d == 0 {
        '0'
    } else if d == 1 {
        '1'
    } else if d == 2 {
        '2'
    } else if d == 3 {
        '3'
    } else if d == 4 {
        '4'
    } else if d == 5 {
        '5'
    } else if d == 6 {
        '6'
    } else if d == 7 {
        '7'
    } else if d == 8 {
        '8'
    } else {
        '9'
    }
}

/// The digit that `c` writes, or 10 where `c` is no decimal digit.
pub open spec fn digit_value(c: char) -> nat {
    if c == '0' {
        0
    } else if c == '1' {
        1
    } else if c == '2' {
        2
    } else if c == '3' {
        3
    } else if c == '4' {
        4
    } else if c == '5' {
        5
    } else if c == '6' {
        6
    } else if c == '7' {
        7
    } else if c == '8' {
        8
    } else if c == '9' {
        9
    } else {
        10
    }
}

/// `n` written in base ten, most significant digit first, without sign or
/// leading zeros; zero is written `0`.
pub open spec fn decimal_text(n: nat) -> Seq<char>
    decreases n,
{
    if n < 10 {
        seq![digit_char(n)]
    } else {
        decimal_text(n / 10).push(digit_char(n % 10))
    }
}

/// The number that a sequence of decimal digits writes.
pub open spec fn decimal_value(text: Seq<char>) -> nat
    decreases text.len(),
{
    if text.len() == 0 {
        0
    } else {
        decimal_value(text.drop_last()) * 10 + digit_value(text.last())
    }
}

/// The address of a listener as text: the host as written, a colon, the port
/// in base ten.
pub open spec fn address_text(host: Seq<char>, port: u16) -> Seq<char> {
    host + seq![':'] + decimal_text(port as nat)
}

/// The one-character string that writes the digit `d`.
fn digit_str(d: u16) -> (s: &'static str)
    requires
        d < 10,
    ensures
        s@ == seq![digit_char(d as nat)],
{
    proof {
        reveal_strlit("0");
        reveal_strlit("1");
        reveal_strlit("2");
        reveal_strlit("3");
        reveal_strlit("4");
        reveal_strlit("5");
        reveal_strlit("6");
        reveal_strlit("7");
        reveal_strlit("8");
        reveal_strlit("9");
    }
    let s = if d == 0 {
        "0"
    } else if d == 1 {
        "1"
    } else if d == 2 {
        "2"
    } else if d == 3 {
        "3"
    } else if d == 4 {
        "4"
    } else if d == 5 {
        "5"
    } else if d == 6 {
        "6"
    } else if d == 7 {
        "7"
    } else if d == 8 {
        "8"
    } else {
        "9"
    };
    assert(s@ =~= seq![digit_char(d as nat)]);
    s
}

/// Appends `n` in base ten to `out`.
pub fn push_decimal(out: &mut String, n: u16)
    ensures
        final(out)@ == old(out)@ + decimal_text(n as nat),
    decreases n,
{
    if n >= 10 {
        push_decimal(out, n / 10);
    }
    out.append(digit_str(n % 10));
    assert(out@ =~= old(out)@ + decimal_text(n as nat));
}

/// Writes the address `host:port`.
pub fn format_address(host: &str, port: u16) -> (text: String)
    ensures
        text@ == address_text(host@, port),
{
    let mut text = String::from_str(host);
    text.append(":");
    proof {
        reveal_strlit(":");
        assert(text@ =~= host@ + seq![':']);
    }
    push_decimal(&mut text, port);
    text
}

/// Every character of a number's decimal text is a digit, and the text is
/// not empty.
pub proof fn lemma_decimal_text_is_digits(n: nat)
    ensures
        decimal_text(n).len() >= 1,
        forall|i: int|
            0 <= i < decimal_text(n).len() ==> digit_value(#[trigger] decimal_text(n)[i]) < 10,
    decreases n,
{
    if n >= 10 {
        lemma_decimal_text_is_digits(n / 10);
    }
}

/// Reading a number's decimal text gives the number back.
pub proof fn lemma_decimal_round_trip(n: nat)
    ensures
        decimal_value(decimal_text(n)) == n,
    decreases n,
{
    let text = decimal_text(n);
    if n < 10 {
        assert(text.drop_last() =~= Seq::<char>::empty());
        assert(decimal_value(text.drop_last()) == 0);
    } else {
        lemma_decimal_round_trip(n / 10);
        assert(text.drop_last() =~= decimal_text(n / 10));
        assert(text.last() == digit_char(n % 10));
    }
}

/// Two numbers with the same decimal text are the same number.
pub proof fn lemma_decimal_text_injective(m: nat, n: nat)
    requires
        decimal_text(m) == decimal_text(n),
    ensures
        m == n,
{
    lemma_decimal_round_trip(m);
    lemma_decimal_round_trip(n);
}

/// A port is written with one to five digits.
pub proof fn lemma_port_text_len(port: u16)
    ensures
        1 <= decimal_text(port as nat).len() <= 5,
{
    reveal_with_fuel(decimal_text, 6);
}

/// The address is exactly the host, a colon and the port's digits: it is as
/// long as the three together, begins with the host, and the colon stands
/// right behind the host.
pub proof fn lemma_address_shape(host: Seq<char>, port: u16)
    ensures
        address_text(host, port).len() == host.len() + 1 + decimal_text(port as nat).len(),
        address_text(host, port).subrange(0, host.len() as int) == host,
        address_text(host, port)[host.len() as int] == ':',
        address_text(host, port).subrange(
            host.len() as int + 1,
            address_text(host, port).len() as int,
        ) == decimal_text(port as nat),
{
    let a = address_text(host, port);
    assert(a.subrange(0, host.len() as int) =~= host);
    assert(a.subrange(host.len() as int + 1, a.len() as int) =~= decimal_text(port as nat));
}

/// An address names one host and one port: two configurations that are
/// written alike bind alike.
pub proof fn lemma_address_injective(host_a: Seq<char>, port_a: u16, host_b: Seq<char>, port_b: u16)
    requires
        address_text(host_a, port_a) == address_text(host_b, port_b),
    ensures
        host_a == host_b,
        port_a == port_b,
{
    let text = address_text(host_a, port_a);
    let digits_a = decimal_text(port_a as nat);
    let digits_b = decimal_text(port_b as nat);
    lemma_decimal_text_is_digits(port_a as nat);
    lemma_decimal_text_is_digits(port_b as nat);
    lemma_address_shape(host_a, port_a);
    lemma_address_shape(host_b, port_b);
    // The colon of one reading cannot fall among the digits of the other.
    if host_a.len() < host_b.len() {
        let k = host_b.len() - host_a.len() - 1;
        assert(text[host_b.len() as int] == digits_a[k]);
        assert(digit_value(digits_a[k]) < 10);
        assert(false);
    }
    if host_b.len() < host_a.len() {
        let k = host_a.len() - host_b.len() - 1;
        assert(text[host_a.len() as int] == digits_b[k]);
        assert(digit_value(digits_b[k]) < 10);
        assert(false);
    }
    assert(host_a =~= host_b);
    assert(digits_a =~= digits_b);
    lemma_decimal_text_injective(port_a as nat, port_b as nat);
}

} // verus!
