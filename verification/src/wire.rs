//! The line-oriented wire format of the relay.
//!
//! Every server-to-client transmission is one newline-terminated byte line:
//! `LOGIN:<id>\n` on a successful join, `MESSAGE:<id> <text>\n` for a relayed
//! line, and the fixed acknowledgement token `ACK:MESSAGE\n` to a sender.

use vstd::prelude::*;

verus! {

/// The ASCII decimal digits of `n`, most significant first, no leading zeros.
pub open spec fn dec_digits(n: nat) -> Seq<u8>
    decreases n,
{
    if n < 10 {
        seq![(n + 48) as u8]
    } else {
        dec_digits(n / 10).push((n % 10 + 48) as u8)
    }
}

/// The bytes of `"LOGIN:"`.
pub open spec fn login_prefix() -> Seq<u8> {
    seq![76u8, 79u8, 71u8, 73u8, 78u8, 58u8]
}

/// The bytes of `"MESSAGE:"`.
pub open spec fn message_prefix() -> Seq<u8> {
    seq![77u8, 69u8, 83u8, 83u8, 65u8, 71u8, 69u8, 58u8]
}

/// The login acknowledgement line `LOGIN:<id>\n`, sent to a connection that
/// has just been registered.
pub open spec fn login_bytes(id: u16) -> Seq<u8> {
    login_prefix() + dec_digits(id as nat) + seq![10u8]
}

/// The wrapped relay line `MESSAGE:<sender> <line>\n`, sent to every peer of
/// the sender.
pub open spec fn message_bytes(sender: u16, line: Seq<u8>) -> Seq<u8> {
    message_prefix() + dec_digits(sender as nat) + seq![32u8] + line + seq![10u8]
}

/// The fixed acknowledgement token `ACK:MESSAGE\n`, sent to the sender of a
/// relayed line.
pub open spec fn ack_bytes() -> Seq<u8> {
    seq![65u8, 67u8, 75u8, 58u8, 77u8, 69u8, 83u8, 83u8, 65u8, 71u8, 69u8, 10u8]
}

/// Appends the decimal digits of `n` to `out`.
pub fn push_decimal(out: &mut Vec<u8>, n: u16)
    ensures
        final(out)@ == old(out)@ + dec_digits(n as nat),
    decreases n,
{
    if n < 10 {
        out.push((n as u8) + 48);
        proof {
            assert(out@ =~= old(out)@ + dec_digits(n as nat));
        }
    } else {
        push_decimal(out, n / 10);
        out.push(((n % 10) as u8) + 48);
        proof {
            assert(out@ =~= old(out)@ + dec_digits(n as nat));
        }
    }
}

/// Builds the login acknowledgement line `LOGIN:<id>\n`.
pub fn login_line(id: u16) -> (r: Vec<u8>)
    ensures
        r@ == login_bytes(id),
{
    let mut out: Vec<u8> = Vec::new();
    out.push(76);
    out.push(79);
    out.push(71);
    out.push(73);
    out.push(78);
    out.push(58);
    assert(out@ =~= login_prefix());
    push_decimal(&mut out, id);
    out.push(10);
    assert(out@ =~= login_bytes(id));
    out
}

/// Builds the wrapped relay line `MESSAGE:<sender> <line>\n`.
pub fn message_line(sender: u16, line: &Vec<u8>) -> (r: Vec<u8>)
    ensures
        r@ == message_bytes(sender, line@),
{
    let mut out: Vec<u8> = Vec::new();
    out.push(77);
    out.push(69);
    out.push(83);
    out.push(83);
    out.push(65);
    out.push(71);
    out.push(69);
    out.push(58);
    assert(out@ =~= message_prefix());
    push_decimal(&mut out, sender);
    out.push(32);
    let ghost head: Seq<u8> = out@;
    let mut i: usize = 0;
    while i < line.len()
        invariant
            i <= line.len(),
            out@ == head + line@.subrange(0, i as int),
        decreases line.len() - i,
    {
        out.push(line[i]);
        i = i + 1;
        proof {
            assert(out@ =~= head + line@.subrange(0, i as int));
        }
    }
    assert(line@.subrange(0, line@.len() as int) =~= line@);
    out.push(10);
    assert(out@ =~= message_bytes(sender, line@));
    out
}

/// Builds the fixed acknowledgement token `ACK:MESSAGE\n`.
pub fn ack_line() -> (r: Vec<u8>)
    ensures
        r@ == ack_bytes(),
{
    let mut out: Vec<u8> = Vec::new();
    out.push(65);
    out.push(67);
    out.push(75);
    out.push(58);
    out.push(77);
    out.push(69);
    out.push(83);
    out.push(83);
    out.push(65);
    out.push(71);
    out.push(69);
    out.push(10);
    assert(out@ =~= ack_bytes());
    out
}

} // verus!
