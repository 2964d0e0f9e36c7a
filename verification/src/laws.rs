//! The guarantees of the relay, stated over the registry view and the sweep
//! plan and proved once and for all.

use vstd::prelude::*;

use crate::coordinator::sweep_bytes;
use crate::registry::Registry;
use crate::wire::ack_bytes;
use crate::wire::dec_digits;
use crate::wire::message_bytes;
use crate::wire::message_prefix;

verus! {

/// The acknowledgement token is never a wrapped relay line: the two differ in
/// their first byte already (`A` against `M`).
proof fn lemma_ack_is_not_message(sender: u16, line: Seq<u8>)
    ensures
        ack_bytes() != message_bytes(sender, line),
{
    if ack_bytes() == message_bytes(sender, line) {
        assert(ack_bytes()[0] == 65);
        assert(message_prefix().len() == 8);
        assert(message_bytes(sender, line)[0] == message_prefix()[0]);
        assert(message_bytes(sender, line)[0] == 77);
        assert(false);
    }
}

/// Two wrapped relay lines from the same sender are equal only if the relayed
/// lines are: a peer can always tell one relayed line from another.
proof fn lemma_message_determines_line(sender: u16, l1: Seq<u8>, l2: Seq<u8>)
    requires
        message_bytes(sender, l1) == message_bytes(sender, l2),
    ensures
        l1 == l2,
{
    let h = message_prefix() + dec_digits(sender as nat) + seq![32u8];
    assert(message_bytes(sender, l1).len() == h.len() + l1.len() + 1);
    assert(message_bytes(sender, l2).len() == h.len() + l2.len() + 1);
    assert(l1.len() == l2.len());
    assert(l1 =~= l2) by {
        assert forall|i: int| 0 <= i < l1.len() implies l1[i] == l2[i] by {
            assert(message_bytes(sender, l1)[h.len() + i] == l1[i]);
            assert(message_bytes(sender, l2)[h.len() + i] == l2[i]);
        }
    }
}

/// A well-formed registry holds at most one entry for any identifier: two
/// positions carrying the same identifier coincide. Every registry operation
/// preserves well-formedness, so this holds at every instant of the
/// registry's life.
pub proof fn lemma_at_most_one_entry_per_id(reg: Registry, i: int, j: int)
    requires
        reg.wf(),
        0 <= i < reg.ids().len(),
        0 <= j < reg.ids().len(),
        reg.ids()[i] == reg.ids()[j],
    ensures
        i == j,
{
    if i < j {
        assert(reg.ids()[i] != reg.ids()[j]);
    }
    if j < i {
        assert(reg.ids()[j] != reg.ids()[i]);
    }
}

/// In every sweep, the sender's own channel is owed exactly the
/// acknowledgement token and never the wrapped line, while every other
/// connection is owed exactly the wrapped line and never the token.
pub proof fn lemma_sender_acked_peers_messaged(sender: u16, line: Seq<u8>, target: u16)
    ensures
        sweep_bytes(sender, line, sender) == ack_bytes(),
        sweep_bytes(sender, line, sender) != message_bytes(sender, line),
        target != sender ==> sweep_bytes(sender, line, target) == message_bytes(sender, line),
        target != sender ==> sweep_bytes(sender, line, target) != ack_bytes(),
{
    lemma_ack_is_not_message(sender, line);
}

/// Whichever connection's write fails during a sweep, every other registered
/// peer keeps its place in the plan and its owed bytes: the plan assigns
/// `peer` the wrapped line no matter what happens to `failed`, and a write
/// failure leaves the registry itself untouched
/// (`coordinator::on_write_error`).
pub proof fn lemma_failed_write_spares_the_rest(
    reg: Registry,
    sender: u16,
    line: Seq<u8>,
    failed: u16,
    peer: u16,
)
    requires
        reg.ids().contains(peer),
        peer != failed,
        peer != sender,
    ensures
        exists|i: int| 0 <= i < reg.ids().len() && reg.ids()[i] == peer,
        sweep_bytes(sender, line, peer) == message_bytes(sender, line),
{
    let w = choose|w: int| 0 <= w < reg.ids().len() && reg.ids()[w] == peer;
    assert(0 <= w < reg.ids().len() && reg.ids()[w] == peer);
}

/// A sender's lines reach a peer in the order they were read: the sweep for
/// an earlier line `l1` owes each peer the wrapped `l1`, the sweep for a
/// later line `l2` owes it the wrapped `l2`, and the two wrapped lines differ
/// whenever the lines do — so the peer observes them in the order the sweeps
/// ran.
pub proof fn lemma_lines_relayed_in_read_order(sender: u16, l1: Seq<u8>, l2: Seq<u8>, peer: u16)
    requires
        peer != sender,
    ensures
        sweep_bytes(sender, l1, peer) == message_bytes(sender, l1),
        sweep_bytes(sender, l2, peer) == message_bytes(sender, l2),
        l1 != l2 ==> message_bytes(sender, l1) != message_bytes(sender, l2),
{
    if l1 != l2 && message_bytes(sender, l1) == message_bytes(sender, l2) {
        lemma_message_determines_line(sender, l1, l2);
    }
}

/// Once an identifier is out of the registry — as `coordinator::on_read_error`
/// ensures after a read failure — no position of any later sweep plan targets
/// it; and `Registry::register` accepts the identifier again cleanly.
pub proof fn lemma_departed_id_never_targeted(reg: Registry, id: u16)
    requires
        !reg.ids().contains(id),
    ensures
        forall|i: int| 0 <= i < reg.ids().len() ==> reg.ids()[i] != id,
{
    assert forall|i: int| 0 <= i < reg.ids().len() implies reg.ids()[i] != id by {
        if reg.ids()[i] == id {
            assert(reg.ids().contains(id));
        }
    }
}

} // verus!
