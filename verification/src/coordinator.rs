//! The broadcast coordinator: the per-connection protocol.
//!
//! Each connection moves through `Connecting -> LoggedIn -> Closed`. The
//! coordinator turns each event of a connection's life — arrival, an inbound
//! line, a read error, a failed outbound write — into a registry update and a
//! delivery plan: the exact bytes owed to each currently-live connection.
//! The runtime shell performs the writes of a plan in order, under the same
//! exclusive section in which the plan was computed.

use vstd::prelude::*;

use crate::registry::Registry;
use crate::wire::ack_bytes;
use crate::wire::ack_line;
use crate::wire::login_bytes;
use crate::wire::login_line;
use crate::wire::message_bytes;
use crate::wire::message_line;

verus! {

/// One owed transmission: `bytes` are to be written to the channel of the
/// connection registered under `target`.
pub struct Delivery {
    pub target: u16,
    pub bytes: Vec<u8>,
}

/// The bytes owed to `target` during the sweep for `line` arriving from
/// `sender`: the sender's own channel gets the fixed acknowledgement token,
/// every other live channel gets the wrapped line.
pub open spec fn sweep_bytes(sender: u16, line: Seq<u8>, target: u16) -> Seq<u8> {
    if target == sender {
        ack_bytes()
    } else {
        message_bytes(sender, line)
    }
}

/// A new connection arrived (`Connecting -> LoggedIn`): registers its
/// identifier and owes it — and only it — the login acknowledgement line.
pub fn on_connect(reg: &mut Registry, id: u16) -> (plan: Vec<Delivery>)
    requires
        old(reg).wf(),
    ensures
        final(reg).wf(),
        final(reg).ids().contains(id),
        !old(reg).ids().contains(id) ==> final(reg).ids() == old(reg).ids().push(id),
        old(reg).ids().contains(id) ==> final(reg).ids() == old(reg).ids(),
        plan@.len() == 1,
        plan@[0].target == id,
        plan@[0].bytes@ == login_bytes(id),
{
    reg.register(id);
    let mut plan: Vec<Delivery> = Vec::new();
    plan.push(Delivery { target: id, bytes: login_line(id) });
    plan
}

/// Looks up `id` and plans a write of `bytes` to its channel: the owed
/// delivery if `id` is live, nothing if it is not. Absence is a silent no-op,
/// never an error raised — the login path relies on the identifier having
/// just been registered; a failure of the write itself is left to the shell
/// performing the delivery, and reported there.
pub fn send_to(reg: &Registry, id: u16, bytes: Vec<u8>) -> (r: Option<Delivery>)
    ensures
        r.is_some() == reg.ids().contains(id),
        r.is_some() ==> r.unwrap().target == id && r.unwrap().bytes@ == bytes@,
{
    if reg.contains(id) {
        Some(Delivery { target: id, bytes })
    } else {
        None
    }
}

/// One broadcast sweep over the registry: for every currently-registered
/// connection, in registration order and from one point-in-time snapshot,
/// owes `payload` if its identifier differs from `sender`, else the fixed
/// acknowledgement token. The registry itself is not changed.
pub fn broadcast_plan(reg: &Registry, sender: u16, payload: &Vec<u8>) -> (plan: Vec<Delivery>)
    ensures
        plan@.len() == reg.ids().len(),
        forall|i: int|
            0 <= i < plan@.len() ==> (#[trigger] plan@[i]).target == reg.ids()[i],
        forall|i: int|
            0 <= i < plan@.len() ==> (#[trigger] plan@[i]).bytes@ == (if reg.ids()[i] == sender {
                ack_bytes()
            } else {
                payload@
            }),
{
    let mut plan: Vec<Delivery> = Vec::new();
    let mut i: usize = 0;
    let n = reg.len();
    while i < n
        invariant
            n == reg.ids().len(),
            i <= n,
            plan@.len() == i,
            forall|k: int|
                0 <= k < i ==> (#[trigger] plan@[k]).target == reg.ids()[k],
            forall|k: int|
                0 <= k < i ==> (#[trigger] plan@[k]).bytes@ == (if reg.ids()[k] == sender {
                    ack_bytes()
                } else {
                    payload@
                }),
        decreases n - i,
    {
        let target = reg.id_at(i);
        let bytes = if target == sender {
            ack_line()
        } else {
            let mut copy: Vec<u8> = Vec::new();
            let mut j: usize = 0;
            while j < payload.len()
                invariant
                    j <= payload.len(),
                    copy@ == payload@.subrange(0, j as int),
                decreases payload.len() - j,
            {
                copy.push(payload[j]);
                j = j + 1;
                proof {
                    assert(copy@ =~= payload@.subrange(0, j as int));
                }
            }
            proof {
                assert(copy@ =~= payload@);
            }
            copy
        };
        plan.push(Delivery { target, bytes });
        i = i + 1;
    }
    plan
}

/// A complete inbound line arrived from `sender` while it is logged in: wraps
/// it with the sender's identifier and sweeps the result — the wrapped line
/// to each peer, the acknowledgement token to the sender itself — one
/// delivery per registry entry, in registration order. The registry is not
/// changed; an empty line is swept like any other.
pub fn on_line(reg: &Registry, sender: u16, line: &Vec<u8>) -> (plan: Vec<Delivery>)
    ensures
        plan@.len() == reg.ids().len(),
        forall|i: int|
            0 <= i < plan@.len() ==> (#[trigger] plan@[i]).target == reg.ids()[i],
        forall|i: int|
            0 <= i < plan@.len()
                ==> (#[trigger] plan@[i]).bytes@ == sweep_bytes(sender, line@, reg.ids()[i]),
{
    let wrapped = message_line(sender, line);
    broadcast_plan(reg, sender, &wrapped)
}

/// Reading from connection `id` failed (`LoggedIn -> Closed`): deregisters it,
/// so no later sweep owes it anything. Nothing is delivered; the connection's
/// task stops permanently.
pub fn on_read_error(reg: &mut Registry, id: u16)
    requires
        old(reg).wf(),
    ensures
        final(reg).wf(),
        !final(reg).ids().contains(id),
        forall|x: u16|
            x != id ==> final(reg).ids().contains(x) == old(reg).ids().contains(x),
        !old(reg).ids().contains(id) ==> final(reg).ids() == old(reg).ids(),
        old(reg).ids().contains(id) ==> (exists|k: int|
            0 <= k < old(reg).ids().len()
                && old(reg).ids()[k] == id
                && final(reg).ids() == old(reg).ids().remove(k)),
{
    reg.deregister(id);
}

/// Writing to connection `id` failed: the failure is connection-local and is
/// only reported, never treated as disconnection — the registry keeps every
/// entry, `id`'s included, and the sweep in progress goes on past it.
pub fn on_write_error(reg: &mut Registry, id: u16)
    ensures
        *final(reg) == *old(reg),
{
}

} // verus!
