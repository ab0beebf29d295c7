//! Properties of the session that relate several operations.
use vstd::prelude::*;
use crate::handler::{
    callbacks_for, scan_ticks, upsert_all, CentralEvent, SessionModel,
};
use crate::models::Service;
use crate::registry::PeripheralHandle;

verus! {

/// Once a connect request for `a` was accepted, a second request for `a`
/// is refused as already connected, which orders no hardware connect: right
/// after the first request, and still after the adapter confirmed the
/// connection and its services were cached.
pub proof fn lemma_repeated_connect_refused(
    m: SessionModel,
    a: Seq<char>,
    on_disconnect: Option<u64>,
    services: Seq<Service>,
)
    requires
        !m.refuses_unknown(a),
        !m.refuses_already(a),
    ensures
        m.connect_to(a).refuses_already(a),
        m.connect_to(a).on_event(CentralEvent::DeviceConnected(m.devices[a])).finish_connect(
            on_disconnect,
        ).attach(services).refuses_already(a),
{
}

/// A newly tracked peripheral starts unconfirmed, whatever the state of an
/// earlier connection: without the adapter's connect event for it, the
/// connect wait resolves as failed and nothing stays tracked.
pub proof fn lemma_new_peer_unconfirmed(m: SessionModel, a: Seq<char>, on_disconnect: Option<u64>)
    requires
        !m.refuses_unknown(a),
        !m.refuses_already(a),
    ensures
        !m.connect_to(a).link_up,
        m.connect_to(a).finish_connect(on_disconnect).peer is None,
{
}

/// The connection signal turns on only through the adapter's connect event
/// for the tracked peripheral: no request, and no other event, turns it on.
pub proof fn lemma_link_up_only_by_adapter(
    m: SessionModel,
    a: Seq<char>,
    on_disconnect: Option<u64>,
    services: Seq<Service>,
    e: CentralEvent,
    id: u64,
    timeout_ms: u64,
    found: Seq<(Seq<char>, PeripheralHandle)>,
    u: u128,
    cb: u64,
)
    requires
        !m.link_up,
    ensures
        !m.connect_to(a).link_up,
        !m.finish_connect(on_disconnect).link_up,
        !m.attach(services).link_up,
        !m.restart_scan().link_up,
        !m.start_scan(timeout_ms).link_up,
        !m.tick(id, found).link_up,
        !m.finish_scan(id).link_up,
        !m.stop_scan().link_up,
        !m.add_listener(u, cb).link_up,
        !m.remove_listeners(u).link_up,
        m.on_event(e).link_up ==> (e matches CentralEvent::DeviceConnected(h) && m.tracks(h)),
{
}

/// State after the ticks of scan `id` that found each batch in turn.
pub open spec fn run_ticks(
    m: SessionModel,
    id: u64,
    batches: Seq<Seq<(Seq<char>, PeripheralHandle)>>,
) -> SessionModel
    decreases batches.len(),
{
    if batches.len() == 0 {
        m
    } else {
        run_ticks(m, id, batches.drop_last()).tick(id, batches.last())
    }
}

/// A scan of `timeout_ms` milliseconds polls once per started tick period,
/// whatever each tick finds: after `k` ticks it has `scan_ticks - k` left,
/// and it stays pending exactly until all of them ran.
pub proof fn lemma_scan_tick_count(
    m: SessionModel,
    timeout_ms: u64,
    batches: Seq<Seq<(Seq<char>, PeripheralHandle)>>,
)
    requires
        batches.len() <= scan_ticks(timeout_ms),
    ensures
        ({
            let s = m.start_scan(timeout_ms);
            let r = run_ticks(s, s.scan.id, batches);
            &&& r.scan.active
            &&& r.scan.id == s.scan.id
            &&& r.scan.ticks_left == scan_ticks(timeout_ms) - batches.len()
            &&& r.scan_pending(s.scan.id) == (batches.len() < scan_ticks(timeout_ms))
        }),
    decreases batches.len(),
{
    assert(scan_ticks(timeout_ms) <= u64::MAX) by (nonlinear_arith)
        requires
            scan_ticks(timeout_ms) == (timeout_ms as nat + 199) / 200,
    ;
    if batches.len() > 0 {
        lemma_scan_tick_count(m, timeout_ms, batches.drop_last());
    }
}

/// Two subscriptions to one characteristic both receive each of its
/// notifications, once each, after the earlier subscriptions.
pub proof fn lemma_fan_out(m: SessionModel, u: u128, first: u64, second: u64)
    requires
        m.can_use(u),
    ensures
        callbacks_for(m.add_listener(u, first).add_listener(u, second).listeners, u)
            == callbacks_for(m.listeners, u).push(first).push(second),
        callbacks_for(m.listeners, u).len() == 0 ==> callbacks_for(
            m.add_listener(u, first).add_listener(u, second).listeners,
            u,
        ) == seq![first, second],
{
    let m1 = m.add_listener(u, first);
    assert(m1.can_use(u));
    let l1 = m1.listeners;
    let l2 = m1.add_listener(u, second).listeners;
    assert(l2.drop_last() =~= l1);
    assert(l1.drop_last() =~= m.listeners);
    assert(l1.last().uuid == u && l1.last().callback == first);
    assert(l2.last().uuid == u && l2.last().callback == second);
    assert(callbacks_for(l1, u) == callbacks_for(m.listeners, u).push(first));
    assert(callbacks_for(l2, u) == callbacks_for(l1, u).push(second));
    if callbacks_for(m.listeners, u).len() == 0 {
        assert(callbacks_for(m.listeners, u).push(first).push(second) =~= seq![first, second]);
    }
}

/// A disconnect event from the adapter for the tracked peripheral, whether
/// requested or not, clears the session and fires the disconnect callback.
pub proof fn lemma_adapter_disconnect_clears(m: SessionModel, h: PeripheralHandle)
    requires
        m.tracks(h),
    ensures
        ({
            let s = m.on_event(CentralEvent::DeviceDisconnected(h));
            let r = m.reaction(CentralEvent::DeviceDisconnected(h));
            &&& s.peer is None
            &&& !s.link_up
            &&& s.characs.len() == 0
            &&& s.listeners.len() == 0
            &&& !s.listening
            &&& s.inv()
            &&& r.publish == Some(false)
            &&& r.fire == m.on_disconnect
            &&& r.stop_listener == m.listening
        }),
{
}

/// Stopping a running scan ends it at once: scanning turns false exactly
/// once, since no later tick of that scan runs, its loop's end changes
/// nothing, and a second stop finds no scan running.
pub proof fn lemma_stop_scan_once(
    m: SessionModel,
    found: Seq<(Seq<char>, PeripheralHandle)>,
)
    requires
        m.scan.active,
    ensures
        ({
            let s = m.stop_scan();
            &&& !s.scan.active
            &&& !s.scan_pending(m.scan.id)
            &&& s.tick(m.scan.id, found) == s
            &&& s.finish_scan(m.scan.id) == s
            &&& !(s.scan.active && s.scan.id == m.scan.id)
            &&& s.stop_scan() == s
        }),
{
}

/// The last pair for an address among `found` is the one recorded.
proof fn lemma_upsert_all_last(
    m: Map<Seq<char>, PeripheralHandle>,
    found: Seq<(Seq<char>, PeripheralHandle)>,
    i: int,
)
    requires
        0 <= i < found.len(),
        forall|j: int| i < j < found.len() ==> found[j].0 != found[i].0,
    ensures
        upsert_all(m, found).contains_key(found[i].0),
        upsert_all(m, found)[found[i].0] == found[i].1,
    decreases found.len(),
{
    if i < found.len() - 1 {
        let rest = found.drop_last();
        assert forall|j: int| i < j < rest.len() implies rest[j].0 != rest[i].0 by {
            assert(rest[j] == found[j]);
        }
        lemma_upsert_all_last(m, rest, i);
    }
}

/// A device found by a scan tick resolves, on a later connect request for
/// its address, to the very handle that the tick recorded for it.
pub proof fn lemma_discovered_device_resolves(
    m: SessionModel,
    id: u64,
    found: Seq<(Seq<char>, PeripheralHandle)>,
    i: int,
)
    requires
        m.scan_pending(id),
        0 <= i < found.len(),
        forall|j: int| i < j < found.len() ==> found[j].0 != found[i].0,
    ensures
        ({
            let s = m.tick(id, found);
            let a = found[i].0;
            &&& !s.refuses_unknown(a)
            &&& s.devices[a] == found[i].1
            &&& !s.refuses_already(a) ==> s.connect_to(a).peer == Some((a, found[i].1))
        }),
{
    lemma_upsert_all_last(m.devices, found, i);
}

} // verus!
