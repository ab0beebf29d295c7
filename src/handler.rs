//! The session core: one tracked peripheral, its characteristic cache, the
//! notification listeners, the scan controller, and the reaction to adapter
//! events. Every operation is a state transition; the driver around it
//! performs the hardware work that a transition orders.
use vstd::prelude::*;
use vstd::string::*;
use crate::error::Error;
use crate::batch::{insert_sorted, sorted_by_address};
use crate::models::{uuid_string, uuid_text, BleDevice, CharPropSet, Characteristic, Service};
use crate::registry::{DeviceRegistry, PeripheralHandle};

verus! {

/// Period of one scan polling tick, in milliseconds.
pub const SCAN_TICK_MS: u64 = 200;

/// A characteristic of the live connection.
#[derive(Debug, Clone, Copy, PartialEq, Eq, Structural)]
pub struct CharacRef {
    pub uuid: u128,
    pub service_uuid: u128,
    pub properties: CharPropSet,
}

/// A notification subscription: the callback with this id runs for every
/// notification of the characteristic with this uuid.
#[derive(Debug, Clone, Copy, PartialEq, Eq, Structural)]
pub struct Listener {
    pub uuid: u128,
    pub callback: u64,
}

/// State of the scan controller. A running scan is identified by `id`, so
/// that a superseded scan loop can be told apart from the current one.
#[derive(Debug, Clone, Copy, PartialEq, Eq, Structural)]
pub struct ScanState {
    pub active: bool,
    pub ticks_left: u64,
    pub id: u64,
}

/// The peripheral the session tracks.
#[derive(Debug)]
struct Peer {
    address: String,
    handle: PeripheralHandle,
}

/// An event of the adapter's connection-event stream.
#[derive(Debug, Clone, Copy, PartialEq, Eq, Structural)]
pub enum CentralEvent {
    DeviceConnected(PeripheralHandle),
    DeviceDisconnected(PeripheralHandle),
    /// Any other adapter event (radio state, other peripherals' activity).
    Other,
}

/// What the driver must do after an adapter event.
#[derive(Debug, Clone, Copy, PartialEq, Eq, Structural)]
pub struct Reaction {
    /// New value of the connection-state signal, if it changed.
    pub publish: Option<bool>,
    /// Whether the notification listener task must be aborted.
    pub stop_listener: bool,
    /// The disconnect callback to invoke, if any.
    pub fire: Option<u64>,
}

/// What the driver must do to carry out an accepted connect request.
#[derive(Debug, Clone, Copy, PartialEq, Eq, Structural)]
pub struct ConnectOrder {
    /// The peripheral to connect.
    pub handle: PeripheralHandle,
    /// Whether the listener task of an earlier connection must be aborted.
    pub stop_listener: bool,
    /// Whether the connection-state signal of an earlier connection turned
    /// off, which the driver publishes.
    pub link_dropped: bool,
}

/// What the driver must do to list the services of a peripheral.
#[derive(Debug, Clone, Copy, PartialEq, Eq, Structural)]
pub struct ServicesPlan {
    pub handle: PeripheralHandle,
    /// Whether the peripheral is the tracked one, which then stays connected.
    pub already_connected: bool,
}

/// The characteristics of one service, each with the service's uuid.
pub open spec fn service_characs(s: Service) -> Seq<CharacRef> {
    s.characteristics@.map_values(
        |c: Characteristic|
            CharacRef { uuid: c.uuid, service_uuid: s.uuid, properties: c.properties },
    )
}

/// The characteristics of all services, in order.
pub open spec fn flatten(ss: Seq<Service>) -> Seq<CharacRef>
    decreases ss.len(),
{
    if ss.len() == 0 {
        Seq::empty()
    } else {
        flatten(ss.drop_last()) + service_characs(ss.last())
    }
}

/// A device found on one scan tick, with the handle of its peripheral.
#[derive(Debug, Clone)]
pub struct Discovered {
    pub device: BleDevice,
    pub handle: PeripheralHandle,
}

/// Address and handle of each found device.
pub open spec fn found_keys(found: Seq<Discovered>) -> Seq<(Seq<char>, PeripheralHandle)> {
    found.map_values(|d: Discovered| (d.device.address@, d.handle))
}

/// The device snapshots of each found device.
pub open spec fn found_devices(found: Seq<Discovered>) -> Seq<BleDevice> {
    found.map_values(|d: Discovered| d.device)
}

/// `m` with each pair of `found` recorded in turn; a later pair for the same
/// address replaces an earlier one.
pub open spec fn upsert_all(
    m: Map<Seq<char>, PeripheralHandle>,
    found: Seq<(Seq<char>, PeripheralHandle)>,
) -> Map<Seq<char>, PeripheralHandle>
    decreases found.len(),
{
    if found.len() == 0 {
        m
    } else {
        upsert_all(m, found.drop_last()).insert(found.last().0, found.last().1)
    }
}

/// Number of polling ticks of a scan of `timeout_ms` milliseconds: one per
/// started period of `SCAN_TICK_MS`.
pub open spec fn scan_ticks(timeout_ms: u64) -> nat {
    ((timeout_ms as nat + (SCAN_TICK_MS - 1) as nat) / SCAN_TICK_MS as nat) as nat
}

/// Identifier of the scan that follows scan `id`.
pub open spec fn next_scan_id(id: u64) -> u64 {
    if id == u64::MAX {
        0
    } else {
        (id + 1) as u64
    }
}

/// The first cached characteristic with uuid `u`.
pub open spec fn find_charac(cs: Seq<CharacRef>, u: u128) -> Option<CharacRef>
    decreases cs.len(),
{
    if cs.len() == 0 {
        None
    } else if cs[0].uuid == u {
        Some(cs[0])
    } else {
        find_charac(cs.drop_first(), u)
    }
}

/// The callbacks subscribed to uuid `u`, in subscription order.
pub open spec fn callbacks_for(ls: Seq<Listener>, u: u128) -> Seq<u64>
    decreases ls.len(),
{
    if ls.len() == 0 {
        Seq::empty()
    } else if ls.last().uuid == u {
        callbacks_for(ls.drop_last(), u).push(ls.last().callback)
    } else {
        callbacks_for(ls.drop_last(), u)
    }
}

/// The subscriptions to any uuid but `u`, in order.
pub open spec fn without_uuid(ls: Seq<Listener>, u: u128) -> Seq<Listener>
    decreases ls.len(),
{
    if ls.len() == 0 {
        Seq::empty()
    } else if ls.last().uuid == u {
        without_uuid(ls.drop_last(), u)
    } else {
        without_uuid(ls.drop_last(), u).push(ls.last())
    }
}

/// Abstract state of a session.
pub ghost struct SessionModel {
    pub devices: Map<Seq<char>, PeripheralHandle>,
    /// Address and handle of the tracked peripheral.
    pub peer: Option<(Seq<char>, PeripheralHandle)>,
    /// The connection-state signal: the adapter confirmed the connection.
    pub link_up: bool,
    pub characs: Seq<CharacRef>,
    pub listeners: Seq<Listener>,
    pub on_disconnect: Option<u64>,
    /// Whether a notification listener task runs.
    pub listening: bool,
    pub scan: ScanState,
}

impl SessionModel {
    /// Whether `h` is the tracked peripheral.
    pub open spec fn tracks(self, h: PeripheralHandle) -> bool {
        self.peer matches Some(p) && p.1 == h
    }

    /// Whether the peripheral at address `a` is the tracked one.
    pub open spec fn tracks_address(self, a: Seq<char>) -> bool {
        self.peer matches Some(p) && p.0 == a
    }

    /// A connect request for `a` fails because nothing was discovered there.
    pub open spec fn refuses_unknown(self, a: Seq<char>) -> bool {
        !self.devices.contains_key(a)
    }

    /// A connect request for `a` fails because `a` is already the tracked
    /// peripheral.
    pub open spec fn refuses_already(self, a: Seq<char>) -> bool {
        &&& self.devices.contains_key(a)
        &&& self.tracks_address(a)
    }

    /// State after an accepted connect request for `a`: `a` becomes the
    /// tracked peripheral, not yet confirmed by the adapter, and the
    /// connection signal and cache of any earlier connection are dropped.
    pub open spec fn connect_to(self, a: Seq<char>) -> SessionModel {
        SessionModel {
            peer: Some((a, self.devices[a])),
            link_up: false,
            characs: Seq::empty(),
            listening: false,
            ..self
        }
    }

    /// State after the connect wait resolved.
    pub open spec fn finish_connect(self, on_disconnect: Option<u64>) -> SessionModel {
        if self.link_up {
            SessionModel {
                on_disconnect: if on_disconnect is Some {
                    on_disconnect
                } else {
                    self.on_disconnect
                },
                ..self
            }
        } else {
            SessionModel { peer: None, ..self }
        }
    }

    /// State after the services of a confirmed connection were read.
    pub open spec fn attach(self, services: Seq<Service>) -> SessionModel {
        if self.peer is Some && self.link_up {
            SessionModel { characs: self.characs + flatten(services), listening: true, ..self }
        } else {
            self
        }
    }

    /// State after an adapter event.
    pub open spec fn on_event(self, e: CentralEvent) -> SessionModel {
        match e {
            CentralEvent::DeviceDisconnected(h) => if self.tracks(h) {
                SessionModel {
                    peer: None,
                    link_up: false,
                    characs: Seq::empty(),
                    listeners: Seq::empty(),
                    listening: false,
                    ..self
                }
            } else {
                self
            },
            CentralEvent::DeviceConnected(h) => if self.tracks(h) {
                SessionModel { link_up: true, ..self }
            } else {
                self
            },
            CentralEvent::Other => self,
        }
    }

    /// What the driver must do after an adapter event.
    pub open spec fn reaction(self, e: CentralEvent) -> Reaction {
        match e {
            CentralEvent::DeviceDisconnected(h) => if self.tracks(h) {
                Reaction { publish: Some(false), stop_listener: self.listening, fire: self.on_disconnect }
            } else {
                Reaction { publish: None, stop_listener: false, fire: None }
            },
            CentralEvent::DeviceConnected(h) => if self.tracks(h) {
                Reaction { publish: Some(true), stop_listener: false, fire: None }
            } else {
                Reaction { publish: None, stop_listener: false, fire: None }
            },
            CentralEvent::Other => Reaction { publish: None, stop_listener: false, fire: None },
        }
    }

    /// Whether scan `id` is the running scan and has ticks left.
    pub open spec fn scan_pending(self, id: u64) -> bool {
        self.scan.active && self.scan.id == id && self.scan.ticks_left > 0
    }

    /// State once a new discovery supersedes any running scan.
    pub open spec fn restart_scan(self) -> SessionModel {
        SessionModel { scan: ScanState { active: false, ticks_left: 0, ..self.scan }, ..self }
    }

    /// State once the adapter started scanning for `timeout_ms` milliseconds:
    /// the registry is rebuilt from scratch by the new scan.
    pub open spec fn start_scan(self, timeout_ms: u64) -> SessionModel {
        SessionModel {
            devices: Map::empty(),
            scan: ScanState {
                active: true,
                ticks_left: scan_ticks(timeout_ms) as u64,
                id: next_scan_id(self.scan.id),
            },
            ..self
        }
    }

    /// State after one polling tick of scan `id` that found `found`.
    pub open spec fn tick(self, id: u64, found: Seq<(Seq<char>, PeripheralHandle)>) -> SessionModel {
        if self.scan_pending(id) {
            SessionModel {
                devices: upsert_all(self.devices, found),
                scan: ScanState { ticks_left: (self.scan.ticks_left - 1) as u64, ..self.scan },
                ..self
            }
        } else {
            self
        }
    }

    /// State once the loop of scan `id` ran out of ticks.
    pub open spec fn finish_scan(self, id: u64) -> SessionModel {
        if self.scan.active && self.scan.id == id {
            SessionModel { scan: ScanState { active: false, ..self.scan }, ..self }
        } else {
            self
        }
    }

    /// State after a request to stop scanning.
    pub open spec fn stop_scan(self) -> SessionModel {
        SessionModel { scan: ScanState { active: false, ..self.scan }, ..self }
    }

    /// Whether characteristic `c` of the connected device can be used.
    pub open spec fn can_use(self, c: u128) -> bool {
        self.peer is Some && find_charac(self.characs, c) is Some
    }

    /// `r` is the answer to a request that needs characteristic `c` of the
    /// connected device.
    pub open spec fn access(self, c: u128, r: Result<CharacRef, Error>) -> bool {
        if self.peer is None {
            r == Err::<CharacRef, Error>(Error::NoDeviceConnected)
        } else {
            match find_charac(self.characs, c) {
                Some(x) => r == Ok::<CharacRef, Error>(x),
                None => r matches Err(Error::CharacNotAvailable(t)) && t@ == uuid_text(c),
            }
        }
    }

    /// `r` is the answer to a listener change for characteristic `c`: it
    /// fails as `access` does, and succeeds otherwise.
    pub open spec fn answers(self, c: u128, r: Result<(), Error>) -> bool {
        if self.peer is None {
            r == Err::<(), Error>(Error::NoDeviceConnected)
        } else if find_charac(self.characs, c) is None {
            r matches Err(Error::CharacNotAvailable(t)) && t@ == uuid_text(c)
        } else {
            r == Ok::<(), Error>(())
        }
    }

    /// State after callback `cb` subscribed to characteristic `c`.
    pub open spec fn add_listener(self, c: u128, cb: u64) -> SessionModel {
        if self.can_use(c) {
            SessionModel {
                listeners: self.listeners.push(Listener { uuid: c, callback: cb }),
                ..self
            }
        } else {
            self
        }
    }

    /// State after every subscription to characteristic `c` was dropped.
    pub open spec fn remove_listeners(self, c: u128) -> SessionModel {
        if self.can_use(c) {
            SessionModel { listeners: without_uuid(self.listeners, c), ..self }
        } else {
            self
        }
    }

    /// Session invariants: the signal, the listener task and the cache all
    /// belong to a tracked peripheral, and the cache is filled only while the
    /// connection is confirmed.
    pub open spec fn inv(self) -> bool {
        &&& self.link_up ==> self.peer is Some
        &&& self.listening ==> self.link_up
        &&& self.characs.len() > 0 ==> self.link_up
    }
}

/// The session core.
pub struct Handler {
    devices: DeviceRegistry,
    peer: Option<Peer>,
    link_up: bool,
    characs: Vec<CharacRef>,
    listeners: Vec<Listener>,
    on_disconnect: Option<u64>,
    listening: bool,
    scan: ScanState,
}

impl View for Handler {
    type V = SessionModel;

    closed spec fn view(&self) -> SessionModel {
        SessionModel {
            devices: self.devices@,
            peer: match self.peer {
                Some(p) => Some((p.address@, p.handle)),
                None => None,
            },
            link_up: self.link_up,
            characs: self.characs@,
            listeners: self.listeners@,
            on_disconnect: self.on_disconnect,
            listening: self.listening,
            scan: self.scan,
        }
    }
}

/// Records every found peripheral under its address, in order, and returns
/// the found devices sorted by address.
fn record_found(devices: &mut DeviceRegistry, found: Vec<Discovered>) -> (r: Vec<BleDevice>)
    requires
        old(devices).wf(),
    ensures
        final(devices).wf(),
        final(devices)@ == upsert_all(old(devices)@, found_keys(found@)),
        sorted_by_address(r@),
        r@.to_multiset() == found_devices(found@).to_multiset(),
{
    let ghost all = found@;
    let n = found.len();
    let mut rest = found;
    let mut batch: Vec<BleDevice> = Vec::new();
    let mut k: usize = 0;
    assert(found_devices(all.take(0)) =~= batch@);
    assert(found_keys(all.take(0)) =~= Seq::empty());
    assert(rest@ =~= all.skip(0));
    while rest.len() > 0
        invariant
            devices.wf(),
            all.len() == n,
            k <= n,
            rest@ == all.skip(k as int),
            devices@ == upsert_all(old(devices)@, found_keys(all.take(k as int))),
            sorted_by_address(batch@),
            batch@.to_multiset() == found_devices(all.take(k as int)).to_multiset(),
        decreases rest@.len(),
    {
        let d = rest.remove(0);
        assert(d == all[k as int]);
        devices.upsert(d.device.address.clone(), d.handle);
        insert_sorted(&mut batch, d.device);
        proof {
            assert(all.take(k + 1).drop_last() =~= all.take(k as int));
            assert(found_keys(all.take(k + 1)).drop_last() =~= found_keys(all.take(k as int)));
            assert(found_devices(all.take(k + 1)) =~= found_devices(all.take(k as int)).push(
                d.device,
            ));
            found_devices(all.take(k as int)).to_multiset_ensures();
            assert(rest@ =~= all.skip(k + 1));
        }
        k = k + 1;
    }
    assert(all.take(k as int) =~= all);
    batch
}

/// Appends the characteristics of every service to `out`.
fn append_characs(out: &mut Vec<CharacRef>, services: &Vec<Service>)
    ensures
        final(out)@ == old(out)@ + flatten(services@),
{
    let mut i: usize = 0;
    while i < services.len()
        invariant
            i <= services@.len(),
            out@ == old(out)@ + flatten(services@.take(i as int)),
        decreases services@.len() - i,
    {
        let s = &services[i];
        let ghost base = out@;
        let mut j: usize = 0;
        while j < s.characteristics.len()
            invariant
                j <= s.characteristics@.len(),
                out@ == base + service_characs(*s).take(j as int),
            decreases s.characteristics@.len() - j,
        {
            let c = &s.characteristics[j];
            out.push(CharacRef { uuid: c.uuid, service_uuid: s.uuid, properties: c.properties });
            assert(service_characs(*s).take(j + 1) =~= service_characs(*s).take(j as int).push(
                CharacRef { uuid: c.uuid, service_uuid: s.uuid, properties: c.properties },
            ));
            j = j + 1;
        }
        assert(service_characs(*s).take(j as int) =~= service_characs(*s));
        assert(services@.take(i + 1).drop_last() =~= services@.take(i as int));
        i = i + 1;
    }
    assert(services@.take(i as int) =~= services@);
}

impl Handler {
    pub closed spec fn wf(&self) -> bool {
        &&& self.devices.wf()
        &&& self@.inv()
    }

    /// A well-formed handler's state meets the session invariants.
    pub proof fn lemma_wf_inv(&self)
        requires
            self.wf(),
        ensures
            self@.inv(),
    {
    }

    /// A session with nothing discovered, nothing connected and no scan.
    pub fn new() -> (r: Handler)
        ensures
            r.wf(),
            r@.devices == Map::<Seq<char>, PeripheralHandle>::empty(),
            r@.peer is None,
            !r@.link_up,
            r@.characs.len() == 0,
            r@.listeners.len() == 0,
            r@.on_disconnect is None,
            !r@.listening,
            !r@.scan.active,
    {
        Handler {
            devices: DeviceRegistry::new(),
            peer: None,
            link_up: false,
            characs: Vec::new(),
            listeners: Vec::new(),
            on_disconnect: None,
            listening: false,
            scan: ScanState { active: false, ticks_left: 0, id: 0 },
        }
    }

    /// Whether the adapter confirmed a connection to the tracked peripheral.
    pub fn is_connected(&self) -> (r: bool)
        ensures
            r == self@.link_up,
    {
        self.link_up
    }

    /// Whether nothing has been discovered yet, so that a connect request
    /// must be preceded by a short discovery pass.
    pub fn needs_discovery(&self) -> (r: bool)
        requires
            self.wf(),
        ensures
            r == (self@.devices.dom() == Set::<Seq<char>>::empty()),
    {
        self.devices.is_empty()
    }

    /// Accepts or refuses a connect request for `address`. An accepted
    /// request makes `address` the tracked peripheral; the driver then
    /// connects the ordered handle and waits for the adapter's answer.
    pub fn connect(&mut self, address: &str) -> (r: Result<ConnectOrder, Error>)
        requires
            old(self).wf(),
        ensures
            final(self).wf(),
            old(self)@.refuses_unknown(address@) ==> final(self)@ == old(self)@ && (r matches Err(
                Error::UnknownPeripheral(a),
            ) && a@ == address@),
            old(self)@.refuses_already(address@) ==> final(self)@ == old(self)@ && r == Err::<
                ConnectOrder,
                Error,
            >(Error::AlreadyConnected),
            !old(self)@.refuses_unknown(address@) && !old(self)@.refuses_already(address@) ==> {
                &&& final(self)@ == old(self)@.connect_to(address@)
                &&& r == Ok::<ConnectOrder, Error>(
                    ConnectOrder {
                        handle: old(self)@.devices[address@],
                        stop_listener: old(self)@.listening,
                        link_dropped: old(self)@.link_up,
                    },
                )
            },
    {
        let handle = match self.devices.get(address) {
            Some(h) => h,
            None => {
                return Err(Error::UnknownPeripheral(String::from_str(address)));
            },
        };
        let key = String::from_str(address);
        match &self.peer {
            Some(p) => {
                if p.address == key {
                    return Err(Error::AlreadyConnected);
                }
            },
            None => {},
        }
        let stop_listener = self.listening;
        let link_dropped = self.link_up;
        self.peer = Some(Peer { address: key, handle });
        self.link_up = false;
        self.characs.clear();
        self.listening = false;
        proof {
            assert(self@.characs =~= Seq::<CharacRef>::empty());
        }
        Ok(ConnectOrder { handle, stop_listener, link_dropped })
    }

    /// Ends the wait for the adapter's answer to a connect request. Without
    /// a confirmed connection the request failed and nothing stays tracked;
    /// with one, `on_disconnect` becomes the disconnect callback when given.
    pub fn finish_connect(&mut self, on_disconnect: Option<u64>) -> (r: Result<(), Error>)
        requires
            old(self).wf(),
        ensures
            final(self).wf(),
            final(self)@ == old(self)@.finish_connect(on_disconnect),
            r == (if old(self)@.link_up {
                Ok::<(), Error>(())
            } else {
                Err(Error::ConnectionFailed)
            }),
    {
        if !self.link_up {
            self.peer = None;
            return Err(Error::ConnectionFailed);
        }
        if on_disconnect.is_some() {
            self.on_disconnect = on_disconnect;
        }
        Ok(())
    }

    /// Caches the characteristics of the confirmed connection's services and
    /// starts listening for its notifications; returns the peripheral whose
    /// notification stream the listener task must drain.
    pub fn attach_services(&mut self, services: &Vec<Service>) -> (r: Result<PeripheralHandle, Error>)
        requires
            old(self).wf(),
        ensures
            final(self).wf(),
            final(self)@ == old(self)@.attach(services@),
            old(self)@.peer is Some && old(self)@.link_up ==> r == Ok::<PeripheralHandle, Error>(
                old(self)@.peer.unwrap().1,
            ),
            !(old(self)@.peer is Some && old(self)@.link_up) ==> r == Err::<PeripheralHandle, Error>(
                Error::NoDeviceConnected,
            ),
    {
        if !self.link_up {
            return Err(Error::NoDeviceConnected);
        }
        let handle = match &self.peer {
            Some(p) => p.handle,
            None => {
                return Err(Error::NoDeviceConnected);
            },
        };
        append_characs(&mut self.characs, services);
        self.listening = true;
        Ok(handle)
    }

    /// The handle of the tracked peripheral.
    pub fn connected_device(&self) -> (r: Result<PeripheralHandle, Error>)
        ensures
            self@.peer is Some ==> r == Ok::<PeripheralHandle, Error>(self@.peer.unwrap().1),
            self@.peer is None ==> r == Err::<PeripheralHandle, Error>(Error::NoDeviceConnected),
    {
        match &self.peer {
            Some(p) => Ok(p.handle),
            None => Err(Error::NoDeviceConnected),
        }
    }

    /// Accepts or refuses a disconnect request, given whether the transport
    /// reports the tracked peripheral connected. The session itself changes
    /// only when the adapter's disconnect event arrives.
    pub fn disconnect(&self, device_connected: bool) -> (r: Result<(), Error>)
        ensures
            r == (if self@.peer is Some && device_connected {
                Ok::<(), Error>(())
            } else {
                Err(Error::NoDeviceConnected)
            }),
    {
        if self.peer.is_some() && device_connected {
            Ok(())
        } else {
            Err(Error::NoDeviceConnected)
        }
    }

    /// Ends the wait for the adapter's answer to a disconnect request.
    pub fn finish_disconnect(&self) -> (r: Result<(), Error>)
        requires
            self.wf(),
        ensures
            r == (if self@.link_up {
                Err::<(), Error>(Error::DisconnectFailed)
            } else {
                Ok(())
            }),
            r is Ok ==> !self@.link_up && self@.characs.len() == 0,
    {
        if self.link_up {
            Err(Error::DisconnectFailed)
        } else {
            Ok(())
        }
    }

    /// Reacts to an event of the adapter's connection-event stream. Only
    /// events about the tracked peripheral count: a disconnect clears the
    /// session, whoever caused it; a connect confirms the connection.
    pub fn handle_event(&mut self, event: CentralEvent) -> (r: Reaction)
        requires
            old(self).wf(),
        ensures
            final(self).wf(),
            final(self)@ == old(self)@.on_event(event),
            r == old(self)@.reaction(event),
    {
        let ours = match &self.peer {
            Some(p) => match event {
                CentralEvent::DeviceConnected(h) => p.handle == h,
                CentralEvent::DeviceDisconnected(h) => p.handle == h,
                CentralEvent::Other => false,
            },
            None => false,
        };
        if !ours {
            return Reaction { publish: None, stop_listener: false, fire: None };
        }
        match event {
            CentralEvent::DeviceDisconnected(_) => {
                let stop_listener = self.listening;
                self.peer = None;
                self.listening = false;
                self.listeners.clear();
                self.characs.clear();
                self.link_up = false;
                proof {
                    assert(self@.characs =~= Seq::<CharacRef>::empty());
                    assert(self@.listeners =~= Seq::<Listener>::empty());
                }
                Reaction { publish: Some(false), stop_listener, fire: self.on_disconnect }
            },
            _ => {
                self.link_up = true;
                Reaction { publish: Some(true), stop_listener: false, fire: None }
            },
        }
    }
}

impl Handler {
    /// Whether a scan runs.
    pub fn is_scanning(&self) -> (r: bool)
        ensures
            r == self@.scan.active,
    {
        self.scan.active
    }

    /// Supersedes any running scan before a new discovery; returns whether
    /// one was running, in which case the driver aborts its loop and asks the
    /// adapter to stop scanning before it starts the new scan.
    pub fn discover(&mut self) -> (r: bool)
        requires
            old(self).wf(),
        ensures
            final(self).wf(),
            final(self)@ == old(self)@.restart_scan(),
            r == old(self)@.scan.active,
    {
        let was_active = self.scan.active;
        self.scan = ScanState { active: false, ticks_left: 0, id: self.scan.id };
        was_active
    }

    /// Records that the adapter started scanning for `timeout_ms`
    /// milliseconds; returns the id of the new scan, whose loop polls once
    /// per tick while `scan_pending` holds.
    pub fn scan_started(&mut self, timeout_ms: u64) -> (r: u64)
        requires
            old(self).wf(),
        ensures
            final(self).wf(),
            final(self)@ == old(self)@.start_scan(timeout_ms),
            r == final(self)@.scan.id,
    {
        let ticks = timeout_ms / SCAN_TICK_MS + if timeout_ms % SCAN_TICK_MS != 0 {
            1
        } else {
            0
        };
        assert(ticks == scan_ticks(timeout_ms)) by (nonlinear_arith)
            requires
                ticks == timeout_ms / 200 + if timeout_ms % 200 != 0 {
                    1u64
                } else {
                    0u64
                },
                SCAN_TICK_MS == 200,
        ;
        let id = if self.scan.id == u64::MAX {
            0
        } else {
            self.scan.id + 1
        };
        self.devices.clear();
        self.scan = ScanState { active: true, ticks_left: ticks, id };
        id
    }

    /// Whether the loop of scan `id` has another tick to run.
    pub fn scan_pending(&self, id: u64) -> (r: bool)
        ensures
            r == self@.scan_pending(id),
    {
        self.scan.active && self.scan.id == id && self.scan.ticks_left > 0
    }

    /// Runs one polling tick of scan `id`: records every found peripheral
    /// under its address and returns the found devices sorted by address.
    /// A tick of a scan that is not pending changes nothing.
    pub fn scan_tick(&mut self, id: u64, found: Vec<Discovered>) -> (r: Option<Vec<BleDevice>>)
        requires
            old(self).wf(),
        ensures
            final(self).wf(),
            final(self)@ == old(self)@.tick(id, found_keys(found@)),
            old(self)@.scan_pending(id) ==> (r matches Some(b) && sorted_by_address(b@)
                && b@.to_multiset() == found_devices(found@).to_multiset()),
            !old(self)@.scan_pending(id) ==> r is None,
    {
        if !self.scan_pending(id) {
            return None;
        }
        let batch = record_found(&mut self.devices, found);
        self.scan.ticks_left = self.scan.ticks_left - 1;
        Some(batch)
    }

    /// Ends scan `id` once its loop ran out of ticks; returns whether it was
    /// the running scan, in which case the driver asks the adapter to stop
    /// scanning and publishes that scanning stopped.
    pub fn scan_finished(&mut self, id: u64) -> (r: bool)
        requires
            old(self).wf(),
        ensures
            final(self).wf(),
            final(self)@ == old(self)@.finish_scan(id),
            r == (old(self)@.scan.active && old(self)@.scan.id == id),
    {
        if self.scan.active && self.scan.id == id {
            self.scan.active = false;
            true
        } else {
            false
        }
    }

    /// Stops the running scan; returns whether one was running, in which
    /// case the driver aborts its loop and publishes that scanning stopped.
    pub fn stop_scan(&mut self) -> (r: bool)
        requires
            old(self).wf(),
        ensures
            final(self).wf(),
            final(self)@ == old(self)@.stop_scan(),
            r == old(self)@.scan.active,
    {
        let was_active = self.scan.active;
        self.scan.active = false;
        was_active
    }

    /// The cached characteristic with uuid `c`, for a request that needs it.
    fn characteristic(&self, c: u128) -> (r: Result<CharacRef, Error>)
        ensures
            self@.access(c, r),
    {
        if self.peer.is_none() {
            return Err(Error::NoDeviceConnected);
        }
        let mut i: usize = 0;
        assert(self.characs@.skip(0) =~= self.characs@);
        while i < self.characs.len()
            invariant
                self.peer is Some,
                i <= self.characs@.len(),
                find_charac(self.characs@, c) == find_charac(self.characs@.skip(i as int), c),
            decreases self.characs@.len() - i,
        {
            let x = self.characs[i];
            assert(self.characs@.skip(i as int)[0] == x);
            assert(self.characs@.skip(i as int).len() > 0);
            if x.uuid == c {
                assert(find_charac(self.characs@.skip(i as int), c) == Some(x));
                return Ok(x);
            }
            assert(self.characs@.skip(i as int).drop_first() =~= self.characs@.skip(i + 1));
            i = i + 1;
        }
        Err(Error::CharacNotAvailable(uuid_string(c)))
    }

    /// The characteristic to write `c`'s data to, without response.
    pub fn send_data(&self, c: u128) -> (r: Result<CharacRef, Error>)
        ensures
            self@.access(c, r),
    {
        self.characteristic(c)
    }

    /// The characteristic to read `c`'s data from.
    pub fn recv_data(&self, c: u128) -> (r: Result<CharacRef, Error>)
        ensures
            self@.access(c, r),
    {
        self.characteristic(c)
    }

    /// The characteristic whose notifications to enable for a subscription
    /// to `c`; once enabled, the driver adds the listener.
    pub fn subscribe(&self, c: u128) -> (r: Result<CharacRef, Error>)
        ensures
            self@.access(c, r),
    {
        self.characteristic(c)
    }

    /// The characteristic whose notifications to disable; once disabled,
    /// the driver drops its listeners.
    pub fn unsubscribe(&self, c: u128) -> (r: Result<CharacRef, Error>)
        ensures
            self@.access(c, r),
    {
        self.characteristic(c)
    }

    /// Adds a subscription of callback `callback` to characteristic `c`;
    /// earlier subscriptions to `c` stay.
    pub fn add_listener(&mut self, c: u128, callback: u64) -> (r: Result<(), Error>)
        requires
            old(self).wf(),
        ensures
            final(self).wf(),
            final(self)@ == old(self)@.add_listener(c, callback),
            old(self)@.answers(c, r),
    {
        match self.characteristic(c) {
            Ok(_) => {
                self.listeners.push(Listener { uuid: c, callback });
                Ok(())
            },
            Err(e) => Err(e),
        }
    }

    /// Drops every subscription to characteristic `c`.
    pub fn remove_listeners(&mut self, c: u128) -> (r: Result<(), Error>)
        requires
            old(self).wf(),
        ensures
            final(self).wf(),
            final(self)@ == old(self)@.remove_listeners(c),
            old(self)@.answers(c, r),
    {
        match self.characteristic(c) {
            Ok(_) => {},
            Err(e) => {
                return Err(e);
            },
        }
        let mut kept: Vec<Listener> = Vec::new();
        let mut i: usize = 0;
        while i < self.listeners.len()
            invariant
                i <= self.listeners@.len(),
                kept@ == without_uuid(self.listeners@.take(i as int), c),
            decreases self.listeners@.len() - i,
        {
            let l = self.listeners[i];
            assert(self.listeners@.take(i + 1).drop_last() =~= self.listeners@.take(i as int));
            if l.uuid != c {
                kept.push(l);
            }
            i = i + 1;
        }
        assert(self.listeners@.take(i as int) =~= self.listeners@);
        self.listeners = kept;
        Ok(())
    }

    /// The callbacks to run for a notification of characteristic `uuid`, in
    /// subscription order.
    pub fn listeners_for(&self, uuid: u128) -> (r: Vec<u64>)
        ensures
            r@ == callbacks_for(self@.listeners, uuid),
    {
        let mut r: Vec<u64> = Vec::new();
        let mut i: usize = 0;
        while i < self.listeners.len()
            invariant
                i <= self.listeners@.len(),
                r@ == callbacks_for(self.listeners@.take(i as int), uuid),
            decreases self.listeners@.len() - i,
        {
            let l = self.listeners[i];
            assert(self.listeners@.take(i + 1).drop_last() =~= self.listeners@.take(i as int));
            if l.uuid == uuid {
                r.push(l.callback);
            }
            i = i + 1;
        }
        assert(self.listeners@.take(i as int) =~= self.listeners@);
        r
    }

    /// How to list the services of the peripheral at `address`: the tracked
    /// peripheral is used as it is; another one is looked up among the
    /// discovered ones, and the driver connects it for the listing and
    /// disconnects it afterwards.
    pub fn discover_services(&self, address: &str) -> (r: Result<ServicesPlan, Error>)
        requires
            self.wf(),
        ensures
            self@.tracks_address(address@) ==> r == Ok::<ServicesPlan, Error>(
                ServicesPlan { handle: self@.peer.unwrap().1, already_connected: true },
            ),
            !self@.tracks_address(address@) && self@.devices.contains_key(address@) ==> r == Ok::<
                ServicesPlan,
                Error,
            >(ServicesPlan { handle: self@.devices[address@], already_connected: false }),
            !self@.tracks_address(address@) && !self@.devices.contains_key(address@) ==> (r matches Err(
                Error::UnknownPeripheral(a),
            ) && a@ == address@),
    {
        let key = String::from_str(address);
        match &self.peer {
            Some(p) => {
                if p.address == key {
                    return Ok(ServicesPlan { handle: p.handle, already_connected: true });
                }
            },
            None => {},
        }
        match self.devices.get(address) {
            Some(h) => Ok(ServicesPlan { handle: h, already_connected: false }),
            None => Err(Error::UnknownPeripheral(key)),
        }
    }
}

} // verus!
