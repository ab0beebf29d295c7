use blec::address::{address_le, fmt_addr};
use blec::batch::insert_sorted;
use blec::text::decode_text;
use blec::check_permissions;
use blec::handler::{CentralEvent, ConnectOrder, Discovered, Handler, Reaction, ServicesPlan};
use blec::models::{BleDevice, CharPropSet, CharProps, Characteristic, PeripheralInfo, Service};
use blec::registry::DeviceRegistry;
use blec::Error;

const NOTIFY_UUID: u128 = 0x51ff12bb_3ed8_46e5_b4f9_d64e2fec021b;
const OTHER_UUID: u128 = 0x0000180f_0000_1000_8000_00805f9b34fb;
const SERVICE_UUID: u128 = 0x0000180d_0000_1000_8000_00805f9b34fb;

fn device(address: &str) -> BleDevice {
    BleDevice::from_peripheral(PeripheralInfo {
        address: address.to_string(),
        id: format!("id-{address}"),
        local_name: None,
        rssi: Some(-60),
        services: vec![],
        is_connected: false,
    })
}

fn services() -> Vec<Service> {
    vec![Service {
        uuid: SERVICE_UUID,
        characteristics: vec![
            Characteristic { uuid: NOTIFY_UUID, descriptors: vec![], properties: CharPropSet { bits: 0x12 } },
            Characteristic { uuid: OTHER_UUID, descriptors: vec![], properties: CharPropSet { bits: 0x02 } },
        ],
    }]
}

/// A handler whose one finished scan found the given devices.
fn scanned(found: &[(&str, u64)]) -> Handler {
    let mut h = Handler::new();
    assert!(!h.discover());
    let id = h.scan_started(200);
    let batch = found.iter().map(|(a, handle)| Discovered { device: device(a), handle: *handle }).collect();
    h.scan_tick(id, batch).expect("tick of the running scan");
    assert!(h.scan_finished(id));
    h
}

/// Runs a whole successful connect for `address`, the adapter confirming it.
fn connect_fully(h: &mut Handler, address: &str, on_disconnect: Option<u64>) -> u64 {
    let order = h.connect(address).expect("connect accepted");
    let reaction = h.handle_event(CentralEvent::DeviceConnected(order.handle));
    assert_eq!(reaction.publish, Some(true));
    h.finish_connect(on_disconnect).expect("connection confirmed");
    let listen = h.attach_services(&services()).expect("services cached");
    assert_eq!(listen, order.handle);
    order.handle
}

#[test]
fn fmt_addr_is_upper_case_hex_with_colons() {
    assert_eq!(fmt_addr([0x00, 0x1a, 0x7d, 0xda, 0x71, 0x13]), "00:1A:7D:DA:71:13");
    assert_eq!(fmt_addr([0xff, 0xfe, 0x09, 0x10, 0xab, 0xcd]), "FF:FE:09:10:AB:CD");
}

#[test]
fn address_order_is_lexicographic() {
    let a = "00:1A".to_string();
    let b = "00:1B".to_string();
    let p = "00".to_string();
    assert!(address_le(&a, &b));
    assert!(!address_le(&b, &a));
    assert!(address_le(&a, &a));
    assert!(address_le(&p, &a));
    assert!(!address_le(&a, &p));
}

#[test]
fn property_flags_follow_gatt_bits() {
    let set = blec::models::get_flags(0x12);
    assert_eq!(set.bits, 0x12);
    assert!(set.contains(CharProps::Read));
    assert!(set.contains(CharProps::Notify));
    assert!(!set.contains(CharProps::Write));
    assert_eq!(CharProps::from_flag(0x08), Some(CharProps::Write));
    assert_eq!(CharProps::from_flag(0x80), Some(CharProps::ExtendedProperties));
    assert_eq!(CharProps::from_flag(0x03), None);
    assert_eq!(CharProps::Indicate.bit(), 0x20);
    assert_eq!(blec::models::get_flags(0).bits, 0);
    assert_eq!(blec::models::get_flags(0xff).bits, 0xff);
}

#[test]
fn registry_keeps_latest_handle_per_address() {
    let mut r = DeviceRegistry::new();
    assert!(r.is_empty());
    r.upsert("AA".to_string(), 1);
    r.upsert("BB".to_string(), 2);
    r.upsert("AA".to_string(), 3);
    assert_eq!(r.get("AA"), Some(3));
    assert_eq!(r.get("BB"), Some(2));
    assert_eq!(r.get("CC"), None);
    let mut all = r.all();
    all.sort();
    assert_eq!(all, vec![2, 3]);
    r.clear();
    assert!(r.is_empty());
    assert_eq!(r.get("AA"), None);
}

#[test]
fn device_name_falls_back_to_identifier() {
    let d = device("00:11");
    assert_eq!(d.name, "id-00:11");
    let named = BleDevice::from_peripheral(PeripheralInfo {
        address: "00:12".to_string(),
        id: "x".to_string(),
        local_name: Some("Sensor".to_string()),
        rssi: None,
        services: vec![],
        is_connected: true,
    });
    assert_eq!(named.name, "Sensor");
    assert!(named.is_connected);
    assert_eq!(d, device("00:11"));
    assert_ne!(d, named);
}

#[test]
fn error_messages() {
    assert_eq!(Error::NoDeviceConnected.message(), "No device connected");
    assert_eq!(
        Error::UnknownPeripheral("AA".to_string()).message(),
        "There is no peripheral with id: AA"
    );
    assert_eq!(Error::CharacNotAvailable("u".to_string()).message(), "Characteristic u not available");
}

#[test]
fn permissions_granted_on_desktop() {
    assert_eq!(check_permissions(), Ok(true));
}

#[test]
fn connect_unknown_address_is_refused() {
    let mut h = scanned(&[("AA:00", 1)]);
    assert!(!h.needs_discovery());
    assert_eq!(h.connect("BB:00"), Err(Error::UnknownPeripheral("BB:00".to_string())));
    assert!(!h.is_connected());
    assert_eq!(h.connected_device(), Err(Error::NoDeviceConnected));
}

#[test]
fn fresh_handler_needs_discovery_before_connect() {
    let mut h = Handler::new();
    assert!(h.needs_discovery());
    assert_eq!(h.connect("AA:00"), Err(Error::UnknownPeripheral("AA:00".to_string())));
}

#[test]
fn second_connect_to_same_address_is_refused() {
    let mut h = scanned(&[("AA:00", 7)]);
    assert_eq!(h.connect("AA:00"), Ok(ConnectOrder { handle: 7, stop_listener: false, link_dropped: false }));
    assert_eq!(h.connect("AA:00"), Err(Error::AlreadyConnected));
    h.handle_event(CentralEvent::DeviceConnected(7));
    h.finish_connect(None).unwrap();
    assert_eq!(h.connect("AA:00"), Err(Error::AlreadyConnected));
    assert!(h.is_connected());
}

#[test]
fn connect_without_confirmation_fails() {
    let mut h = scanned(&[("AA:00", 7)]);
    h.connect("AA:00").unwrap();
    assert_eq!(h.finish_connect(Some(1)), Err(Error::ConnectionFailed));
    assert_eq!(h.connected_device(), Err(Error::NoDeviceConnected));
    assert!(h.connect("AA:00").is_ok());
}

#[test]
fn discover_of_one_second_polls_five_times() {
    let mut h = Handler::new();
    let id = h.scan_started(1000);
    assert!(h.is_scanning());
    let mut ticks = 0;
    while h.scan_pending(id) {
        let found = if ticks == 2 { vec![Discovered { device: device("AA"), handle: 1 }] } else { vec![] };
        h.scan_tick(id, found).unwrap();
        ticks += 1;
    }
    assert_eq!(ticks, 5);
    assert!(h.scan_finished(id));
    assert!(!h.is_scanning());
}

#[test]
fn scan_ticks_round_up() {
    for (timeout, expected) in [(0u64, 0), (1, 1), (199, 1), (200, 1), (201, 2), (1000, 5), (1001, 6)] {
        let mut h = Handler::new();
        let id = h.scan_started(timeout);
        let mut ticks = 0;
        while h.scan_pending(id) {
            h.scan_tick(id, vec![]).unwrap();
            ticks += 1;
        }
        assert_eq!(ticks, expected, "timeout {timeout}");
    }
}

#[test]
fn scan_batch_is_sorted_by_address() {
    let mut h = Handler::new();
    let id = h.scan_started(400);
    let found = vec![
        Discovered { device: device("CC:00"), handle: 3 },
        Discovered { device: device("AA:00"), handle: 1 },
        Discovered { device: device("BB:00"), handle: 2 },
    ];
    let batch = h.scan_tick(id, found).unwrap();
    let addrs: Vec<&str> = batch.iter().map(|d| d.address.as_str()).collect();
    assert_eq!(addrs, vec!["AA:00", "BB:00", "CC:00"]);
    assert_eq!(h.discover_services("BB:00"), Ok(ServicesPlan { handle: 2, already_connected: false }));
}

#[test]
fn new_discover_supersedes_running_scan() {
    let mut h = Handler::new();
    let first = h.scan_started(1000);
    assert!(h.discover());
    let second = h.scan_started(400);
    assert_ne!(first, second);
    assert!(!h.scan_pending(first));
    assert!(h.scan_tick(first, vec![]).is_none());
    assert!(!h.scan_finished(first));
    assert!(h.scan_pending(second));
}

#[test]
fn disconnect_clears_state_once_adapter_reports_it() {
    let mut h = scanned(&[("AA:00", 7)]);
    connect_fully(&mut h, "AA:00", Some(11));
    assert_eq!(h.send_data(NOTIFY_UUID).map(|c| c.service_uuid), Ok(SERVICE_UUID));
    assert_eq!(h.disconnect(true), Ok(()));
    assert_eq!(h.finish_disconnect(), Err(Error::DisconnectFailed));
    let reaction = h.handle_event(CentralEvent::DeviceDisconnected(7));
    assert_eq!(reaction, Reaction { publish: Some(false), stop_listener: true, fire: Some(11) });
    assert_eq!(h.finish_disconnect(), Ok(()));
    assert!(!h.is_connected());
    assert_eq!(h.send_data(NOTIFY_UUID), Err(Error::NoDeviceConnected));
    assert_eq!(h.listeners_for(NOTIFY_UUID), Vec::<u64>::new());
}

#[test]
fn disconnect_without_device_is_refused() {
    let mut h = scanned(&[("AA:00", 7)]);
    assert_eq!(h.disconnect(true), Err(Error::NoDeviceConnected));
    connect_fully(&mut h, "AA:00", None);
    assert_eq!(h.disconnect(false), Err(Error::NoDeviceConnected));
}

#[test]
fn two_subscriptions_both_receive_a_notification() {
    let mut h = scanned(&[("AA:00", 7)]);
    connect_fully(&mut h, "AA:00", None);
    assert!(h.subscribe(NOTIFY_UUID).is_ok());
    h.add_listener(NOTIFY_UUID, 100).unwrap();
    h.add_listener(NOTIFY_UUID, 200).unwrap();
    h.add_listener(OTHER_UUID, 300).unwrap();
    assert_eq!(h.listeners_for(NOTIFY_UUID), vec![100, 200]);
    assert_eq!(h.listeners_for(OTHER_UUID), vec![300]);
    assert!(h.unsubscribe(NOTIFY_UUID).is_ok());
    h.remove_listeners(NOTIFY_UUID).unwrap();
    assert_eq!(h.listeners_for(NOTIFY_UUID), Vec::<u64>::new());
    assert_eq!(h.listeners_for(OTHER_UUID), vec![300]);
}

#[test]
fn unknown_characteristic_is_named_in_the_error() {
    let mut h = scanned(&[("AA:00", 7)]);
    connect_fully(&mut h, "AA:00", None);
    let missing: u128 = 0xa1a2a3a4_b1b2_c1c2_d1d2_d3d4d5d6d7d8;
    assert_eq!(
        h.recv_data(missing),
        Err(Error::CharacNotAvailable("a1a2a3a4-b1b2-c1c2-d1d2-d3d4d5d6d7d8".to_string()))
    );
    assert!(h.add_listener(missing, 1).is_err());
    assert_eq!(h.recv_data(OTHER_UUID).map(|c| c.properties.bits), Ok(0x02));
}

#[test]
fn adapter_disconnect_fires_callback() {
    let mut h = scanned(&[("AA:00", 7), ("BB:00", 8)]);
    connect_fully(&mut h, "AA:00", Some(42));
    h.add_listener(NOTIFY_UUID, 1).unwrap();
    let other = h.handle_event(CentralEvent::DeviceDisconnected(8));
    assert_eq!(other, Reaction { publish: None, stop_listener: false, fire: None });
    assert!(h.is_connected());
    assert_eq!(h.handle_event(CentralEvent::Other), Reaction { publish: None, stop_listener: false, fire: None });
    let r = h.handle_event(CentralEvent::DeviceDisconnected(7));
    assert_eq!(r.fire, Some(42));
    assert_eq!(r.publish, Some(false));
    assert!(!h.is_connected());
    assert_eq!(h.connected_device(), Err(Error::NoDeviceConnected));
    assert_eq!(h.listeners_for(NOTIFY_UUID), Vec::<u64>::new());
}

#[test]
fn stop_scan_reports_stop_once() {
    let mut h = Handler::new();
    let id = h.scan_started(1000);
    h.scan_tick(id, vec![]).unwrap();
    assert!(h.stop_scan());
    assert!(!h.is_scanning());
    assert!(!h.scan_pending(id));
    assert!(h.scan_tick(id, vec![]).is_none());
    assert!(!h.scan_finished(id));
    assert!(!h.stop_scan());
}

#[test]
fn discovered_device_resolves_to_same_handle() {
    let mut h = Handler::new();
    let id = h.scan_started(400);
    let batch = h.scan_tick(id, vec![Discovered { device: device("AA:00"), handle: 9 }]).unwrap();
    let address = batch[0].address.clone();
    assert_eq!(h.connect(&address).map(|o| o.handle), Ok(9));
    assert_eq!(h.discover_services(&address), Ok(ServicesPlan { handle: 9, already_connected: true }));
}

#[test]
fn connect_to_other_device_drops_previous_cache() {
    let mut h = scanned(&[("AA:00", 7), ("BB:00", 8)]);
    connect_fully(&mut h, "AA:00", None);
    assert_eq!(h.connect("BB:00"), Ok(ConnectOrder { handle: 8, stop_listener: true, link_dropped: true }));
    assert!(!h.is_connected());
    assert_eq!(h.send_data(NOTIFY_UUID).map(|_| ()), Err(Error::CharacNotAvailable(
        "51ff12bb-3ed8-46e5-b4f9-d64e2fec021b".to_string()
    )));
    assert_eq!(h.discover_services("CC:00"), Err(Error::UnknownPeripheral("CC:00".to_string())));
}

#[test]
fn text_payloads_must_be_utf8() {
    assert_eq!(decode_text(b"hello".to_vec()), Ok("hello".to_string()));
    assert_eq!(decode_text(vec![0xc3, 0xa9]), Ok("\u{e9}".to_string()));
    assert_eq!(decode_text(vec![]), Ok(String::new()));
    assert_eq!(decode_text(vec![0xff, 0x41]), Err(Error::InvalidText));
    assert_eq!(Error::InvalidText.message(), "received data is not valid UTF-8");
}

#[test]
fn equal_addresses_keep_arrival_order() {
    let mut batch = vec![];
    let mut first = device("BB");
    first.name = "first".to_string();
    let mut second = device("BB");
    second.name = "second".to_string();
    insert_sorted(&mut batch, first);
    insert_sorted(&mut batch, device("AA"));
    insert_sorted(&mut batch, second);
    let names: Vec<&str> = batch.iter().map(|d| d.name.as_str()).collect();
    assert_eq!(names, vec!["id-AA", "first", "second"]);
}

#[test]
fn switching_device_needs_its_own_confirmation() {
    let mut h = scanned(&[("AA:00", 7), ("BB:00", 8)]);
    connect_fully(&mut h, "AA:00", None);
    assert!(h.is_connected());
    h.connect("BB:00").unwrap();
    assert!(!h.is_connected());
    assert_eq!(h.connected_device(), Ok(8));
    let stale = h.handle_event(CentralEvent::DeviceConnected(7));
    assert_eq!(stale.publish, None);
    assert_eq!(h.finish_connect(None), Err(Error::ConnectionFailed));
    assert_eq!(h.connected_device(), Err(Error::NoDeviceConnected));
    h.connect("BB:00").unwrap();
    h.handle_event(CentralEvent::DeviceConnected(8));
    assert_eq!(h.finish_connect(None), Ok(()));
    assert!(h.is_connected());
}
