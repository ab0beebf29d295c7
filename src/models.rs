//! Device, service and characteristic models handed to callers.
use vstd::prelude::*;

verus! {

/// One GATT characteristic property.
#[derive(Debug, Clone, Copy, PartialEq, Eq, Structural)]
pub enum CharProps {
    Broadcast,
    Read,
    WriteWithoutResponse,
    Write,
    Notify,
    Indicate,
    AuthenticatedSignedWrites,
    ExtendedProperties,
}

/// The bit that stands for each property in the GATT properties byte.
pub open spec fn prop_bit(p: CharProps) -> u8 {
    match p {
        CharProps::Broadcast => 0x01,
        CharProps::Read => 0x02,
        CharProps::WriteWithoutResponse => 0x04,
        CharProps::Write => 0x08,
        CharProps::Notify => 0x10,
        CharProps::Indicate => 0x20,
        CharProps::AuthenticatedSignedWrites => 0x40,
        CharProps::ExtendedProperties => 0x80,
    }
}

impl CharProps {
    /// The bit of this property in the GATT properties byte.
    pub fn bit(self) -> (r: u8)
        ensures
            r == prop_bit(self),
    {
        match self {
            CharProps::Broadcast => 0x01,
            CharProps::Read => 0x02,
            CharProps::WriteWithoutResponse => 0x04,
            CharProps::Write => 0x08,
            CharProps::Notify => 0x10,
            CharProps::Indicate => 0x20,
            CharProps::AuthenticatedSignedWrites => 0x40,
            CharProps::ExtendedProperties => 0x80,
        }
    }

    /// The property a single flag bit stands for; `None` for any value that is
    /// not exactly one of the eight property bits.
    pub fn from_flag(flag: u8) -> (r: Option<CharProps>)
        ensures
            r matches Some(p) ==> prop_bit(p) == flag,
            r is None ==> forall|p: CharProps| prop_bit(p) != flag,
            r is Some <==> (flag == 0x01 || flag == 0x02 || flag == 0x04 || flag == 0x08 || flag
                == 0x10 || flag == 0x20 || flag == 0x40 || flag == 0x80),
    {
        if flag == 0x01 {
            Some(CharProps::Broadcast)
        } else if flag == 0x02 {
            Some(CharProps::Read)
        } else if flag == 0x04 {
            Some(CharProps::WriteWithoutResponse)
        } else if flag == 0x08 {
            Some(CharProps::Write)
        } else if flag == 0x10 {
            Some(CharProps::Notify)
        } else if flag == 0x20 {
            Some(CharProps::Indicate)
        } else if flag == 0x40 {
            Some(CharProps::AuthenticatedSignedWrites)
        } else if flag == 0x80 {
            Some(CharProps::ExtendedProperties)
        } else {
            None
        }
    }
}

/// A set of characteristic properties, one bit per property.
#[derive(Debug, Clone, Copy, PartialEq, Eq, Structural)]
pub struct CharPropSet {
    pub bits: u8,
}

impl CharPropSet {
    pub open spec fn has(self, p: CharProps) -> bool {
        self.bits & prop_bit(p) != 0
    }

    pub fn empty() -> (r: CharPropSet)
        ensures
            r.bits == 0,
            forall|p: CharProps| !r.has(p),
    {
        let r = CharPropSet { bits: 0 };
        assert forall|p: CharProps| !r.has(p) by {
            let b = prop_bit(p);
            assert(0u8 & b == 0) by (bit_vector);
        }
        r
    }

    pub fn contains(&self, p: CharProps) -> (r: bool)
        ensures
            r == self.has(p),
    {
        self.bits & p.bit() != 0
    }

    pub fn insert(&mut self, p: CharProps)
        ensures
            final(self).bits == old(self).bits | prop_bit(p),
    {
        self.bits = self.bits | p.bit();
    }
}

/// The bits below position `i`.
pub open spec fn low_bits(i: u8) -> u8 {
    match i {
        0 => 0x00,
        1 => 0x01,
        2 => 0x03,
        3 => 0x07,
        4 => 0x0f,
        5 => 0x1f,
        6 => 0x3f,
        7 => 0x7f,
        _ => 0xff,
    }
}

/// Collects the properties whose bits are set in a GATT properties byte.
pub fn get_flags(properties: u8) -> (r: CharPropSet)
    ensures
        r.bits == properties,
        forall|p: CharProps| r.has(p) <==> properties & prop_bit(p) != 0,
{
    let mut flags = CharPropSet::empty();
    let mut mask: u8 = 0;
    let mut i: u8 = 0;
    assert(properties & 0u8 == 0u8) by (bit_vector);
    while i < 8
        invariant
            i <= 8,
            mask == low_bits(i),
            flags.bits == properties & mask,
        decreases 8 - i,
    {
        let flag: u8 = 1u8 << i;
        assert(flag == 0x01u8 << i);
        assert(i < 8 ==> (flag == 0x01u8 << i) ==> (flag == 0x01 || flag == 0x02 || flag == 0x04
            || flag == 0x08 || flag == 0x10 || flag == 0x20 || flag == 0x40 || flag == 0x80))
            by (bit_vector);
        let before = flags.bits;
        if properties & flag != 0 {
            match CharProps::from_flag(flag) {
                Some(p) => flags.insert(p),
                None => {},
            }
        }
        proof {
            let m = mask;
            assert(properties & (m | flag) == (properties & m) | (properties & flag))
                by (bit_vector);
            assert((flag == 0x01 || flag == 0x02 || flag == 0x04 || flag == 0x08 || flag == 0x10
                || flag == 0x20 || flag == 0x40 || flag == 0x80) ==> (properties & flag == 0
                || properties & flag == flag)) by (bit_vector);
            assert(before | 0u8 == before) by (bit_vector);
        }
        mask = mask | flag;
        assert(mask == low_bits((i + 1) as u8)) by {
            assert(0x00u8 | 0x01u8 == 0x01u8) by (bit_vector);
            assert(0x01u8 | 0x02u8 == 0x03u8) by (bit_vector);
            assert(0x03u8 | 0x04u8 == 0x07u8) by (bit_vector);
            assert(0x07u8 | 0x08u8 == 0x0fu8) by (bit_vector);
            assert(0x0fu8 | 0x10u8 == 0x1fu8) by (bit_vector);
            assert(0x1fu8 | 0x20u8 == 0x3fu8) by (bit_vector);
            assert(0x3fu8 | 0x40u8 == 0x7fu8) by (bit_vector);
            assert(0x7fu8 | 0x80u8 == 0xffu8) by (bit_vector);
            assert(0x01u8 << 0u8 == 0x01u8) by (bit_vector);
            assert(0x01u8 << 1u8 == 0x02u8) by (bit_vector);
            assert(0x01u8 << 2u8 == 0x04u8) by (bit_vector);
            assert(0x01u8 << 3u8 == 0x08u8) by (bit_vector);
            assert(0x01u8 << 4u8 == 0x10u8) by (bit_vector);
            assert(0x01u8 << 5u8 == 0x20u8) by (bit_vector);
            assert(0x01u8 << 6u8 == 0x40u8) by (bit_vector);
            assert(0x01u8 << 7u8 == 0x80u8) by (bit_vector);
        }
        i = i + 1;
    }
    assert(properties & 0xffu8 == properties) by (bit_vector);
    flags
}

/// Lower-case hexadecimal digit of a value below sixteen.
pub open spec fn lower_hex_char(n: u128) -> char
    recommends
        n < 16,
{
    if n < 10 {
        ((48 + n) as u8) as char
    } else {
        ((87 + n) as u8) as char
    }
}

/// The `i`-th of the 32 hexadecimal digits of `u`, most significant first.
pub open spec fn uuid_nibble(u: u128, i: int) -> u128 {
    (u >> ((124 - 4 * i) as u128)) & 0xf
}

/// The 32 lower-case hexadecimal digits of `u`, most significant first.
pub open spec fn uuid_digits(u: u128) -> Seq<char> {
    Seq::new(32, |i: int| lower_hex_char(uuid_nibble(u, i)))
}

/// Hyphenated text of a uuid: its digits in groups of 8, 4, 4, 4 and 12.
pub open spec fn uuid_text(u: u128) -> Seq<char> {
    let d = uuid_digits(u);
    d.subrange(0, 8) + seq!['-'] + d.subrange(8, 12) + seq!['-'] + d.subrange(12, 16) + seq!['-']
        + d.subrange(16, 20) + seq!['-'] + d.subrange(20, 32)
}

/// Relies on `uuid::Uuid::from_u128`, which takes the value's big-endian
/// bytes, and on the `Display` impl of `uuid::Uuid`, which writes them in the
/// hyphenated lower-case form.
#[verifier::external_body]
pub(crate) fn uuid_string(u: u128) -> (r: String)
    ensures
        r@ == uuid_text(u),
{
    uuid::Uuid::from_u128(u).to_string()
}

/// A characteristic as shown to callers.
#[derive(Debug, Clone)]
pub struct Characteristic {
    pub uuid: u128,
    pub descriptors: Vec<u128>,
    pub properties: CharPropSet,
}

/// A service as shown to callers.
#[derive(Debug, Clone)]
pub struct Service {
    pub uuid: u128,
    pub characteristics: Vec<Characteristic>,
}

/// A discovered device. Two devices are the same device when their addresses
/// are equal.
#[derive(Debug, Clone)]
pub struct BleDevice {
    pub address: String,
    pub name: String,
    pub rssi: Option<i16>,
    pub services: Vec<Service>,
    pub is_connected: bool,
}

impl PartialEq for BleDevice {
    fn eq(&self, other: &Self) -> (r: bool) {
        self.address == other.address
    }
}

impl vstd::std_specs::cmp::PartialEqSpecImpl for BleDevice {
    open spec fn obeys_eq_spec() -> bool {
        true
    }

    open spec fn eq_spec(&self, other: &BleDevice) -> bool {
        self.address@ == other.address@
    }
}

/// What the transport reports of one peripheral.
#[derive(Debug, Clone)]
pub struct PeripheralInfo {
    /// The address text, or the platform identifier where the platform hides
    /// addresses.
    pub address: String,
    /// The platform identifier of the peripheral, as text.
    pub id: String,
    pub local_name: Option<String>,
    pub rssi: Option<i16>,
    pub services: Vec<Service>,
    pub is_connected: bool,
}

impl BleDevice {
    /// The device snapshot of a peripheral: its advertised name, or its
    /// identifier when it advertises none.
    pub fn from_peripheral(info: PeripheralInfo) -> (r: BleDevice)
        ensures
            r.address == info.address,
            r.name@ == (match info.local_name {
                Some(n) => n@,
                None => info.id@,
            }),
            r.rssi == info.rssi,
            r.services == info.services,
            r.is_connected == info.is_connected,
    {
        let name = match info.local_name {
            Some(n) => n,
            None => info.id,
        };
        BleDevice {
            address: info.address,
            name,
            rssi: info.rssi,
            services: info.services,
            is_connected: info.is_connected,
        }
    }
}

/// Request of the mobile bridge's ping command.
#[derive(Debug, Clone, Default)]
pub struct PingRequest {
    pub value: Option<String>,
}

/// Answer of the mobile bridge's ping command.
#[derive(Debug, Clone, Default)]
pub struct PingResponse {
    pub value: Option<String>,
}

} // verus!
