//! Plain data of a scan: addresses, parameters, device records and errors.

use vstd::prelude::*;
use vstd::arithmetic::div_mod::{lemma_fundamental_div_mod, lemma_fundamental_div_mod_converse};

verus! {

/// Largest value of a 48-bit device address.
pub const ADDRESS_MAX: u64 = 0xffff_ffff_ffff;

/// Default length of a scan, in seconds.
pub const DEFAULT_SCAN_SECS: u64 = 5;

/// A device address, the 48 bits of its six octets, most significant first.
#[derive(Clone, Copy, Debug, PartialEq, Eq, Structural, Hash)]
pub struct DeviceAddress {
    pub raw: u64,
}

/// The number the first `n` of the octets stand for, most significant first.
pub open spec fn prefix_value(o: Seq<u8>, n: nat) -> int
    decreases n,
{
    if n == 0 {
        0
    } else {
        prefix_value(o, (n - 1) as nat) * 0x100 + o[n - 1] as int
    }
}

/// The number six octets stand for, most significant first.
pub open spec fn octets_value(o: Seq<u8>) -> int {
    prefix_value(o, 6)
}

/// The value of `n` octets is below 256 to the power `n`.
proof fn lemma_prefix_value_bounds(o: Seq<u8>, n: nat)
    requires
        n <= 6,
        n <= o.len(),
    ensures
        0 <= prefix_value(o, n),
        n == 0 ==> prefix_value(o, n) < 1,
        n == 1 ==> prefix_value(o, n) < 0x100,
        n == 2 ==> prefix_value(o, n) < 0x1_0000,
        n == 3 ==> prefix_value(o, n) < 0x100_0000,
        n == 4 ==> prefix_value(o, n) < 0x1_0000_0000,
        n == 5 ==> prefix_value(o, n) < 0x100_0000_0000,
        n == 6 ==> prefix_value(o, n) <= ADDRESS_MAX,
    decreases n,
{
    if n > 0 {
        lemma_prefix_value_bounds(o, (n - 1) as nat);
    }
}

/// Splitting a value into its last octet and the rest.
proof fn lemma_split_last_octet(v: int, q: int, r: int)
    requires
        0 <= r < 0x100,
        v == q * 0x100 + r,
    ensures
        r == v % 0x100,
        q == v / 0x100,
{
    lemma_fundamental_div_mod_converse(v, 0x100, q, r);
}

impl DeviceAddress {
    /// Whether the address fits in 48 bits.
    pub open spec fn wf(&self) -> bool {
        self.raw <= ADDRESS_MAX
    }

    /// The address of six octets, most significant first.
    pub fn from_octets(o: [u8; 6]) -> (r: DeviceAddress)
        ensures
            r.raw == octets_value(o@),
            r.wf(),
    {
        let mut raw: u64 = 0;
        let mut i: usize = 0;
        while i < 6
            invariant
                0 <= i <= 6,
                o@.len() == 6,
                raw == prefix_value(o@, i as nat),
            decreases 6 - i,
        {
            proof {
                lemma_prefix_value_bounds(o@, i as nat);
                lemma_prefix_value_bounds(o@, (i + 1) as nat);
            }
            raw = raw * 0x100 + o[i] as u64;
            i = i + 1;
        }
        proof {
            lemma_prefix_value_bounds(o@, 6);
        }
        DeviceAddress { raw }
    }

    /// The six octets of the address, most significant first.
    pub fn octets(&self) -> (r: [u8; 6])
        requires
            self.wf(),
        ensures
            octets_value(r@) == self.raw,
    {
        let v0 = self.raw;
        let v1 = v0 / 0x100;
        let v2 = v1 / 0x100;
        let v3 = v2 / 0x100;
        let v4 = v3 / 0x100;
        let v5 = v4 / 0x100;
        proof {
            lemma_fundamental_div_mod(v0 as int, 0x100);
            lemma_fundamental_div_mod(v1 as int, 0x100);
            lemma_fundamental_div_mod(v2 as int, 0x100);
            lemma_fundamental_div_mod(v3 as int, 0x100);
            lemma_fundamental_div_mod(v4 as int, 0x100);
        }
        let r: [u8; 6] = [
            v5 as u8,
            (v4 % 0x100) as u8,
            (v3 % 0x100) as u8,
            (v2 % 0x100) as u8,
            (v1 % 0x100) as u8,
            (v0 % 0x100) as u8,
        ];
        proof {
            assert(v5 < 0x100);
            assert(r@[0] == v5);
            assert(r@[1] == v4 % 0x100);
            assert(prefix_value(r@, 0) == 0);
            assert(prefix_value(r@, 1) == v5);
            assert(prefix_value(r@, 2) == v4);
            assert(prefix_value(r@, 3) == v3);
            assert(prefix_value(r@, 4) == v2);
            assert(prefix_value(r@, 5) == v1);
            assert(prefix_value(r@, 6) == v0);
        }
        r
    }
}

/// Equal values of `n` octets come from equal octets.
proof fn lemma_prefix_value_injective(o: Seq<u8>, p: Seq<u8>, n: nat)
    requires
        n <= o.len(),
        n <= p.len(),
        prefix_value(o, n) == prefix_value(p, n),
    ensures
        forall|k: int| 0 <= k < n ==> o[k] == p[k],
    decreases n,
{
    if n > 0 {
        let m = (n - 1) as nat;
        lemma_split_last_octet(prefix_value(o, n), prefix_value(o, m), o[m as int] as int);
        lemma_split_last_octet(prefix_value(p, n), prefix_value(p, m), p[m as int] as int);
        lemma_prefix_value_injective(o, p, m);
    }
}

/// Six octets and the address they make determine each other: the same
/// address never comes from two different sequences of octets.
pub proof fn lemma_octets_determine_address(o: Seq<u8>, p: Seq<u8>)
    requires
        o.len() == 6,
        p.len() == 6,
        octets_value(o) == octets_value(p),
    ensures
        o == p,
{
    lemma_prefix_value_injective(o, p, 6);
    assert(o =~= p);
}

/// Which radio transports a scan looks at.
#[derive(Clone, Copy, Debug, PartialEq, Eq, Structural)]
pub enum Transport {
    LowEnergyOnly,
    ClassicOnly,
    Auto,
}

/// The kind of address a device reported.
#[derive(Clone, Copy, Debug, PartialEq, Eq, Structural)]
pub enum AddressKind {
    BrEdr,
    LePublic,
    LeRandom,
}

/// The failures a scan and the operations around it can report.
#[derive(Clone, Copy, Debug, PartialEq, Eq, Structural)]
pub enum ScanError {
    AdapterUnavailable,
    FilterRejected,
    DeviceQueryFailed,
    DeviceNotFound,
    ConnectFailed,
}

/// What is known of one observed device.
#[derive(Clone, Debug)]
pub struct DeviceInfo {
    pub address: DeviceAddress,
    pub name: Option<String>,
    pub is_connected: bool,
    /// Advertised service identifiers, each once.
    pub device_id: Vec<u128>,
    pub is_pairing: bool,
    pub is_trusted: bool,
    pub address_type: AddressKind,
}

/// The devices of one scan, in the order they were first observed.
#[derive(Clone, Debug)]
pub struct BluetoothScanResult {
    pub discovered_devices: Vec<DeviceInfo>,
}

/// What a scan is asked to do. An empty allow-list restricts nothing.
#[derive(Clone, Debug)]
pub struct ScanParameters {
    pub transport: Transport,
    pub allow_list: Vec<DeviceAddress>,
    pub track_changes: bool,
    pub duration_ms: u64,
}

/// The addresses of a sequence of records, in order.
pub open spec fn addresses_of(records: Seq<DeviceInfo>) -> Seq<DeviceAddress> {
    records.map_values(|d: DeviceInfo| d.address)
}

impl ScanParameters {
    /// Whether the parameters admit the address.
    pub open spec fn admits(&self, a: DeviceAddress) -> bool {
        self.allow_list@.len() == 0 || self.allow_list@.contains(a)
    }

    /// Builds parameters; a scan length left out is the default of five seconds.
    /// A length whose milliseconds do not fit in `u64` is cut to `u64::MAX` ms.
    pub fn new(
        transport: Transport,
        allow_list: Vec<DeviceAddress>,
        track_changes: bool,
        duration_secs: Option<u64>,
    ) -> (r: ScanParameters)
        ensures
            r.transport == transport,
            r.allow_list@ == allow_list@,
            r.track_changes == track_changes,
            r.duration_ms == scan_millis(duration_secs),
    {
        let secs: u64 = match duration_secs {
            Some(s) => s,
            None => DEFAULT_SCAN_SECS,
        };
        let duration_ms: u64 = if secs > u64::MAX / 1000 {
            u64::MAX
        } else {
            secs * 1000
        };
        ScanParameters { transport, allow_list, track_changes, duration_ms }
    }

    /// Whether the address may be recorded by a scan with these parameters.
    pub fn is_admitted(&self, a: DeviceAddress) -> (r: bool)
        ensures
            r == self.admits(a),
    {
        if self.allow_list.len() == 0 {
            return true;
        }
        let mut i: usize = 0;
        while i < self.allow_list.len()
            invariant
                0 <= i <= self.allow_list@.len(),
                forall|j: int| 0 <= j < i ==> self.allow_list@[j] != a,
            decreases self.allow_list@.len() - i,
        {
            if self.allow_list[i] == a {
                return true;
            }
            i = i + 1;
        }
        false
    }
}

/// The length in milliseconds of a scan asked for in seconds, with the default
/// for none, and `u64::MAX` where the product does not fit.
pub open spec fn scan_millis(duration_secs: Option<u64>) -> u64 {
    let secs = match duration_secs {
        Some(s) => s,
        None => DEFAULT_SCAN_SECS,
    };
    if secs * 1000 > u64::MAX {
        u64::MAX
    } else {
        (secs * 1000) as u64
    }
}

/// The transport selected by the two command-line switches: low energy wins
/// over classic, and neither means both.
pub fn transport_from_flags(le_only: bool, br_edr_only: bool) -> (r: Transport)
    ensures
        le_only ==> r == Transport::LowEnergyOnly,
        !le_only && br_edr_only ==> r == Transport::ClassicOnly,
        !le_only && !br_edr_only ==> r == Transport::Auto,
{
    if le_only {
        Transport::LowEnergyOnly
    } else if br_edr_only {
        Transport::ClassicOnly
    } else {
        Transport::Auto
    }
}

} // verus!
