//! Turning the answers of a device's point queries into a record.

use vstd::prelude::*;
use crate::types::{AddressKind, DeviceAddress, DeviceInfo, ScanError};

verus! {

/// The answers of the point queries made to one device. `None` stands for a
/// query that failed; an inner `None` for a property the device does not have.
#[derive(Clone, Debug)]
pub struct DeviceAnswers {
    pub name: Option<Option<String>>,
    pub connected: Option<bool>,
    pub services: Option<Option<Vec<u128>>>,
    pub paired: Option<bool>,
    pub trusted: Option<bool>,
    pub address_type: Option<AddressKind>,
}

impl DeviceAnswers {
    /// Whether every query that a record cannot do without has an answer.
    pub open spec fn complete(&self) -> bool {
        &&& self.connected is Some
        &&& self.services is Some
        &&& self.paired is Some
        &&& self.trusted is Some
        &&& self.address_type is Some
    }

    /// The services the device advertised, none where it advertised no list.
    pub open spec fn service_seq(&self) -> Seq<u128> {
        match self.services {
            Some(Some(v)) => v@,
            _ => Seq::empty(),
        }
    }
}

/// The name a record carries: the device's name where the query gave one.
pub open spec fn name_of(name: Option<Option<String>>) -> Option<String> {
    match name {
        Some(Some(n)) => Some(n),
        _ => None,
    }
}

/// A sequence with one more element holds what it held and that element.
proof fn lemma_push_contains(s: Seq<u128>, v: u128, x: u128)
    ensures
        s.push(v).contains(x) <==> (s.contains(x) || x == v),
{
    if s.contains(x) {
        let k = choose|k: int| 0 <= k < s.len() && s[k] == x;
        assert(s.push(v)[k] == x);
    }
    if x == v {
        assert(s.push(v)[s.len() as int] == x);
    }
    if s.push(v).contains(x) && x != v {
        let k = choose|k: int| 0 <= k < s.len() + 1 && s.push(v)[k] == x;
        assert(k < s.len());
        assert(s[k] == x);
    }
}

/// Each value of `ids` once, in the order of first appearance.
pub fn distinct_ids(ids: &Vec<u128>) -> (r: Vec<u128>)
    ensures
        r@.no_duplicates(),
        forall|x: u128| r@.contains(x) <==> ids@.contains(x),
{
    let mut out: Vec<u128> = Vec::new();
    let mut i: usize = 0;
    while i < ids.len()
        invariant
            0 <= i <= ids@.len(),
            out@.no_duplicates(),
            forall|x: u128| out@.contains(x) <==> ids@.subrange(0, i as int).contains(x),
        decreases ids@.len() - i,
    {
        let x = ids[i];
        let mut found = false;
        let mut j: usize = 0;
        while j < out.len()
            invariant
                0 <= j <= out@.len(),
                found <==> out@.subrange(0, j as int).contains(x),
            decreases out@.len() - j,
        {
            if out[j] == x {
                found = true;
            }
            assert(out@.subrange(0, j + 1) =~= out@.subrange(0, j as int).push(out@[j as int]));
            proof {
                lemma_push_contains(out@.subrange(0, j as int), out@[j as int], x);
            }
            j = j + 1;
        }
        assert(out@.subrange(0, out@.len() as int) =~= out@);
        assert(ids@.subrange(0, i + 1) =~= ids@.subrange(0, i as int).push(x));
        let ghost before = out@;
        if !found {
            out.push(x);
        }
        assert forall|y: u128| out@.contains(y) <==> ids@.subrange(0, i + 1).contains(y) by {
            lemma_push_contains(ids@.subrange(0, i as int), x, y);
            if !found {
                lemma_push_contains(before, x, y);
            }
        }
        proof {
            if !found {
                assert forall|p: int, q: int| 0 <= p < q < out@.len() implies out@[p] != out@[q] by {
                    if q == before.len() {
                        assert(before.contains(before[p]));
                    }
                }
            }
        }
        i = i + 1;
    }
    assert(ids@.subrange(0, ids@.len() as int) =~= ids@);
    out
}

/// The record of the device at `address` from the answers to its queries.
/// A failed name query leaves the name out; a failure of any other query
/// fails the whole record.
pub fn query_device(address: DeviceAddress, answers: DeviceAnswers) -> (r: Result<DeviceInfo, ScanError>)
    ensures
        !answers.complete() <==> r == Err::<DeviceInfo, ScanError>(ScanError::DeviceQueryFailed),
        answers.complete() ==> (r matches Ok(d) && {
            &&& d.address == address
            &&& d.name == name_of(answers.name)
            &&& d.is_connected == answers.connected->0
            &&& d.is_pairing == answers.paired->0
            &&& d.is_trusted == answers.trusted->0
            &&& d.address_type == answers.address_type->0
            &&& d.device_id@.no_duplicates()
            &&& forall|x: u128| d.device_id@.contains(x) <==> answers.service_seq().contains(x)
        }),
{
    let DeviceAnswers { name, connected, services, paired, trusted, address_type } = answers;
    let (is_connected, services, is_pairing, is_trusted, address_type) = match (
        connected,
        services,
        paired,
        trusted,
        address_type,
    ) {
        (Some(c), Some(s), Some(p), Some(t), Some(k)) => (c, s, p, t, k),
        _ => {
            return Err(ScanError::DeviceQueryFailed);
        },
    };
    let device_id = match services {
        Some(v) => distinct_ids(&v),
        None => Vec::new(),
    };
    let name = match name {
        Some(Some(n)) => Some(n),
        _ => None,
    };
    Ok(DeviceInfo { address, name, is_connected, device_id, is_pairing, is_trusted, address_type })
}

} // verus!
