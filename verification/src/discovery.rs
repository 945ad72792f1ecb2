//! Discovery filtering: which of the peripherals seen during a scan window
//! qualify as candidates. A peripheral qualifies if its advertised name
//! carries the product marker, or if its advertised services carry the
//! control service identifier. A peripheral whose property or service
//! lookup failed is treated as non-matching on that criterion, never as a
//! discovery failure.

use vstd::prelude::*;
use crate::ids::SERVICE_UUID;

verus! {

/// A discovered device as surfaced to the caller: its opaque identifier and
/// its human-readable name, when one was advertised.
pub struct DeviceInfo {
    pub id: String,
    pub name: Option<String>,
}

/// Mathematical image of a `DeviceInfo`.
pub struct DeviceInfoView {
    pub id: Seq<char>,
    pub name: Option<Seq<char>>,
}

impl View for DeviceInfo {
    type V = DeviceInfoView;

    open spec fn view(&self) -> DeviceInfoView {
        DeviceInfoView {
            id: self.id@,
            name: match self.name {
                Some(n) => Some(n@),
                None => None,
            },
        }
    }
}

/// Everything the radio link reported about one peripheral during a scan
/// window. `name` is `None` when the properties were unavailable, their
/// lookup failed, or no local name was advertised; `services` is `None`
/// when the service list query failed.
pub struct ScanRecord {
    pub id: String,
    pub name: Option<String>,
    pub services: Option<Vec<u128>>,
}

/// Mathematical image of a `ScanRecord`.
pub struct ScanRecordView {
    pub id: Seq<char>,
    pub name: Option<Seq<char>>,
    pub services: Option<Seq<u128>>,
}

impl View for ScanRecord {
    type V = ScanRecordView;

    open spec fn view(&self) -> ScanRecordView {
        ScanRecordView {
            id: self.id@,
            name: match self.name {
                Some(n) => Some(n@),
                None => None,
            },
            services: match self.services {
                Some(s) => Some(s@),
                None => None,
            },
        }
    }
}

/// The substring that marks a product name as one of ours.
pub open spec fn spec_product_marker() -> Seq<char> {
    "StreamDeck"@
}

/// The pattern occurs in `s` starting at position `i`.
pub open spec fn spec_matches_at(s: Seq<char>, pat: Seq<char>, i: int) -> bool {
    0 <= i && i + pat.len() <= s.len() && s.subrange(i, i + pat.len() as int) == pat
}

/// The pattern occurs somewhere in `s`.
pub open spec fn spec_contains_pattern(s: Seq<char>, pat: Seq<char>) -> bool {
    exists|i: int| spec_matches_at(s, pat, i)
}

/// The name criterion: a name was advertised and carries the product marker.
pub open spec fn spec_name_matches(name: Option<Seq<char>>) -> bool {
    match name {
        Some(n) => spec_contains_pattern(n, spec_product_marker()),
        None => false,
    }
}

/// The service criterion: the service list was readable and carries the
/// control service identifier.
pub open spec fn spec_services_match(services: Option<Seq<u128>>) -> bool {
    match services {
        Some(s) => s.contains(SERVICE_UUID),
        None => false,
    }
}

/// The inclusion rule of discovery.
pub open spec fn spec_record_matches(r: ScanRecordView) -> bool {
    spec_name_matches(r.name) || spec_services_match(r.services)
}

/// The device entry a qualifying record is surfaced as.
pub open spec fn spec_device_of(r: ScanRecordView) -> DeviceInfoView {
    DeviceInfoView { id: r.id, name: r.name }
}

/// The qualifying subset of the records, in discovery order.
pub open spec fn spec_filtered(recs: Seq<ScanRecordView>) -> Seq<DeviceInfoView>
    decreases recs.len(),
{
    if recs.len() == 0 {
        Seq::empty()
    } else {
        let rest = spec_filtered(recs.drop_last());
        if spec_record_matches(recs.last()) {
            rest.push(spec_device_of(recs.last()))
        } else {
            rest
        }
    }
}

/// The pattern occurs in `s` at exactly position `i`.
fn match_at(s: &str, pat: &str, i: usize) -> (b: bool)
    requires
        i + pat@.len() <= s@.len(),
        i + pat@.len() <= usize::MAX,
    ensures
        b == spec_matches_at(s@, pat@, i as int),
{
    let m = pat.unicode_len();
    let mut j: usize = 0;
    while j < m
        invariant
            j <= m,
            m == pat@.len(),
            i + m <= s@.len(),
            i + m <= usize::MAX,
            forall|k: int| 0 <= k < j ==> s@[i + k] == pat@[k],
        decreases m - j,
    {
        if s.get_char(i + j) != pat.get_char(j) {
            proof {
                if spec_matches_at(s@, pat@, i as int) {
                    assert(s@.subrange(i as int, i + pat@.len() as int)[j as int] == s@[i + j]);
                }
            }
            return false;
        }
        j += 1;
    }
    proof {
        assert(s@.subrange(i as int, i + pat@.len() as int) =~= pat@);
    }
    true
}

/// Substring search over the characters of `s`.
pub fn str_contains(s: &str, pat: &str) -> (b: bool)
    ensures
        b == spec_contains_pattern(s@, pat@),
{
    let n = s.unicode_len();
    let m = pat.unicode_len();
    if m > n {
        proof {
            assert(forall|i: int| !spec_matches_at(s@, pat@, i));
        }
        return false;
    }
    if m == 0 {
        proof {
            assert(s@.subrange(0, 0) =~= pat@);
            assert(spec_matches_at(s@, pat@, 0));
        }
        return true;
    }
    let mut i: usize = 0;
    while i <= n - m
        invariant
            1 <= m <= n,
            n == s@.len(),
            m == pat@.len(),
            i <= n - m + 1,
            forall|k: int| 0 <= k < i ==> !spec_matches_at(s@, pat@, k),
        decreases n + 1 - m - i,
    {
        if match_at(s, pat, i) {
            return true;
        }
        i += 1;
    }
    proof {
        assert forall|k: int| !spec_matches_at(s@, pat@, k) by {
            if 0 <= k < i {
            } else if k >= i {
                assert(k + pat@.len() > s@.len());
            }
        }
    }
    false
}

/// Whether a service list carries a given identifier.
pub fn contains_uuid(services: &Vec<u128>, target: u128) -> (b: bool)
    ensures
        b == services@.contains(target),
{
    let n = services.len();
    let mut i: usize = 0;
    while i < n
        invariant
            i <= n,
            n == services@.len(),
            forall|k: int| 0 <= k < i ==> services@[k] != target,
        decreases n - i,
    {
        if services[i] == target {
            proof {
                assert(services@.contains(target)) by {
                    assert(services@[i as int] == target);
                }
            }
            return true;
        }
        i += 1;
    }
    false
}

/// The inclusion rule of discovery, decided on one record.
pub fn record_matches(r: &ScanRecord) -> (b: bool)
    ensures
        b == spec_record_matches(r@),
{
    let name_hit = match &r.name {
        Some(n) => str_contains(n.as_str(), "StreamDeck"),
        None => false,
    };
    if name_hit {
        return true;
    }
    match &r.services {
        Some(s) => contains_uuid(s, SERVICE_UUID),
        None => false,
    }
}

/// Apply the discovery filter to everything a scan window reported: the
/// result lists exactly the qualifying records, in discovery order.
pub fn scan_for_devices(records: &Vec<ScanRecord>) -> (devices: Vec<DeviceInfo>)
    ensures
        devices@.map_values(|d: DeviceInfo| d@) == spec_filtered(
            records@.map_values(|r: ScanRecord| r@),
        ),
{
    let ghost all = records@.map_values(|r: ScanRecord| r@);
    let n = records.len();
    let mut devices: Vec<DeviceInfo> = Vec::new();
    let mut i: usize = 0;
    while i < n
        invariant
            i <= n,
            n == records@.len(),
            all == records@.map_values(|r: ScanRecord| r@),
            devices@.map_values(|d: DeviceInfo| d@) == spec_filtered(all.take(i as int)),
        decreases n - i,
    {
        let r = &records[i];
        let ghost before = devices@.map_values(|d: DeviceInfo| d@);
        if record_matches(r) {
            let name_copy = match &r.name {
                Some(n_) => Some(n_.clone()),
                None => None,
            };
            let entry = DeviceInfo { id: r.id.clone(), name: name_copy };
            proof {
                assert(entry@ == spec_device_of(all[i as int]));
            }
            devices.push(entry);
        }
        proof {
            assert(all.take(i + 1).drop_last() =~= all.take(i as int));
            assert(all.take(i + 1).last() == all[i as int]);
            if spec_record_matches(all[i as int]) {
                assert(devices@.map_values(|d: DeviceInfo| d@) =~= spec_filtered(
                    all.take(i + 1),
                ));
            } else {
                assert(devices@.map_values(|d: DeviceInfo| d@) =~= before);
            }
        }
        i += 1;
    }
    proof {
        assert(all.take(n as int) =~= all);
    }
    devices
}

/// Law: a record whose property lookup and service lookup both failed is
/// excluded from discovery, without failing the scan.
pub proof fn lemma_failed_lookups_excluded(r: ScanRecordView)
    requires
        r.name is None,
        r.services is None,
    ensures
        !spec_record_matches(r),
{
}

/// Law (discovery filter correctness): a device entry appears in the
/// filtered result iff some scan record qualifies under the inclusion rule
/// and surfaces as that entry.
pub proof fn lemma_discovery_filter_iff(recs: Seq<ScanRecordView>, d: DeviceInfoView)
    ensures
        spec_filtered(recs).contains(d) <==> exists|i: int|
            0 <= i < recs.len() && spec_record_matches(recs[i]) && spec_device_of(recs[i]) == d,
    decreases recs.len(),
{
    if recs.len() == 0 {
    } else {
        lemma_discovery_filter_iff(recs.drop_last(), d);
        let rest = spec_filtered(recs.drop_last());
        let last = recs.last();
        if spec_record_matches(last) {
            assert(spec_filtered(recs) == rest.push(spec_device_of(last)));
            if spec_filtered(recs).contains(d) {
                let j = choose|j: int| 0 <= j < spec_filtered(recs).len() && spec_filtered(recs)[j] == d;
                if j < rest.len() {
                    assert(rest[j] == d);
                    assert(rest.contains(d));
                    let i = choose|i: int|
                        0 <= i < recs.drop_last().len() && spec_record_matches(recs.drop_last()[i])
                            && spec_device_of(recs.drop_last()[i]) == d;
                    assert(recs[i] == recs.drop_last()[i]);
                } else {
                    assert(spec_device_of(last) == d);
                    assert(recs[recs.len() - 1] == last);
                }
            }
            if exists|i: int|
                0 <= i < recs.len() && spec_record_matches(recs[i]) && spec_device_of(recs[i])
                    == d {
                let i = choose|i: int|
                    0 <= i < recs.len() && spec_record_matches(recs[i]) && spec_device_of(recs[i])
                        == d;
                if i < recs.len() - 1 {
                    assert(recs.drop_last()[i] == recs[i]);
                    assert(rest.contains(d));
                    let j = choose|j: int| 0 <= j < rest.len() && rest[j] == d;
                    assert(spec_filtered(recs)[j] == d);
                } else {
                    assert(spec_filtered(recs).last() == d);
                }
            }
        } else {
            assert(spec_filtered(recs) == rest);
            if exists|i: int|
                0 <= i < recs.len() && spec_record_matches(recs[i]) && spec_device_of(recs[i])
                    == d {
                let i = choose|i: int|
                    0 <= i < recs.len() && spec_record_matches(recs[i]) && spec_device_of(recs[i])
                        == d;
                assert(i < recs.len() - 1);
                assert(recs.drop_last()[i] == recs[i]);
            }
            if rest.contains(d) {
                let i = choose|i: int|
                    0 <= i < recs.drop_last().len() && spec_record_matches(recs.drop_last()[i])
                        && spec_device_of(recs.drop_last()[i]) == d;
                assert(recs[i] == recs.drop_last()[i]);
            }
        }
    }
}

} // verus!
