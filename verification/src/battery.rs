//! One battery: a fixed set of polled attribute values, point-in-time
//! snapshots of them, and the remaining-time estimate derived from a
//! snapshot.
use vstd::prelude::*;
use vstd::string::StringExecFns;
use crate::device::Device;
use crate::device::Telemetry;
use crate::device::classify;
use crate::error::BatteryError;
use crate::poll::PolledValue;
use crate::poll::polled_update;
use crate::status::ChargingStatus;
use crate::status::status_text;
use crate::device::rating_spec;
use crate::text::chars_eq_str;
use crate::text::chars_of;
use crate::text::dec_of;
use crate::text::hhmmss_secs;
use crate::text::render_pad2;
use crate::text::render_u128;
use crate::text::trim_chars;
use crate::text::trim_spec;

verus! {

/// An immutable copy of all six cached values, taken at one instant.
#[derive(Clone, Copy, Debug, PartialEq, Eq, Structural)]
pub struct BatteryState {
    /// The charge level, as a percentage.
    pub level: u8,
    /// The total capacity.
    pub capacity: u64,
    /// The current charge.
    pub charge: u64,
    /// The instantaneous current draw.
    pub current: u64,
    /// The number of charge cycles.
    pub cycles: u64,
    /// The charging status.
    pub status: ChargingStatus,
}

/// The neutral values every battery starts from before its first read.
pub open spec fn initial_state() -> BatteryState {
    BatteryState {
        level: 100,
        capacity: 0,
        charge: 0,
        current: 0,
        cycles: 0,
        status: ChargingStatus::Full,
    }
}

/// The snapshot after one update pass over the given telemetry reads:
/// each attribute independently keeps its old value unless its read
/// parsed.
pub open spec fn state_after(st: BatteryState, t: Telemetry) -> BatteryState {
    BatteryState {
        level: polled_update(st.level, t.level),
        capacity: polled_update(st.capacity, t.capacity),
        charge: polled_update(st.charge, t.charge),
        current: polled_update(st.current, t.current),
        cycles: polled_update(st.cycles, t.cycles),
        status: polled_update(st.status, t.status),
    }
}

/// The whole seconds a snapshot predicts until discharged (when
/// discharging) or until full (when charging); a charge above the
/// capacity counts as no deficit.
pub open spec fn remaining_secs(st: BatteryState) -> int
    recommends
        st.current > 0,
{
    match st.status {
        ChargingStatus::Discharging => st.charge as int * 3600 / st.current as int,
        ChargingStatus::Charging => (if st.capacity >= st.charge {
            st.capacity as int - st.charge as int
        } else {
            0
        }) * 3600 / st.current as int,
        ChargingStatus::Full => 0,
    }
}

/// The remaining-time text of a snapshot: the literal `Full` when
/// full, an error when the current draw is zero, the `HH:MM:SS`
/// rendering of `remaining_secs` otherwise.
pub open spec fn remaining_str(st: BatteryState) -> Result<Seq<char>, BatteryError> {
    if st.status is Full {
        Ok("Full"@)
    } else if st.current == 0 {
        Err(BatteryError::InsufficientData)
    } else {
        Ok(hhmmss_secs(remaining_secs(st)))
    }
}

/// The remaining-time text with its direction appended; a full
/// battery still reads bare `Full`.
pub open spec fn remaining_labelled_str(st: BatteryState) -> Result<Seq<char>, BatteryError> {
    if st.status is Full {
        Ok("Full"@)
    } else {
        match remaining_str(st) {
            Ok(s) => Ok(
                s + (if st.status is Charging {
                    " until full"@
                } else {
                    " remaining"@
                }),
            ),
            Err(e) => Err(e),
        }
    }
}

/// The one-line summary of a named snapshot.
pub open spec fn summary_str(name: Seq<char>, st: BatteryState) -> Result<
    Seq<char>,
    BatteryError,
> {
    match remaining_labelled_str(st) {
        Ok(rl) => Ok(
            name + " ("@ + dec_of(st.cycles as int) + ") @ "@ + dec_of(st.level as int) + "%, "@
                + status_text(st.status) + ", "@ + rl,
        ),
        Err(e) => Err(e),
    }
}

/// Whether a battery is exactly what construction from one probe of
/// the given device yields: its name, its six values after one update
/// pass over the probe's telemetry from the neutral defaults, and its
/// six attribute paths.
pub open spec fn built_from(b: Battery, d: Device) -> bool {
    &&& b.spec_name() == d.name@
    &&& b.spec_state() == state_after(initial_state(), d.telemetry)
    &&& b.paths_ok(d.name@)
}

/// The path of one attribute file of a named device under the
/// power-supply root.
pub open spec fn attr_path(name: Seq<char>, file: Seq<char>) -> Seq<char> {
    "/sys/class/power_supply/"@ + name + "/"@ + file
}

fn make_attr_path(name: &str, file: &str) -> (r: String)
    ensures
        r@ == attr_path(name@, file@),
{
    let mut s = String::from_str("/sys/class/power_supply/");
    s.append(name);
    s.append("/");
    s.append(file);
    s
}

impl BatteryState {
    /// The remaining-time text, exactly as `remaining_str` says.
    pub fn remaining(&self) -> (r: Result<String, BatteryError>)
        ensures
            r matches Ok(s) ==> remaining_str(*self) matches Ok(q) && s@ == q,
            r matches Err(e) ==> remaining_str(*self) == Err::<Seq<char>, BatteryError>(e),
    {
        match self.status {
            ChargingStatus::Full => Ok(String::from_str("Full")),
            ChargingStatus::Discharging => {
                if self.current == 0 {
                    return Err(BatteryError::InsufficientData);
                }
                let total: u128 = (self.charge as u128) * 3600 / (self.current as u128);
                Ok(format_hms(total))
            },
            ChargingStatus::Charging => {
                if self.current == 0 {
                    return Err(BatteryError::InsufficientData);
                }
                let deficit: u64 = if self.capacity >= self.charge {
                    self.capacity - self.charge
                } else {
                    0
                };
                let total: u128 = (deficit as u128) * 3600 / (self.current as u128);
                Ok(format_hms(total))
            },
        }
    }

    /// The remaining-time text with its direction, exactly as
    /// `remaining_labelled_str` says.
    pub fn remaining_labelled(&self) -> (r: Result<String, BatteryError>)
        ensures
            r matches Ok(s) ==> remaining_labelled_str(*self) matches Ok(q) && s@ == q,
            r matches Err(e) ==> remaining_labelled_str(*self) == Err::<Seq<char>, BatteryError>(
                e,
            ),
    {
        match self.status {
            ChargingStatus::Full => Ok(String::from_str("Full")),
            ChargingStatus::Charging => match self.remaining() {
                Ok(mut s) => {
                    s.append(" until full");
                    Ok(s)
                },
                Err(e) => Err(e),
            },
            ChargingStatus::Discharging => match self.remaining() {
                Ok(mut s) => {
                    s.append(" remaining");
                    Ok(s)
                },
                Err(e) => Err(e),
            },
        }
    }
}

/// The one-line summary of a named snapshot, exactly as `summary_str`
/// says.
pub fn summary_line(name: &str, st: &BatteryState) -> (r: Result<String, BatteryError>)
    ensures
        r matches Ok(s) ==> summary_str(name@, *st) matches Ok(q) && s@ == q,
        r matches Err(e) ==> summary_str(name@, *st) == Err::<Seq<char>, BatteryError>(e),
{
    match st.remaining_labelled() {
        Err(e) => Err(e),
        Ok(rl) => {
            let mut out = String::new();
            out.append(name);
            out.append(" (");
            let cyc = render_u128(st.cycles as u128);
            out.append(cyc.as_str());
            out.append(") @ ");
            let lvl = render_u128(st.level as u128);
            out.append(lvl.as_str());
            out.append("%, ");
            out.append(st.status.label());
            out.append(", ");
            out.append(rl.as_str());
            proof {
                assert(summary_str(name@, *st) matches Ok(q) && out@ =~= q);
            }
            Ok(out)
        },
    }
}

fn format_hms(total: u128) -> (r: String)
    ensures
        r@ == hhmmss_secs(total as int),
{
    let h = total / 3600;
    let m = (total / 60) % 60;
    let s = total % 60;
    let mut out = render_pad2(h);
    out.append(":");
    let mm = render_pad2(m);
    out.append(mm.as_str());
    out.append(":");
    let ss = render_pad2(s);
    out.append(ss.as_str());
    proof {
        assert(out@ =~= hhmmss_secs(total as int));
    }
    out
}

/// One battery device: the six polled attribute values and the
/// device's name.
#[derive(Clone, Debug)]
pub struct Battery {
    /// The device's name under the power-supply root.
    pub name: String,
    level: PolledValue<u8>,
    capacity: PolledValue<u64>,
    charge: PolledValue<u64>,
    current: PolledValue<u64>,
    cycles: PolledValue<u64>,
    status: PolledValue<ChargingStatus>,
}

impl Battery {
    /// The device's name, as the contracts see it.
    pub closed spec fn spec_name(&self) -> Seq<char> {
        self.name@
    }

    /// The six cached values, as a snapshot.
    pub closed spec fn spec_state(&self) -> BatteryState {
        BatteryState {
            level: self.level.spec_value(),
            capacity: self.capacity.spec_value(),
            charge: self.charge.spec_value(),
            current: self.current.spec_value(),
            cycles: self.cycles.spec_value(),
            status: self.status.spec_value(),
        }
    }

    /// The attribute paths the six values are read from, in the order
    /// level, capacity, charge, current, cycles, status.
    pub closed spec fn spec_paths(&self) -> (
        Seq<char>,
        Seq<char>,
        Seq<char>,
        Seq<char>,
        Seq<char>,
        Seq<char>,
    ) {
        (
            self.level.spec_path(),
            self.capacity.spec_path(),
            self.charge.spec_path(),
            self.current.spec_path(),
            self.cycles.spec_path(),
            self.status.spec_path(),
        )
    }

    /// Whether the six paths are the attribute files of the named
    /// device.
    pub open spec fn paths_ok(&self, name: Seq<char>) -> bool {
        self.spec_paths() == (
            attr_path(name, "capacity"@),
            attr_path(name, "charge_full"@),
            attr_path(name, "charge_now"@),
            attr_path(name, "current_now"@),
            attr_path(name, "cycle_count"@),
            attr_path(name, "status"@),
        )
    }

    /// Builds a battery from one probe of a device: rejected unless
    /// the probe classified as a system battery; otherwise every
    /// value starts from its neutral default and one update pass over
    /// the probe's telemetry runs immediately.
    pub fn new(device: &Device) -> (r: Result<Battery, BatteryError>)
        ensures
            r is Ok <==> classify(*device),
            r matches Ok(b) ==> built_from(b, *device),
            r matches Err(e) ==> e == BatteryError::DeviceInvalid,
    {
        if !device.is_system_battery() {
            return Err(BatteryError::DeviceInvalid);
        }
        let mut b = Battery {
            name: device.name.clone(),
            level: PolledValue::new(100u8, make_attr_path(device.name.as_str(), "capacity")),
            capacity: PolledValue::new(0u64, make_attr_path(device.name.as_str(), "charge_full")),
            charge: PolledValue::new(0u64, make_attr_path(device.name.as_str(), "charge_now")),
            current: PolledValue::new(0u64, make_attr_path(device.name.as_str(), "current_now")),
            cycles: PolledValue::new(0u64, make_attr_path(device.name.as_str(), "cycle_count")),
            status: PolledValue::new(
                ChargingStatus::Full,
                make_attr_path(device.name.as_str(), "status"),
            ),
        };
        b.update(&device.telemetry);
        Ok(b)
    }

    /// A point-in-time copy of all six cached values.
    pub fn state(&self) -> (r: BatteryState)
        ensures
            r == self.spec_state(),
    {
        BatteryState {
            level: self.level.get(),
            capacity: self.capacity.get(),
            charge: self.charge.get(),
            current: self.current.get(),
            cycles: self.cycles.get(),
            status: self.status.get(),
        }
    }

    /// One polling pass: every attribute is updated independently, a
    /// failure on one never blocks the others.
    pub fn update(&mut self, reads: &Telemetry)
        ensures
            final (self).spec_state() == state_after(old(self).spec_state(), *reads),
            final (self).spec_name() == old(self).spec_name(),
            final (self).spec_paths() == old(self).spec_paths(),
    {
        let _ = self.level.update(&reads.level);
        let _ = self.capacity.update(&reads.capacity);
        let _ = self.charge.update(&reads.charge);
        let _ = self.current.update(&reads.current);
        let _ = self.cycles.update(&reads.cycles);
        let _ = self.status.update(&reads.status);
    }

    /// The remaining-time text of the current snapshot.
    pub fn remaining(&self) -> (r: Result<String, BatteryError>)
        ensures
            r matches Ok(s) ==> remaining_str(self.spec_state()) matches Ok(q) && s@ == q,
            r matches Err(e) ==> remaining_str(self.spec_state()) == Err::<Seq<char>, BatteryError>(
                e,
            ),
    {
        let st = self.state();
        st.remaining()
    }

    /// The remaining-time text with its direction.
    pub fn remaining_labelled(&self) -> (r: Result<String, BatteryError>)
        ensures
            r matches Ok(s) ==> remaining_labelled_str(self.spec_state()) matches Ok(q) && s@ == q,
            r matches Err(e) ==> remaining_labelled_str(self.spec_state()) == Err::<
                Seq<char>,
                BatteryError,
            >(e),
    {
        let st = self.state();
        st.remaining_labelled()
    }

    /// The one-line summary of the current snapshot.
    pub fn summary(&self) -> (r: Result<String, BatteryError>)
        ensures
            r matches Ok(s) ==> summary_str(self.spec_name(), self.spec_state()) matches Ok(q) && s@
                == q,
            r matches Err(e) ==> summary_str(self.spec_name(), self.spec_state()) == Err::<
                Seq<char>,
                BatteryError,
            >(e),
    {
        let st = self.state();
        summary_line(self.name.as_str(), &st)
    }
}

/// What one discovery pass did: the battery it selected, whether it
/// had to enumerate the tree, and the name it wants persisted as the
/// cache hint for later runs.
pub struct FindOutcome {
    /// The selected battery, absent when nothing classifies.
    pub battery: Option<Battery>,
    /// Whether the candidate tree was enumerated; false on the cache
    /// fast path.
    pub enumerated: bool,
    /// The device name to persist as the cache hint: the selected
    /// name after an enumeration, nothing otherwise.
    pub cache_write: Option<String>,
}

/// The first index at or after `i` whose device has the given name
/// and classifies as a system battery.
pub open spec fn first_hit_from(tree: Seq<Device>, name: Seq<char>, i: int) -> Option<int>
    decreases tree.len() - i,
{
    if i < 0 || i >= tree.len() {
        None
    } else if tree[i].name@ == name && classify(tree[i]) {
        Some(i)
    } else {
        first_hit_from(tree, name, i + 1)
    }
}

/// The device the cache hint selects: the first one named by the
/// hint's trimmed text that classifies; nothing without a hint.
pub open spec fn fast_target(cache: Option<Seq<char>>, tree: Seq<Device>) -> Option<int> {
    match cache {
        Some(c) => first_hit_from(tree, trim_spec(c), 0),
        None => None,
    }
}

/// The device enumeration selects among the first `n`: of those that
/// classify, the one with the lowest rating, the earliest on a tie.
pub open spec fn best_upto(tree: Seq<Device>, n: int) -> Option<int>
    decreases n,
{
    if n <= 0 {
        None
    } else {
        let p = best_upto(tree, n - 1);
        if !classify(tree[n - 1]) {
            p
        } else {
            match p {
                None => Some(n - 1),
                Some(i) => if rating_spec(tree[n - 1]) < rating_spec(tree[i]) {
                    Some(n - 1)
                } else {
                    Some(i)
                },
            }
        }
    }
}

/// The device a full enumeration selects: candidates are tried in
/// ascending rating order, so the lowest-rated classified device wins.
pub open spec fn best_idx(tree: Seq<Device>) -> Option<int> {
    best_upto(tree, tree.len() as int)
}

/// The cache text of a discovery call, if the cache file was readable.
pub open spec fn cache_view(cache: Option<&str>) -> Option<Seq<char>> {
    match cache {
        Some(c) => Some(c@),
        None => None,
    }
}

proof fn lemma_best_upto_classified(tree: Seq<Device>, n: int)
    requires
        n <= tree.len(),
    ensures
        best_upto(tree, n) matches Some(i) ==> 0 <= i < n && classify(tree[i]),
    decreases n,
{
    if n > 0 {
        lemma_best_upto_classified(tree, n - 1);
    }
}

proof fn lemma_first_hit_at(tree: Seq<Device>, name: Seq<char>, j: int, i: int)
    requires
        0 <= j <= i < tree.len(),
        tree[i].name@ == name,
        classify(tree[i]),
        forall|k: int| j <= k < i ==> tree[k].name@ != name,
    ensures
        first_hit_from(tree, name, j) == Some(i),
    decreases i - j,
{
    if j < i {
        lemma_first_hit_at(tree, name, j + 1, i);
    }
}

/// Law: enumeration's choice is exact. Whenever discovery selects
/// device `i` by enumeration, that device classifies, no classified
/// device rates lower, and none of equal rating comes earlier in the
/// tree: candidates are deliberately tried in ascending rating order.
pub proof fn lemma_best_idx_minimal(tree: Seq<Device>, i: int, j: int)
    requires
        best_idx(tree) == Some(i),
        0 <= j < tree.len(),
        classify(tree[j]),
    ensures
        0 <= i < tree.len(),
        classify(tree[i]),
        rating_spec(tree[i]) <= rating_spec(tree[j]),
        rating_spec(tree[i]) == rating_spec(tree[j]) ==> i <= j,
{
    lemma_best_upto_classified(tree, tree.len() as int);
    lemma_best_upto_min(tree, tree.len() as int, j);
}

proof fn lemma_best_upto_min(tree: Seq<Device>, n: int, j: int)
    requires
        0 <= j < n <= tree.len(),
        classify(tree[j]),
    ensures
        best_upto(tree, n) matches Some(i) && rating_spec(tree[i]) <= rating_spec(tree[j]) && (
        rating_spec(tree[i]) == rating_spec(tree[j]) ==> i <= j),
    decreases n,
{
    lemma_best_upto_classified(tree, n - 1);
    if j < n - 1 {
        lemma_best_upto_min(tree, n - 1, j);
    }
}

/// Law: a discovered name round-trips through the cache. When
/// enumeration selects device `i`, a later discovery run handed that
/// device's name as the cache hint resolves to the same device on the
/// fast path, with no enumeration involved — provided the tree's
/// names are distinct and carry no surrounding whitespace.
pub proof fn lemma_cache_round_trip(tree: Seq<Device>, i: int)
    requires
        best_idx(tree) == Some(i),
        forall|j: int, k: int| 0 <= j < k < tree.len() ==> tree[j].name@ != tree[k].name@,
        forall|j: int| 0 <= j < tree.len() ==> trim_spec(#[trigger] tree[j].name@) == tree[j].name@,
    ensures
        0 <= i < tree.len(),
        fast_target(Some(tree[i].name@), tree) == Some(i),
{
    lemma_best_upto_classified(tree, tree.len() as int);
    assert(forall|k: int| 0 <= k < i ==> tree[k].name@ != tree[i].name@);
    lemma_first_hit_at(tree, tree[i].name@, 0, i);
}

impl Battery {
    /// Discovery: with a readable cache hint whose trimmed text names
    /// a device that classifies, that device is selected directly and
    /// the tree is not enumerated; otherwise every candidate is
    /// probed and, of those that classify, the lowest-rated one (the
    /// earliest on a tie) is selected and its name is handed back to
    /// be persisted as the new cache hint. No classifiable candidate
    /// at all is absence, not an error.
    pub fn find(cache: Option<&str>, tree: &Vec<Device>) -> (r: FindOutcome)
        ensures
            r.enumerated == (fast_target(cache_view(cache), tree@) is None),
            match fast_target(cache_view(cache), tree@) {
                Some(i) => {
                    &&& r.battery matches Some(b) && built_from(b, tree@[i])
                    &&& r.cache_write is None
                },
                None => match best_idx(tree@) {
                    Some(i) => {
                        &&& r.battery matches Some(b) && built_from(b, tree@[i])
                        &&& r.cache_write matches Some(w) && w@ == tree@[i].name@
                    },
                    None => r.battery is None && r.cache_write is None,
                },
            },
    {
        if let Some(c) = cache {
            let want = trim_chars(&chars_of(c));
            let n = tree.len();
            let mut i: usize = 0;
            while i < n
                invariant
                    i <= n,
                    n == tree@.len(),
                    cache_view(cache) == Some(c@),
                    want@ == trim_spec(c@),
                    first_hit_from(tree@, want@, 0) == first_hit_from(tree@, want@, i as int),
                decreases n - i,
            {
                let d = &tree[i];
                if chars_eq_str(&want, d.name.as_str()) && d.is_system_battery() {
                    match Battery::new(d) {
                        Ok(b) => {
                            return FindOutcome {
                                battery: Some(b),
                                enumerated: false,
                                cache_write: None,
                            };
                        },
                        Err(_) => {
                            // classification held, so construction cannot fail
                            vstd::pervasive::unreached::<()>()
                        },
                    }
                }
                i += 1;
            }
        }
        let n = tree.len();
        let mut best: Option<usize> = None;
        let mut best_rating: u8 = 0;
        let mut i: usize = 0;
        while i < n
            invariant
                i <= n,
                n == tree@.len(),
                fast_target(cache_view(cache), tree@) is None,
                match best {
                    Some(b) => best_upto(tree@, i as int) == Some(b as int) && b < n && classify(
                        tree@[b as int],
                    ) && best_rating as int == rating_spec(tree@[b as int]),
                    None => best_upto(tree@, i as int) is None,
                },
            decreases n - i,
        {
            let d = &tree[i];
            if d.is_system_battery() {
                let r = d.rating();
                match best {
                    None => {
                        best = Some(i);
                        best_rating = r;
                    },
                    Some(b) => {
                        if r < best_rating {
                            best = Some(i);
                            best_rating = r;
                        }
                    },
                }
            }
            i += 1;
        }
        match best {
            Some(b) => {
                match Battery::new(&tree[b]) {
                    Ok(bat) => {
                        let write = bat.name.clone();
                        FindOutcome {
                            battery: Some(bat),
                            enumerated: true,
                            cache_write: Some(write),
                        }
                    },
                    // classification held, so construction cannot fail
                    Err(_) => vstd::pervasive::unreached(),
                }
            },
            None => FindOutcome { battery: None, enumerated: true, cache_write: None },
        }
    }
}

} // verus!
