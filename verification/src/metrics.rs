use vstd::prelude::*;

use prometheus_client::encoding::text::encode;
use prometheus_client::metrics::counter::Counter;
use prometheus_client::metrics::family::Family;
use prometheus_client::metrics::gauge::Gauge;
use prometheus_client::registry::Registry;

verus! {

/// The key identifying one device's series in every family: the device model
/// label, the configured name, and the IP address.
pub type SeriesKey = (Seq<char>, Seq<char>, Seq<char>);

/// The label-keyed metric families shared by all collectors, together with
/// the registry that renders them on a scrape.
///
/// Backed by `prometheus_client`; opaque to the verifier.  Its observable
/// contents are the three series maps named below.  The registry holds
/// clones of the three families, which share their underlying series, so a
/// scrape renders whatever the maps currently hold.  The library hands out
/// no second writer: all mutation goes through the `&mut self` methods here,
/// which is what lets their contracts track the maps exactly.
#[verifier::external_body]
pub struct Metrics {
    energy_usage: Family<Vec<(String, String)>, Gauge>,
    device_on: Family<Vec<(String, String)>, Gauge>,
    request_fail: Family<Vec<(String, String)>, Counter>,
    registry: Registry,
}

/// What the power-draw gauge family holds: the last written value per identity.
pub uninterp spec fn power_series(m: Metrics) -> Map<SeriesKey, i64>;

/// What the on/off gauge family holds: the last written value per identity.
pub uninterp spec fn state_series(m: Metrics) -> Map<SeriesKey, i64>;

/// What the failure counter family holds per identity.
pub uninterp spec fn failure_series(m: Metrics) -> Map<SeriesKey, u64>;

/// The empty gauge family contents.
pub open spec fn empty_gauge_series() -> Map<SeriesKey, i64> {
    Map::empty()
}

/// The empty counter family contents.
pub open spec fn empty_counter_series() -> Map<SeriesKey, u64> {
    Map::empty()
}

/// A well-formed label-pair list: the exporter's three label names, in the
/// order every family keys on.  Among well-formed lists, the pair values —
/// that is, `labels_key` — determine the list, so one `SeriesKey` addresses
/// exactly one slot of a family's map.
pub open spec fn labels_wf(pairs: Seq<(String, String)>) -> bool {
    &&& pairs.len() == 3
    &&& pairs[0].0@ == "device"@
    &&& pairs[1].0@ == "name"@
    &&& pairs[2].0@ == "ip"@
}

/// The series key a well-formed label-pair list addresses: its three values.
pub open spec fn labels_key(pairs: Seq<(String, String)>) -> SeriesKey {
    (pairs[0].1@, pairs[1].1@, pairs[2].1@)
}

/// Get-or-create semantics on a gauge family: an absent series appears at its
/// default value 0; a present one is untouched.
pub open spec fn with_default_gauge(m: Map<SeriesKey, i64>, k: SeriesKey) -> Map<SeriesKey, i64> {
    if m.contains_key(k) {
        m
    } else {
        m.insert(k, 0)
    }
}

/// Get-or-create semantics on a counter family: an absent series appears at
/// its default value 0; a present one is untouched.
pub open spec fn with_default_counter(m: Map<SeriesKey, u64>, k: SeriesKey) -> Map<
    SeriesKey,
    u64,
> {
    if m.contains_key(k) {
        m
    } else {
        m.insert(k, 0)
    }
}

/// One counter increment: the series appears at its default 0 if absent, then
/// grows by one, wrapping at the machine bound as the underlying atomic does.
pub open spec fn bumped(m: Map<SeriesKey, u64>, k: SeriesKey) -> Map<SeriesKey, u64> {
    let cur: u64 = if m.contains_key(k) {
        m[k]
    } else {
        0
    };
    m.insert(k, ((cur + 1) as u64))
}

/// Builds the label-pair list under which one identity's series are keyed:
/// the exporter's label schema lives here, in verified code.
fn label_pairs(device: &str, name: &str, ip: &str) -> (r: Vec<(String, String)>)
    ensures
        labels_wf(r@),
        labels_key(r@) == (device@, name@, ip@),
{
    let mut r: Vec<(String, String)> = Vec::new();
    r.push(("device".to_owned(), device.to_owned()));
    r.push(("name".to_owned(), name.to_owned()));
    r.push(("ip".to_owned(), ip.to_owned()));
    r
}

impl Metrics {
    /// Relies on `Family::default` and `Registry::register`: a fresh family
    /// holds no series, and registering a clone of a family shares its
    /// underlying series with the registry, so later writes are visible to a
    /// scrape.  The model's one constructor: its body holds the three
    /// constructions and their three registrations, nothing else.
    #[verifier::external_body]
    fn registered(
        energy_name: &str,
        energy_help: &str,
        on_name: &str,
        on_help: &str,
        fail_name: &str,
        fail_help: &str,
    ) -> (m: Metrics)
        ensures
            power_series(m) == empty_gauge_series(),
            state_series(m) == empty_gauge_series(),
            failure_series(m) == empty_counter_series(),
    {
        let energy_usage = Family::default();
        let device_on = Family::default();
        let request_fail = Family::default();
        let mut registry = Registry::default();
        registry.register(energy_name, energy_help, energy_usage.clone());
        registry.register(on_name, on_help, device_on.clone());
        registry.register(fail_name, fail_help, request_fail.clone());
        Metrics { energy_usage, device_on, request_fail, registry }
    }

    /// A fresh registry with the exporter's three families registered and no
    /// series in any of them.
    pub fn new() -> (m: Metrics)
        ensures
            power_series(m) == empty_gauge_series(),
            state_series(m) == empty_gauge_series(),
            failure_series(m) == empty_counter_series(),
    {
        Metrics::registered(
            "tapo_energy_usage",
            "current power in mW",
            "tapo_device_on",
            "current switch status",
            "tapo_request_fail",
            "device request fail",
        )
    }

    /// Relies on `Family::get_or_create`: an absent series is created at its
    /// default (gauge 0, counter 0); an existing one is left as it is.
    #[verifier::external_body]
    fn create_series_raw(&mut self, key: &Vec<(String, String)>)
        requires
            labels_wf(key@),
        ensures
            power_series(*final (self)) == with_default_gauge(
                power_series(*old(self)),
                labels_key(key@),
            ),
            state_series(*final (self)) == with_default_gauge(
                state_series(*old(self)),
                labels_key(key@),
            ),
            failure_series(*final (self)) == with_default_counter(
                failure_series(*old(self)),
                labels_key(key@),
            ),
    {
        self.energy_usage.get_or_create(key);
        self.device_on.get_or_create(key);
        self.request_fail.get_or_create(key);
    }

    /// Binds an identity's three series: each appears at its default if
    /// absent and is left in place if already created.
    pub fn create_series(&mut self, device: &str, name: &str, ip: &str)
        ensures
            power_series(*final (self)) == with_default_gauge(
                power_series(*old(self)),
                (device@, name@, ip@),
            ),
            state_series(*final (self)) == with_default_gauge(
                state_series(*old(self)),
                (device@, name@, ip@),
            ),
            failure_series(*final (self)) == with_default_counter(
                failure_series(*old(self)),
                (device@, name@, ip@),
            ),
    {
        let key = label_pairs(device, name, ip);
        self.create_series_raw(&key);
    }

    /// Relies on `Family::get_or_create` and `Gauge::set`: the power series
    /// keyed by these labels now holds exactly `v`; no other series of any
    /// family is touched.
    #[verifier::external_body]
    fn set_energy_raw(&mut self, key: &Vec<(String, String)>, v: i64)
        requires
            labels_wf(key@),
        ensures
            power_series(*final (self)) == power_series(*old(self)).insert(labels_key(key@), v),
            state_series(*final (self)) == state_series(*old(self)),
            failure_series(*final (self)) == failure_series(*old(self)),
    {
        self.energy_usage.get_or_create(key).set(v);
    }

    /// Writes the power reading for one identity; nothing else changes.
    pub fn set_energy(&mut self, device: &str, name: &str, ip: &str, v: i64)
        ensures
            power_series(*final (self)) == power_series(*old(self)).insert(
                (device@, name@, ip@),
                v,
            ),
            state_series(*final (self)) == state_series(*old(self)),
            failure_series(*final (self)) == failure_series(*old(self)),
    {
        let key = label_pairs(device, name, ip);
        self.set_energy_raw(&key, v);
    }

    /// Relies on `Family::get_or_create` and `Gauge::set`: the on/off series
    /// keyed by these labels now holds exactly `v`; no other series of any
    /// family is touched.
    #[verifier::external_body]
    fn set_device_on_raw(&mut self, key: &Vec<(String, String)>, v: i64)
        requires
            labels_wf(key@),
        ensures
            state_series(*final (self)) == state_series(*old(self)).insert(labels_key(key@), v),
            power_series(*final (self)) == power_series(*old(self)),
            failure_series(*final (self)) == failure_series(*old(self)),
    {
        self.device_on.get_or_create(key).set(v);
    }

    /// Writes the on/off reading for one identity; nothing else changes.
    pub fn set_device_on(&mut self, device: &str, name: &str, ip: &str, v: i64)
        ensures
            state_series(*final (self)) == state_series(*old(self)).insert(
                (device@, name@, ip@),
                v,
            ),
            power_series(*final (self)) == power_series(*old(self)),
            failure_series(*final (self)) == failure_series(*old(self)),
    {
        let key = label_pairs(device, name, ip);
        self.set_device_on_raw(&key, v);
    }

    /// Relies on `Family::get_or_create` and `Counter::inc`: the failure
    /// series keyed by these labels grows by one from its default 0 if it was
    /// absent, wrapping as the underlying atomic does; no other series of any
    /// family is touched.
    #[verifier::external_body]
    fn inc_request_fail_raw(&mut self, key: &Vec<(String, String)>)
        requires
            labels_wf(key@),
        ensures
            failure_series(*final (self)) == bumped(failure_series(*old(self)), labels_key(key@)),
            power_series(*final (self)) == power_series(*old(self)),
            state_series(*final (self)) == state_series(*old(self)),
    {
        self.request_fail.get_or_create(key).inc();
    }

    /// Counts one failed sub-request for one identity; nothing else changes.
    pub fn inc_request_fail(&mut self, device: &str, name: &str, ip: &str)
        ensures
            failure_series(*final (self)) == bumped(
                failure_series(*old(self)),
                (device@, name@, ip@),
            ),
            power_series(*final (self)) == power_series(*old(self)),
            state_series(*final (self)) == state_series(*old(self)),
    {
        let key = label_pairs(device, name, ip);
        self.inc_request_fail_raw(&key);
    }

    /// Relies on `Family::get` and `Gauge::get`: `None` exactly where no
    /// series exists under these labels, else the series' current value.
    #[verifier::external_body]
    fn energy_of_raw(&self, key: &Vec<(String, String)>) -> (r: Option<i64>)
        requires
            labels_wf(key@),
        ensures
            power_series(*self).contains_key(labels_key(key@)) ==> r == Some(
                power_series(*self)[labels_key(key@)],
            ),
            !power_series(*self).contains_key(labels_key(key@)) ==> r is None,
    {
        match self.energy_usage.get(key) {
            Some(g) => Some(g.get()),
            None => None,
        }
    }

    /// The power series value for one identity, or `None` where no such
    /// series exists.
    pub fn energy_of(&self, device: &str, name: &str, ip: &str) -> (r: Option<i64>)
        ensures
            power_series(*self).contains_key((device@, name@, ip@)) ==> r == Some(
                power_series(*self)[(device@, name@, ip@)],
            ),
            !power_series(*self).contains_key((device@, name@, ip@)) ==> r is None,
    {
        let key = label_pairs(device, name, ip);
        self.energy_of_raw(&key)
    }

    /// Relies on `Family::get` and `Gauge::get`: `None` exactly where no
    /// series exists under these labels, else the series' current value.
    #[verifier::external_body]
    fn device_on_of_raw(&self, key: &Vec<(String, String)>) -> (r: Option<i64>)
        requires
            labels_wf(key@),
        ensures
            state_series(*self).contains_key(labels_key(key@)) ==> r == Some(
                state_series(*self)[labels_key(key@)],
            ),
            !state_series(*self).contains_key(labels_key(key@)) ==> r is None,
    {
        match self.device_on.get(key) {
            Some(g) => Some(g.get()),
            None => None,
        }
    }

    /// The on/off series value for one identity, or `None` where no such
    /// series exists.
    pub fn device_on_of(&self, device: &str, name: &str, ip: &str) -> (r: Option<i64>)
        ensures
            state_series(*self).contains_key((device@, name@, ip@)) ==> r == Some(
                state_series(*self)[(device@, name@, ip@)],
            ),
            !state_series(*self).contains_key((device@, name@, ip@)) ==> r is None,
    {
        let key = label_pairs(device, name, ip);
        self.device_on_of_raw(&key)
    }

    /// Relies on `Family::get` and `Counter::get`: `None` exactly where no
    /// series exists under these labels, else the series' current value.
    #[verifier::external_body]
    fn failures_of_raw(&self, key: &Vec<(String, String)>) -> (r: Option<u64>)
        requires
            labels_wf(key@),
        ensures
            failure_series(*self).contains_key(labels_key(key@)) ==> r == Some(
                failure_series(*self)[labels_key(key@)],
            ),
            !failure_series(*self).contains_key(labels_key(key@)) ==> r is None,
    {
        match self.request_fail.get(key) {
            Some(c) => Some(c.get()),
            None => None,
        }
    }

    /// The failure count for one identity, or `None` where no such series
    /// exists.
    pub fn failures_of(&self, device: &str, name: &str, ip: &str) -> (r: Option<u64>)
        ensures
            failure_series(*self).contains_key((device@, name@, ip@)) ==> r == Some(
                failure_series(*self)[(device@, name@, ip@)],
            ),
            !failure_series(*self).contains_key((device@, name@, ip@)) ==> r is None,
    {
        let key = label_pairs(device, name, ip);
        self.failures_of_raw(&key)
    }

    /// Relies on `prometheus_client::encoding::text::encode`: renders the
    /// registry's current values in the text exposition format.  The walk
    /// order of the series is not promised, and a statement that each held
    /// series appears as a sample line would have to spell out the renderer's
    /// whole format, so nothing is stated of the result; the tests exercise
    /// it on known contents instead.
    #[verifier::external_body]
    pub fn encode_text(&self) -> String {
        let mut out = String::new();
        let _ = encode(&mut out, &self.registry);
        out
    }
}

/// A failed sub-request strictly increases the failure count of the identity
/// it happened to — by exactly one — and touches no other identity's count,
/// so long as the counter has not exhausted its machine range (at which the
/// underlying atomic wraps).
pub proof fn lemma_failure_strictly_increases(m: Map<SeriesKey, u64>, k: SeriesKey)
    requires
        (if m.contains_key(k) {
            m[k]
        } else {
            0u64
        }) < u64::MAX,
    ensures
        bumped(m, k).contains_key(k),
        bumped(m, k)[k] == (if m.contains_key(k) {
            m[k]
        } else {
            0u64
        }) + 1,
        bumped(m, k)[k] > (if m.contains_key(k) {
            m[k]
        } else {
            0u64
        }),
        forall|k2: SeriesKey|
            k2 != k && m.contains_key(k2) ==> bumped(m, k).contains_key(k2) && bumped(m, k)[k2]
                == m[k2],
{
}

/// Any failed round grows the identity's failure count by exactly the number
/// of failed sub-requests — one for a failed open or a single failed read,
/// two where both reads failed — so long as the counter keeps headroom below
/// its machine bound, at which the underlying atomic wraps.
pub proof fn lemma_failed_round_accounting(
    m: Map<SeriesKey, u64>,
    k: SeriesKey,
    power_failed: bool,
    state_failed: bool,
)
    requires
        power_failed || state_failed,
        (if m.contains_key(k) {
            m[k]
        } else {
            0u64
        }) < u64::MAX - 1,
    ensures
        ({
            let cur = if m.contains_key(k) {
                m[k]
            } else {
                0u64
            };
            let after = if power_failed && state_failed {
                bumped(bumped(m, k), k)
            } else {
                bumped(m, k)
            };
            let failed: int = if power_failed && state_failed {
                2
            } else {
                1
            };
            after[k] == cur + failed
        }),
{
}

/// Series creation is idempotent on identity: creating the series for a label
/// set that already has one changes nothing.  Every get-or-create for one
/// identity therefore addresses the same underlying series, and a value
/// written through one access is the value read back through the next.
pub proof fn lemma_series_reuse(m: Map<SeriesKey, i64>, k: SeriesKey, v: i64)
    ensures
        with_default_gauge(with_default_gauge(m, k), k) == with_default_gauge(m, k),
        with_default_gauge(m, k).contains_key(k),
        with_default_gauge(m, k).insert(k, v)[k] == v,
{
}

/// One collector's write touches no other identity's series: an update keyed
/// by one label set leaves every other label set's presence and value as they
/// were.
pub proof fn lemma_write_isolation(m: Map<SeriesKey, i64>, k: SeriesKey, v: i64, k2: SeriesKey)
    requires
        k2 != k,
    ensures
        m.insert(k, v).contains_key(k2) == m.contains_key(k2),
        m.contains_key(k2) ==> m.insert(k, v)[k2] == m[k2],
{
}

} // verus!
