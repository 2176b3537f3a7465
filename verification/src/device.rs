use vstd::prelude::*;

use crate::config;
use crate::metrics::bumped;
use crate::metrics::failure_series;
use crate::metrics::power_series;
use crate::metrics::state_series;
use crate::metrics::with_default_counter;
use crate::metrics::with_default_gauge;
use crate::metrics::Metrics;
use crate::metrics::SeriesKey;

verus! {

/// The closed set of supported plug models.  Each maps to a distinct vendor
/// handshake but the same two read operations afterward.
#[derive(Debug, Clone, Copy, Hash, PartialEq, Eq, Structural)]
pub enum DeviceType {
    P110,
    P115,
}

impl DeviceType {
    /// The label value identifying this model in a metric label set.
    pub open spec fn label_spec(self) -> Seq<char> {
        match self {
            DeviceType::P110 => "P110"@,
            DeviceType::P115 => "P115"@,
        }
    }

    /// The model tag as it appears in the exported labels.
    pub fn label(&self) -> (s: &str)
        ensures
            s@ == self.label_spec(),
    {
        match self {
            DeviceType::P110 => "P110",
            DeviceType::P115 => "P115",
        }
    }
}

/// The login a collector authenticates its device with.  An opaque secret:
/// nothing here renders or logs it.
#[derive(Clone)]
pub struct Credential {
    pub username: String,
    pub password: String,
}

impl From<config::Credential> for Credential {
    fn from(value: config::Credential) -> Self {
        Credential { username: value.username, password: value.password }
    }
}

impl vstd::std_specs::convert::FromSpecImpl<config::Credential> for Credential {
    open spec fn obeys_from_spec() -> bool {
        true
    }

    open spec fn from_spec(t: config::Credential) -> Self {
        Credential { username: t.username, password: t.password }
    }
}

/// The immutable identity of one physical device: the key into every metric
/// family.  Created once from configuration, never mutated.
#[derive(Debug, Clone, Hash, PartialEq, Eq)]
pub struct Labels {
    pub device: DeviceType,
    pub name: String,
    pub ip: String,
}

impl Labels {
    /// The key under which this identity's series stand in every family.
    pub open spec fn key(self) -> SeriesKey {
        (self.device.label_spec(), self.name@, self.ip@)
    }
}

impl From<config::Device> for Labels {
    fn from(value: config::Device) -> Self {
        Labels { device: value.device, name: value.name, ip: value.ip }
    }
}

impl vstd::std_specs::convert::FromSpecImpl<config::Device> for Labels {
    open spec fn obeys_from_spec() -> bool {
        true
    }

    open spec fn from_spec(t: config::Device) -> Self {
        Labels { device: t.device, name: t.name, ip: t.ip }
    }
}

/// The per-device owner of polling state: a stable identity, the login, and
/// the lazily held client for the device's session.
///
/// `client` is `None` exactly while the collector is unconnected.  The type
/// is generic over the session handle `S`, which only the network edge can
/// produce; the collector itself never looks inside it.
pub struct Collector<S> {
    pub labels: Labels,
    pub credential: Credential,
    pub client: Option<S>,
}

impl<S> Collector<S> {
    /// Builds the collector for one configured device and binds its three
    /// series in the shared registry: each appears at its default if absent
    /// and is left in place if an earlier collector with the same identity
    /// already created it.  The collector starts unconnected.
    pub fn new(
        metrics: &mut Metrics,
        device: config::Device,
        credential: config::Credential,
    ) -> (c: Self)
        ensures
            (c.labels == Labels { device: device.device, name: device.name, ip: device.ip }),
            (c.credential == Credential {
                username: credential.username,
                password: credential.password,
            }),
            c.client is None,
            power_series(*final (metrics)) == with_default_gauge(
                power_series(*old(metrics)),
                c.labels.key(),
            ),
            state_series(*final (metrics)) == with_default_gauge(
                state_series(*old(metrics)),
                c.labels.key(),
            ),
            failure_series(*final (metrics)) == with_default_counter(
                failure_series(*old(metrics)),
                c.labels.key(),
            ),
    {
        let labels = Labels::from(device);
        let model = labels.device.label();
        metrics.create_series(model, &labels.name, &labels.ip);
        Collector { labels, credential: Credential::from(credential), client: None }
    }

    /// Whether the collector currently holds a client.
    pub fn has_client(&self) -> (b: bool)
        ensures
            b == (self.client is Some),
    {
        self.client.is_some()
    }

    /// A borrow of the held client, for issuing the round's read requests;
    /// `None` while unconnected.
    pub fn client_ref(&self) -> (r: Option<&S>)
        ensures
            (match r {
                Some(c) => self.client == Some(*c),
                None => self.client is None,
            }),
    {
        match &self.client {
            Some(c) => Some(c),
            None => None,
        }
    }

    /// Adopts a freshly opened client.  Only an unconnected collector opens,
    /// so only an unconnected one installs.
    pub fn install_client(&mut self, client: S)
        requires
            old(self).client is None,
        ensures
            final (self).labels == old(self).labels,
            final (self).credential == old(self).credential,
            final (self).client == Some(client),
    {
        self.client = Some(client);
    }

    /// Records a failed open: the failure count of this identity grows by
    /// one, no gauge is written, and the collector stays unconnected — the
    /// next round will retry the handshake.
    pub fn record_connect_failure(&self, metrics: &mut Metrics)
        requires
            self.client is None,
        ensures
            failure_series(*final (metrics)) == bumped(
                failure_series(*old(metrics)),
                self.labels.key(),
            ),
            power_series(*final (metrics)) == power_series(*old(metrics)),
            state_series(*final (metrics)) == state_series(*old(metrics)),
    {
        let model = self.labels.device.label();
        metrics.inc_request_fail(model, &self.labels.name, &self.labels.ip);
    }

    /// Applies one round's read outcomes to the shared registry.  `power` is
    /// the power draw in milliwatts if that read succeeded; `device_on` the
    /// reported switch state if that read succeeded; `None` marks a failed
    /// sub-request.
    ///
    /// A successful sub-request refreshes exactly its own gauge; a failed one
    /// leaves the gauge at its pre-round value and counts one failure.  Both
    /// sub-requests are accounted independently, so partial data stays fresh.
    /// The client survives exactly a fully successful round; any sub-failure
    /// discards it so the next round reconnects, and no other identity's
    /// series is touched in any case.
    pub fn collect(&mut self, metrics: &mut Metrics, power: Option<i64>, device_on: Option<bool>)
        requires
            old(self).client is Some,
        ensures
            final (self).labels == old(self).labels,
            final (self).credential == old(self).credential,
            (match power {
                Some(p) => power_series(*final (metrics)) == power_series(*old(metrics)).insert(
                    old(self).labels.key(),
                    p,
                ),
                None => power_series(*final (metrics)) == power_series(*old(metrics)),
            }),
            (match device_on {
                Some(on) => state_series(*final (metrics)) == state_series(*old(metrics)).insert(
                    old(self).labels.key(),
                    if on {
                        1i64
                    } else {
                        0i64
                    },
                ),
                None => state_series(*final (metrics)) == state_series(*old(metrics)),
            }),
            failure_series(*final (metrics)) == (if power is Some && device_on is Some {
                failure_series(*old(metrics))
            } else if power is None && device_on is None {
                bumped(
                    bumped(failure_series(*old(metrics)), old(self).labels.key()),
                    old(self).labels.key(),
                )
            } else {
                bumped(failure_series(*old(metrics)), old(self).labels.key())
            }),
            (final (self).client is Some) == (power is Some && device_on is Some),
            power is Some && device_on is Some ==> final (self).client == old(self).client,
    {
        let model = self.labels.device.label();
        match power {
            Some(p) => metrics.set_energy(model, &self.labels.name, &self.labels.ip, p),
            None => metrics.inc_request_fail(model, &self.labels.name, &self.labels.ip),
        }
        match device_on {
            Some(true) => metrics.set_device_on(model, &self.labels.name, &self.labels.ip, 1),
            Some(false) => metrics.set_device_on(model, &self.labels.name, &self.labels.ip, 0),
            None => metrics.inc_request_fail(model, &self.labels.name, &self.labels.ip),
        }
        if power.is_none() || device_on.is_none() {
            self.client = None;
        }
    }
}

/// Recovery needs no manual reset: a collector whose last round failed holds
/// no client and keeps its identity, so it is exactly one successful open —
/// one `install_client` on the next round — away from being connected again.
pub proof fn lemma_recovery<S>(c: Collector<S>, fresh_client: S)
    requires
        c.client is None,
    ensures
        (Collector { client: Some(fresh_client), ..c }).client is Some,
        (Collector { client: Some(fresh_client), ..c }).labels == c.labels,
        (Collector { client: Some(fresh_client), ..c }).credential == c.credential,
{
}

} // verus!
