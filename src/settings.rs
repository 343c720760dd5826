//! The two generations of the write API and how a profile is resolved from
//! their settings.

use vstd::prelude::*;

use crate::uri::{
    encode_uri, form_pair, joined_path, present_pairs, uri_accepts, uri_string, uri_text,
    UriParseError,
};
use http::Uri;

verus! {

/// Settings of the legacy (1.x) API.
#[derive(Debug, Clone)]
pub struct InfluxDB1Settings {
    pub database: String,
    pub consistency: Option<String>,
    pub retention_policy_name: Option<String>,
    pub username: Option<String>,
    pub password: Option<String>,
}

/// Settings of the current (2.x) API.
#[derive(Debug, Clone)]
pub struct InfluxDB2Settings {
    pub org: String,
    pub bucket: String,
    pub token: String,
}

/// The API profile of a sink: the one generation of the API that it writes to.
#[derive(Debug, Clone)]
pub enum InfluxDBSettings {
    V1(InfluxDB1Settings),
    V2(InfluxDB2Settings),
}

/// Why no profile could be resolved.
#[derive(Debug)]
pub enum ConfigError {
    /// Neither generation is configured.
    MissingConfiguration,
    /// Both generations are configured.
    BothConfiguration { v1_settings: InfluxDB1Settings, v2_settings: InfluxDB2Settings },
}

/// A query pair where its value is present, nothing where it is absent.
pub open spec fn optional_pair(key: Seq<char>, value: Option<String>) -> Seq<(Seq<char>, Seq<char>)> {
    match value {
        Some(v) => seq![(key, v@)],
        None => Seq::empty(),
    }
}

/// The query of a legacy write: `consistency`, `db`, `rp`, `p`, `u`,
/// `precision=ns`, absent values left out.
pub open spec fn v1_write_query(s: InfluxDB1Settings) -> Seq<(Seq<char>, Seq<char>)> {
    optional_pair("consistency"@, s.consistency) + seq![("db"@, s.database@)] + optional_pair(
        "rp"@,
        s.retention_policy_name,
    ) + optional_pair("p"@, s.password) + optional_pair("u"@, s.username) + seq![
        ("precision"@, "ns"@),
    ]
}

/// The query of a current write: `org`, `bucket`, `precision=ns`.
pub open spec fn v2_write_query(s: InfluxDB2Settings) -> Seq<(Seq<char>, Seq<char>)> {
    seq![("org"@, s.org@), ("bucket"@, s.bucket@), ("precision"@, "ns"@)]
}

/// The path of the write endpoint of a profile.
pub open spec fn write_path(p: InfluxDBSettings) -> Seq<char> {
    match p {
        InfluxDBSettings::V1(_) => "write"@,
        InfluxDBSettings::V2(_) => "api/v2/write"@,
    }
}

/// The path of the health endpoint of a profile.
pub open spec fn health_path(p: InfluxDBSettings) -> Seq<char> {
    match p {
        InfluxDBSettings::V1(_) => "ping"@,
        InfluxDBSettings::V2(_) => "health"@,
    }
}

/// The query of a write under a profile.
pub open spec fn write_query(p: InfluxDBSettings) -> Seq<(Seq<char>, Seq<char>)> {
    match p {
        InfluxDBSettings::V1(s) => v1_write_query(s),
        InfluxDBSettings::V2(s) => v2_write_query(s),
    }
}

/// The text of the write URI of a profile under `endpoint`.
pub open spec fn write_uri_text(p: InfluxDBSettings, endpoint: Seq<char>) -> Seq<char> {
    uri_text(endpoint, write_path(p), write_query(p))
}

/// The text of the health URI of a profile under `endpoint`: no query.
pub open spec fn health_uri_text(p: InfluxDBSettings, endpoint: Seq<char>) -> Seq<char> {
    uri_text(endpoint, health_path(p), Seq::empty())
}

/// The outcome of resolving the two optional settings.
pub open spec fn resolved(
    v1: Option<InfluxDB1Settings>,
    v2: Option<InfluxDB2Settings>,
) -> Result<InfluxDBSettings, ConfigError> {
    match (v1, v2) {
        (Some(a), Some(b)) => Err(ConfigError::BothConfiguration { v1_settings: a, v2_settings: b }),
        (None, None) => Err(ConfigError::MissingConfiguration),
        (Some(a), None) => Ok(InfluxDBSettings::V1(a)),
        (None, Some(b)) => Ok(InfluxDBSettings::V2(b)),
    }
}

/// A copy of an optional string.
fn copied(o: &Option<String>) -> (r: Option<String>)
    ensures
        r == *o,
{
    match o {
        Some(s) => Some(s.clone()),
        None => None,
    }
}

impl InfluxDB1Settings {
    /// The query pairs of a write, in order, each value present or not.
    fn write_pairs(&self) -> (r: [(&'static str, Option<String>); 6])
        ensures
            present_pairs(r@) == v1_write_query(*self),
    {
        let r = [
            ("consistency", copied(&self.consistency)),
            ("db", Some(self.database.clone())),
            ("rp", copied(&self.retention_policy_name)),
            ("p", copied(&self.password)),
            ("u", copied(&self.username)),
            ("precision", Some(String::from_str("ns"))),
        ];
        proof {
            reveal_with_fuel(present_pairs, 7);
            assert(r@ == seq![r[0], r[1], r[2], r[3], r[4], r[5]]);
            assert(present_pairs(r@) =~= v1_write_query(*self));
        }
        r
    }

    /// The text of the write URI under `endpoint`.
    pub fn write_uri_string(&self, endpoint: String) -> (r: String)
        ensures
            r@ == write_uri_text(InfluxDBSettings::V1(*self), endpoint@),
    {
        let pairs = self.write_pairs();
        uri_string(endpoint.as_str(), "write", &pairs)
    }

    /// The write URI under `endpoint`, with the query of a legacy write.
    pub fn write_uri(&self, endpoint: String) -> (r: Result<Uri, UriParseError>)
        ensures
            r is Ok <==> uri_accepts(write_uri_text(InfluxDBSettings::V1(*self), endpoint@)),
    {
        let pairs = self.write_pairs();
        encode_uri(endpoint.as_str(), "write", &pairs)
    }

    /// The health URI under `endpoint`: the `ping` path.
    pub fn healthcheck_uri(&self, endpoint: String) -> (r: Result<Uri, UriParseError>)
        ensures
            r is Ok <==> uri_accepts(health_uri_text(InfluxDBSettings::V1(*self), endpoint@)),
    {
        let pairs: [(&str, Option<String>); 0] = [];
        proof {
            assert(pairs@ == Seq::<(&str, Option<String>)>::empty());
        }
        encode_uri(endpoint.as_str(), "ping", &pairs)
    }

    /// The bearer token: none is needed, so it is empty.
    pub fn token(&self) -> (r: String)
        ensures
            r@ == Seq::<char>::empty(),
    {
        String::new()
    }
}

impl InfluxDB2Settings {
    /// The query pairs of a write, in order.
    fn write_pairs(&self) -> (r: [(&'static str, Option<String>); 3])
        ensures
            present_pairs(r@) == v2_write_query(*self),
    {
        let r = [
            ("org", Some(self.org.clone())),
            ("bucket", Some(self.bucket.clone())),
            ("precision", Some(String::from_str("ns"))),
        ];
        proof {
            reveal_with_fuel(present_pairs, 4);
            assert(r@ == seq![r[0], r[1], r[2]]);
            assert(present_pairs(r@) =~= v2_write_query(*self));
        }
        r
    }

    /// The text of the write URI under `endpoint`.
    pub fn write_uri_string(&self, endpoint: String) -> (r: String)
        ensures
            r@ == write_uri_text(InfluxDBSettings::V2(*self), endpoint@),
    {
        let pairs = self.write_pairs();
        uri_string(endpoint.as_str(), "api/v2/write", &pairs)
    }

    /// The write URI under `endpoint`, with the query of a current write.
    pub fn write_uri(&self, endpoint: String) -> (r: Result<Uri, UriParseError>)
        ensures
            r is Ok <==> uri_accepts(write_uri_text(InfluxDBSettings::V2(*self), endpoint@)),
    {
        let pairs = self.write_pairs();
        encode_uri(endpoint.as_str(), "api/v2/write", &pairs)
    }

    /// The health URI under `endpoint`: the `health` path.
    pub fn healthcheck_uri(&self, endpoint: String) -> (r: Result<Uri, UriParseError>)
        ensures
            r is Ok <==> uri_accepts(health_uri_text(InfluxDBSettings::V2(*self), endpoint@)),
    {
        let pairs: [(&str, Option<String>); 0] = [];
        proof {
            assert(pairs@ == Seq::<(&str, Option<String>)>::empty());
        }
        encode_uri(endpoint.as_str(), "health", &pairs)
    }

    /// The bearer token of the current API.
    pub fn token(&self) -> (r: String)
        ensures
            r@ == self.token@,
    {
        self.token.clone()
    }
}

impl InfluxDBSettings {
    /// The text of the write URI under `endpoint`.
    pub fn write_uri_string(&self, endpoint: String) -> (r: String)
        ensures
            r@ == write_uri_text(*self, endpoint@),
    {
        match self {
            InfluxDBSettings::V1(s) => s.write_uri_string(endpoint),
            InfluxDBSettings::V2(s) => s.write_uri_string(endpoint),
        }
    }

    /// The write URI under `endpoint`.
    pub fn write_uri(&self, endpoint: String) -> (r: Result<Uri, UriParseError>)
        ensures
            r is Ok <==> uri_accepts(write_uri_text(*self, endpoint@)),
    {
        match self {
            InfluxDBSettings::V1(s) => s.write_uri(endpoint),
            InfluxDBSettings::V2(s) => s.write_uri(endpoint),
        }
    }

    /// The health URI under `endpoint`.
    pub fn healthcheck_uri(&self, endpoint: String) -> (r: Result<Uri, UriParseError>)
        ensures
            r is Ok <==> uri_accepts(health_uri_text(*self, endpoint@)),
    {
        match self {
            InfluxDBSettings::V1(s) => s.healthcheck_uri(endpoint),
            InfluxDBSettings::V2(s) => s.healthcheck_uri(endpoint),
        }
    }

    /// The bearer token: empty for the legacy API.
    pub fn token(&self) -> (r: String)
        ensures
            r@ == match *self {
                InfluxDBSettings::V1(_) => Seq::<char>::empty(),
                InfluxDBSettings::V2(s) => s.token@,
            },
    {
        match self {
            InfluxDBSettings::V1(s) => s.token(),
            InfluxDBSettings::V2(s) => s.token(),
        }
    }
}

/// The profile of the one generation that is configured; an error where both
/// or neither are.
pub fn influxdb_settings(
    influxdb1_settings: Option<InfluxDB1Settings>,
    influxdb2_settings: Option<InfluxDB2Settings>,
) -> (r: Result<InfluxDBSettings, ConfigError>)
    ensures
        r == resolved(influxdb1_settings, influxdb2_settings),
{
    match (influxdb1_settings, influxdb2_settings) {
        (Some(a), Some(b)) => Err(ConfigError::BothConfiguration { v1_settings: a, v2_settings: b }),
        (None, None) => Err(ConfigError::MissingConfiguration),
        (Some(a), None) => Ok(InfluxDBSettings::V1(a)),
        (None, Some(b)) => Ok(InfluxDBSettings::V2(b)),
    }
}

/// Both settings, or neither, never resolve to a profile: both give
/// `BothConfiguration` carrying the two, neither gives `MissingConfiguration`.
pub proof fn lemma_resolve_ambiguous(v1: Option<InfluxDB1Settings>, v2: Option<InfluxDB2Settings>)
    requires
        v1 is Some <==> v2 is Some,
    ensures
        resolved(v1, v2) is Err,
        v1 is Some ==> resolved(v1, v2) == Err::<InfluxDBSettings, ConfigError>(
            ConfigError::BothConfiguration { v1_settings: v1->0, v2_settings: v2->0 },
        ),
        v1 is None ==> resolved(v1, v2) == Err::<InfluxDBSettings, ConfigError>(
            ConfigError::MissingConfiguration,
        ),
{
}

/// Legacy settings alone always resolve, and the write URI of the profile
/// carries the form-encoded query of the pairs `consistency`, `db`, `rp`,
/// `p`, `u`, `precision=ns` in that order, each absent value left out.
pub proof fn lemma_legacy_write_query(s: InfluxDB1Settings, endpoint: Seq<char>)
    ensures
        resolved(Some(s), None) == Ok::<InfluxDBSettings, ConfigError>(InfluxDBSettings::V1(s)),
        write_uri_text(resolved(Some(s), None)->Ok_0, endpoint) == uri_text(
            endpoint,
            "write"@,
            optional_pair("consistency"@, s.consistency) + seq![("db"@, s.database@)]
                + optional_pair("rp"@, s.retention_policy_name) + optional_pair("p"@, s.password)
                + optional_pair("u"@, s.username) + seq![("precision"@, "ns"@)],
        ),
{
}

/// Current settings alone always resolve, and the write URI of the profile
/// is the endpoint, the write path, `?` and the query `org=..`, `bucket=..`,
/// `precision=ns`, in that order and joined by `&`.
pub proof fn lemma_current_write_query(s: InfluxDB2Settings, endpoint: Seq<char>)
    ensures
        resolved(None, Some(s)) == Ok::<InfluxDBSettings, ConfigError>(InfluxDBSettings::V2(s)),
        write_uri_text(resolved(None, Some(s))->Ok_0, endpoint) == uri_text(
            endpoint,
            "api/v2/write"@,
            seq![("org"@, s.org@), ("bucket"@, s.bucket@), ("precision"@, "ns"@)],
        ),
        write_uri_text(resolved(None, Some(s))->Ok_0, endpoint) == joined_path(
            endpoint,
            "api/v2/write"@,
        ) + seq!['?'] + form_pair(("org"@, s.org@)) + seq!['&'] + form_pair(("bucket"@, s.bucket@))
            + seq!['&'] + form_pair(("precision"@, "ns"@)),
{
    let q = seq![("org"@, s.org@), ("bucket"@, s.bucket@), ("precision"@, "ns"@)];
    assert(q.drop_last() == seq![("org"@, s.org@), ("bucket"@, s.bucket@)]);
    assert(q.drop_last().drop_last() == seq![("org"@, s.org@)]);
    reveal_with_fuel(crate::uri::form_urlencoded_of, 3);
}

/// Why the target of a health check could not be built.
#[derive(Debug)]
pub enum HealthcheckSetupError {
    Config(ConfigError),
    Uri(UriParseError),
}

/// The URI that a health check asks: the health endpoint of the resolved
/// profile under `endpoint`.
pub fn healthcheck_request_uri(
    endpoint: String,
    influxdb1_settings: Option<InfluxDB1Settings>,
    influxdb2_settings: Option<InfluxDB2Settings>,
) -> (r: Result<Uri, HealthcheckSetupError>)
    ensures
        resolved(influxdb1_settings, influxdb2_settings) is Err ==> r == Err::<
            Uri,
            HealthcheckSetupError,
        >(HealthcheckSetupError::Config(resolved(influxdb1_settings, influxdb2_settings)->Err_0)),
        resolved(influxdb1_settings, influxdb2_settings) is Ok ==> (r is Ok <==> uri_accepts(
            health_uri_text(resolved(influxdb1_settings, influxdb2_settings)->Ok_0, endpoint@),
        )),
        resolved(influxdb1_settings, influxdb2_settings) is Ok ==> !(r matches Err(
            HealthcheckSetupError::Config(_),
        )),
{
    let settings = match influxdb_settings(influxdb1_settings, influxdb2_settings) {
        Ok(s) => s,
        Err(e) => return Err(HealthcheckSetupError::Config(e)),
    };
    match settings.healthcheck_uri(endpoint) {
        Ok(uri) => Ok(uri),
        Err(e) => Err(HealthcheckSetupError::Uri(e)),
    }
}

/// A health response that is not a success.
#[derive(Debug)]
pub enum HealthcheckError {
    UnexpectedStatus { status: u16 },
}

/// How a health response is classified by its status: 200 and 204 are
/// success, every other status is unexpected.
pub fn healthcheck_status(status: u16) -> (r: Result<(), HealthcheckError>)
    ensures
        (status == 200 || status == 204) ==> r is Ok,
        !(status == 200 || status == 204) ==> r == Err::<(), HealthcheckError>(
            HealthcheckError::UnexpectedStatus { status },
        ),
{
    if status == 200 || status == 204 {
        Ok(())
    } else {
        Err(HealthcheckError::UnexpectedStatus { status })
    }
}

} // verus!
