//! Line-protocol encoding and request building for a time-series database
//! that speaks either the legacy (1.x) or the current (2.x) write API.

pub mod line;
pub mod settings;
pub mod sorted;
pub mod text;
pub mod uri;

pub use sorted::{inserted, key_less, key_lt, keys_ascending, SortedMap};
pub use text::{encode_string, escaped, needs_escape};
pub use line::{
    encode_fields, encode_namespace, encode_tags, encode_timestamp, influx_line_protocol, timestamp_or,
    Field,
};
pub use uri::{encode_uri, uri_string, UriParseError};
pub use settings::{
    healthcheck_request_uri, healthcheck_status, influxdb_settings, ConfigError, HealthcheckError,
    HealthcheckSetupError, InfluxDB1Settings, InfluxDB2Settings, InfluxDBSettings,
};
