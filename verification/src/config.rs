//! Bridge configuration: two broker endpoints and the shared subject.
//!
//! Endpoints left blank fall back to well-known localhost values; the
//! subject has no default and must be non-empty. Both forwarding
//! directions read the same immutable configuration value.

use vstd::prelude::*;

verus! {

/// Why a configuration was rejected.
#[derive(Clone, Copy, Debug, PartialEq, Eq)]
pub enum ConfigError {
    /// The subject was empty; it has no default value.
    EmptySubject,
}

/// The immutable configuration both forwarding directions share.
pub struct BridgeConfig {
    /// Where the subject-addressed bus is reached.
    pub bus_endpoint: String,
    /// Where the log broker is reached.
    pub log_endpoint: String,
    /// The one subject/topic name relayed in both directions.
    pub subject: String,
}

/// Well-known fallback for a blank bus endpoint.
pub open spec fn default_bus_endpoint_spec() -> Seq<char> {
    "nats://localhost:4222"@
}

/// Well-known fallback for a blank log endpoint.
pub open spec fn default_log_endpoint_spec() -> Seq<char> {
    "localhost:9092"@
}

/// What an endpoint field resolves to: the fallback when the given
/// value is blank, otherwise the given value itself.
pub open spec fn resolved_endpoint(given: Seq<char>, fallback: Seq<char>) -> Seq<char> {
    if given.len() == 0 {
        fallback
    } else {
        given
    }
}

impl BridgeConfig {
    /// A configuration is well formed when all three of its fields
    /// are non-empty.
    pub open spec fn wf(self) -> bool {
        &&& self.bus_endpoint@.len() > 0
        &&& self.log_endpoint@.len() > 0
        &&& self.subject@.len() > 0
    }

    /// Builds the configuration: blank endpoints fall back to the
    /// well-known localhost values, and an empty subject — which has
    /// no default — is rejected.
    pub fn new(bus_endpoint: String, log_endpoint: String, subject: String) -> (r: Result<
        BridgeConfig,
        ConfigError,
    >)
        ensures
            r is Err <==> subject@.len() == 0,
            r matches Err(e) ==> e == ConfigError::EmptySubject,
            r matches Ok(c) ==> {
                &&& c.wf()
                &&& c.subject@ == subject@
                &&& c.bus_endpoint@ == resolved_endpoint(bus_endpoint@, default_bus_endpoint_spec())
                &&& c.log_endpoint@ == resolved_endpoint(log_endpoint@, default_log_endpoint_spec())
            },
    {
        if subject.as_str().is_empty() {
            return Err(ConfigError::EmptySubject);
        }
        let bus_endpoint: String = if bus_endpoint.as_str().is_empty() {
            proof {
                reveal_strlit("nats://localhost:4222");
            }
            "nats://localhost:4222".to_owned()
        } else {
            bus_endpoint
        };
        let log_endpoint: String = if log_endpoint.as_str().is_empty() {
            proof {
                reveal_strlit("localhost:9092");
            }
            "localhost:9092".to_owned()
        } else {
            log_endpoint
        };
        Ok(BridgeConfig { bus_endpoint, log_endpoint, subject })
    }
}

} // verus!
