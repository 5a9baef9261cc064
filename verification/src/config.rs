//! Settings of the connection pool.

use vstd::prelude::*;
use vstd::std_specs::cmp::PartialEqSpecImpl;
use crate::error::{DatabaseError, DatabaseResult, ErrorView};
use crate::text::{decimal, decimal_text, has_prefix, signed_decimal, signed_text, starts_with};

verus! {

/// A span of time of the `chrono` crate.
#[verifier::external_type_specification]
#[verifier::external_body]
pub struct ExTimeDelta(chrono::TimeDelta);

/// The span of time that `chrono` makes of a number of whole seconds.
pub uninterp spec fn span_of_seconds(seconds: i64) -> chrono::TimeDelta;

/// The most seconds, in either direction, that a span of time holds.
pub open spec fn span_limit() -> int {
    9_223_372_036_854_775
}

/// `chrono::TimeDelta::seconds`: the span of that many whole seconds. It
/// panics beyond `i64::MAX / 1000` seconds in either direction, so those
/// are left out; within them the same number always gives the same span.
#[verifier::external_body]
fn span(seconds: i64) -> (d: chrono::TimeDelta)
    requires
        -span_limit() <= seconds <= span_limit(),
    ensures
        d == span_of_seconds(seconds),
{
    chrono::TimeDelta::seconds(seconds)
}

/// Settings of the connection pool.
#[derive(Debug)]
pub struct DatabaseConfig {
    /// Where the database is.
    pub url: String,
    /// The most connections that the pool holds.
    pub max_connections: u32,
    /// The fewest connections that the pool keeps open.
    pub min_connections: u32,
    /// How long to wait for a connection, in seconds.
    pub acquire_timeout_seconds: i64,
    /// How long a connection may idle, in seconds; zero for no limit.
    pub idle_timeout_seconds: i64,
    /// How long a connection may live, in seconds; zero for no limit.
    pub max_lifetime_seconds: i64,
}

/// The text of the default database address.
pub open spec fn default_url() -> Seq<char> {
    "sqlite:./personal-ledger.sqlite"@
}

/// The message for a pool whose maximum is below its minimum.
pub open spec fn bounds_message(max: u32, min: u32) -> Seq<char> {
    "max_connections ("@ + decimal_text(max as nat) + ") must be >= min_connections ("@
        + decimal_text(min as nat) + ")"@
}

impl DatabaseConfig {
    /// The settings are the defaults.
    pub open spec fn is_default(&self) -> bool {
        &&& self.url@ == default_url()
        &&& self.max_connections == 10
        &&& self.min_connections == 1
        &&& self.acquire_timeout_seconds == 30
        &&& self.idle_timeout_seconds == 600
        &&& self.max_lifetime_seconds == 1800
    }

    /// Two settings hold the same values.
    pub open spec fn same_as(&self, other: &DatabaseConfig) -> bool {
        &&& self.url@ == other.url@
        &&& self.max_connections == other.max_connections
        &&& self.min_connections == other.min_connections
        &&& self.acquire_timeout_seconds == other.acquire_timeout_seconds
        &&& self.idle_timeout_seconds == other.idle_timeout_seconds
        &&& self.max_lifetime_seconds == other.max_lifetime_seconds
    }

    /// The first rule that the settings break, as the message that says so;
    /// none when they break no rule.
    pub open spec fn complaint(&self) -> Option<Seq<char>> {
        if self.max_connections < self.min_connections {
            Some(bounds_message(self.max_connections, self.min_connections))
        } else if self.acquire_timeout_seconds <= 0 {
            Some("acquire_timeout_seconds must be positive"@)
        } else if self.idle_timeout_seconds < 0 {
            Some("idle_timeout_seconds must be non-negative"@)
        } else if self.max_lifetime_seconds < 0 {
            Some("max_lifetime_seconds must be non-negative"@)
        } else if !has_prefix(self.url@, "sqlite:"@) {
            Some("URL must start with 'sqlite:'"@)
        } else {
            None
        }
    }

    /// Where the database is.
    pub fn url(&self) -> (url: &str)
        ensures
            url@ == self.url@,
    {
        self.url.as_str()
    }

    /// The most connections that the pool holds.
    pub fn max_connections(&self) -> (n: u32)
        ensures
            n == self.max_connections,
    {
        self.max_connections
    }

    /// The fewest connections that the pool keeps open.
    pub fn min_connections(&self) -> (n: u32)
        ensures
            n == self.min_connections,
    {
        self.min_connections
    }

    /// How long to wait for a connection.
    pub fn acquire_timeout(&self) -> (d: chrono::TimeDelta)
        requires
            -span_limit() <= self.acquire_timeout_seconds <= span_limit(),
        ensures
            d == span_of_seconds(self.acquire_timeout_seconds),
    {
        span(self.acquire_timeout_seconds)
    }

    /// How long a connection may idle; none when the setting is not
    /// positive.
    pub fn idle_timeout(&self) -> (d: Option<chrono::TimeDelta>)
        requires
            self.idle_timeout_seconds <= span_limit(),
        ensures
            d == if self.idle_timeout_seconds > 0 {
                Some(span_of_seconds(self.idle_timeout_seconds))
            } else {
                None
            },
    {
        if self.idle_timeout_seconds > 0 {
            Some(span(self.idle_timeout_seconds))
        } else {
            None
        }
    }

    /// How long a connection may live; none when the setting is not
    /// positive.
    pub fn max_lifetime(&self) -> (d: Option<chrono::TimeDelta>)
        requires
            self.max_lifetime_seconds <= span_limit(),
        ensures
            d == if self.max_lifetime_seconds > 0 {
                Some(span_of_seconds(self.max_lifetime_seconds))
            } else {
                None
            },
    {
        if self.max_lifetime_seconds > 0 {
            Some(span(self.max_lifetime_seconds))
        } else {
            None
        }
    }

    /// Checks the settings against their rules, in this order: the maximum
    /// of connections is not below the minimum; the acquire timeout is
    /// positive; the idle timeout and the lifetime are not negative; the
    /// address starts with `sqlite:`. The first rule that is broken comes
    /// back as a `Validation` error.
    pub fn validate(&self) -> (result: DatabaseResult<()>)
        ensures
            match self.complaint() {
                None => result is Ok,
                Some(message) => result matches Err(e) && e@ == ErrorView::Validation(message),
            },
    {
        if self.max_connections < self.min_connections {
            let max = decimal(self.max_connections as u64);
            let min = decimal(self.min_connections as u64);
            let message = String::from_str("max_connections (").concat(max.as_str()).concat(
                ") must be >= min_connections (",
            ).concat(min.as_str()).concat(")");
            return Err(DatabaseError::Validation(message));
        }
        if self.acquire_timeout_seconds <= 0 {
            return Err(
                DatabaseError::Validation(
                    String::from_str("acquire_timeout_seconds must be positive"),
                ),
            );
        }
        if self.idle_timeout_seconds < 0 {
            return Err(
                DatabaseError::Validation(
                    String::from_str("idle_timeout_seconds must be non-negative"),
                ),
            );
        }
        if self.max_lifetime_seconds < 0 {
            return Err(
                DatabaseError::Validation(
                    String::from_str("max_lifetime_seconds must be non-negative"),
                ),
            );
        }
        if !starts_with(self.url.as_str(), "sqlite:") {
            return Err(
                DatabaseError::Validation(String::from_str("URL must start with 'sqlite:'")),
            );
        }
        Ok(())
    }

    /// The default settings as pairs of a configuration key and the value
    /// in text, in the order of the fields.
    pub fn default_config_values() -> (pairs: Vec<(&'static str, String)>)
        ensures
            pairs@.len() == 6,
            pairs@[0].0@ == "database.url"@ && pairs@[0].1@ == default_url(),
            pairs@[1].0@ == "database.max_connections"@ && pairs@[1].1@ == decimal_text(10),
            pairs@[2].0@ == "database.min_connections"@ && pairs@[2].1@ == decimal_text(1),
            pairs@[3].0@ == "database.acquire_timeout_seconds"@ && pairs@[3].1@ == signed_text(
                30,
            ),
            pairs@[4].0@ == "database.idle_timeout_seconds"@ && pairs@[4].1@ == signed_text(600),
            pairs@[5].0@ == "database.max_lifetime_seconds"@ && pairs@[5].1@ == signed_text(
                1800,
            ),
    {
        let config = DatabaseConfig::default();
        let mut pairs: Vec<(&'static str, String)> = Vec::new();
        pairs.push(("database.url", String::from_str(config.url())));
        pairs.push(("database.max_connections", decimal(config.max_connections() as u64)));
        pairs.push(("database.min_connections", decimal(config.min_connections() as u64)));
        pairs.push(
            ("database.acquire_timeout_seconds", signed_decimal(config.acquire_timeout_seconds)),
        );
        pairs.push(("database.idle_timeout_seconds", signed_decimal(config.idle_timeout_seconds)));
        pairs.push(("database.max_lifetime_seconds", signed_decimal(config.max_lifetime_seconds)));
        pairs
    }
}

impl Default for DatabaseConfig {
    fn default() -> (config: DatabaseConfig)
        ensures
            config.is_default(),
    {
        DatabaseConfig {
            url: String::from_str("sqlite:./personal-ledger.sqlite"),
            max_connections: 10,
            min_connections: 1,
            acquire_timeout_seconds: 30,
            idle_timeout_seconds: 600,
            max_lifetime_seconds: 1800,
        }
    }
}

impl Clone for DatabaseConfig {
    fn clone(&self) -> (copy: DatabaseConfig)
        ensures
            copy == *self,
    {
        DatabaseConfig {
            url: self.url.clone(),
            max_connections: self.max_connections,
            min_connections: self.min_connections,
            acquire_timeout_seconds: self.acquire_timeout_seconds,
            idle_timeout_seconds: self.idle_timeout_seconds,
            max_lifetime_seconds: self.max_lifetime_seconds,
        }
    }
}

impl PartialEq for DatabaseConfig {
    fn eq(&self, other: &DatabaseConfig) -> (same: bool) {
        self.url == other.url && self.max_connections == other.max_connections
            && self.min_connections == other.min_connections && self.acquire_timeout_seconds
            == other.acquire_timeout_seconds && self.idle_timeout_seconds
            == other.idle_timeout_seconds && self.max_lifetime_seconds
            == other.max_lifetime_seconds
    }
}

impl PartialEqSpecImpl for DatabaseConfig {
    open spec fn obeys_eq_spec() -> bool {
        true
    }

    open spec fn eq_spec(&self, other: &DatabaseConfig) -> bool {
        self.same_as(other)
    }
}

impl Eq for DatabaseConfig {

}

} // verus!
