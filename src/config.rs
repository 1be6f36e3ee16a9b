//! Configuration handed to the core by the bootstrap layer.

use vstd::prelude::*;
use vstd::string::StringSliceAdditionalSpecFns;

verus! {

/// Connection settings for the store and the bus.
#[derive(Debug, Clone)]
pub struct AppConfig {
    pub mongodb_uri: String,
    pub mqtt_host: String,
    pub mqtt_port: u16,
    pub mqtt_username: String,
    pub mqtt_password: String,
    pub ca_cert_path: String,
}

/// Why a configuration was refused.
#[derive(Clone, Copy, Debug, PartialEq, Eq, Structural)]
pub enum ConfigError {
    /// The port is not a decimal number from 0 to 65535.
    InvalidPort,
}

pub open spec fn is_digit(c: u8) -> bool {
    48 <= c <= 57
}

/// The value of a run of decimal digits.
pub open spec fn digits_value(d: Seq<u8>) -> nat
    decreases d.len(),
{
    if d.len() == 0 {
        0
    } else {
        digits_value(d.drop_last()) * 10 + (d.last() - 48) as nat
    }
}

/// The digits of a port: the text without one optional leading `+`.
pub open spec fn port_digits(b: Seq<u8>) -> Seq<u8> {
    if b.len() > 0 && b[0] == 43u8 {
        b.drop_first()
    } else {
        b
    }
}

/// A port written in decimal: an optional `+`, then one or more digits whose
/// value fits in 16 bits.
pub open spec fn spec_parse_port(b: Seq<u8>) -> Option<u16> {
    let d = port_digits(b);
    if d.len() > 0 && (forall|i: int| 0 <= i < d.len() ==> is_digit(#[trigger] d[i]))
        && digits_value(d) <= 65535 {
        Some(digits_value(d) as u16)
    } else {
        None
    }
}

proof fn lemma_digits_value_grows(d: Seq<u8>, k: int)
    requires
        0 <= k <= d.len(),
        forall|i: int| 0 <= i < d.len() ==> is_digit(#[trigger] d[i]),
    ensures
        digits_value(d.subrange(0, k)) <= digits_value(d),
    decreases d.len() - k,
{
    if k < d.len() {
        lemma_digits_value_grows(d, k + 1);
        assert(d.subrange(0, k + 1).drop_last() =~= d.subrange(0, k));
    } else {
        assert(d.subrange(0, k) =~= d);
    }
}

/// Parses a port number.
pub fn parse_port(text: &str) -> (r: Option<u16>)
    ensures
        r == spec_parse_port(text.spec_bytes()),
{
    let b = text.as_bytes();
    let n = b.len();
    let start: usize = if n > 0 && b[0] == 43u8 { 1 } else { 0 };
    let ghost d = port_digits(b@);
    assert(d =~= b@.subrange(start as int, n as int));
    if start == n {
        return None;
    }
    let mut value: u32 = 0;
    let mut k: usize = start;
    while k < n
        invariant
            n == b@.len(),
            b@ == text.spec_bytes(),
            d == port_digits(b@),
            start <= k <= n,
            d =~= b@.subrange(start as int, n as int),
            forall|i: int| 0 <= i < k - start ==> is_digit(#[trigger] d[i]),
            value == digits_value(d.subrange(0, k - start)),
            value <= 65535,
        decreases n - k,
    {
        let c = b[k];
        assert(d[k - start] == c);
        if c < 48u8 || c > 57u8 {
            assert(!is_digit(d[k - start]));
            return None;
        }
        assert(d.subrange(0, k + 1 - start).drop_last() =~= d.subrange(0, k - start));
        assert(d.subrange(0, k + 1 - start).last() == c);
        assert(digits_value(d.subrange(0, k + 1 - start)) == digits_value(d.subrange(0, k - start))
            * 10 + (c - 48) as nat);
        value = value * 10 + (c - 48u8) as u32;
        k = k + 1;
        if value > 65535 {
            assert(forall|i: int| 0 <= i < k - start ==> is_digit(#[trigger] d[i]));
            assert(value == digits_value(d.subrange(0, k - start)));
            proof {
                if forall|i: int| 0 <= i < d.len() ==> is_digit(#[trigger] d[i]) {
                    lemma_digits_value_grows(d, k - start);
                }
            }
            return None;
        }
    }
    assert(d.subrange(0, n - start) =~= d);
    Some(value as u16)
}

impl AppConfig {
    /// Builds a configuration from its settings as text; the port must parse.
    pub fn from_values(
        mongodb_uri: String,
        mqtt_host: String,
        mqtt_port: &str,
        mqtt_username: String,
        mqtt_password: String,
        ca_cert_path: String,
    ) -> (r: Result<AppConfig, ConfigError>)
        ensures
            spec_parse_port(mqtt_port.spec_bytes()) is None ==> r == Err::<AppConfig, ConfigError>(
                ConfigError::InvalidPort,
            ),
            spec_parse_port(mqtt_port.spec_bytes()) matches Some(p) ==> r matches Ok(c) && c.mqtt_port
                == p && c.mongodb_uri@ == mongodb_uri@ && c.mqtt_host@ == mqtt_host@
                && c.mqtt_username@ == mqtt_username@ && c.mqtt_password@ == mqtt_password@
                && c.ca_cert_path@ == ca_cert_path@,
    {
        match parse_port(mqtt_port) {
            Some(port) => Ok(
                AppConfig {
                    mongodb_uri,
                    mqtt_host,
                    mqtt_port: port,
                    mqtt_username,
                    mqtt_password,
                    ca_cert_path,
                },
            ),
            None => Err(ConfigError::InvalidPort),
        }
    }
}

} // verus!
