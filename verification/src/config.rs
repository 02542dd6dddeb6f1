//! Configuration keys of OCPP 1.6J and the checks on the values a central
//! system may set them to.

use vstd::prelude::*;
use crate::numbers::{double_outside, double_outside_range, parse_i32, parse_i32_spec};
use crate::text::{decimal, i64_to_text, signed_decimal, str_eq, u64_to_text};
use crate::time::{is_rfc3339, rfc3339_accepts};
use crate::types::OcppError;
use crate::validation::{byte_len, reports};

verus! {

/// Configuration data types.
#[derive(Debug, Clone, Copy, PartialEq, Eq, Structural)]
pub enum ConfigDataType {
    String,
    Integer,
    Decimal,
    Boolean,
    DateTime,
    /// Comma separated list
    CSL,
}

/// Constraints for a configuration key. The numeric range is integral (every
/// range of the 1.6J key set is), and a decimal value is compared with its
/// bounds exactly, as a double.
#[derive(Debug, Clone)]
pub struct KeyConstraints {
    /// Whether the key is read-only
    pub readonly: bool,
    /// Minimum length of the value, in bytes
    pub min_length: Option<usize>,
    /// Maximum length of the value, in bytes
    pub max_length: Option<usize>,
    /// Valid values (for enumerated types)
    pub valid_values: Option<Vec<String>>,
    /// Numeric range (min, max), both ends included
    pub numeric_range: Option<(i64, i64)>,
    /// Data type
    pub data_type: ConfigDataType,
}

/// How a configuration value reads as a double-precision number: the IEEE
/// 754 bit pattern of what the standard library's float parsing gives for
/// it (`to_bits`), and that number's `Display` text. The reading is made by
/// the caller, which can hold floating-point values; a value that does not
/// parse as a number has no reading.
#[derive(Debug, Clone)]
pub struct DecimalReading {
    /// The number's bit pattern
    pub bits: u64,
    /// How the number is displayed
    pub shown: String,
}

/// A reading as plain values: the bit pattern and the displayed text.
pub open spec fn reading_of(d: Option<&DecimalReading>) -> Option<(u64, Seq<char>)> {
    match d {
        Some(r) => Some((r.bits, r.shown@)),
        None => None,
    }
}

/// What a `KeyConstraints` says, with its texts as character sequences.
pub struct KeyRule {
    pub readonly: bool,
    pub min_length: Option<usize>,
    pub max_length: Option<usize>,
    pub valid_values: Option<Seq<Seq<char>>>,
    pub numeric_range: Option<(i64, i64)>,
    pub data_type: ConfigDataType,
}

impl View for KeyConstraints {
    type V = KeyRule;

    open spec fn view(&self) -> KeyRule {
        KeyRule {
            readonly: self.readonly,
            min_length: self.min_length,
            max_length: self.max_length,
            valid_values: match self.valid_values {
                Some(v) => Some(v@.map_values(|s: String| s@)),
                None => None,
            },
            numeric_range: self.numeric_range,
            data_type: self.data_type,
        }
    }
}

/// The rule of a boolean key: `true` or `false`.
pub open spec fn boolean_rule() -> KeyRule {
    KeyRule {
        readonly: false,
        min_length: None,
        max_length: None,
        valid_values: Some(seq!["true"@, "false"@]),
        numeric_range: None,
        data_type: ConfigDataType::Boolean,
    }
}

/// The rule of an integer key in `[lo, hi]`.
pub open spec fn integer_rule(readonly: bool, lo: i64, hi: i64) -> KeyRule {
    KeyRule {
        readonly,
        min_length: None,
        max_length: None,
        valid_values: None,
        numeric_range: Some((lo, hi)),
        data_type: ConfigDataType::Integer,
    }
}

/// The rule of a comma separated list of at most `max` bytes.
pub open spec fn list_rule(readonly: bool, max: usize) -> KeyRule {
    KeyRule {
        readonly,
        min_length: None,
        max_length: Some(max),
        valid_values: None,
        numeric_range: None,
        data_type: ConfigDataType::CSL,
    }
}

/// The standard OCPP 1.6J configuration keys and their rules.
pub open spec fn standard_keys() -> Map<Seq<char>, KeyRule> {
    Map::empty()
        .insert("AllowOfflineTxForUnknownId"@, boolean_rule())
        .insert("AuthorizationCacheEnabled"@, boolean_rule())
        .insert("AuthorizeRemoteTxRequests"@, boolean_rule())
        .insert("BlinkRepeat"@, integer_rule(false, 1, 100))
        .insert("ClockAlignedDataInterval"@, integer_rule(false, 0, 900))
        .insert("ConnectionTimeOut"@, integer_rule(false, 1, 600))
        .insert("HeartbeatInterval"@, integer_rule(false, 0, 86400))
        .insert("LightIntensity"@, integer_rule(false, 0, 100))
        .insert("LocalAuthorizeOffline"@, boolean_rule())
        .insert("LocalPreAuthorize"@, boolean_rule())
        .insert("MeterValuesAlignedData"@, list_rule(false, 500))
        .insert("MeterValuesSampledData"@, list_rule(false, 500))
        .insert("MeterValueSampleInterval"@, integer_rule(false, 0, 86400))
        .insert("NumberOfConnectors"@, integer_rule(true, 0, 100))
        .insert("ResetRetries"@, integer_rule(false, 0, 10))
        .insert("ConnectorPhaseRotation"@, list_rule(false, 1000))
        .insert("StopTransactionOnEVSideDisconnect"@, boolean_rule())
        .insert("StopTransactionOnInvalidId"@, boolean_rule())
        .insert("StopTxnAlignedData"@, list_rule(false, 500))
        .insert("StopTxnSampledData"@, list_rule(false, 500))
        .insert("SupportedFeatureProfiles"@, list_rule(true, 1000))
        .insert("TransactionMessageAttempts"@, integer_rule(false, 1, 10))
        .insert("TransactionMessageRetryInterval"@, integer_rule(false, 1, 3600))
        .insert("UnlockConnectorOnEVSideDisconnect"@, boolean_rule())
        .insert("WebSocketPingInterval"@, integer_rule(false, 0, 3600))
}

/// The keys of a list of entries, the later entry of a key winning.
pub open spec fn entries_map(e: Seq<(String, KeyConstraints)>) -> Map<Seq<char>, KeyRule>
    decreases e.len(),
{
    if e.len() == 0 {
        Map::empty()
    } else {
        entries_map(e.drop_last()).insert(e.last().0@, e.last().1@)
    }
}

/// The last entry at index `i` for key `k` gives the key's rule.
proof fn lemma_entries_last(e: Seq<(String, KeyConstraints)>, k: Seq<char>, i: int)
    requires
        0 <= i < e.len(),
        e[i].0@ == k,
        forall|j: int| i < j < e.len() ==> #[trigger] e[j].0@ != k,
    ensures
        entries_map(e).contains_key(k),
        entries_map(e)[k] == e[i].1@,
    decreases e.len(),
{
    if i < e.len() - 1 {
        let d = e.drop_last();
        assert forall|j: int| i < j < d.len() implies #[trigger] d[j].0@ != k by {
            assert(d[j] == e[j]);
        }
        lemma_entries_last(d, k, i);
    }
}

/// A key no entry names is not in the map.
proof fn lemma_entries_absent(e: Seq<(String, KeyConstraints)>, k: Seq<char>)
    requires
        forall|j: int| 0 <= j < e.len() ==> #[trigger] e[j].0@ != k,
    ensures
        !entries_map(e).contains_key(k),
    decreases e.len(),
{
    if e.len() > 0 {
        let d = e.drop_last();
        assert forall|j: int| 0 <= j < d.len() implies #[trigger] d[j].0@ != k by {
            assert(d[j] == e[j]);
        }
        lemma_entries_absent(d, k);
    }
}

/// The outcome of checking `value` for `key` under `rule`, given whether the
/// value reads as an RFC 3339 timestamp and how it reads as a double (only
/// data types `DateTime` and `Decimal` ask): `Ok`, or the message of the
/// first constraint broken. A decimal is compared, as a double, with the
/// range's bounds, and an out-of-range one is shown as the double displays.
pub open spec fn value_check(
    key: Seq<char>,
    value: Seq<char>,
    rule: KeyRule,
    timestamp_ok: bool,
    reading: Option<(u64, Seq<char>)>,
) -> Result<(), Seq<char>> {
    if rule.min_length matches Some(min) && byte_len(value) < min {
        Err("Value for key '"@ + key + "' is too short (min: "@ + decimal(rule.min_length.unwrap() as nat) + ")"@)
    } else if rule.max_length matches Some(max) && byte_len(value) > max {
        Err("Value for key '"@ + key + "' is too long (max: "@ + decimal(rule.max_length.unwrap() as nat) + ")"@)
    } else if rule.valid_values matches Some(vv) && !vv.contains(value) {
        Err("Invalid value '"@ + value + "' for key '"@ + key + "'"@)
    } else {
        match rule.data_type {
            ConfigDataType::Integer => match parse_i32_spec(value) {
                None => Err("Value '"@ + value + "' for key '"@ + key + "' is not a valid integer"@),
                Some(v) => match rule.numeric_range {
                    Some((lo, hi)) => if v < lo || v > hi {
                        Err(out_of_range(signed_decimal(v as int), key, lo, hi))
                    } else {
                        Ok(())
                    },
                    None => Ok(()),
                },
            },
            ConfigDataType::Decimal => match reading {
                None => Err("Value '"@ + value + "' for key '"@ + key + "' is not a valid decimal"@),
                Some((bits, shown)) => match rule.numeric_range {
                    Some((lo, hi)) => if double_outside(bits, lo, hi) {
                        Err(out_of_range(shown, key, lo, hi))
                    } else {
                        Ok(())
                    },
                    None => Ok(()),
                },
            },
            ConfigDataType::Boolean => if value != "true"@ && value != "false"@ {
                Err("Value '"@ + value + "' for key '"@ + key + "' is not a valid boolean (true/false)"@)
            } else {
                Ok(())
            },
            ConfigDataType::DateTime => if !timestamp_ok {
                Err("Value '"@ + value + "' for key '"@ + key + "' is not a valid ISO 8601 timestamp"@)
            } else {
                Ok(())
            },
            ConfigDataType::String | ConfigDataType::CSL => Ok(()),
        }
    }
}

/// The message of a value outside its key's range.
pub open spec fn out_of_range(shown: Seq<char>, key: Seq<char>, lo: i64, hi: i64) -> Seq<char> {
    "Value "@ + shown + " for key '"@ + key + "' is out of range ("@ + signed_decimal(lo as int) + "-"@
        + signed_decimal(hi as int) + ")"@
}

fn out_of_range_error(shown: &str, key: &str, lo: i64, hi: i64) -> (r: Result<(), OcppError>)
    ensures
        reports(r, Err(out_of_range(shown@, key@, lo, hi))),
{
    let lo_text = i64_to_text(lo);
    let hi_text = i64_to_text(hi);
    let mut m = String::from_str("Value ");
    m.append(shown);
    m.append(" for key '");
    m.append(key);
    m.append("' is out of range (");
    m.append(lo_text.as_str());
    m.append("-");
    m.append(hi_text.as_str());
    m.append(")");
    Err(OcppError::ValidationError { message: m })
}

/// An error whose message is `a`, the value, `b`, the key, then `c`.
fn value_key_error(a: &str, value: &str, b: &str, key: &str, c: &str) -> (r: Result<(), OcppError>)
    ensures
        reports(r, Err(a@ + value@ + b@ + key@ + c@)),
{
    let mut m = String::from_str(a);
    m.append(value);
    m.append(b);
    m.append(key);
    m.append(c);
    Err(OcppError::ValidationError { message: m })
}

fn contains_text(values: &Vec<String>, value: &str) -> (r: bool)
    ensures
        r == values@.map_values(|s: String| s@).contains(value@),
{
    let ghost vv = values@.map_values(|s: String| s@);
    let mut i: usize = 0;
    while i < values.len()
        invariant
            0 <= i <= values@.len(),
            vv == values@.map_values(|s: String| s@),
            forall|j: int| 0 <= j < i ==> vv[j] != value@,
        decreases values@.len() - i,
    {
        if str_eq(values[i].as_str(), value) {
            proof {
                assert(vv[i as int] == value@);
            }
            return true;
        }
        i = i + 1;
    }
    false
}

/// Checks `value` for `key` under `constraints`, given whether the value
/// reads as an RFC 3339 timestamp (only data type `DateTime` asks) and how
/// it reads as a double (only data type `Decimal` asks).
pub fn check_value(
    key: &str,
    value: &str,
    constraints: &KeyConstraints,
    timestamp_ok: bool,
    decimal: Option<&DecimalReading>,
) -> (r: Result<(), OcppError>)
    ensures
        reports(r, value_check(key@, value@, constraints@, timestamp_ok, reading_of(decimal))),
{
    if let Some(min) = constraints.min_length {
        if value.len() < min {
            let n = u64_to_text(min as u64);
            let mut m = String::from_str("Value for key '");
            m.append(key);
            m.append("' is too short (min: ");
            m.append(n.as_str());
            m.append(")");
            return Err(OcppError::ValidationError { message: m });
        }
    }
    if let Some(max) = constraints.max_length {
        if value.len() > max {
            let n = u64_to_text(max as u64);
            let mut m = String::from_str("Value for key '");
            m.append(key);
            m.append("' is too long (max: ");
            m.append(n.as_str());
            m.append(")");
            return Err(OcppError::ValidationError { message: m });
        }
    }
    if let Some(valid_values) = &constraints.valid_values {
        if !contains_text(valid_values, value) {
            return value_key_error("Invalid value '", value, "' for key '", key, "'");
        }
    }
    match constraints.data_type {
        ConfigDataType::Integer => {
            match parse_i32(value) {
                None => {
                    return value_key_error("Value '", value, "' for key '", key, "' is not a valid integer");
                },
                Some(v) => {
                    if let Some((lo, hi)) = constraints.numeric_range {
                        if (v as i64) < lo || (v as i64) > hi {
                            let shown = i64_to_text(v as i64);
                            return out_of_range_error(shown.as_str(), key, lo, hi);
                        }
                    }
                },
            }
        },
        ConfigDataType::Decimal => {
            match decimal {
                None => {
                    return value_key_error("Value '", value, "' for key '", key, "' is not a valid decimal");
                },
                Some(reading) => {
                    if let Some((lo, hi)) = constraints.numeric_range {
                        if double_outside_range(reading.bits, lo, hi) {
                            return out_of_range_error(reading.shown.as_str(), key, lo, hi);
                        }
                    }
                },
            }
        },
        ConfigDataType::Boolean => {
            if !str_eq(value, "true") && !str_eq(value, "false") {
                return value_key_error("Value '", value, "' for key '", key, "' is not a valid boolean (true/false)");
            }
        },
        ConfigDataType::DateTime => {
            if !timestamp_ok {
                return value_key_error("Value '", value, "' for key '", key, "' is not a valid ISO 8601 timestamp");
            }
        },
        ConfigDataType::String | ConfigDataType::CSL => {},
    }
    Ok(())
}

/// Configuration key validator: the known keys with their constraints.
pub struct ConfigurationValidator {
    known_keys: Vec<(String, KeyConstraints)>,
}

impl View for ConfigurationValidator {
    type V = Map<Seq<char>, KeyRule>;

    closed spec fn view(&self) -> Map<Seq<char>, KeyRule> {
        entries_map(self.known_keys@)
    }
}

fn boolean_key() -> (r: KeyConstraints)
    ensures
        r@ == boolean_rule(),
{
    let values = vec![String::from_str("true"), String::from_str("false")];
    let r = KeyConstraints {
        readonly: false,
        min_length: None,
        max_length: None,
        valid_values: Some(values),
        numeric_range: None,
        data_type: ConfigDataType::Boolean,
    };
    proof {
        assert(values@.map_values(|s: String| s@) =~= seq!["true"@, "false"@]);
    }
    r
}

fn integer_key(readonly: bool, lo: i64, hi: i64) -> (r: KeyConstraints)
    ensures
        r@ == integer_rule(readonly, lo, hi),
{
    KeyConstraints {
        readonly,
        min_length: None,
        max_length: None,
        valid_values: None,
        numeric_range: Some((lo, hi)),
        data_type: ConfigDataType::Integer,
    }
}

fn list_key(readonly: bool, max: usize) -> (r: KeyConstraints)
    ensures
        r@ == list_rule(readonly, max),
{
    KeyConstraints {
        readonly,
        min_length: None,
        max_length: Some(max),
        valid_values: None,
        numeric_range: None,
        data_type: ConfigDataType::CSL,
    }
}

impl ConfigurationValidator {
    /// A validator that knows the standard OCPP 1.6J keys.
    pub fn new() -> (r: Self)
        ensures
            r@ == standard_keys(),
    {
        let mut validator = ConfigurationValidator { known_keys: Vec::new() };
        validator.add_standard_keys();
        validator
    }

    /// Adds the standard OCPP 1.6J keys.
    fn add_standard_keys(&mut self)
        requires
            old(self)@ == Map::<Seq<char>, KeyRule>::empty(),
        ensures
            final(self)@ == standard_keys(),
    {
        self.add_key("AllowOfflineTxForUnknownId", boolean_key());
        self.add_key("AuthorizationCacheEnabled", boolean_key());
        self.add_key("AuthorizeRemoteTxRequests", boolean_key());
        self.add_key("BlinkRepeat", integer_key(false, 1, 100));
        self.add_key("ClockAlignedDataInterval", integer_key(false, 0, 900));
        self.add_key("ConnectionTimeOut", integer_key(false, 1, 600));
        self.add_key("HeartbeatInterval", integer_key(false, 0, 86400));
        self.add_key("LightIntensity", integer_key(false, 0, 100));
        self.add_key("LocalAuthorizeOffline", boolean_key());
        self.add_key("LocalPreAuthorize", boolean_key());
        self.add_key("MeterValuesAlignedData", list_key(false, 500));
        self.add_key("MeterValuesSampledData", list_key(false, 500));
        self.add_key("MeterValueSampleInterval", integer_key(false, 0, 86400));
        self.add_key("NumberOfConnectors", integer_key(true, 0, 100));
        self.add_key("ResetRetries", integer_key(false, 0, 10));
        self.add_key("ConnectorPhaseRotation", list_key(false, 1000));
        self.add_key("StopTransactionOnEVSideDisconnect", boolean_key());
        self.add_key("StopTransactionOnInvalidId", boolean_key());
        self.add_key("StopTxnAlignedData", list_key(false, 500));
        self.add_key("StopTxnSampledData", list_key(false, 500));
        self.add_key("SupportedFeatureProfiles", list_key(true, 1000));
        self.add_key("TransactionMessageAttempts", integer_key(false, 1, 10));
        self.add_key("TransactionMessageRetryInterval", integer_key(false, 1, 3600));
        self.add_key("UnlockConnectorOnEVSideDisconnect", boolean_key());
        self.add_key("WebSocketPingInterval", integer_key(false, 0, 3600));
    }

    /// Adds a key, replacing the constraints of a key already known.
    pub fn add_key(&mut self, key: &str, constraints: KeyConstraints)
        ensures
            final(self)@ == old(self)@.insert(key@, constraints@),
    {
        let ghost c = constraints@;
        self.known_keys.push((String::from_str(key), constraints));
        proof {
            assert(self.known_keys@.drop_last() =~= old(self).known_keys@);
        }
    }

    /// The index of the entry that holds `key`'s constraints.
    fn find(&self, key: &str) -> (r: Option<usize>)
        ensures
            match r {
                Some(i) => i < self.known_keys@.len() && self@.contains_key(key@)
                    && self@[key@] == self.known_keys@[i as int].1@,
                None => !self@.contains_key(key@),
            },
    {
        let n = self.known_keys.len();
        let mut i: usize = n;
        while i > 0
            invariant
                n == self.known_keys@.len(),
                0 <= i <= n,
                forall|j: int| i <= j < n ==> #[trigger] self.known_keys@[j].0@ != key@,
            decreases i,
        {
            if str_eq(self.known_keys[i - 1].0.as_str(), key) {
                proof {
                    lemma_entries_last(self.known_keys@, key@, i - 1);
                }
                return Some(i - 1);
            }
            i = i - 1;
        }
        proof {
            lemma_entries_absent(self.known_keys@, key@);
        }
        None
    }

    /// Validates a value for a key, given how the value reads as a double
    /// (consulted for decimal keys only). Keys the validator does not know
    /// are accepted (vendor-specific keys).
    pub fn validate_key_value(&self, key: &str, value: &str, decimal: Option<&DecimalReading>) -> (r: Result<(), OcppError>)
        ensures
            reports(r, if self@.contains_key(key@) {
                value_check(key@, value@, self@[key@], rfc3339_accepts(value@), reading_of(decimal))
            } else {
                Ok(())
            }),
    {
        match self.find(key) {
            Some(i) => self.validate_value(key, value, &self.known_keys[i].1, decimal),
            None => Ok(()),
        }
    }

    fn validate_value(
        &self,
        key: &str,
        value: &str,
        constraints: &KeyConstraints,
        decimal: Option<&DecimalReading>,
    ) -> (r: Result<(), OcppError>)
        ensures
            reports(r, value_check(key@, value@, constraints@, rfc3339_accepts(value@), reading_of(decimal))),
    {
        let timestamp_ok = if constraints.data_type == ConfigDataType::DateTime {
            is_rfc3339(value)
        } else {
            false
        };
        check_value(key, value, constraints, timestamp_ok, decimal)
    }

    /// Whether a key is known and read-only.
    pub fn is_readonly(&self, key: &str) -> (r: bool)
        ensures
            r == (self@.contains_key(key@) && self@[key@].readonly),
    {
        match self.find(key) {
            Some(i) => self.known_keys[i].1.readonly,
            None => false,
        }
    }
}

impl Default for ConfigurationValidator {
    fn default() -> (r: Self)
        ensures
            r@ == standard_keys(),
    {
        Self::new()
    }
}

/// The texts of the standard keys: their lengths, and a character that
/// tells apart each two of the same length.
proof fn lemma_standard_key_texts()
    ensures
        "AllowOfflineTxForUnknownId"@.len() == 26,
        "AuthorizationCacheEnabled"@.len() == 25,
        "AuthorizeRemoteTxRequests"@.len() == 25,
        "BlinkRepeat"@.len() == 11,
        "ClockAlignedDataInterval"@.len() == 24,
        "ConnectionTimeOut"@.len() == 17,
        "HeartbeatInterval"@.len() == 17,
        "LightIntensity"@.len() == 14,
        "LocalAuthorizeOffline"@.len() == 21,
        "LocalPreAuthorize"@.len() == 17,
        "MeterValuesAlignedData"@.len() == 22,
        "MeterValuesSampledData"@.len() == 22,
        "MeterValueSampleInterval"@.len() == 24,
        "NumberOfConnectors"@.len() == 18,
        "ResetRetries"@.len() == 12,
        "ConnectorPhaseRotation"@.len() == 22,
        "StopTransactionOnEVSideDisconnect"@.len() == 33,
        "StopTransactionOnInvalidId"@.len() == 26,
        "StopTxnAlignedData"@.len() == 18,
        "StopTxnSampledData"@.len() == 18,
        "SupportedFeatureProfiles"@.len() == 24,
        "TransactionMessageAttempts"@.len() == 26,
        "TransactionMessageRetryInterval"@.len() == 31,
        "UnlockConnectorOnEVSideDisconnect"@.len() == 33,
        "WebSocketPingInterval"@.len() == 21,
        "AllowOfflineTxForUnknownId"@[0] == 'A' && "StopTransactionOnInvalidId"@[0] == 'S',
        "AllowOfflineTxForUnknownId"@[0] == 'A' && "TransactionMessageAttempts"@[0] == 'T',
        "StopTransactionOnInvalidId"@[0] == 'S' && "TransactionMessageAttempts"@[0] == 'T',
        "AuthorizationCacheEnabled"@[8] == 'a' && "AuthorizeRemoteTxRequests"@[8] == 'e',
        "ClockAlignedDataInterval"@[0] == 'C' && "MeterValueSampleInterval"@[0] == 'M',
        "ClockAlignedDataInterval"@[0] == 'C' && "SupportedFeatureProfiles"@[0] == 'S',
        "MeterValueSampleInterval"@[0] == 'M' && "SupportedFeatureProfiles"@[0] == 'S',
        "ConnectionTimeOut"@[0] == 'C' && "HeartbeatInterval"@[0] == 'H',
        "ConnectionTimeOut"@[0] == 'C' && "LocalPreAuthorize"@[0] == 'L',
        "HeartbeatInterval"@[0] == 'H' && "LocalPreAuthorize"@[0] == 'L',
        "LocalAuthorizeOffline"@[0] == 'L' && "WebSocketPingInterval"@[0] == 'W',
        "MeterValuesAlignedData"@[11] == 'A' && "MeterValuesSampledData"@[11] == 'S',
        "MeterValuesAlignedData"@[0] == 'M' && "ConnectorPhaseRotation"@[0] == 'C',
        "MeterValuesSampledData"@[0] == 'M' && "ConnectorPhaseRotation"@[0] == 'C',
        "NumberOfConnectors"@[0] == 'N' && "StopTxnAlignedData"@[0] == 'S',
        "NumberOfConnectors"@[0] == 'N' && "StopTxnSampledData"@[0] == 'S',
        "StopTxnAlignedData"@[7] == 'A' && "StopTxnSampledData"@[7] == 'S',
        "StopTransactionOnEVSideDisconnect"@[0] == 'S' && "UnlockConnectorOnEVSideDisconnect"@[0] == 'U',
{
    reveal_strlit("AllowOfflineTxForUnknownId");
    reveal_strlit("AuthorizationCacheEnabled");
    reveal_strlit("AuthorizeRemoteTxRequests");
    reveal_strlit("BlinkRepeat");
    reveal_strlit("ClockAlignedDataInterval");
    reveal_strlit("ConnectionTimeOut");
    reveal_strlit("HeartbeatInterval");
    reveal_strlit("LightIntensity");
    reveal_strlit("LocalAuthorizeOffline");
    reveal_strlit("LocalPreAuthorize");
    reveal_strlit("MeterValuesAlignedData");
    reveal_strlit("MeterValuesSampledData");
    reveal_strlit("MeterValueSampleInterval");
    reveal_strlit("NumberOfConnectors");
    reveal_strlit("ResetRetries");
    reveal_strlit("ConnectorPhaseRotation");
    reveal_strlit("StopTransactionOnEVSideDisconnect");
    reveal_strlit("StopTransactionOnInvalidId");
    reveal_strlit("StopTxnAlignedData");
    reveal_strlit("StopTxnSampledData");
    reveal_strlit("SupportedFeatureProfiles");
    reveal_strlit("TransactionMessageAttempts");
    reveal_strlit("TransactionMessageRetryInterval");
    reveal_strlit("UnlockConnectorOnEVSideDisconnect");
    reveal_strlit("WebSocketPingInterval");
}

/// Under the standard key set, `key` takes integers in `[lo, hi]`: a value
/// is accepted exactly when it reads as an `i32` in that range, and the key
/// is read-only exactly when `readonly`.
pub open spec fn standard_integer_key(
    key: Seq<char>,
    lo: int,
    hi: int,
    readonly: bool,
    value: Seq<char>,
    timestamp_ok: bool,
    reading: Option<(u64, Seq<char>)>,
) -> bool {
    &&& standard_keys().contains_key(key)
    &&& standard_keys()[key].readonly == readonly
    &&& (value_check(key, value, standard_keys()[key], timestamp_ok, reading) is Ok
        <==> (parse_i32_spec(value) matches Some(n) && lo <= n <= hi))
}

/// Under the standard key set, `key` is a writable boolean: a value is
/// accepted exactly when it is `true` or `false`.
pub open spec fn standard_boolean_key(
    key: Seq<char>,
    value: Seq<char>,
    timestamp_ok: bool,
    reading: Option<(u64, Seq<char>)>,
) -> bool {
    &&& standard_keys().contains_key(key)
    &&& !standard_keys()[key].readonly
    &&& (value_check(key, value, standard_keys()[key], timestamp_ok, reading) is Ok
        <==> (value == "true"@ || value == "false"@))
}

/// Under the standard key set, `key` is a comma separated list: a value is
/// accepted exactly when it is at most `max` bytes long, and the key is
/// read-only exactly when `readonly`.
pub open spec fn standard_list_key(
    key: Seq<char>,
    max: usize,
    readonly: bool,
    value: Seq<char>,
    timestamp_ok: bool,
    reading: Option<(u64, Seq<char>)>,
) -> bool {
    &&& standard_keys().contains_key(key)
    &&& standard_keys()[key].readonly == readonly
    &&& (value_check(key, value, standard_keys()[key], timestamp_ok, reading) is Ok <==> byte_len(value) <= max)
}

/// The standard integer keys and their ranges: BlinkRepeat 1-100,
/// ClockAlignedDataInterval 0-900, ConnectionTimeOut 1-600, HeartbeatInterval
/// 0-86400, LightIntensity 0-100, MeterValueSampleInterval 0-86400,
/// NumberOfConnectors 0-100 (read-only), ResetRetries 0-10,
/// TransactionMessageAttempts 1-10, TransactionMessageRetryInterval 1-3600 and
/// WebSocketPingInterval 0-3600.
pub proof fn lemma_standard_integer_keys(value: Seq<char>, timestamp_ok: bool, reading: Option<(u64, Seq<char>)>)
    ensures
        standard_integer_key("BlinkRepeat"@, 1, 100, false, value, timestamp_ok, reading),
        standard_integer_key("ClockAlignedDataInterval"@, 0, 900, false, value, timestamp_ok, reading),
        standard_integer_key("ConnectionTimeOut"@, 1, 600, false, value, timestamp_ok, reading),
        standard_integer_key("HeartbeatInterval"@, 0, 86400, false, value, timestamp_ok, reading),
        standard_integer_key("LightIntensity"@, 0, 100, false, value, timestamp_ok, reading),
        standard_integer_key("MeterValueSampleInterval"@, 0, 86400, false, value, timestamp_ok, reading),
        standard_integer_key("NumberOfConnectors"@, 0, 100, true, value, timestamp_ok, reading),
        standard_integer_key("ResetRetries"@, 0, 10, false, value, timestamp_ok, reading),
        standard_integer_key("TransactionMessageAttempts"@, 1, 10, false, value, timestamp_ok, reading),
        standard_integer_key("TransactionMessageRetryInterval"@, 1, 3600, false, value, timestamp_ok, reading),
        standard_integer_key("WebSocketPingInterval"@, 0, 3600, false, value, timestamp_ok, reading),
{
    lemma_standard_key_texts();
    assert(standard_keys()["BlinkRepeat"@] == integer_rule(false, 1, 100));
    assert(standard_keys()["ClockAlignedDataInterval"@] == integer_rule(false, 0, 900));
    assert(standard_keys()["ConnectionTimeOut"@] == integer_rule(false, 1, 600));
    assert(standard_keys()["HeartbeatInterval"@] == integer_rule(false, 0, 86400));
    assert(standard_keys()["LightIntensity"@] == integer_rule(false, 0, 100));
    assert(standard_keys()["MeterValueSampleInterval"@] == integer_rule(false, 0, 86400));
    assert(standard_keys()["NumberOfConnectors"@] == integer_rule(true, 0, 100));
    assert(standard_keys()["ResetRetries"@] == integer_rule(false, 0, 10));
    assert(standard_keys()["TransactionMessageAttempts"@] == integer_rule(false, 1, 10));
    assert(standard_keys()["TransactionMessageRetryInterval"@] == integer_rule(false, 1, 3600));
    assert(standard_keys()["WebSocketPingInterval"@] == integer_rule(false, 0, 3600));
}

/// The standard boolean keys, each accepting exactly `true` and `false`.
pub proof fn lemma_standard_boolean_keys(value: Seq<char>, timestamp_ok: bool, reading: Option<(u64, Seq<char>)>)
    ensures
        standard_boolean_key("AllowOfflineTxForUnknownId"@, value, timestamp_ok, reading),
        standard_boolean_key("AuthorizationCacheEnabled"@, value, timestamp_ok, reading),
        standard_boolean_key("AuthorizeRemoteTxRequests"@, value, timestamp_ok, reading),
        standard_boolean_key("LocalAuthorizeOffline"@, value, timestamp_ok, reading),
        standard_boolean_key("LocalPreAuthorize"@, value, timestamp_ok, reading),
        standard_boolean_key("StopTransactionOnEVSideDisconnect"@, value, timestamp_ok, reading),
        standard_boolean_key("StopTransactionOnInvalidId"@, value, timestamp_ok, reading),
        standard_boolean_key("UnlockConnectorOnEVSideDisconnect"@, value, timestamp_ok, reading),
{
    lemma_standard_key_texts();
    assert(standard_keys()["AllowOfflineTxForUnknownId"@] == boolean_rule());
    assert(standard_keys()["AuthorizationCacheEnabled"@] == boolean_rule());
    assert(standard_keys()["AuthorizeRemoteTxRequests"@] == boolean_rule());
    assert(standard_keys()["LocalAuthorizeOffline"@] == boolean_rule());
    assert(standard_keys()["LocalPreAuthorize"@] == boolean_rule());
    assert(standard_keys()["StopTransactionOnEVSideDisconnect"@] == boolean_rule());
    assert(standard_keys()["StopTransactionOnInvalidId"@] == boolean_rule());
    assert(standard_keys()["UnlockConnectorOnEVSideDisconnect"@] == boolean_rule());
    reveal_strlit("true");
    reveal_strlit("false");
}

/// The standard list keys and their lengths: MeterValuesAlignedData,
/// MeterValuesSampledData, StopTxnAlignedData and StopTxnSampledData up to 500
/// bytes, ConnectorPhaseRotation and SupportedFeatureProfiles (read-only) up to
/// 1000 bytes.
pub proof fn lemma_standard_list_keys(value: Seq<char>, timestamp_ok: bool, reading: Option<(u64, Seq<char>)>)
    ensures
        standard_list_key("MeterValuesAlignedData"@, 500, false, value, timestamp_ok, reading),
        standard_list_key("MeterValuesSampledData"@, 500, false, value, timestamp_ok, reading),
        standard_list_key("ConnectorPhaseRotation"@, 1000, false, value, timestamp_ok, reading),
        standard_list_key("StopTxnAlignedData"@, 500, false, value, timestamp_ok, reading),
        standard_list_key("StopTxnSampledData"@, 500, false, value, timestamp_ok, reading),
        standard_list_key("SupportedFeatureProfiles"@, 1000, true, value, timestamp_ok, reading),
{
    lemma_standard_key_texts();
    assert(standard_keys()["MeterValuesAlignedData"@] == list_rule(false, 500));
    assert(standard_keys()["MeterValuesSampledData"@] == list_rule(false, 500));
    assert(standard_keys()["ConnectorPhaseRotation"@] == list_rule(false, 1000));
    assert(standard_keys()["StopTxnAlignedData"@] == list_rule(false, 500));
    assert(standard_keys()["StopTxnSampledData"@] == list_rule(false, 500));
    assert(standard_keys()["SupportedFeatureProfiles"@] == list_rule(true, 1000));
}

/// The standard key set holds exactly the 25 keys above; any other key is a
/// vendor key, which the validator accepts with any value.
pub proof fn lemma_standard_key_names()
    ensures
        standard_keys().dom() =~= set![
            "BlinkRepeat"@,
            "ClockAlignedDataInterval"@,
            "ConnectionTimeOut"@,
            "HeartbeatInterval"@,
            "LightIntensity"@,
            "MeterValueSampleInterval"@,
            "NumberOfConnectors"@,
            "ResetRetries"@,
            "TransactionMessageAttempts"@,
            "TransactionMessageRetryInterval"@,
            "WebSocketPingInterval"@,
            "AllowOfflineTxForUnknownId"@,
            "AuthorizationCacheEnabled"@,
            "AuthorizeRemoteTxRequests"@,
            "LocalAuthorizeOffline"@,
            "LocalPreAuthorize"@,
            "StopTransactionOnEVSideDisconnect"@,
            "StopTransactionOnInvalidId"@,
            "UnlockConnectorOnEVSideDisconnect"@,
            "MeterValuesAlignedData"@,
            "MeterValuesSampledData"@,
            "ConnectorPhaseRotation"@,
            "StopTxnAlignedData"@,
            "StopTxnSampledData"@,
            "SupportedFeatureProfiles"@,
        ],
{
    lemma_standard_key_texts();
}

/// After a key is added, the validator checks that key against exactly the
/// added rule, and every other key keeps what it had.
pub proof fn lemma_add_key_read_back(
    before: ConfigurationValidator,
    after: ConfigurationValidator,
    key: Seq<char>,
    rule: KeyRule,
    other: Seq<char>,
)
    requires
        after@ == before@.insert(key, rule),
    ensures
        after@.contains_key(key),
        after@[key] == rule,
        other != key ==> after@.contains_key(other) == before@.contains_key(other),
        other != key && before@.contains_key(other) ==> after@[other] == before@[other],
{
}

/// A boolean key accepts exactly the texts `true` and `false`.
pub proof fn lemma_boolean_rule_accepts(
    key: Seq<char>,
    value: Seq<char>,
    timestamp_ok: bool,
    decimal: Option<(u64, Seq<char>)>,
)
    ensures
        value_check(key, value, boolean_rule(), timestamp_ok, decimal) is Ok <==> (value == "true"@ || value == "false"@),
{
    let vv = seq!["true"@, "false"@];
    if value == "true"@ {
        assert(vv[0] == value);
    }
    if value == "false"@ {
        assert(vv[1] == value);
    }
}

} // verus!
