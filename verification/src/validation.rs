//! Validation of OCPP messages and fields against the limits of the 1.6J
//! specification.

use vstd::prelude::*;
use crate::types::OcppError;
use crate::v16j::{AuthorizeRequest, BootNotificationRequest, MeterValue, MeterValuesRequest, StartTransactionRequest, StatusNotificationRequest, StopTransactionRequest};
use crate::text::{concat4, u64_to_text, decimal};

verus! {

/// The length of a string in bytes, as `str::len` reports it (UTF-8).
pub open spec fn byte_len(s: Seq<char>) -> usize {
    vstd::utf8::encode_utf8(s).len() as usize
}

/// The result of a validation: `Ok`, or the message of the validation error.
pub open spec fn reports(r: Result<(), OcppError>, expected: Result<(), Seq<char>>) -> bool {
    match expected {
        Ok(()) => r is Ok,
        Err(m) => r matches Err(OcppError::ValidationError { message }) && message@ == m,
    }
}

/// Validation trait for OCPP messages.
pub trait Validate {
    /// `Ok` when the message meets its constraints, else the message of the
    /// first constraint it breaks.
    spec fn validation(&self) -> Result<(), Seq<char>>;

    /// Validate the message and return the first validation error.
    fn validate(&self) -> (r: Result<(), OcppError>)
        ensures
            reports(r, self.validation());
}

fn fail(message: &str) -> (r: Result<(), OcppError>)
    ensures
        reports(r, Err(message@)),
{
    Err(OcppError::ValidationError { message: String::from_str(message) })
}

/// An optional text longer than `limit` bytes.
pub open spec fn too_long(s: Option<String>, limit: usize) -> bool {
    match s {
        Some(t) => byte_len(t@) > limit,
        None => false,
    }
}

fn is_too_long(s: &Option<String>, limit: usize) -> (r: bool)
    ensures
        r == too_long(*s, limit),
{
    match s {
        Some(t) => t.as_str().len() > limit,
        None => false,
    }
}

impl Validate for AuthorizeRequest {
    open spec fn validation(&self) -> Result<(), Seq<char>> {
        if self.id_tag@.len() == 0 {
            Err("idTag cannot be empty"@)
        } else if byte_len(self.id_tag@) > 20 {
            Err("idTag cannot be longer than 20 characters"@)
        } else {
            Ok(())
        }
    }

    fn validate(&self) -> (r: Result<(), OcppError>) {
        if self.id_tag.as_str().is_empty() {
            return fail("idTag cannot be empty");
        }
        if self.id_tag.as_str().len() > 20 {
            return fail("idTag cannot be longer than 20 characters");
        }
        Ok(())
    }
}

impl Validate for BootNotificationRequest {
    open spec fn validation(&self) -> Result<(), Seq<char>> {
        if self.charge_point_vendor@.len() == 0 || byte_len(self.charge_point_vendor@) > 20 {
            Err("chargePointVendor must be 1-20 characters"@)
        } else if self.charge_point_model@.len() == 0 || byte_len(self.charge_point_model@) > 20 {
            Err("chargePointModel must be 1-20 characters"@)
        } else if too_long(self.charge_point_serial_number, 25) {
            Err("chargePointSerialNumber cannot be longer than 25 characters"@)
        } else if too_long(self.charge_box_serial_number, 25) {
            Err("chargeBoxSerialNumber cannot be longer than 25 characters"@)
        } else if too_long(self.firmware_version, 50) {
            Err("firmwareVersion cannot be longer than 50 characters"@)
        } else {
            Ok(())
        }
    }

    fn validate(&self) -> (r: Result<(), OcppError>) {
        if self.charge_point_vendor.as_str().is_empty() || self.charge_point_vendor.as_str().len() > 20 {
            return fail("chargePointVendor must be 1-20 characters");
        }
        if self.charge_point_model.as_str().is_empty() || self.charge_point_model.as_str().len() > 20 {
            return fail("chargePointModel must be 1-20 characters");
        }
        if is_too_long(&self.charge_point_serial_number, 25) {
            return fail("chargePointSerialNumber cannot be longer than 25 characters");
        }
        if is_too_long(&self.charge_box_serial_number, 25) {
            return fail("chargeBoxSerialNumber cannot be longer than 25 characters");
        }
        if is_too_long(&self.firmware_version, 50) {
            return fail("firmwareVersion cannot be longer than 50 characters");
        }
        Ok(())
    }
}

impl Validate for StartTransactionRequest {
    open spec fn validation(&self) -> Result<(), Seq<char>> {
        if self.connector_id == 0 {
            Err("connectorId must be greater than 0"@)
        } else if self.id_tag@.len() == 0 || byte_len(self.id_tag@) > 20 {
            Err("idTag must be 1-20 characters"@)
        } else if self.meter_start < 0 {
            Err("meterStart cannot be negative"@)
        } else {
            Ok(())
        }
    }

    fn validate(&self) -> (r: Result<(), OcppError>) {
        if self.connector_id == 0 {
            return fail("connectorId must be greater than 0");
        }
        if self.id_tag.as_str().is_empty() || self.id_tag.as_str().len() > 20 {
            return fail("idTag must be 1-20 characters");
        }
        if self.meter_start < 0 {
            return fail("meterStart cannot be negative");
        }
        Ok(())
    }
}

impl Validate for StopTransactionRequest {
    open spec fn validation(&self) -> Result<(), Seq<char>> {
        if self.id_tag matches Some(t) && (t@.len() == 0 || byte_len(t@) > 20) {
            Err("idTag must be 1-20 characters"@)
        } else if self.meter_stop < 0 {
            Err("meterStop cannot be negative"@)
        } else if self.transaction_id < 0 {
            Err("transactionId cannot be negative"@)
        } else {
            Ok(())
        }
    }

    fn validate(&self) -> (r: Result<(), OcppError>) {
        if let Some(id_tag) = &self.id_tag {
            if id_tag.as_str().is_empty() || id_tag.as_str().len() > 20 {
                return fail("idTag must be 1-20 characters");
            }
        }
        if self.meter_stop < 0 {
            return fail("meterStop cannot be negative");
        }
        if self.transaction_id < 0 {
            return fail("transactionId cannot be negative");
        }
        Ok(())
    }
}

impl Validate for StatusNotificationRequest {
    open spec fn validation(&self) -> Result<(), Seq<char>> {
        if too_long(self.info, 50) {
            Err("info cannot be longer than 50 characters"@)
        } else if too_long(self.vendor_error_code, 50) {
            Err("vendorErrorCode cannot be longer than 50 characters"@)
        } else if too_long(self.vendor_id, 255) {
            Err("vendorId cannot be longer than 255 characters"@)
        } else {
            Ok(())
        }
    }

    fn validate(&self) -> (r: Result<(), OcppError>) {
        if is_too_long(&self.info, 50) {
            return fail("info cannot be longer than 50 characters");
        }
        if is_too_long(&self.vendor_error_code, 50) {
            return fail("vendorErrorCode cannot be longer than 50 characters");
        }
        if is_too_long(&self.vendor_id, 255) {
            return fail("vendorId cannot be longer than 255 characters");
        }
        Ok(())
    }
}

/// The problem with one meter reading, if any: no sampled values, or a
/// sampled value whose text is empty.
pub open spec fn meter_value_problem(mv: MeterValue) -> Option<Seq<char>> {
    if mv.sampled_values@.len() == 0 {
        Some("sampledValue array in meterValue cannot be empty"@)
    } else if exists|j: int| 0 <= j < mv.sampled_values@.len() && #[trigger] mv.sampled_values@[j].value@.len() == 0 {
        Some("sampledValue value cannot be empty"@)
    } else {
        None
    }
}

/// The problem with the first faulty meter reading, in order.
pub open spec fn first_meter_problem(mvs: Seq<MeterValue>) -> Option<Seq<char>>
    decreases mvs.len(),
{
    if mvs.len() == 0 {
        None
    } else {
        match first_meter_problem(mvs.drop_last()) {
            Some(m) => Some(m),
            None => meter_value_problem(mvs.last()),
        }
    }
}

fn check_meter_value(mv: &MeterValue) -> (r: Option<&'static str>)
    ensures
        match meter_value_problem(*mv) {
            Some(m) => r matches Some(s) && s@ == m,
            None => r is None,
        },
{
    let n = mv.sampled_values.len();
    if n == 0 {
        return Some("sampledValue array in meterValue cannot be empty");
    }
    let mut j: usize = 0;
    while j < n
        invariant
            n == mv.sampled_values@.len(),
            0 <= j <= n,
            forall|k: int| 0 <= k < j ==> #[trigger] mv.sampled_values@[k].value@.len() != 0,
        decreases n - j,
    {
        if mv.sampled_values[j].value.as_str().is_empty() {
            return Some("sampledValue value cannot be empty");
        }
        j = j + 1;
    }
    None
}

impl Validate for MeterValuesRequest {
    open spec fn validation(&self) -> Result<(), Seq<char>> {
        if self.connector_id == 0 {
            Err("connectorId must be greater than 0 for MeterValues"@)
        } else if self.transaction_id matches Some(t) && t < 0 {
            Err("transactionId cannot be negative"@)
        } else if self.meter_values@.len() == 0 {
            Err("meterValue array cannot be empty"@)
        } else {
            match first_meter_problem(self.meter_values@) {
                Some(m) => Err(m),
                None => Ok(()),
            }
        }
    }

    fn validate(&self) -> (r: Result<(), OcppError>) {
        if self.connector_id == 0 {
            return fail("connectorId must be greater than 0 for MeterValues");
        }
        if let Some(tx_id) = self.transaction_id {
            if tx_id < 0 {
                return fail("transactionId cannot be negative");
            }
        }
        let n = self.meter_values.len();
        if n == 0 {
            return fail("meterValue array cannot be empty");
        }
        let mut i: usize = 0;
        while i < n
            invariant
                n == self.meter_values@.len(),
                0 <= i <= n,
                first_meter_problem(self.meter_values@.take(i as int)) is None,
                self.validation() == (match first_meter_problem(self.meter_values@) {
                    Some(m) => Err(m),
                    None => Ok::<(), Seq<char>>(()),
                }),
            decreases n - i,
        {
            proof {
                assert(self.meter_values@.take(i as int + 1).drop_last() =~= self.meter_values@.take(i as int));
            }
            match check_meter_value(&self.meter_values[i]) {
                Some(m) => {
                    proof {
                        assert(self.meter_values@.take(i as int + 1).last() == self.meter_values@[i as int]);
                        assert(first_meter_problem(self.meter_values@.take(i as int + 1)) == Some(m@));
                        lemma_first_problem_prefix(self.meter_values@, i as int + 1);
                    }
                    return fail(m);
                },
                None => {},
            }
            i = i + 1;
        }
        proof {
            assert(self.meter_values@.take(n as int) =~= self.meter_values@);
        }
        Ok(())
    }
}

/// A problem found in a prefix is the problem of the whole sequence.
proof fn lemma_first_problem_prefix(mvs: Seq<MeterValue>, k: int)
    requires
        0 <= k <= mvs.len(),
        first_meter_problem(mvs.take(k)) is Some,
    ensures
        first_meter_problem(mvs) == first_meter_problem(mvs.take(k)),
    decreases mvs.len() - k,
{
    if k < mvs.len() {
        assert(mvs.take(k + 1).drop_last() =~= mvs.take(k));
        lemma_first_problem_prefix(mvs, k + 1);
    } else {
        assert(mvs.take(k) =~= mvs);
    }
}

/// The outcome of checking a field's length against optional bounds.
pub open spec fn string_field_check(
    field_name: Seq<char>,
    value: Seq<char>,
    min_length: Option<usize>,
    max_length: Option<usize>,
) -> Result<(), Seq<char>> {
    if min_length matches Some(min) && byte_len(value) < min {
        Err(field_name + " must be at least "@ + decimal(min_length.unwrap() as nat) + " characters long"@)
    } else if max_length matches Some(max) && byte_len(value) > max {
        Err(field_name + " cannot be longer than "@ + decimal(max_length.unwrap() as nat) + " characters"@)
    } else {
        Ok(())
    }
}

/// Validate a generic string field with length constraints (in bytes).
pub fn validate_string_field(
    field_name: &str,
    value: &str,
    min_length: Option<usize>,
    max_length: Option<usize>,
) -> (r: Result<(), OcppError>)
    ensures
        reports(r, string_field_check(field_name@, value@, min_length, max_length)),
{
    if let Some(min) = min_length {
        if value.len() < min {
            let n = u64_to_text(min as u64);
            let message = concat4(field_name, " must be at least ", n.as_str(), " characters long");
            return Err(OcppError::ValidationError { message });
        }
    }
    if let Some(max) = max_length {
        if value.len() > max {
            let n = u64_to_text(max as u64);
            let message = concat4(field_name, " cannot be longer than ", n.as_str(), " characters");
            return Err(OcppError::ValidationError { message });
        }
    }
    Ok(())
}

/// The outcome of checking a connector ID: zero only where allowed, and at
/// most 100.
pub open spec fn connector_id_check(connector_id: u32, allow_zero: bool) -> Result<(), Seq<char>> {
    if connector_id == 0 && !allow_zero {
        Err("Connector ID must be greater than 0"@)
    } else if connector_id > 100 {
        Err("Connector ID cannot be greater than 100"@)
    } else {
        Ok(())
    }
}

/// Validate a connector ID.
pub fn validate_connector_id(connector_id: u32, allow_zero: bool) -> (r: Result<(), OcppError>)
    ensures
        reports(r, connector_id_check(connector_id, allow_zero)),
{
    if connector_id == 0 && !allow_zero {
        return fail("Connector ID must be greater than 0");
    }
    if connector_id > 100 {
        return fail("Connector ID cannot be greater than 100");
    }
    Ok(())
}

/// A connector ID is accepted exactly when it is at most 100 and, unless
/// zero is allowed, positive.
pub proof fn lemma_connector_id_accepted(connector_id: u32, allow_zero: bool)
    ensures
        connector_id_check(connector_id, allow_zero) is Ok
            <==> (connector_id <= 100 && (allow_zero || connector_id > 0)),
{
}


/// An Authorize request is accepted exactly when its idTag is non-empty and
/// at most 20 bytes long; an empty one is refused as empty.
pub proof fn lemma_authorize_limits(req: AuthorizeRequest)
    ensures
        req.validation() is Ok <==> (req.id_tag@.len() > 0 && byte_len(req.id_tag@) <= 20),
        req.id_tag@.len() == 0 ==> req.validation() == Err::<(), Seq<char>>("idTag cannot be empty"@),
{
}

/// A BootNotification is accepted exactly when vendor and model are 1 to 20
/// bytes, the two serial numbers at most 25 and the firmware version at
/// most 50.
pub proof fn lemma_boot_notification_limits(req: BootNotificationRequest)
    ensures
        req.validation() is Ok <==> (req.charge_point_vendor@.len() > 0 && byte_len(req.charge_point_vendor@) <= 20
            && req.charge_point_model@.len() > 0 && byte_len(req.charge_point_model@) <= 20
            && !too_long(req.charge_point_serial_number, 25) && !too_long(req.charge_box_serial_number, 25)
            && !too_long(req.firmware_version, 50)),
{
}

/// A StartTransaction request is accepted exactly when its connector is not
/// zero, its idTag is 1 to 20 bytes and its meter start is not negative.
pub proof fn lemma_start_transaction_limits(req: StartTransactionRequest)
    ensures
        req.validation() is Ok <==> (req.connector_id > 0 && req.id_tag@.len() > 0 && byte_len(req.id_tag@) <= 20
            && req.meter_start >= 0),
        req.connector_id > 0 && req.id_tag@.len() > 0 && byte_len(req.id_tag@) <= 20 && req.meter_start < 0
            ==> req.validation() == Err::<(), Seq<char>>("meterStart cannot be negative"@),
{
}

/// A StatusNotification is accepted exactly when its info and vendor error
/// code are at most 50 bytes and its vendor ID at most 255.
pub proof fn lemma_status_notification_limits(req: StatusNotificationRequest)
    ensures
        req.validation() is Ok <==> (!too_long(req.info, 50) && !too_long(req.vendor_error_code, 50)
            && !too_long(req.vendor_id, 255)),
{
}

/// A MeterValues request is refused when its connector is zero, its
/// transaction ID is negative or it carries no meter reading.
pub proof fn lemma_meter_values_limits(req: MeterValuesRequest)
    ensures
        req.validation() is Ok ==> (req.connector_id > 0 && (req.transaction_id matches Some(t) ==> t >= 0)
            && req.meter_values@.len() > 0),
{
}

/// A StopTransaction request is accepted exactly when its idTag, if any, is
/// non-empty and at most 20 bytes long and its meter reading and
/// transaction ID are not negative. With a well-formed or absent idTag, a
/// negative meter reading is refused with "meterStop cannot be negative",
/// and otherwise a negative transaction ID with "transactionId cannot be
/// negative".
pub proof fn lemma_stop_transaction_limits(req: StopTransactionRequest)
    ensures
        req.validation() is Ok <==> ((req.id_tag matches Some(t) ==> t@.len() > 0 && byte_len(t@) <= 20)
            && req.meter_stop >= 0 && req.transaction_id >= 0),
        (req.id_tag matches Some(t) ==> t@.len() > 0 && byte_len(t@) <= 20) && req.meter_stop < 0
            ==> req.validation() == Err::<(), Seq<char>>("meterStop cannot be negative"@),
        (req.id_tag matches Some(t) ==> t@.len() > 0 && byte_len(t@) <= 20) && req.meter_stop >= 0
            && req.transaction_id < 0 ==> req.validation() == Err::<(), Seq<char>>("transactionId cannot be negative"@),
{
}

} // verus!
