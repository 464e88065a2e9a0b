//! The Redfish resources and request bodies, as plain data.
use vstd::prelude::*;
use crate::json::{json_member, json_quoted, quote};

verus! {

/// Common Redfish resource status.
#[derive(Debug, Clone, Default)]
pub struct Status {
    pub state: Option<String>,
    pub health: Option<String>,
    pub health_rollup: Option<String>,
}

/// Service Root (`/redfish/v1/`).
#[derive(Debug, Clone)]
pub struct ServiceRoot {
    pub odata_id: Option<String>,
    pub id: Option<String>,
    pub name: Option<String>,
    pub redfish_version: Option<String>,
    pub systems: Option<OdataLink>,
    pub chassis: Option<OdataLink>,
    pub managers: Option<OdataLink>,
    pub session_service: Option<OdataLink>,
    pub account_service: Option<OdataLink>,
    pub update_service: Option<OdataLink>,
    pub event_service: Option<OdataLink>,
}

/// OData link reference.
#[derive(Debug, Clone)]
pub struct OdataLink {
    pub odata_id: String,
}

/// Collection of resources.
#[derive(Debug, Clone)]
pub struct Collection {
    pub odata_id: Option<String>,
    pub name: Option<String>,
    pub members_count: Option<u32>,
    pub members: Option<Vec<OdataLink>>,
}

/// Boot settings of a computer system.
#[derive(Debug, Clone)]
pub struct Boot {
    pub boot_source_override_target: Option<String>,
    pub boot_source_override_enabled: Option<String>,
    pub boot_source_override_mode: Option<String>,
}

/// Processor summary of a computer system.
#[derive(Debug, Clone)]
pub struct ProcessorSummary {
    pub count: Option<u32>,
    pub model: Option<String>,
    pub status: Option<Status>,
}

/// Chassis resource.
#[derive(Debug, Clone)]
pub struct Chassis {
    pub odata_id: Option<String>,
    pub id: Option<String>,
    pub name: Option<String>,
    pub chassis_type: Option<String>,
    pub manufacturer: Option<String>,
    pub model: Option<String>,
    pub serial_number: Option<String>,
    pub part_number: Option<String>,
    pub power_state: Option<String>,
    pub status: Option<Status>,
    pub thermal: Option<OdataLink>,
    pub power: Option<OdataLink>,
}

/// Manager (BMC) resource.
#[derive(Debug, Clone)]
pub struct Manager {
    pub odata_id: Option<String>,
    pub id: Option<String>,
    pub name: Option<String>,
    pub manager_type: Option<String>,
    pub firmware_version: Option<String>,
    pub status: Option<Status>,
    pub ethernet_interfaces: Option<OdataLink>,
    pub network_protocol: Option<OdataLink>,
    pub log_services: Option<OdataLink>,
}

/// Processor resource.
#[derive(Debug, Clone)]
pub struct Processor {
    pub odata_id: Option<String>,
    pub id: Option<String>,
    pub name: Option<String>,
    pub manufacturer: Option<String>,
    pub model: Option<String>,
    pub total_cores: Option<u32>,
    pub total_threads: Option<u32>,
    pub max_speed_m_hz: Option<u32>,
    pub status: Option<Status>,
}

/// Memory resource.
#[derive(Debug, Clone)]
pub struct Memory {
    pub odata_id: Option<String>,
    pub id: Option<String>,
    pub name: Option<String>,
    pub memory_device_type: Option<String>,
    pub capacity_mi_b: Option<u64>,
    pub operating_speed_mhz: Option<u32>,
    pub manufacturer: Option<String>,
    pub serial_number: Option<String>,
    pub status: Option<Status>,
}

/// Storage resource.
#[derive(Debug, Clone)]
pub struct Storage {
    pub odata_id: Option<String>,
    pub id: Option<String>,
    pub name: Option<String>,
    pub drives: Option<Vec<OdataLink>>,
    pub storage_controllers: Option<Vec<StorageController>>,
}

/// Storage controller of a storage resource.
#[derive(Debug, Clone)]
pub struct StorageController {
    pub member_id: Option<String>,
    pub name: Option<String>,
    pub manufacturer: Option<String>,
    pub model: Option<String>,
    pub firmware_version: Option<String>,
    pub status: Option<Status>,
}

/// Drive resource.
#[derive(Debug, Clone)]
pub struct Drive {
    pub odata_id: Option<String>,
    pub id: Option<String>,
    pub name: Option<String>,
    pub manufacturer: Option<String>,
    pub model: Option<String>,
    pub serial_number: Option<String>,
    pub capacity_bytes: Option<u64>,
    pub media_type: Option<String>,
    pub protocol: Option<String>,
    pub status: Option<Status>,
}

/// EthernetInterface resource.
#[derive(Debug, Clone)]
pub struct EthernetInterface {
    pub odata_id: Option<String>,
    pub id: Option<String>,
    pub name: Option<String>,
    pub mac_address: Option<String>,
    pub speed_mbps: Option<u32>,
    pub status: Option<Status>,
    pub ipv4_addresses: Option<Vec<serde_json::Value>>,
    pub ipv6_addresses: Option<Vec<serde_json::Value>>,
}

/// Account Service resource.
#[derive(Debug, Clone)]
pub struct AccountService {
    pub odata_id: Option<String>,
    pub accounts: Option<OdataLink>,
    pub roles: Option<OdataLink>,
}

/// User Account resource.
#[derive(Debug, Clone)]
pub struct Account {
    pub odata_id: Option<String>,
    pub id: Option<String>,
    pub name: Option<String>,
    pub user_name: Option<String>,
    pub role_id: Option<String>,
    pub enabled: Option<bool>,
    pub locked: Option<bool>,
}

/// Update Service resource.
#[derive(Debug, Clone)]
pub struct UpdateService {
    pub odata_id: Option<String>,
    pub firmware_inventory: Option<OdataLink>,
    pub software_inventory: Option<OdataLink>,
    pub service_enabled: Option<bool>,
}

/// Event Service resource.
#[derive(Debug, Clone)]
pub struct EventService {
    pub odata_id: Option<String>,
    pub service_enabled: Option<bool>,
    pub subscriptions: Option<OdataLink>,
}

/// Log Entry resource.
#[derive(Debug, Clone)]
pub struct LogEntry {
    pub odata_id: Option<String>,
    pub id: Option<String>,
    pub name: Option<String>,
    pub created: Option<String>,
    pub entry_type: Option<String>,
    pub severity: Option<String>,
    pub message: Option<String>,
    pub message_id: Option<String>,
}

/// Task resource.
#[derive(Debug, Clone)]
pub struct Task {
    pub odata_id: Option<String>,
    pub id: Option<String>,
    pub name: Option<String>,
    pub task_state: Option<String>,
    pub start_time: Option<String>,
    pub end_time: Option<String>,
    pub task_status: Option<String>,
}

/// Session creation request body.
#[derive(Debug)]
pub struct SessionCreate {
    pub user_name: String,
    pub password: String,
}

/// Reset request body.
#[derive(Debug)]
pub struct ResetRequest {
    pub reset_type: String,
}

/// Boot override request body.
#[derive(Debug)]
pub struct BootOverride {
    pub boot: BootOverrideInner,
}

/// The boot settings inside a boot override request body.
#[derive(Debug)]
pub struct BootOverrideInner {
    pub boot_source_override_target: String,
    pub boot_source_override_enabled: Option<String>,
}

/// The JSON text of a session creation body.
pub open spec fn session_create_json(user_name: Seq<char>, password: Seq<char>) -> Seq<char> {
    "{"@ + json_member("UserName"@, json_quoted(user_name)) + ","@ + json_member("Password"@, json_quoted(password))
        + "}"@
}

/// The JSON text of a reset body.
pub open spec fn reset_request_json(reset_type: Seq<char>) -> Seq<char> {
    "{"@ + json_member("ResetType"@, json_quoted(reset_type)) + "}"@
}

/// A JSON string literal, or `null` for an absent string.
pub open spec fn optional_json(s: Option<Seq<char>>) -> Seq<char> {
    match s {
        Some(v) => json_quoted(v),
        None => "null"@,
    }
}

/// The JSON text of the boot settings of a boot override body; the keys come
/// in sorted order.
pub open spec fn boot_settings_json(target: Seq<char>, enabled: Option<Seq<char>>) -> Seq<char> {
    "{"@ + json_member("BootSourceOverrideEnabled"@, optional_json(enabled)) + ","@ + json_member(
        "BootSourceOverrideTarget"@,
        json_quoted(target),
    ) + "}"@
}

/// The JSON text of a boot override body around the given settings text.
pub open spec fn boot_override_json(settings: Seq<char>) -> Seq<char> {
    "{"@ + json_member("Boot"@, settings) + "}"@
}

/// Appends one object member, `"key":value`, to `out`.
fn append_member(out: &mut String, key: &str, value_text: &str)
    ensures
        final(out)@ == old(out)@ + json_member(key@, value_text@),
{
    let k = quote(key);
    out.append(k.as_str());
    out.append(":");
    out.append(value_text);
}

impl SessionCreate {
    /// The body as JSON text.
    pub fn to_json(&self) -> (r: String)
        ensures
            r@ == session_create_json(self.user_name@, self.password@),
    {
        let mut r = String::from_str("{");
        let user = quote(self.user_name.as_str());
        append_member(&mut r, "UserName", user.as_str());
        r.append(",");
        let pw = quote(self.password.as_str());
        append_member(&mut r, "Password", pw.as_str());
        r.append("}");
        r
    }
}

impl ResetRequest {
    /// The body as JSON text.
    pub fn to_json(&self) -> (r: String)
        ensures
            r@ == reset_request_json(self.reset_type@),
    {
        let mut r = String::from_str("{");
        let t = quote(self.reset_type.as_str());
        append_member(&mut r, "ResetType", t.as_str());
        r.append("}");
        r
    }
}

impl BootOverrideInner {
    /// The settings as JSON text.
    pub fn to_json(&self) -> (r: String)
        ensures
            r@ == boot_settings_json(
                self.boot_source_override_target@,
                match self.boot_source_override_enabled {
                    Some(e) => Some(e@),
                    None => None,
                },
            ),
    {
        let mut r = String::from_str("{");
        let enabled = match &self.boot_source_override_enabled {
            Some(e) => quote(e.as_str()),
            None => String::from_str("null"),
        };
        append_member(&mut r, "BootSourceOverrideEnabled", enabled.as_str());
        r.append(",");
        let t = quote(self.boot_source_override_target.as_str());
        append_member(&mut r, "BootSourceOverrideTarget", t.as_str());
        r.append("}");
        r
    }
}

impl BootOverride {
    /// The body as JSON text.
    pub fn to_json(&self) -> (r: String)
        ensures
            r@ == boot_override_json(
                boot_settings_json(
                    self.boot.boot_source_override_target@,
                    match self.boot.boot_source_override_enabled {
                        Some(e) => Some(e@),
                        None => None,
                    },
                ),
            ),
    {
        let mut r = String::from_str("{");
        let inner = self.boot.to_json();
        append_member(&mut r, "Boot", inner.as_str());
        r.append("}");
        r
    }
}

} // verus!
