use rufish::{Auth, HttpRequest, Method, RedfishClient, RequestBody};

fn client(host: &str) -> RedfishClient {
    RedfishClient::new(host, "admin", "password").expect("the HTTP client builds")
}

fn basic() -> Auth {
    Auth::Basic { username: "admin".to_string(), password: "password".to_string() }
}

fn get(url: &str) -> HttpRequest {
    HttpRequest { method: Method::Get, url: url.to_string(), auth: basic(), body: RequestBody::Empty }
}

#[test]
fn host_without_scheme_uses_https() {
    let c = client("10.0.0.5");
    assert_eq!(c.get_service_root().url, "https://10.0.0.5/redfish/v1/");
}

#[test]
fn host_with_scheme_is_kept_and_trailing_slashes_dropped() {
    let c = client("http://bmc.local:8080///");
    assert_eq!(c.list_systems().url, "http://bmc.local:8080/redfish/v1/Systems");
    let c = client("bmc.example.com/");
    assert_eq!(c.list_systems().url, "https://bmc.example.com/redfish/v1/Systems");
}

#[test]
fn host_name_beginning_with_http_still_uses_https() {
    let c = client("httpbmc.example");
    assert_eq!(c.list_systems().url, "https://httpbmc.example/redfish/v1/Systems");
    let c = client("https-gw/");
    assert_eq!(c.list_systems().url, "https://https-gw/redfish/v1/Systems");
}

#[test]
fn empty_host_gives_bare_https_base() {
    let c = client("");
    assert_eq!(c.get("/x").url, "https:///x");
}

#[test]
fn raw_get_resolves_relative_and_absolute_paths() {
    let c = client("10.0.0.5");
    assert_eq!(c.get("/redfish/v1/Chassis"), get("https://10.0.0.5/redfish/v1/Chassis"));
    assert_eq!(c.get("https://other/redfish/v1"), get("https://other/redfish/v1"));
    assert_eq!(c.get("http://other:8000/x").url, "http://other:8000/x");
    assert_eq!(c.get("httpfoo").url, "httpfoo");
    assert_eq!(c.delete("/redfish/v1/Sessions/1").method, Method::Delete);
}

#[test]
fn typed_reads_build_the_documented_paths() {
    let c = client("h");
    let b = "https://h/redfish/v1";
    assert_eq!(c.get_service_root(), get(&format!("{}/", b)));
    assert_eq!(c.list_systems(), get(&format!("{}/Systems", b)));
    assert_eq!(c.get_system("1"), get(&format!("{}/Systems/1", b)));
    assert_eq!(c.list_chassis(), get(&format!("{}/Chassis", b)));
    assert_eq!(c.get_chassis("C1"), get(&format!("{}/Chassis/C1", b)));
    assert_eq!(c.list_managers(), get(&format!("{}/Managers", b)));
    assert_eq!(c.get_manager("BMC"), get(&format!("{}/Managers/BMC", b)));
    assert_eq!(c.get_power("C1"), get(&format!("{}/Chassis/C1/Power", b)));
    assert_eq!(c.get_thermal("C1"), get(&format!("{}/Chassis/C1/Thermal", b)));
    assert_eq!(c.list_processors("1"), get(&format!("{}/Systems/1/Processors", b)));
    assert_eq!(c.get_processor("1", "CPU0"), get(&format!("{}/Systems/1/Processors/CPU0", b)));
    assert_eq!(c.list_memory("1"), get(&format!("{}/Systems/1/Memory", b)));
    assert_eq!(c.get_memory("1", "DIMM0"), get(&format!("{}/Systems/1/Memory/DIMM0", b)));
    assert_eq!(c.list_storage("1"), get(&format!("{}/Systems/1/Storage", b)));
    assert_eq!(c.get_storage("1", "RAID"), get(&format!("{}/Systems/1/Storage/RAID", b)));
    assert_eq!(c.list_ethernet_interfaces("1"), get(&format!("{}/Systems/1/EthernetInterfaces", b)));
    assert_eq!(c.get_ethernet_interface("1", "NIC1"), get(&format!("{}/Systems/1/EthernetInterfaces/NIC1", b)));
    assert_eq!(c.get_account_service(), get(&format!("{}/AccountService", b)));
    assert_eq!(c.list_accounts(), get(&format!("{}/AccountService/Accounts", b)));
    assert_eq!(c.get_update_service(), get(&format!("{}/UpdateService", b)));
    assert_eq!(c.get_event_service(), get(&format!("{}/EventService", b)));
    assert_eq!(c.list_log_entries("BMC", "SEL"), get(&format!("{}/Managers/BMC/LogServices/SEL/Entries", b)));
}

fn action(method: Method, url: &str, body: &str) -> HttpRequest {
    HttpRequest { method, url: url.to_string(), auth: basic(), body: RequestBody::Json(body.to_string()) }
}

#[test]
fn power_actions_post_the_reset_type() {
    let c = client("h");
    let url = "https://h/redfish/v1/Systems/1/Actions/ComputerSystem.Reset";
    assert_eq!(c.reset_system("1", "Nmi"), action(Method::Post, url, r#"{"ResetType":"Nmi"}"#));
    assert_eq!(c.power_on("1"), action(Method::Post, url, r#"{"ResetType":"On"}"#));
    assert_eq!(c.power_off("1"), action(Method::Post, url, r#"{"ResetType":"ForceOff"}"#));
    assert_eq!(c.graceful_shutdown("1"), action(Method::Post, url, r#"{"ResetType":"GracefulShutdown"}"#));
    assert_eq!(c.graceful_restart("1"), action(Method::Post, url, r#"{"ResetType":"GracefulRestart"}"#));
    assert_eq!(c.force_restart("1"), action(Method::Post, url, r#"{"ResetType":"ForceRestart"}"#));
    assert_eq!(c.power_cycle("1"), action(Method::Post, url, r#"{"ResetType":"PowerCycle"}"#));
    assert_eq!(c.power_on("1"), c.reset_system("1", "On"));
}

#[test]
fn boot_override_patches_the_system() {
    let c = client("h");
    let url = "https://h/redfish/v1/Systems/1";
    assert_eq!(
        c.set_boot_override("1", "Hdd", Some("Continuous")),
        action(Method::Patch, url, r#"{"Boot":{"BootSourceOverrideEnabled":"Continuous","BootSourceOverrideTarget":"Hdd"}}"#)
    );
    assert_eq!(
        c.set_boot_override("1", "Cd", None),
        action(Method::Patch, url, r#"{"Boot":{"BootSourceOverrideEnabled":"Once","BootSourceOverrideTarget":"Cd"}}"#)
    );
    assert_eq!(c.set_boot_pxe("1"), c.set_boot_override("1", "Pxe", Some("Once")));
    assert_eq!(c.set_boot_bios("1"), c.set_boot_override("1", "BiosSetup", None));
}

#[test]
fn boot_override_body_matches_serde_json() {
    let c = client("h");
    let expected: serde_json::Value =
        serde_json::from_str(r#"{"Boot":{"BootSourceOverrideTarget":"Pxe","BootSourceOverrideEnabled":"Once"}}"#).unwrap();
    match c.set_boot_pxe("1").body {
        RequestBody::Json(text) => assert_eq!(text, serde_json::to_string(&expected).unwrap()),
        other => panic!("unexpected body {:?}", other),
    }
}

#[test]
fn manager_actions() {
    let c = client("h");
    assert_eq!(
        c.reset_manager("BMC", "GracefulRestart"),
        action(Method::Post, "https://h/redfish/v1/Managers/BMC/Actions/Manager.Reset", r#"{"ResetType":"GracefulRestart"}"#)
    );
    assert_eq!(
        c.clear_log("BMC", "SEL"),
        action(Method::Post, "https://h/redfish/v1/Managers/BMC/LogServices/SEL/Actions/LogService.ClearLog", "{}")
    );
}

#[test]
fn post_and_patch_carry_the_given_value() {
    let c = client("h");
    let v: serde_json::Value = serde_json::from_str(r#"{"AssetTag":"x"}"#).unwrap();
    let p = c.post("/redfish/v1/Systems/1/Actions/Oem", &v);
    assert_eq!(p.method, Method::Post);
    assert_eq!(p.body, RequestBody::Json(serde_json::to_string(&v).unwrap()));
    let q = c.patch("https://h2/redfish/v1/Systems/1", &v);
    assert_eq!(q.method, Method::Patch);
    assert_eq!(q.url, "https://h2/redfish/v1/Systems/1");
    assert_eq!(q.auth, basic());
    assert_eq!(q.body, RequestBody::Json(r#"{"AssetTag":"x"}"#.to_string()));
}

#[test]
fn reset_and_boot_override_send_what_post_and_patch_send() {
    let c = client("h");
    let reset: serde_json::Value = serde_json::from_str(r#"{"ResetType":"On"}"#).unwrap();
    assert_eq!(c.power_on("1"), c.post("/redfish/v1/Systems/1/Actions/ComputerSystem.Reset", &reset));
    let boot: serde_json::Value =
        serde_json::from_str(r#"{"Boot":{"BootSourceOverrideTarget":"Usb","BootSourceOverrideEnabled":"Continuous"}}"#).unwrap();
    assert_eq!(c.set_boot_override("1", "Usb", Some("Continuous")), c.patch("/redfish/v1/Systems/1", &boot));
    let reset: serde_json::Value = serde_json::from_str(r#"{"ResetType":"ForceRestart"}"#).unwrap();
    assert_eq!(c.reset_manager("BMC", "ForceRestart"), c.post("/redfish/v1/Managers/BMC/Actions/Manager.Reset", &reset));
    let empty: serde_json::Value = serde_json::from_str("{}").unwrap();
    assert_eq!(c.clear_log("BMC", "SEL"), c.post("/redfish/v1/Managers/BMC/LogServices/SEL/Actions/LogService.ClearLog", &empty));
    let hdd: serde_json::Value =
        serde_json::from_str(r#"{"Boot":{"BootSourceOverrideTarget":"Hdd","BootSourceOverrideEnabled":"Once"}}"#).unwrap();
    assert_eq!(c.set_boot_override("1", "Hdd", None), c.patch("/redfish/v1/Systems/1", &hdd));
    let odd_type = "a\"\\\n\u{1}é";
    let mut m = serde_json::Map::new();
    m.insert("ResetType".to_string(), serde_json::Value::String(odd_type.to_string()));
    let odd = serde_json::Value::Object(m);
    assert_eq!(c.reset_system("1", odd_type), c.post("/redfish/v1/Systems/1/Actions/ComputerSystem.Reset", &odd));
}
