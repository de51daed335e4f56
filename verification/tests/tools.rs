use libstealthtech::characteristics::char_upstream;
use libstealthtech::characteristics::service_stealthtech;
use libstealthtech::commands::ConfigShape;
use libstealthtech::commands::Input;
use libstealthtech::commands::Response;
use libstealthtech::commands::SoundMode;
use libstealthtech::connection::backoff_in_range;
use libstealthtech::connection::give_up_message;
use libstealthtech::connection::next_reconnect_action;
use libstealthtech::connection::reconnect_delay;
use libstealthtech::connection::ConnectionConfig;
use libstealthtech::connection::ConnectionState;
use libstealthtech::connection::ReconnectAction;
use libstealthtech::docs::doc_page_html;
use libstealthtech::docs::doc_pages;
use libstealthtech::docs::generate_sitemap;
use libstealthtech::docs::render_doc_page;
use libstealthtech::docs::render_index;
use libstealthtech::docs::rewrite_doc_links;
use libstealthtech::gatt::describe_characteristic;
use libstealthtech::gatt::group_by_service;
use libstealthtech::gatt::known_characteristic_name;
use libstealthtech::gatt::property_names;
use libstealthtech::gatt::CharProperties;
use libstealthtech::scanner::find_device_by_address;
use libstealthtech::scanner::is_stealthtech_name;
use libstealthtech::scanner::peripheral_address;
use libstealthtech::serve::connect_failure_status;
use libstealthtech::serve::export_index_html;
use libstealthtech::serve::input_from_request;
use libstealthtech::serve::is_asset_path;
use libstealthtech::serve::mode_from_request;
use libstealthtech::serve::shape_from_request;
use libstealthtech::serve::split_lines;
use libstealthtech::serve::static_content_type;
use libstealthtech::serve::static_file_path;
use libstealthtech::sniff::ascii_preview;
use libstealthtech::sniff::monitor_log_row;
use libstealthtech::sniff::monitor_row;
use libstealthtech::sniff::notification_line;
use libstealthtech::sniff::service_uuid_prefix;

// --- Connection ---

#[test]
fn default_connection_config() {
    let c = ConnectionConfig::default();
    assert_eq!(c.max_reconnect_attempts, 10);
    assert_eq!(c.reconnect_base_delay, 500);
    assert_eq!(c.reconnect_max_delay, 30_000);
    assert_eq!(c.connect_timeout, 15_000);
    assert_eq!(c.discovery_timeout, 10_000);
    assert_eq!(c.keepalive_interval, 5_000);
}

#[test]
fn backoff_doubles_up_to_the_cap() {
    let c = ConnectionConfig::default();
    let delays: Vec<u64> = (1..=10).map(|a| reconnect_delay(&c, a)).collect();
    assert_eq!(
        delays,
        vec![500, 1000, 2000, 4000, 8000, 16000, 30000, 30000, 30000, 30000]
    );
    assert!(backoff_in_range(&c, 40));
    assert_eq!(reconnect_delay(&c, 40), 30000);
}

#[test]
fn backoff_range_check() {
    let mut c = ConnectionConfig::default();
    c.reconnect_base_delay = u64::MAX;
    assert!(backoff_in_range(&c, 1));
    assert!(backoff_in_range(&c, 10));
    assert!(!backoff_in_range(&c, 11));
}

#[test]
fn reconnect_actions() {
    let c = ConnectionConfig::default();
    assert_eq!(
        next_reconnect_action(&c, 0, false),
        ReconnectAction::Attempt { attempt: 1, delay: 500 }
    );
    assert_eq!(
        next_reconnect_action(&c, 3, false),
        ReconnectAction::Attempt { attempt: 4, delay: 4000 }
    );
    assert_eq!(next_reconnect_action(&c, 3, true), ReconnectAction::Reconnected);
    assert_eq!(next_reconnect_action(&c, 10, false), ReconnectAction::GiveUp);
    assert_eq!(
        ReconnectAction::Attempt { attempt: 4, delay: 4000 }.state(),
        ConnectionState::Reconnecting { attempt: 4 }
    );
    assert_eq!(ReconnectAction::GiveUp.state(), ConnectionState::Disconnected);
    assert_eq!(ReconnectAction::Reconnected.state(), ConnectionState::Connected);
    assert_eq!(give_up_message(&c), "Failed to reconnect after 10 attempts");
}

#[test]
fn connection_state_texts() {
    assert_eq!(ConnectionState::Disconnected.to_string(), "Disconnected");
    assert_eq!(ConnectionState::Connecting.to_string(), "Connecting");
    assert_eq!(ConnectionState::Connected.to_string(), "Connected");
    assert_eq!(ConnectionState::Reconnecting { attempt: 3 }.to_string(), "Reconnecting (attempt 3)");
}

// --- Scanner ---

#[test]
fn stealthtech_names_match_case_insensitively() {
    assert!(is_stealthtech_name(Some("StealthTech Sound")));
    assert!(is_stealthtech_name(Some("LOVESAC-1234")));
    assert!(is_stealthtech_name(Some("Sound + Charge")));
    assert!(is_stealthtech_name(Some("EE4034 center")));
    assert!(!is_stealthtech_name(Some("JBL Flip")));
    assert!(!is_stealthtech_name(None));
}

#[test]
fn peripheral_address_prefers_real_address() {
    assert_eq!(peripheral_address("AA:BB:CC:DD:EE:FF".to_string(), "id-1".to_string()), "AA:BB:CC:DD:EE:FF");
    assert_eq!(peripheral_address("00:00:00:00:00:00".to_string(), "id-1".to_string()), "id-1");
}

#[test]
fn find_device_ignores_case() {
    let addrs = vec!["aa:bb".to_string(), "CC:DD".to_string(), "cc:dd".to_string()];
    assert_eq!(find_device_by_address(&addrs, "cc:DD"), Some(1));
    assert_eq!(find_device_by_address(&addrs, "ee:ff"), None);
}

// --- GATT ---

#[test]
fn standard_characteristic_names() {
    assert_eq!(known_characteristic_name("00002a00-0000-1000-8000-00805f9b34fb"), Some("Device Name"));
    assert_eq!(known_characteristic_name("00002A24-0000-1000-8000-00805F9B34FB"), Some("Model Number String"));
    assert_eq!(known_characteristic_name("65786365-6c70-6f69-6e74-2e636f6d0001"), None);
}

#[test]
fn property_name_list() {
    let p = CharProperties { read: true, write: false, write_without_response: true, notify: true, indicate: false };
    assert_eq!(property_names(p), vec!["READ".to_string(), "WRITE_NO_RESP".to_string(), "NOTIFY".to_string()]);
}

#[test]
fn describe_characteristic_values() {
    let p = CharProperties { read: true, write: false, write_without_response: false, notify: false, indicate: false };
    let c = describe_characteristic(
        "00002A00-0000-1000-8000-00805F9B34FB".to_string(),
        "00001800-0000-1000-8000-00805f9b34fb".to_string(),
        p,
        Some(b"Sofa".to_vec()),
    );
    assert_eq!(c.value_hex, Some("536f6661".to_string()));
    assert_eq!(c.value_utf8, Some("Sofa".to_string()));
    assert!(c.is_known);
    assert_eq!(c.description, Some("Device Name".to_string()));

    let c = describe_characteristic("x".to_string(), "s".to_string(), p, Some(vec![0x00, 0xff]));
    assert_eq!(c.value_hex, Some("00ff".to_string()));
    assert_eq!(c.value_utf8, None);
    assert!(!c.is_known);
    assert_eq!(c.description, None);

    let c = describe_characteristic("x".to_string(), "s".to_string(), p, None);
    assert_eq!(c.value_hex, None);
    assert_eq!(c.value_utf8, None);
}

#[test]
fn grouping_sorts_services_and_keeps_order() {
    let p = CharProperties { read: true, write: false, write_without_response: false, notify: false, indicate: false };
    let chars = vec![
        describe_characteristic("c1".to_string(), "s2".to_string(), p, None),
        describe_characteristic("c2".to_string(), "s1".to_string(), p, None),
        describe_characteristic("c3".to_string(), "s2".to_string(), p, None),
    ];
    let services = group_by_service(chars);
    assert_eq!(services.len(), 2);
    assert_eq!(services[0].uuid, "s1");
    assert_eq!(services[1].uuid, "s2");
    assert!(services[0].is_primary && services[1].is_primary);
    let s2: Vec<&str> = services[1].characteristics.iter().map(|c| c.uuid.as_str()).collect();
    assert_eq!(s2, vec!["c1", "c3"]);
    assert!(group_by_service(vec![]).is_empty());
}

// --- Docs ---

#[test]
fn doc_page_registry() {
    let pages = doc_pages();
    let slugs: Vec<&str> = pages.iter().map(|p| p.slug).collect();
    assert_eq!(
        slugs,
        vec!["protocol-mapping", "architecture", "reverse-engineering", "firmware-analysis", "hardware-teardown"]
    );
    assert_eq!(pages[0].title, "Protocol Mapping");
}

#[test]
fn doc_links_are_rewritten() {
    assert_eq!(
        rewrite_doc_links("<a href=\"protocol-mapping.md\">x</a> <a href=\"other.md\">y</a>"),
        "<a href=\"protocol-mapping.html\">x</a> <a href=\"other.md\">y</a>"
    );
    assert_eq!(
        rewrite_doc_links("architecture.md firmware-analysis.md"),
        "architecture.html firmware-analysis.html"
    );
}

#[test]
fn doc_page_wraps_body() {
    let html = doc_page_html("architecture", "Architecture", "Desc", "<p>Body</p>");
    assert!(html.starts_with("<!DOCTYPE html>"));
    assert!(html.contains("<title>Architecture — StealthTech Docs</title>"));
    assert!(html.contains("<meta name=\"description\" content=\"Desc\">"));
    assert!(html.contains("https://stealthtech.app/docs/architecture.html"));
    assert!(html.contains("<p>Body</p>"));
    assert!(html.ends_with("</html>"));
}

#[test]
fn markdown_page_renders() {
    let pages = doc_pages();
    let (name, html) = render_doc_page(&pages[1], "# Title\n\nSee [map](protocol-mapping.md).\n");
    assert_eq!(name, "architecture.html");
    assert!(html.contains("<h1>Title</h1>"));
    assert!(html.contains("<a href=\"protocol-mapping.html\">map</a>"));
    assert!(!html.contains("protocol-mapping.md"));
}

#[test]
fn index_lists_every_page() {
    let index = render_index();
    assert!(index.starts_with("<!DOCTYPE html>"));
    for p in doc_pages() {
        assert!(index.contains(&format!("<a class=\"doc-index-card\" href=\"{}.html\">", p.slug)));
        assert!(index.contains(&format!("<h3>{}</h3>", p.title)));
    }
    assert!(index.ends_with("</html>"));
}

#[test]
fn sitemap_lists_every_page() {
    let xml = generate_sitemap();
    assert!(xml.starts_with("<?xml version=\"1.0\" encoding=\"UTF-8\"?>\n"));
    assert!(xml.contains("<loc>https://stealthtech.app/</loc>"));
    assert!(xml.contains("<loc>https://stealthtech.app/docs/hardware-teardown.html</loc>"));
    assert_eq!(xml.matches("<url>").count(), 7);
    assert!(xml.ends_with("</urlset>\n"));
}

// --- Web server ---

#[test]
fn static_paths() {
    assert_eq!(static_file_path("/"), "index.html");
    assert_eq!(static_file_path(""), "index.html");
    assert_eq!(static_file_path("//docs/"), "docs/index.html");
    assert_eq!(static_file_path("/app.js"), "app.js");
    assert!(is_asset_path("app.js"));
    assert!(!is_asset_path("docs/index"));
}

#[test]
fn static_content_types() {
    assert_eq!(static_content_type("pkg/app_bg.wasm"), "application/wasm");
    assert_eq!(static_content_type("index.html"), "text/html");
    assert_eq!(static_content_type("style.css"), "text/css");
}

#[test]
fn request_names() {
    assert_eq!(input_from_request("HDMI").unwrap(), Input::HdmiArc);
    assert_eq!(input_from_request("toslink").unwrap(), Input::Optical);
    assert_eq!(input_from_request("Vinyl").unwrap_err(), "Unknown input: vinyl");
    assert_eq!(mode_from_request("Dialog").unwrap(), SoundMode::News);
    assert_eq!(mode_from_request("opera").unwrap_err(), "Unknown mode: opera");
    assert_eq!(shape_from_request("U-Shape").unwrap(), ConfigShape::UShape);
    assert_eq!(shape_from_request("Round").unwrap_err(), "Unknown shape: round");
}

#[test]
fn connect_failure_statuses() {
    assert_eq!(connect_failure_status("Connection timed out"), 504);
    assert_eq!(connect_failure_status("Device not found"), 502);
}

#[test]
fn lines_split_like_std() {
    assert_eq!(split_lines("a\nb\r\n\nc"), vec!["a", "b", "", "c"]);
    assert_eq!(split_lines("a\n"), vec!["a"]);
    assert!(split_lines("").is_empty());
}

#[test]
fn export_drops_server_only_lines() {
    let index = "<html lang=\"en\">\n<script src=\"x.js\"></script> <!-- server-only -->\n<body></body>\n</html>\n";
    assert_eq!(
        export_index_html(index),
        "<html lang=\"en\" data-export>\n<body></body>\n</html>"
    );
}

// --- Sniffer ---

#[test]
fn ascii_column() {
    assert_eq!(ascii_preview(&[0x41, 0x20, 0x00, 0x7e, 0x7f]), "A .~.");
}

#[test]
fn uuid_prefix() {
    assert_eq!(service_uuid_prefix(&service_stealthtech()), "65786365");
}

#[test]
fn notification_lines() {
    assert_eq!(notification_line(&Response::Volume(5)), "[NOTIFY] Volume: 5/36");
    assert_eq!(
        notification_line(&Response::Unknown { characteristic_uuid: char_upstream(), data: vec![0xcc, 0x05] }),
        "[NOTIFY] UUID: 65786365-6c70-6f69-6e74-2e636f6d0001 | Len: 2 | Hex: cc05"
    );
}

#[test]
fn monitor_rows() {
    assert_eq!(monitor_log_row("12:00:00.000", "u", &[0x41, 0x01]), "12:00:00.000\tu\t2\t4101\tA.");
    let row = monitor_row("12:00:00.000", "u", &[0x41]);
    assert!(row.starts_with("12:00:00.000 u"));
    assert!(row.ends_with("41 │ A"));
}

// --- Added tools ---

use libstealthtech::characteristics::char_eq_control;
use libstealthtech::gatt::find_uuid;
use libstealthtech::gatt::locate_characteristic;
use libstealthtech::gatt::notifiable_indices;
use libstealthtech::gatt::readable_indices;
use libstealthtech::gatt::GattProfile;
use libstealthtech::gatt_report::device_info_text;
use libstealthtech::gatt_report::gatt_profile_text;
use libstealthtech::serve::export_files;
use libstealthtech::serve::notification_event;
use libstealthtech::sniff::read_all_row;
use libstealthtech::sniff::read_error_row;
use libstealthtech::sniff::scan_all_row;
use libstealthtech::sniff::write_raw_target;
use libstealthtech::sniff::WriteRawError;
use libstealthtech::state::DeviceState;
use libstealthtech::text::HexError;

fn props(read: bool, notify: bool, indicate: bool) -> CharProperties {
    CharProperties { read, write: false, write_without_response: false, notify, indicate }
}

#[test]
fn scan_all_rows() {
    assert_eq!(
        scan_all_row(Some("StealthTech"), "AA:BB", Some(-60)),
        format!("{:<30} {:<20} {:<8} <- StealthTech?", "StealthTech", "AA:BB", "-60 dBm")
    );
    assert_eq!(
        scan_all_row(None, "CC:DD", None),
        format!("{:<30} {:<20} {:<8}", "(unnamed)", "CC:DD", "N/A")
    );
}

#[test]
fn read_all_rows() {
    let u = char_upstream();
    let s = service_stealthtech();
    assert_eq!(
        read_all_row(&u, &s, b"Hi"),
        format!("{:<40} {:<16} {:<6} {}", u.to_string(), "65786365", 2, "4869 (\"Hi\")")
    );
    assert_eq!(
        read_all_row(&u, &s, &[0x00, 0x01]),
        format!("{:<40} {:<16} {:<6} {}", u.to_string(), "65786365", 2, "0001")
    );
    assert_eq!(
        read_error_row(&u, &s, "timeout"),
        format!("{:<40} {:<16} {:<6} ERROR: {}", u.to_string(), "65786365", 0, "timeout")
    );
}

#[test]
fn characteristic_selection() {
    let ps = vec![props(true, false, false), props(false, true, false), props(true, false, true)];
    assert_eq!(notifiable_indices(&ps), vec![1, 2]);
    assert_eq!(readable_indices(&ps), vec![0, 2]);
    let uuids = vec![char_upstream(), char_eq_control(), char_eq_control()];
    assert_eq!(find_uuid(&uuids, char_eq_control()), Some(1));
    assert_eq!(locate_characteristic(&uuids, char_eq_control()), Ok(1));
    assert_eq!(
        locate_characteristic(&uuids, service_stealthtech()),
        Err("Characteristic 65786365-6c70-6f69-6e74-2e636f6d0000 not found on device".to_string())
    );
}

#[test]
fn raw_write_targets() {
    let uuids = vec![char_upstream(), char_eq_control()];
    let eq = char_eq_control().to_string();
    assert_eq!(
        write_raw_target(&eq, "AA0302011a", &uuids).unwrap(),
        (1, vec![0xAA, 0x03, 0x02, 0x01, 0x1A])
    );
    assert!(matches!(write_raw_target("nope", "00", &uuids), Err(WriteRawError::InvalidUuid)));
    assert!(matches!(
        write_raw_target(&eq, "abc", &uuids),
        Err(WriteRawError::InvalidHex(HexError::OddLength))
    ));
    assert!(matches!(
        write_raw_target(&eq, "0g", &uuids),
        Err(WriteRawError::InvalidHex(HexError::InvalidHexCharacter { c: 'g', index: 1 }))
    ));
    assert!(matches!(
        write_raw_target(&eq, "zz", &uuids),
        Err(WriteRawError::InvalidHex(HexError::InvalidHexCharacter { c: 'z', index: 0 }))
    ));
    let other = service_stealthtech().to_string();
    match write_raw_target(&other, "00", &uuids) {
        Err(WriteRawError::NotFound(m)) => assert_eq!(m, format!("Characteristic {} not found", other)),
        _ => panic!("expected NotFound"),
    }
}

#[test]
fn notification_events_update_state() {
    let mut state = DeviceState::new();
    let e = notification_event(&mut state, char_upstream(), &[0xCC, 0x05, 0xAA, 0x00, 0x01, 0x12]);
    assert_eq!(state.volume, Some(18));
    assert_eq!(e.uuid, "65786365-6c70-6f69-6e74-2e636f6d0001");
    assert_eq!(e.hex, "cc05aa000112");
    assert_eq!(e.decoded, "Volume: 18/36");
}

#[test]
fn export_file_list() {
    let files = export_files();
    assert_eq!(files.len(), 8);
    assert_eq!(files[3], "favicon.svg");
    assert_eq!(files[4], "robots.txt");
    assert_eq!(files[0], "style.css");
    assert_eq!(files[7], "pkg/libstealthtech_wasm_bg.wasm");
}

fn sample_profile() -> GattProfile {
    let p = CharProperties { read: true, write: false, write_without_response: false, notify: true, indicate: false };
    let chars = vec![
        describe_characteristic(
            "00002a00-0000-1000-8000-00805f9b34fb".to_string(),
            "00001800-0000-1000-8000-00805f9b34fb".to_string(),
            p,
            Some(b"Sofa".to_vec()),
        ),
        describe_characteristic(
            "65786365-6c70-6f69-6e74-2e636f6d0001".to_string(),
            "65786365-6c70-6f69-6e74-2e636f6d0000".to_string(),
            p,
            Some(vec![0xff]),
        ),
    ];
    GattProfile {
        device_name: Some("StealthTech".to_string()),
        device_address: "AA:BB".to_string(),
        timestamp: "2024-01-01T00:00:00Z".to_string(),
        services: group_by_service(chars),
    }
}

#[test]
fn gatt_profile_printout() {
    let text = gatt_profile_text(&sample_profile());
    let mut expected = String::new();
    expected.push_str("╔══════════════════════════════════════════════════════════════╗\n");
    expected.push_str("║          StealthTech GATT Profile Discovery                 ║\n");
    expected.push_str("╠══════════════════════════════════════════════════════════════╣\n");
    expected.push_str(&format!("║ Device:  {:<51} ║\n", "StealthTech"));
    expected.push_str(&format!("║ Address: {:<51} ║\n", "AA:BB"));
    expected.push_str(&format!("║ Time:    {:<51} ║\n", "2024-01-01T00:00:00Z"));
    expected.push_str("╚══════════════════════════════════════════════════════════════╝\n\n");
    expected.push_str("┌─ Service: 00001800-0000-1000-8000-00805f9b34fb ─────────\n");
    expected.push_str("│  Type: [Service] Generic Access\n│  Characteristics: 1\n│\n");
    expected.push_str("└── Characteristic: 00002a00-0000-1000-8000-00805f9b34fb\n");
    expected.push_str("    Properties: [READ, NOTIFY]\n    Description: Device Name\n");
    expected.push_str("    Value (hex): 536f6661\n    Value (utf8): \"Sofa\"\n    \n\n");
    expected.push_str("┌─ Service: 65786365-6c70-6f69-6e74-2e636f6d0000 ─────────\n");
    expected.push_str("│  Type: Unknown/Custom Service\n│  Characteristics: 1\n│\n");
    expected.push_str("└── Characteristic: 65786365-6c70-6f69-6e74-2e636f6d0001\n");
    expected.push_str("    Properties: [READ, NOTIFY]\n    Description: ⚠ UNKNOWN - needs mapping\n");
    expected.push_str("    Value (hex): ff\n    \n\n");
    assert_eq!(text, expected);
}

#[test]
fn device_info_lines() {
    assert_eq!(device_info_text(&sample_profile()), "  Device Name: Sofa\n");
}

use libstealthtech::gatt::gatt_profile;
use libstealthtech::gatt::CharacteristicReading;
use libstealthtech::scanner::stealthtech_devices;

#[test]
fn profile_shows_values_only_for_readable() {
    let readings = vec![
        CharacteristicReading {
            uuid: "c2".to_string(),
            service_uuid: "s".to_string(),
            properties: props(false, true, false),
            value: Some(vec![1]),
        },
        CharacteristicReading {
            uuid: "c1".to_string(),
            service_uuid: "s".to_string(),
            properties: props(true, false, false),
            value: Some(b"ok".to_vec()),
        },
    ];
    let p = gatt_profile(Some("Sofa".to_string()), "AA".to_string(), "t".to_string(), readings);
    assert_eq!(p.device_name, Some("Sofa".to_string()));
    assert_eq!(p.services.len(), 1);
    let cs = &p.services[0].characteristics;
    assert_eq!(cs[0].uuid, "c2");
    assert_eq!(cs[0].value_hex, None);
    assert_eq!(cs[1].value_hex, Some("6f6b".to_string()));
    assert_eq!(cs[1].value_utf8, Some("ok".to_string()));
}

#[test]
fn scan_keeps_stealthtech_names_in_order() {
    let names = vec![
        Some("JBL".to_string()),
        Some("Lovesac StealthTech".to_string()),
        None,
        Some("SOUND + CHARGE".to_string()),
    ];
    assert_eq!(stealthtech_devices(&names), vec![1, 3]);
}
