//! Tests for the certificate provisioner, the serving plan, the browser
//! matrix and capability plans, the protocol texts, and the poll model.

use zaplib_ci::config::CapabilityOption;
use zaplib_ci::config::ConfigError;
use zaplib_ci::config::capability_plan;
use zaplib_ci::config::farm_configuration;
use zaplib_ci::config::farm_matrix;
use zaplib_ci::config::local_configuration;
use zaplib_ci::poll::first_ready_tick;
use zaplib_ci::protocol::POLL_INTERVAL_MS;
use zaplib_ci::protocol::bind_address;
use zaplib_ci::protocol::decimal_string;
use zaplib_ci::protocol::farm_status_script;
use zaplib_ci::protocol::poll_script;
use zaplib_ci::protocol::suite_url;
use zaplib_ci::provision::ProvisionError;
use zaplib_ci::provision::default_hostnames;
use zaplib_ci::provision::provision_certificate;
use zaplib_ci::server::asset_server_plan;

#[test]
fn decimal_rendering_is_exact() {
    assert_eq!(decimal_string(0), "0");
    assert_eq!(decimal_string(7), "7");
    assert_eq!(decimal_string(10), "10");
    assert_eq!(decimal_string(1122), "1122");
    assert_eq!(decimal_string(65535), "65535");
    assert_eq!(decimal_string(1000000), "1000000");
}

#[test]
fn suite_url_uses_the_bridging_hostname_and_port() {
    assert_eq!(suite_url(1122), "https://bs-local.com:1122/zaplib/web/test_suite");
    assert_eq!(suite_url(443), "https://bs-local.com:443/zaplib/web/test_suite");
}

#[test]
fn bind_address_covers_every_interface() {
    assert_eq!(bind_address(1122), "0.0.0.0:1122");
}

#[test]
fn poll_script_polls_the_entry_point_at_the_fixed_cadence() {
    let script = poll_script();
    assert!(script.contains("window.runAllTests3x"));
    assert!(script.contains("setInterval"));
    assert!(script.contains("done('SUCCESS')"));
    assert!(script.contains(&format!(", {});", POLL_INTERVAL_MS)));
}

#[test]
fn farm_status_scripts_carry_the_classified_status() {
    assert_eq!(
        farm_status_script(true),
        "browserstack_executor: {\"action\": \"setSessionStatus\", \"arguments\": {\"status\":\"passed\",\"reason\": \"\"}}"
    );
    assert_eq!(
        farm_status_script(false),
        "browserstack_executor: {\"action\": \"setSessionStatus\", \"arguments\": {\"status\":\"failed\",\"reason\": \"\"}}"
    );
}

#[test]
fn delayed_readiness_is_still_detected() {
    assert_eq!(first_ready_tick(&vec![false, false, false, true, true]), Some(3));
    assert_eq!(first_ready_tick(&vec![true]), Some(0));
    assert_eq!(first_ready_tick(&vec![false, false]), None);
    assert_eq!(first_ready_tick(&vec![]), None);
}

#[test]
fn the_farm_matrix_has_the_five_fixed_configurations() {
    let matrix = farm_matrix();
    let names: Vec<&str> = matrix.iter().map(|c| c.name.as_str()).collect();
    assert_eq!(
        names,
        vec![
            "OS X Monterey, Chrome",
            "OS X Monterey, Edge",
            "Windows 11, Chrome",
            "Windows 11, Edge",
            "Samsung Galaxy S21, Android 11.0",
        ]
    );
    assert_eq!(matrix[0].browser_name.as_deref(), Some("Chrome"));
    assert_eq!(matrix[0].browser_version.as_deref(), Some("latest"));
    assert!(matrix[0].farm_options.contains(&CapabilityOption {
        key: "consoleLogs".to_string(),
        value: "verbose".to_string(),
    }));
    assert_eq!(matrix[4].browser_name.as_deref(), Some("Android"));
    assert_eq!(matrix[4].browser_version, None);
    assert!(matrix[4].farm_options.contains(&CapabilityOption {
        key: "deviceName".to_string(),
        value: "Samsung Galaxy S21".to_string(),
    }));
    assert!(matrix[4].farm_options.contains(&CapabilityOption {
        key: "appiumVersion".to_string(),
        value: "1.22.0".to_string(),
    }));
}

#[test]
fn the_local_configuration_is_synthetic_and_empty() {
    let config = local_configuration();
    assert_eq!(config.name, "local browser");
    assert_eq!(config.browser_name, None);
    assert!(config.farm_options.is_empty());
}

#[test]
fn configuration_validation_rejects_missing_required_fields() {
    assert_eq!(
        farm_configuration(String::new(), "Chrome".to_string(), None, Vec::new()),
        Err(ConfigError::EmptyName)
    );
    assert_eq!(
        farm_configuration("X".to_string(), String::new(), None, Vec::new()),
        Err(ConfigError::EmptyBrowserName)
    );
    let config = farm_configuration(
        "X".to_string(),
        "Chrome".to_string(),
        Some("latest".to_string()),
        Vec::new(),
    )
    .unwrap();
    assert_eq!(config.name, "X");
    assert_eq!(config.browser_name.as_deref(), Some("Chrome"));
}

#[test]
fn capability_plan_always_accepts_self_signed_certificates() {
    let plan = capability_plan(local_configuration(), None);
    assert!(plan.accept_ssl_certs);
    assert!(plan.farm_options.is_empty());
    let plan = capability_plan(local_configuration(), Some("tunnel-1".to_string()));
    assert!(plan.accept_ssl_certs);
}

#[test]
fn capability_plan_appends_the_farm_defaults_and_tunnel_identifier() {
    let config = farm_matrix().into_iter().next().unwrap();
    let own = config.farm_options.len();
    let plan = capability_plan(config, Some("tunnel-1".to_string()));
    assert_eq!(plan.farm_options.len(), own + 6);
    let appended: Vec<(&str, &str)> = plan.farm_options[own..]
        .iter()
        .map(|o| (o.key.as_str(), o.value.as_str()))
        .collect();
    assert_eq!(
        appended,
        vec![
            ("projectName", "Zaplib"),
            ("buildName", "test_suite"),
            ("local", "true"),
            ("networkLogs", "true"),
            ("seleniumVersion", "3.5.2"),
            ("localIdentifier", "tunnel-1"),
        ]
    );
}

#[test]
fn serving_plan_enforces_isolation_headers_and_two_workers() {
    let plan = asset_server_plan("assets".to_string(), 1122);
    assert_eq!(plan.root_path, "assets");
    assert_eq!(plan.bind_address, "0.0.0.0:1122");
    assert_eq!(plan.workers, 2);
    assert_eq!(plan.index_file, "index.html");
    assert!(plan.show_files_listing);
    assert!(plan.use_etag);
    assert!(plan.use_last_modified);
    assert!(plan.redirect_to_slash_directory);
    assert!(plan.use_hidden_files);
    let headers: Vec<(&str, &str)> = plan
        .headers
        .iter()
        .map(|h| (h.name.as_str(), h.value.as_str()))
        .collect();
    assert_eq!(
        headers,
        vec![
            ("Cross-Origin-Opener-Policy", "same-origin"),
            ("Cross-Origin-Embedder-Policy", "require-corp"),
            ("Access-Control-Allow-Origin", "*"),
        ]
    );
}

#[test]
fn provisioning_refuses_an_empty_hostname_set() {
    assert_eq!(provision_certificate(&Vec::new()), Err(ProvisionError::NoHostnames));
}

#[test]
fn provisioned_certificate_covers_every_hostname_and_matches_its_key() {
    let hostnames = default_hostnames();
    assert_eq!(hostnames, vec!["localhost".to_string(), "bs-local.com".to_string()]);
    let material = provision_certificate(&hostnames).unwrap();
    let cert = openssl::x509::X509::from_pem(material.certificate_pem.as_bytes()).unwrap();
    let key = openssl::pkey::PKey::private_key_from_pem(material.private_key_pem.as_bytes())
        .unwrap();
    assert!(key.public_eq(&cert.public_key().unwrap()));
    let sans: Vec<String> = cert
        .subject_alt_names()
        .unwrap()
        .iter()
        .filter_map(|n| n.dnsname().map(|d| d.to_string()))
        .collect();
    assert!(sans.contains(&"localhost".to_string()));
    assert!(sans.contains(&"bs-local.com".to_string()));
}
