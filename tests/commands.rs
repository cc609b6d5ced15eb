use cetiprobe::{backend_url, check_backend_status, export_data, get_app_info, greet, import_data, is_success, BACKEND_PORT};

#[test]
fn greet_ada() {
    let g = greet("Ada");
    assert_eq!(g, "Hello, Ada! You've been greeted from Rust!");
    assert_eq!(g.matches("Ada").count(), 1);
}

#[test]
fn greet_empty_name() {
    assert_eq!(greet(""), "Hello, ! You've been greeted from Rust!");
}

#[test]
fn app_info_is_fixed() {
    let a = get_app_info();
    let b = get_app_info();
    assert_eq!(a.name, "Cetiprobe");
    assert_eq!(a.version, "0.0.0");
    assert_eq!(a.description, "A powerful network analysis and packet capture tool");
    assert_eq!(a.name, b.name);
    assert_eq!(a.version, b.version);
    assert_eq!(a.description, b.description);
    assert!(!a.name.is_empty() && !a.version.is_empty());
}

#[test]
fn export_and_import_acknowledge() {
    assert_eq!(export_data(), Ok("Data exported successfully".to_string()));
    assert_eq!(import_data(), Ok("Data imported successfully".to_string()));
}

#[test]
fn no_response_is_unreachable() {
    assert_eq!(check_backend_status(None), Ok(false));
}

#[test]
fn success_statuses_are_reachable() {
    assert_eq!(check_backend_status(Some(200)), Ok(true));
    assert_eq!(check_backend_status(Some(204)), Ok(true));
    assert_eq!(check_backend_status(Some(299)), Ok(true));
}

#[test]
fn other_statuses_are_unreachable() {
    assert_eq!(check_backend_status(Some(199)), Ok(false));
    assert_eq!(check_backend_status(Some(300)), Ok(false));
    assert_eq!(check_backend_status(Some(404)), Ok(false));
    assert_eq!(check_backend_status(Some(500)), Ok(false));
}

#[test]
fn success_class_bounds() {
    assert!(!is_success(0));
    assert!(is_success(200));
    assert!(!is_success(u16::MAX));
}

#[test]
fn probe_address_is_fixed() {
    assert_eq!(backend_url(), "http://localhost:8081");
    assert_eq!(BACKEND_PORT, 8081);
}
