use isiprint::state::{AppState, AuthState, CivilTime, LicenciaProducto};

fn create_test_license(fecha_vencimiento: &str, state: &str, max_conexiones: i32) -> LicenciaProducto {
    LicenciaProducto {
        _id: "test123".to_string(),
        tipo_producto: "IMPRESION".to_string(),
        maximo_conexiones: max_conexiones,
        fecha_vencimiento: fecha_vencimiento.to_string(),
        delegado: true,
        configuracion: None,
        state: state.to_string(),
    }
}

#[test]
fn test_app_state_default() {
    let state = AppState::default();
    assert!(!state.auth.is_logged_in);
    assert!(state.auth.token.is_none());
    assert!(state.licencias.is_empty());
    assert!(state.logs.is_empty());
    assert_eq!(state.print_count, 0);
}

#[test]
fn test_add_log() {
    let mut state = AppState::default();
    state.add_log("INFO", "Test message");
    assert_eq!(state.logs.len(), 1);
    let log = state.logs.front().unwrap();
    assert_eq!(log.level, "INFO");
    assert_eq!(log.message, "Test message");
}

#[test]
fn test_add_log_max_100() {
    let mut state = AppState::default();
    for i in 0..105 {
        state.add_log("INFO", &format!("Message {}", i));
    }
    assert_eq!(state.logs.len(), 100);
    let first_log = state.logs.front().unwrap();
    assert_eq!(first_log.message, "Message 5");
}

#[test]
fn test_is_license_valid_with_future_date() {
    let mut state = AppState::default();
    state.licencias.push(create_test_license("01/01/2030 00:00:00", "ACTIVADO", 100));
    assert!(state.is_license_valid(), "Licencia con fecha futura debería ser válida");
}

#[test]
fn test_is_license_valid_with_past_date() {
    let mut state = AppState::default();
    state.licencias.push(create_test_license("01/01/2020 00:00:00", "ACTIVADO", 100));
    assert!(!state.is_license_valid(), "Licencia vencida NO debería ser válida");
}

#[test]
fn test_is_license_valid_inactive() {
    let mut state = AppState::default();
    state.licencias.push(create_test_license("01/01/2030 00:00:00", "INACTIVO", 100));
    assert!(!state.is_license_valid(), "Licencia inactiva NO debería ser válida");
}

#[test]
fn test_is_license_valid_no_license() {
    let state = AppState::default();
    assert!(!state.is_license_valid(), "Sin licencia NO debería ser válido");
}

#[test]
fn test_can_print_within_limit() {
    let mut state = AppState::default();
    state.licencias.push(create_test_license("01/01/2030 00:00:00", "ACTIVADO", 100));
    state.print_count = 50;
    assert!(state.can_print(), "Debería poder imprimir (50 < 100)");
}

#[test]
fn test_can_print_at_limit() {
    let mut state = AppState::default();
    state.licencias.push(create_test_license("01/01/2030 00:00:00", "ACTIVADO", 100));
    state.print_count = 100;
    assert!(!state.can_print(), "NO debería poder imprimir (100 >= 100)");
}

#[test]
fn test_can_print_over_limit() {
    let mut state = AppState::default();
    state.licencias.push(create_test_license("01/01/2030 00:00:00", "ACTIVADO", 100));
    state.print_count = 150;
    assert!(!state.can_print(), "NO debería poder imprimir (150 > 100)");
}

#[test]
fn test_can_print_no_license() {
    let state = AppState::default();
    assert!(!state.can_print(), "Sin licencia NO debería poder imprimir");
}

#[test]
fn test_auth_state_default() {
    let auth = AuthState::default();
    assert!(auth.token.is_none());
    assert!(auth.refresh_token.is_none());
    assert!(auth.email.is_none());
    assert!(!auth.is_logged_in);
}

fn at(year: i32, month: u32, day: u32, hour: u32, minute: u32, second: u32) -> CivilTime {
    CivilTime { year, month, day, hour, minute, second, nanosecond: 0 }
}

#[test]
fn licence_expiry_is_compared_to_given_time() {
    let mut state = AppState::default();
    state.licencias.push(create_test_license("15/06/2025 12:30:00", "ACTIVADO", 10));
    assert!(state.is_license_valid_at(&at(2025, 6, 15, 12, 29, 59)));
    assert!(!state.is_license_valid_at(&at(2025, 6, 15, 12, 30, 0)));
    assert!(!state.is_license_valid_at(&at(2026, 1, 1, 0, 0, 0)));
}

#[test]
fn unreadable_expiry_counts_as_expired() {
    let mut state = AppState::default();
    state.licencias.push(create_test_license("2030-01-01", "ACTIVADO", 10));
    assert!(!state.is_license_valid_at(&at(2000, 1, 1, 0, 0, 0)));
}

#[test]
fn only_first_printing_licence_counts() {
    let mut state = AppState::default();
    let mut other = create_test_license("01/01/2030 00:00:00", "ACTIVADO", 1000);
    other.tipo_producto = "FACTURACION".to_string();
    state.licencias.push(other);
    state.licencias.push(create_test_license("01/01/2030 00:00:00", "ACTIVADO", 2));
    state.licencias.push(create_test_license("01/01/2030 00:00:00", "ACTIVADO", 50));
    state.print_count = 2;
    assert!(!state.can_print());
    state.print_count = 1;
    assert!(state.can_print());
}

#[test]
fn record_print_counts_and_saturates() {
    let mut state = AppState::default();
    state.record_print();
    assert_eq!(state.print_count, 1);
    state.print_count = i32::MAX;
    state.record_print();
    assert_eq!(state.print_count, i32::MAX);
}

#[test]
fn add_log_at_keeps_timestamp() {
    let mut state = AppState::default();
    state.add_log_at("2024-01-02 03:04:05".to_string(), "WARN", "careful");
    let e = state.logs.back().unwrap();
    assert_eq!(e.timestamp, "2024-01-02 03:04:05");
    assert_eq!(e.level, "WARN");
    assert_eq!(e.message, "careful");
}
