use process_files_in_ftp::config::{is_affirmative, wants_to_run_images, ConfigApp, CURRENT_VERSION_BITS};

#[test]
fn default_settings_are_not_configured() {
    let c = ConfigApp::default();
    assert!(!c.is_configured());
    assert_eq!(c.ftp_url, "");
    assert_eq!(c.version_bits, 1.0f32.to_bits());
    assert_eq!(CURRENT_VERSION_BITS, 1.0f32.to_bits());
}

#[test]
fn setup_answers_are_trimmed_and_mark_configured() {
    let mut c = ConfigApp::default();
    c.require_config_data("  ftp.example.com\n", "user\n", " secret \r\n", "/guias/cpm\n");
    assert_eq!(c.ftp_url, "ftp.example.com");
    assert_eq!(c.ftp_user, "user");
    assert_eq!(c.ftp_password, "secret");
    assert_eq!(c.directory_guias_cpm, "/guias/cpm");
    assert!(c.is_it_configured);
    assert!(c.is_configured());
}

#[test]
fn setup_answers_are_appended_to_what_was_there() {
    let mut c = ConfigApp::default();
    c.ftp_url = String::from("old");
    c.require_config_data("new\n", "u\n", "p\n", "d\n");
    assert_eq!(c.ftp_url, "oldnew");
}

#[test]
fn other_version_is_not_configured() {
    let mut c = ConfigApp::default();
    c.require_config_data("h\n", "u\n", "p\n", "d\n");
    c.version_bits = 2.0f32.to_bits();
    assert!(!c.is_configured());
}

#[test]
fn yes_answer_is_si_in_any_case() {
    assert!(wants_to_run_images("  SI \n"));
    assert!(wants_to_run_images("si\n"));
    assert!(wants_to_run_images("Si"));
    assert!(!wants_to_run_images("no\n"));
    assert!(!wants_to_run_images("sí\n"));
    assert!(!wants_to_run_images("s i"));
    assert!(is_affirmative("si"));
    assert!(!is_affirmative("SI"));
}

#[test]
fn ftp_attributes_copy_the_connection_fields() {
    let mut c = ConfigApp::default();
    c.require_config_data("host\n", "user\n", "pass\n", "dir\n");
    let a = c.get_ftp_attributes();
    assert_eq!(a.ftp_url, "host");
    assert_eq!(a.ftp_user, "user");
    assert_eq!(a.ftp_password, "pass");
}
