use libpq::version::{libpq_version, openssl_version, server_version};

#[test]
fn libpq_version_formats_major_and_minor() {
    assert_eq!(libpq_version(160002), "16.2");
}

#[test]
fn openssl_version_formats_parts() {
    assert_eq!(openssl_version(0x30000020), "3.0.2");
    assert_eq!(openssl_version(0x30000021), "3.0.2-pre1");
}

#[test]
fn server_version_zero_is_none() {
    assert_eq!(server_version(0), None);
    assert_eq!(server_version(150004), Some("15.4".to_string()));
}
