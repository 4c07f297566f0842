use hyper_rustls::config::{native_roots, RootsError};
use hyper_rustls::error::ErrorKind;

fn certificate(name: &str) -> Vec<u8> {
    let certified = rcgen::generate_simple_self_signed(vec![name.to_string()]).unwrap();
    certified.cert.der().as_ref().to_vec()
}

#[test]
fn no_certificates_at_all() {
    let error = native_roots(&Vec::new(), "[]").unwrap_err();
    assert_eq!(error, RootsError::NoCertificates("[]".to_string()));
    assert_eq!(error.message(), "no native root CA certificates found (errors: [])");
    assert_eq!(error.kind(), ErrorKind::Configuration);
}

#[test]
fn no_certificates_message_holds_the_load_errors() {
    let error = native_roots(&Vec::new(), "[Os { code: 2, kind: NotFound }]").unwrap_err();
    assert_eq!(
        error.message(),
        "no native root CA certificates found (errors: [Os { code: 2, kind: NotFound }])"
    );
}

#[test]
fn no_valid_certificate() {
    let certs = vec![vec![], vec![0x30, 0x00], b"not a certificate".to_vec()];
    let error = native_roots(&certs, "[]").unwrap_err();
    assert_eq!(error, RootsError::NoValidCertificates(3));
    assert_eq!(error.message(), "no valid native root CA certificates found (3 invalid)");
    assert_eq!(error.kind(), ErrorKind::Configuration);
}

#[test]
fn no_valid_certificate_counts_many() {
    let certs = vec![vec![1u8, 2, 3]; 12];
    let error = native_roots(&certs, "").unwrap_err();
    assert_eq!(error.message(), "no valid native root CA certificates found (12 invalid)");
}

#[test]
fn valid_certificates_become_roots() {
    let certs = vec![certificate("one.example"), certificate("two.example")];
    let roots = native_roots(&certs, "[]").unwrap();
    assert_eq!(roots.len(), 2);
    assert!(!roots.is_empty());
}

#[test]
fn invalid_certificates_are_passed_over() {
    let good = certificate("good.example");
    let mut truncated = good.clone();
    truncated.truncate(good.len() / 2);
    let certs = vec![vec![0xff], good.clone(), truncated, good, Vec::new()];
    let roots = native_roots(&certs, "[]").unwrap();
    assert_eq!(roots.len(), 2);
}

#[test]
fn roots_keep_the_order_of_the_certificates() {
    let first = certificate("first.example");
    let second = certificate("second.example");
    let certs = vec![first.clone(), vec![0u8; 4], second.clone()];
    let roots = native_roots(&certs, "[]").unwrap();

    let mut expected = rustls::RootCertStore::empty();
    expected.add(rustls::pki_types::CertificateDer::from(first)).unwrap();
    expected.add(rustls::pki_types::CertificateDer::from(second)).unwrap();
    assert_eq!(roots.roots, expected.roots);
}

#[test]
fn load_errors_do_not_matter_when_there_are_roots() {
    let certs = vec![certificate("only.example")];
    let roots = native_roots(&certs, "[some error]").unwrap();
    assert_eq!(roots.len(), 1);
}
