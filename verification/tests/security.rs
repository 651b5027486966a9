use quic_gateway::security::{
    certificate_source, local_certificate_file, setup_security, CertRead, CertSource, ClientConfig,
    SecurityError,
};

// A self-signed P-256 certificate for CN=localhost, in DER.
const CA_DER: [u8; 385] = [0x30, 0x82, 0x01, 0x7d, 0x30, 0x82, 0x01, 0x23, 0xa0, 0x03, 0x02, 0x01, 0x02, 0x02, 0x14, 0x69, 0xda, 0x94, 0xb2, 0x70, 0xea, 0x5e, 0x14, 0x61, 0x00, 0xf2, 0x0d, 0xd0, 0x39, 0xa7, 0x47, 0x8e, 0x0f, 0x8a, 0xfe, 0x30, 0x0a, 0x06, 0x08, 0x2a, 0x86, 0x48, 0xce, 0x3d, 0x04, 0x03, 0x02, 0x30, 0x14, 0x31, 0x12, 0x30, 0x10, 0x06, 0x03, 0x55, 0x04, 0x03, 0x0c, 0x09, 0x6c, 0x6f, 0x63, 0x61, 0x6c, 0x68, 0x6f, 0x73, 0x74, 0x30, 0x1e, 0x17, 0x0d, 0x32, 0x36, 0x31, 0x31, 0x31, 0x38, 0x32, 0x32, 0x33, 0x39, 0x32, 0x39, 0x5a, 0x17, 0x0d, 0x33, 0x36, 0x31, 0x31, 0x31, 0x35, 0x32, 0x32, 0x33, 0x39, 0x32, 0x39, 0x5a, 0x30, 0x14, 0x31, 0x12, 0x30, 0x10, 0x06, 0x03, 0x55, 0x04, 0x03, 0x0c, 0x09, 0x6c, 0x6f, 0x63, 0x61, 0x6c, 0x68, 0x6f, 0x73, 0x74, 0x30, 0x59, 0x30, 0x13, 0x06, 0x07, 0x2a, 0x86, 0x48, 0xce, 0x3d, 0x02, 0x01, 0x06, 0x08, 0x2a, 0x86, 0x48, 0xce, 0x3d, 0x03, 0x01, 0x07, 0x03, 0x42, 0x00, 0x04, 0x92, 0x84, 0x38, 0xfe, 0xb1, 0xc8, 0xec, 0x29, 0xfd, 0x1b, 0xe2, 0x47, 0xaa, 0x84, 0xb9, 0x11, 0x30, 0x4f, 0x2b, 0xc8, 0x1b, 0x8e, 0xd1, 0x99, 0xb4, 0xb9, 0x87, 0xa3, 0x4f, 0x79, 0xcd, 0x36, 0x68, 0x75, 0x91, 0x18, 0xae, 0x67, 0x60, 0xbf, 0x67, 0x66, 0x06, 0xd2, 0x28, 0x54, 0x0a, 0xee, 0x8c, 0x3a, 0x5a, 0xc8, 0xf6, 0x4c, 0x19, 0xf7, 0x00, 0x07, 0x1b, 0x97, 0x62, 0xe5, 0x55, 0x81, 0xa3, 0x53, 0x30, 0x51, 0x30, 0x1d, 0x06, 0x03, 0x55, 0x1d, 0x0e, 0x04, 0x16, 0x04, 0x14, 0x80, 0x74, 0x5b, 0xd0, 0xc1, 0xfe, 0x78, 0x1e, 0x09, 0x95, 0x34, 0x54, 0x3e, 0x8a, 0x87, 0xc5, 0x62, 0x04, 0x7d, 0xa9, 0x30, 0x1f, 0x06, 0x03, 0x55, 0x1d, 0x23, 0x04, 0x18, 0x30, 0x16, 0x80, 0x14, 0x80, 0x74, 0x5b, 0xd0, 0xc1, 0xfe, 0x78, 0x1e, 0x09, 0x95, 0x34, 0x54, 0x3e, 0x8a, 0x87, 0xc5, 0x62, 0x04, 0x7d, 0xa9, 0x30, 0x0f, 0x06, 0x03, 0x55, 0x1d, 0x13, 0x01, 0x01, 0xff, 0x04, 0x05, 0x30, 0x03, 0x01, 0x01, 0xff, 0x30, 0x0a, 0x06, 0x08, 0x2a, 0x86, 0x48, 0xce, 0x3d, 0x04, 0x03, 0x02, 0x03, 0x48, 0x00, 0x30, 0x45, 0x02, 0x20, 0x77, 0x87, 0x79, 0x08, 0x6b, 0x17, 0x5f, 0x25, 0x6c, 0x10, 0x49, 0xce, 0xcd, 0x28, 0x0b, 0x61, 0xcf, 0x38, 0xa4, 0x04, 0x73, 0x47, 0x9f, 0x9f, 0x42, 0xde, 0xb2, 0x8e, 0xd8, 0x03, 0xea, 0xfb, 0x02, 0x21, 0x00, 0xb2, 0x5e, 0x02, 0xc0, 0x36, 0xa9, 0xc9, 0x12, 0xe4, 0xb5, 0xca, 0x17, 0xb7, 0x28, 0xc4, 0xb4, 0xdf, 0x60, 0x9e, 0x77, 0xed, 0xaf, 0xd9, 0xa4, 0x24, 0x6b, 0x57, 0x89, 0x6e, 0xa8, 0x20, 0x43];

fn config() -> ClientConfig {
    ClientConfig { builder: quinn::ClientConfigBuilder::default() }
}

fn root_count(cfg: ClientConfig) -> usize {
    cfg.builder.build().crypto.root_store.roots.len()
}

#[test]
fn given_path_is_the_source() {
    assert_eq!(certificate_source(&Some(b"/etc/ca.der".to_vec())), CertSource::Given(b"/etc/ca.der".to_vec()));
    assert_eq!(certificate_source(&None), CertSource::LocalDataDir);
}

#[test]
fn local_file_name() {
    assert_eq!(local_certificate_file(), "cert.der");
}

#[test]
fn a_certificate_is_trusted() {
    let before = root_count(config());
    let mut cfg = config();
    assert!(setup_security(&mut cfg, &None, CertRead::Bytes(CA_DER.to_vec())).is_ok());
    assert_eq!(root_count(cfg), before + 1);
}

#[test]
fn a_refused_certificate_adds_nothing() {
    let before = root_count(config());
    let mut cfg = config();
    assert!(setup_security(&mut cfg, &None, CertRead::Bytes(vec![1, 2, 3])).is_err());
    assert_eq!(root_count(cfg), before);
}

#[test]
fn garbage_is_refused() {
    let mut cfg = config();
    match setup_security(&mut cfg, &None, CertRead::Bytes(vec![0x30, 0x03, 0x02, 0x01, 0x05])) {
        Err(SecurityError::Malformed(_)) => {}
        _ => panic!("expected a refused certificate"),
    }
}

#[test]
fn the_certificate_holds_the_bytes() {
    // What the library turns the bytes into is the certificate quinn keeps.
    let cert = quinn::Certificate::from_der(&CA_DER).unwrap();
    assert_eq!(cert.as_der(), &CA_DER[..]);
    // A truncated certificate is refused, so the bytes themselves are what is judged.
    let mut cfg = config();
    assert!(setup_security(&mut cfg, &None, CertRead::Bytes(CA_DER[..200].to_vec())).is_err());
}

#[test]
fn missing_local_certificate() {
    let mut cfg = config();
    match setup_security(&mut cfg, &None, CertRead::NotFound("not found".into())) {
        Err(SecurityError::Unreadable { source, missing, cause }) => {
            assert_eq!(source, CertSource::LocalDataDir);
            assert!(missing);
            assert_eq!(cause, "not found");
        }
        _ => panic!("expected an unreadable certificate"),
    }
}

#[test]
fn unreadable_given_certificate() {
    let mut cfg = config();
    match setup_security(&mut cfg, &Some(b"ca.der".to_vec()), CertRead::Failed("permission denied".into())) {
        Err(SecurityError::Unreadable { source, missing, cause }) => {
            assert_eq!(source, CertSource::Given(b"ca.der".to_vec()));
            assert!(!missing);
            assert_eq!(cause, "permission denied");
        }
        _ => panic!("expected an unreadable certificate"),
    }
}
