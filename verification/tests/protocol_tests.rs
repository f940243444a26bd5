use cargo_app::protocol::{
    ftp_password, sftp_auth_outcome, AuthMethod, ConnectionConfig, ProgressCounter,
    ProtocolError, ProtocolType,
};

fn config(protocol: ProtocolType, auth: AuthMethod) -> ConnectionConfig {
    ConnectionConfig {
        protocol,
        host: "example.org".to_string(),
        port: 2222,
        username: "alice".to_string(),
        auth,
    }
}

#[test]
fn protocol_labels() {
    assert_eq!(ProtocolType::Ftp.label(), "FTP");
    assert_eq!(ProtocolType::Ftps.label(), "FTPS");
    assert_eq!(ProtocolType::Sftp.label(), "SFTP");
}

#[test]
fn default_ports() {
    assert_eq!(ConnectionConfig::default_port(ProtocolType::Ftp), 21);
    assert_eq!(ConnectionConfig::default_port(ProtocolType::Ftps), 21);
    assert_eq!(ConnectionConfig::default_port(ProtocolType::Sftp), 22);
}

#[test]
fn address_and_label() {
    let c = config(ProtocolType::Sftp, AuthMethod::Agent);
    assert_eq!(c.address(), "example.org:2222");
    assert_eq!(c.host_label(), "alice@example.org:2222");
    let mut c0 = c.clone();
    c0.port = 0;
    assert_eq!(c0.address(), "example.org:0");
}

#[test]
fn ftp_login_password() {
    assert_eq!(ftp_password(&AuthMethod::Password("pw".to_string())), "pw");
    assert_eq!(ftp_password(&AuthMethod::Agent), "");
    assert_eq!(
        ftp_password(&AuthMethod::KeyFile { path: "/k".to_string(), passphrase: Some("p".to_string()) }),
        ""
    );
}

#[test]
fn error_messages() {
    assert_eq!(
        ProtocolError::ConnectionFailed("refused".to_string()).message(),
        "Connection failed: refused"
    );
    assert_eq!(ProtocolError::NotConnected.message(), "Not connected");
    assert_eq!(ProtocolError::ListFailed("x".to_string()).message(), "Directory listing failed: x");
    assert_eq!(ProtocolError::TransferFailed("x".to_string()).message(), "Transfer failed: x");
    assert_eq!(ProtocolError::FileOperation("x".to_string()).message(), "File operation failed: x");
    assert_eq!(ProtocolError::PermissionDenied("x".to_string()).message(), "Permission denied: x");
    assert_eq!(ProtocolError::NotFound("x".to_string()).message(), "Path not found: x");
    assert_eq!(ProtocolError::Timeout("x".to_string()).message(), "Timeout: x");
    assert_eq!(ProtocolError::Io("x".to_string()).message(), "IO error: x");
    assert_eq!(ProtocolError::Other("plain".to_string()).message(), "plain");
    assert_eq!(
        ProtocolError::AuthenticationFailed("x".to_string()).message(),
        "Authentication failed: x"
    );
}

#[test]
fn ssh_authentication_outcome() {
    assert!(sftp_auth_outcome(&AuthMethod::Agent, true).is_ok());
    match sftp_auth_outcome(&AuthMethod::Agent, false) {
        Err(ProtocolError::AuthenticationFailed(m)) => assert_eq!(m, "No agent key accepted"),
        other => panic!("unexpected {:?}", other),
    }
    match sftp_auth_outcome(&AuthMethod::Password("x".to_string()), false) {
        Err(ProtocolError::AuthenticationFailed(m)) => {
            assert_eq!(m, "Authentication rejected by server")
        }
        other => panic!("unexpected {:?}", other),
    }
}

#[test]
fn progress_every_chunk() {
    let mut c = ProgressCounter::every_chunk(Some(10));
    let p = c.advance(4).unwrap();
    assert_eq!(p.bytes_transferred, 4);
    assert_eq!(p.total_bytes, Some(10));
    let p = c.advance(6).unwrap();
    assert_eq!(p.bytes_transferred, 10);
    assert_eq!(c.bytes_transferred(), 10);
}

#[test]
fn progress_throttled_every_quarter_mebibyte() {
    let mut c = ProgressCounter::throttled(None);
    assert!(c.advance(32768).is_none());
    let mut reports = Vec::new();
    for _ in 0..15 {
        if let Some(p) = c.advance(32768) {
            reports.push(p.bytes_transferred);
        }
    }
    assert_eq!(reports, vec![262144, 524288]);
    let f = c.final_report();
    assert_eq!(f.bytes_transferred, 16 * 32768);
    assert_eq!(f.total_bytes, None);
}
