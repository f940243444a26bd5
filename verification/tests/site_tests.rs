use cargo_app::protocol::{AuthMethod, ProtocolType};
use cargo_app::site_form::{
    apply_form, connect_request, form_from_site, keyring_action, optional_password,
    password_prompt, password_visible, key_file_visible, port_for_protocol_index, site_subtitle,
    sidebar_connect, KeyringAction, PasswordPrompt, SidebarConnect,
};
use cargo_app::site_manager::{AuthMethodType, SerializableProtocol, SiteProfile, SiteStore};

fn site(id: &str, name: &str) -> SiteProfile {
    SiteProfile {
        id: id.to_string(),
        name: name.to_string(),
        protocol: SerializableProtocol::Ftp,
        host: "h".to_string(),
        port: 21,
        username: "u".to_string(),
        auth_method: AuthMethodType::Password,
        local_dir: None,
        remote_dir: Some("/srv".to_string()),
        sync_browsing: true,
    }
}

#[test]
fn new_site_defaults() {
    let p = SiteProfile::new();
    assert_eq!(p.name, "New Site");
    assert_eq!(p.protocol, SerializableProtocol::Sftp);
    assert_eq!(p.port, 22);
    assert!(p.host.is_empty());
    assert!(p.username.is_empty());
    assert_eq!(p.auth_method, AuthMethodType::Password);
    assert!(p.local_dir.is_none() && p.remote_dir.is_none() && !p.sync_browsing);
    let id: Vec<char> = p.id.chars().collect();
    assert_eq!(id.len(), 36);
    for (i, c) in id.iter().enumerate() {
        if [8, 13, 18, 23].contains(&i) {
            assert_eq!(*c, '-');
        } else {
            assert!(c.is_ascii_hexdigit() && !c.is_ascii_uppercase());
        }
    }
    assert_eq!(id[14], '4');
    assert_ne!(SiteProfile::new().id, p.id);
}

#[test]
fn protocol_conversions_round_trip() {
    for p in [SerializableProtocol::Ftp, SerializableProtocol::Ftps, SerializableProtocol::Sftp] {
        let t: ProtocolType = p.into();
        let back: SerializableProtocol = t.into();
        assert_eq!(back, p);
    }
    assert_eq!(ProtocolType::from(SerializableProtocol::Ftps), ProtocolType::Ftps);
}

#[test]
fn connection_config_from_profile() {
    let mut p = site("1", "one");
    let c = p.to_connection_config(None);
    assert_eq!(c.protocol, ProtocolType::Ftp);
    assert_eq!(c.host, "h");
    assert_eq!(c.port, 21);
    assert_eq!(c.username, "u");
    assert!(matches!(c.auth, AuthMethod::Password(ref pw) if pw.is_empty()));
    let c = p.to_connection_config(Some("secret".to_string()));
    assert!(matches!(c.auth, AuthMethod::Password(ref pw) if pw == "secret"));
    p.auth_method = AuthMethodType::KeyFile { path: "/k".to_string() };
    let c = p.to_connection_config(Some("phrase".to_string()));
    match c.auth {
        AuthMethod::KeyFile { path, passphrase } => {
            assert_eq!(path, "/k");
            assert_eq!(passphrase.as_deref(), Some("phrase"));
        }
        _ => panic!("expected key file"),
    }
    p.auth_method = AuthMethodType::Agent;
    assert!(matches!(p.to_connection_config(Some("x".to_string())).auth, AuthMethod::Agent));
}

#[test]
fn store_add_find_remove() {
    let mut s = SiteStore::default();
    assert!(s.find("a").is_none());
    s.add(site("a", "first"));
    s.add(site("b", "second"));
    s.add(site("a", "third"));
    assert_eq!(s.find("a").unwrap().name, "first");
    assert_eq!(s.position("b"), Some(1));
    assert_eq!(s.position("zz"), None);
    s.find_mut("b").unwrap().name = "renamed".to_string();
    assert_eq!(s.sites[1].name, "renamed");
    assert!(s.find_mut("zz").is_none());
    s.remove("a");
    assert_eq!(s.sites.len(), 1);
    assert_eq!(s.sites[0].id, "b");
    assert!(s.find("a").is_none());
    s.remove("missing");
    assert_eq!(s.sites.len(), 1);
}

#[test]
fn form_round_trip_and_edit() {
    let p = site("x", "name");
    let f = form_from_site(&p);
    assert_eq!(f.protocol_index, 1);
    assert_eq!(f.auth_index, 0);
    assert_eq!(f.local_dir, "");
    assert_eq!(f.remote_dir, "/srv");
    let mut q = p.clone();
    apply_form(&mut q, &f);
    assert_eq!(q.id, "x");
    assert_eq!(q.name, "name");
    assert_eq!(q.protocol, SerializableProtocol::Ftp);
    assert_eq!(q.local_dir, None);
    assert_eq!(q.remote_dir.as_deref(), Some("/srv"));
    let mut f2 = f.clone();
    f2.protocol_index = 7;
    f2.auth_index = 1;
    f2.key_file_path = "/home/u/.ssh/id".to_string();
    f2.remote_dir = String::new();
    f2.local_dir = "/tmp".to_string();
    apply_form(&mut q, &f2);
    assert_eq!(q.protocol, SerializableProtocol::Sftp);
    assert_eq!(q.auth_method, AuthMethodType::KeyFile { path: "/home/u/.ssh/id".to_string() });
    assert_eq!(q.remote_dir, None);
    assert_eq!(q.local_dir.as_deref(), Some("/tmp"));
}

#[test]
fn store_saves_form() {
    let mut s = SiteStore::default();
    s.add(site("a", "one"));
    let mut f = form_from_site(&s.sites[0]);
    f.name = "changed".to_string();
    assert!(s.save_form("a", &f));
    assert_eq!(s.sites[0].name, "changed");
    assert!(!s.save_form("zz", &f));
}

#[test]
fn editor_helpers() {
    assert_eq!(port_for_protocol_index(0), 22);
    assert_eq!(port_for_protocol_index(1), 21);
    assert_eq!(port_for_protocol_index(2), 21);
    assert_eq!(port_for_protocol_index(9), 22);
    assert!(key_file_visible(1) && !key_file_visible(0));
    assert!(password_visible(0) && password_visible(1) && !password_visible(2));
    assert_eq!(site_subtitle("", 21), "");
    assert_eq!(site_subtitle("ftp.example.com", 21), "ftp.example.com:21");
    assert_eq!(optional_password(""), None);
    assert_eq!(optional_password("pw").as_deref(), Some("pw"));
    assert_eq!(password_prompt(&AuthMethodType::Agent), PasswordPrompt::NoPrompt);
    assert_eq!(password_prompt(&AuthMethodType::Password), PasswordPrompt::Password);
    assert_eq!(
        password_prompt(&AuthMethodType::KeyFile { path: String::new() }),
        PasswordPrompt::Passphrase
    );
}

#[test]
fn keyring_updates() {
    assert!(matches!(keyring_action("Home", ""), KeyringAction::Clear));
    match keyring_action("Home", "pw") {
        KeyringAction::Store { label, password } => {
            assert_eq!(label, "Cargo: Home");
            assert_eq!(password, "pw");
        }
        _ => panic!("expected store"),
    }
}

#[test]
fn connect_requests() {
    let mut s = SiteStore::default();
    s.add(site("a", "one"));
    assert!(connect_request(&s, &None, "pw").is_none());
    assert!(connect_request(&s, &Some("zz".to_string()), "pw").is_none());
    let (p, pw) = connect_request(&s, &Some("a".to_string()), "").unwrap();
    assert_eq!(p.name, "one");
    assert_eq!(pw, None);
    let (_, pw) = connect_request(&s, &Some("a".to_string()), "pw").unwrap();
    assert_eq!(pw.as_deref(), Some("pw"));
}

#[test]
fn sidebar_connects_with_a_stored_secret() {
    let key = AuthMethodType::KeyFile { path: "/k".to_string() };
    match sidebar_connect(&AuthMethodType::Agent, Some("x".to_string())) {
        SidebarConnect::Connect(None) => {}
        other => panic!("unexpected {:?}", other),
    }
    match sidebar_connect(&AuthMethodType::Password, Some("pw".to_string())) {
        SidebarConnect::Connect(Some(p)) => assert_eq!(p, "pw"),
        other => panic!("unexpected {:?}", other),
    }
    match sidebar_connect(&key, Some("phrase".to_string())) {
        SidebarConnect::Connect(Some(p)) => assert_eq!(p, "phrase"),
        other => panic!("unexpected {:?}", other),
    }
    assert!(matches!(
        sidebar_connect(&AuthMethodType::Password, None),
        SidebarConnect::Prompt(PasswordPrompt::Password)
    ));
    assert!(matches!(
        sidebar_connect(&key, None),
        SidebarConnect::Prompt(PasswordPrompt::Passphrase)
    ));
}
