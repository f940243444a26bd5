use vstd::prelude::*;

use crate::numbers::push_decimal;
use crate::protocol::{address_of, opt_chars, spec_default_port};
use crate::site_manager::{
    has_id, is_first_with_id, to_protocol_type, AuthMethodType, SerializableProtocol, SiteProfile,
    SiteStore,
};
use crate::text::{chars_of, push_char, push_chars};

verus! {

broadcast use vstd::string::group_string_axioms;

/// The values of the site editor's fields.
#[derive(Debug, Clone)]
pub struct SiteForm {
    pub name: String,
    pub host: String,
    pub port: u16,
    pub username: String,
    /// Position in the protocol list: SFTP, FTP, FTPS.
    pub protocol_index: u32,
    /// Position in the authentication list: password, key file, agent.
    pub auth_index: u32,
    pub key_file_path: String,
    pub local_dir: String,
    pub remote_dir: String,
    pub sync_browsing: bool,
}

/// The position of a protocol in the editor's protocol list.
pub open spec fn protocol_index_of(p: SerializableProtocol) -> u32 {
    match p {
        SerializableProtocol::Sftp => 0,
        SerializableProtocol::Ftp => 1,
        SerializableProtocol::Ftps => 2,
    }
}

/// The protocol at a position of the protocol list (SFTP for any other).
pub open spec fn protocol_at(i: u32) -> SerializableProtocol {
    if i == 1 {
        SerializableProtocol::Ftp
    } else if i == 2 {
        SerializableProtocol::Ftps
    } else {
        SerializableProtocol::Sftp
    }
}

/// The position of an authentication method in the editor's list.
pub open spec fn auth_index_of(a: AuthMethodType) -> u32 {
    match a {
        AuthMethodType::Password => 0,
        AuthMethodType::KeyFile { .. } => 1,
        AuthMethodType::Agent => 2,
    }
}

/// The characters of an optional string, empty when absent.
pub open spec fn chars_or_empty(o: Option<String>) -> Seq<char> {
    match o {
        Some(s) => s@,
        None => Seq::empty(),
    }
}

/// An optional directory from an editor field: none when the field is empty.
pub open spec fn dir_from_field(s: Seq<char>) -> Option<Seq<char>> {
    if s.len() == 0 {
        None
    } else {
        Some(s)
    }
}

/// Whether `f` shows the site `s`.
pub open spec fn form_shows(f: SiteForm, s: SiteProfile) -> bool {
    &&& f.name@ == s.name@
    &&& f.host@ == s.host@
    &&& f.port == s.port
    &&& f.username@ == s.username@
    &&& f.protocol_index == protocol_index_of(s.protocol)
    &&& f.auth_index == auth_index_of(s.auth_method)
    &&& f.key_file_path@ == (match s.auth_method {
        AuthMethodType::KeyFile { path } => path@,
        _ => Seq::empty(),
    })
    &&& f.local_dir@ == chars_or_empty(s.local_dir)
    &&& f.remote_dir@ == chars_or_empty(s.remote_dir)
    &&& f.sync_browsing == s.sync_browsing
}

/// Whether `new` is the site `old` edited by the form `f`: identifier kept,
/// every other field taken from the form; an unknown list position means
/// SFTP or password authentication, an empty directory field none.
pub open spec fn form_applied(old: SiteProfile, f: SiteForm, new: SiteProfile) -> bool {
    &&& new.id@ == old.id@
    &&& new.name@ == f.name@
    &&& new.host@ == f.host@
    &&& new.port == f.port
    &&& new.username@ == f.username@
    &&& new.protocol == protocol_at(f.protocol_index)
    &&& match new.auth_method {
        AuthMethodType::Password => f.auth_index != 1 && f.auth_index != 2,
        AuthMethodType::KeyFile { path } => f.auth_index == 1 && path@ == f.key_file_path@,
        AuthMethodType::Agent => f.auth_index == 2,
    }
    &&& opt_chars(new.local_dir) == dir_from_field(f.local_dir@)
    &&& opt_chars(new.remote_dir) == dir_from_field(f.remote_dir@)
    &&& new.sync_browsing == f.sync_browsing
}

/// The same site: every field holds the same value.
pub open spec fn same_site(a: SiteProfile, b: SiteProfile) -> bool {
    &&& a.id@ == b.id@
    &&& a.name@ == b.name@
    &&& a.host@ == b.host@
    &&& a.port == b.port
    &&& a.username@ == b.username@
    &&& a.protocol == b.protocol
    &&& match (a.auth_method, b.auth_method) {
        (AuthMethodType::Password, AuthMethodType::Password) => true,
        (AuthMethodType::KeyFile { path: p }, AuthMethodType::KeyFile { path: q }) => p@ == q@,
        (AuthMethodType::Agent, AuthMethodType::Agent) => true,
        _ => false,
    }
    &&& opt_chars(a.local_dir) == opt_chars(b.local_dir)
    &&& opt_chars(a.remote_dir) == opt_chars(b.remote_dir)
    &&& a.sync_browsing == b.sync_browsing
}

fn opt_text(o: &Option<String>) -> (s: String)
    ensures
        s@ == chars_or_empty(*o),
{
    match o {
        Some(s) => s.clone(),
        None => String::new(),
    }
}

fn opt_dir(s: &String) -> (o: Option<String>)
    ensures
        opt_chars(o) == dir_from_field(s@),
{
    if s.as_str().is_empty() {
        None
    } else {
        Some(s.clone())
    }
}

/// The editor fields that show `site`.
pub fn form_from_site(site: &SiteProfile) -> (f: SiteForm)
    ensures
        form_shows(f, *site),
{
    let protocol_index: u32 = match site.protocol {
        SerializableProtocol::Sftp => 0,
        SerializableProtocol::Ftp => 1,
        SerializableProtocol::Ftps => 2,
    };
    let (auth_index, key_file_path): (u32, String) = match &site.auth_method {
        AuthMethodType::Password => (0, String::new()),
        AuthMethodType::KeyFile { path } => (1, path.clone()),
        AuthMethodType::Agent => (2, String::new()),
    };
    SiteForm {
        name: site.name.clone(),
        host: site.host.clone(),
        port: site.port,
        username: site.username.clone(),
        protocol_index,
        auth_index,
        key_file_path,
        local_dir: opt_text(&site.local_dir),
        remote_dir: opt_text(&site.remote_dir),
        sync_browsing: site.sync_browsing,
    }
}

/// Edits `site` with the editor fields `form`.
pub fn apply_form(site: &mut SiteProfile, form: &SiteForm)
    ensures
        form_applied(*old(site), *form, *final(site)),
{
    site.name = form.name.clone();
    site.host = form.host.clone();
    site.port = form.port;
    site.username = form.username.clone();
    site.protocol = if form.protocol_index == 1 {
        SerializableProtocol::Ftp
    } else if form.protocol_index == 2 {
        SerializableProtocol::Ftps
    } else {
        SerializableProtocol::Sftp
    };
    site.auth_method = if form.auth_index == 1 {
        AuthMethodType::KeyFile { path: form.key_file_path.clone() }
    } else if form.auth_index == 2 {
        AuthMethodType::Agent
    } else {
        AuthMethodType::Password
    };
    site.local_dir = opt_dir(&form.local_dir);
    site.remote_dir = opt_dir(&form.remote_dir);
    site.sync_browsing = form.sync_browsing;
}

/// Saving the editor unchanged gives the site back, unless it holds an
/// empty directory, which the editor cannot tell from none.
pub proof fn law_form_round_trip(site: SiteProfile, f: SiteForm, new: SiteProfile)
    requires
        form_shows(f, site),
        form_applied(site, f, new),
        !(site.local_dir matches Some(d) && d@.len() == 0),
        !(site.remote_dir matches Some(d) && d@.len() == 0),
    ensures
        same_site(new, site),
{
}

impl SiteStore {
    /// Saves the editor fields into the first site with identifier `id`;
    /// returns whether there was one.
    pub fn save_form(&mut self, id: &str, form: &SiteForm) -> (found: bool)
        ensures
            found == has_id(old(self).sites@, id@),
            found ==> exists|i: int|
                is_first_with_id(old(self).sites@, id@, i) && final(self).sites@.len()
                    == old(self).sites@.len() && form_applied(
                    old(self).sites@[i],
                    *form,
                    final(self).sites@[i],
                ) && forall|j: int|
                    0 <= j < old(self).sites@.len() && j != i ==> final(self).sites@[j]
                        == old(self).sites@[j],
            !found ==> *final(self) == *old(self),
    {
        match self.find_mut(id) {
            Some(site) => {
                apply_form(site, form);
                true
            },
            None => false,
        }
    }
}

/// The port a protocol list position selects: 22 for SFTP, 21 for FTP and
/// FTPS, 22 for anything else.
pub fn port_for_protocol_index(i: u32) -> (port: u16)
    ensures
        port == spec_default_port(to_protocol_type(protocol_at(i))),
{
    if i == 1 || i == 2 {
        21
    } else {
        22
    }
}

/// Whether the key file field shows for an authentication list position.
pub fn key_file_visible(auth_index: u32) -> (b: bool)
    ensures
        b == (auth_index == 1),
{
    auth_index == 1
}

/// Whether the password field shows (for a password or a key passphrase).
pub fn password_visible(auth_index: u32) -> (b: bool)
    ensures
        b == (auth_index != 2),
{
    auth_index != 2
}

/// The subtitle of a site row: `host:port`, empty without a host.
pub fn site_subtitle(host: &str, port: u16) -> (s: String)
    ensures
        s@ == (if host@.len() == 0 {
            Seq::empty()
        } else {
            address_of(host@, port)
        }),
{
    if host.is_empty() {
        return String::new();
    }
    let h = chars_of(host);
    let mut s = String::new();
    push_chars(&mut s, &h, 0, h.len());
    push_char(&mut s, ':');
    push_decimal(&mut s, port as u64);
    assert(h@.subrange(0, h@.len() as int) == h@);
    assert(s@ =~= address_of(host@, port));
    s
}

/// A typed password: none when empty.
pub fn optional_password(text: &str) -> (p: Option<String>)
    ensures
        opt_chars(p) == dir_from_field(text@),
{
    if text.is_empty() {
        None
    } else {
        Some(text.to_owned())
    }
}

/// What to do with the keyring entry of a site after editing it.
#[derive(Debug)]
pub enum KeyringAction {
    /// Remove the stored password.
    Clear,
    /// Store this password under this label.
    Store { label: String, password: String },
}

/// The keyring update for a site named `site_name` whose password field holds
/// `password`: clear it when empty, else store it labelled `Cargo: name`.
pub fn keyring_action(site_name: &str, password: &str) -> (a: KeyringAction)
    ensures
        match a {
            KeyringAction::Clear => password@.len() == 0,
            KeyringAction::Store { label, password: p } => password@.len() > 0 && p@ == password@
                && label@ == "Cargo: "@ + site_name@,
        },
{
    if password.is_empty() {
        return KeyringAction::Clear;
    }
    let mut label = "Cargo: ".to_owned();
    let n = chars_of(site_name);
    push_chars(&mut label, &n, 0, n.len());
    assert(n@.subrange(0, n@.len() as int) == n@);
    KeyringAction::Store { label, password: password.to_owned() }
}

/// How the sidebar asks for a secret before connecting to a site.
#[derive(Debug, Clone, Copy, PartialEq, Eq, Structural)]
pub enum PasswordPrompt {
    /// Connect at once (agent authentication).
    NoPrompt,
    /// Ask for the password.
    Password,
    /// Ask for the key's passphrase.
    Passphrase,
}

/// How to ask for a secret for a site with authentication `a`.
pub fn password_prompt(a: &AuthMethodType) -> (p: PasswordPrompt)
    ensures
        p == (match *a {
            AuthMethodType::Agent => PasswordPrompt::NoPrompt,
            AuthMethodType::KeyFile { .. } => PasswordPrompt::Passphrase,
            AuthMethodType::Password => PasswordPrompt::Password,
        }),
{
    match a {
        AuthMethodType::Agent => PasswordPrompt::NoPrompt,
        AuthMethodType::KeyFile { .. } => PasswordPrompt::Passphrase,
        AuthMethodType::Password => PasswordPrompt::Password,
    }
}

/// What a click on a site in the sidebar does.
#[derive(Debug)]
pub enum SidebarConnect {
    /// Connect at once, with this password (none for agent authentication).
    Connect(Option<String>),
    /// Ask for a secret first.
    Prompt(PasswordPrompt),
}

/// Decides how the sidebar connects to a site with authentication `a` when
/// the keyring holds `stored` for it: agent sites, and sites whose secret
/// the keyring holds, connect at once; the others ask for their password or
/// key passphrase.
pub fn sidebar_connect(a: &AuthMethodType, stored: Option<String>) -> (c: SidebarConnect)
    ensures
        c == (match *a {
            AuthMethodType::Agent => SidebarConnect::Connect(None),
            AuthMethodType::KeyFile { .. } => match stored {
                Some(p) => SidebarConnect::Connect(Some(p)),
                None => SidebarConnect::Prompt(PasswordPrompt::Passphrase),
            },
            AuthMethodType::Password => match stored {
                Some(p) => SidebarConnect::Connect(Some(p)),
                None => SidebarConnect::Prompt(PasswordPrompt::Password),
            },
        }),
{
    match a {
        AuthMethodType::Agent => SidebarConnect::Connect(None),
        _ => match stored {
            Some(p) => SidebarConnect::Connect(Some(p)),
            None => SidebarConnect::Prompt(password_prompt(a)),
        },
    }
}

impl SiteProfile {
    /// A copy of this profile.
    pub fn duplicate(&self) -> (p: SiteProfile)
        ensures
            same_site(p, *self),
    {
        SiteProfile {
            id: self.id.clone(),
            name: self.name.clone(),
            protocol: self.protocol,
            host: self.host.clone(),
            port: self.port,
            username: self.username.clone(),
            auth_method: match &self.auth_method {
                AuthMethodType::Password => AuthMethodType::Password,
                AuthMethodType::KeyFile { path } => AuthMethodType::KeyFile { path: path.clone() },
                AuthMethodType::Agent => AuthMethodType::Agent,
            },
            local_dir: match &self.local_dir {
                Some(d) => Some(d.clone()),
                None => None,
            },
            remote_dir: match &self.remote_dir {
                Some(d) => Some(d.clone()),
                None => None,
            },
            sync_browsing: self.sync_browsing,
        }
    }
}

/// The connection that the site editor asks for: the selected site and the
/// typed password (none when empty); nothing without a selected, known site.
pub fn connect_request(store: &SiteStore, selected: &Option<String>, password_text: &str) -> (r:
    Option<(SiteProfile, Option<String>)>)
    ensures
        match r {
            Some((p, pw)) => selected matches Some(id) && exists|i: int|
                is_first_with_id(store.sites@, id@, i) && same_site(p, store.sites@[i]) && opt_chars(
                    pw,
                ) == dir_from_field(password_text@),
            None => match selected {
                Some(id) => !has_id(store.sites@, id@),
                None => true,
            },
        },
{
    match selected {
        Some(id) => match store.find(id.as_str()) {
            Some(site) => Some((site.duplicate(), optional_password(password_text))),
            None => None,
        },
        None => None,
    }
}

} // verus!
