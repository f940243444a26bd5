use vstd::prelude::*;

use crate::protocol::{opt_chars, AuthMethod, AuthView, ConnectionConfig, ProtocolType};
use crate::text::str_eq;

verus! {

broadcast use vstd::string::group_string_axioms;

/// Protocol type as it is stored with a saved site.
#[derive(Debug, Clone, Copy, PartialEq, Eq, Structural)]
pub enum SerializableProtocol {
    Ftp,
    Ftps,
    Sftp,
}

/// The protocol that a stored protocol stands for.
pub open spec fn to_protocol_type(p: SerializableProtocol) -> ProtocolType {
    match p {
        SerializableProtocol::Ftp => ProtocolType::Ftp,
        SerializableProtocol::Ftps => ProtocolType::Ftps,
        SerializableProtocol::Sftp => ProtocolType::Sftp,
    }
}

/// The stored form of a protocol.
pub open spec fn to_serializable(p: ProtocolType) -> SerializableProtocol {
    match p {
        ProtocolType::Ftp => SerializableProtocol::Ftp,
        ProtocolType::Ftps => SerializableProtocol::Ftps,
        ProtocolType::Sftp => SerializableProtocol::Sftp,
    }
}

impl From<SerializableProtocol> for ProtocolType {
    fn from(p: SerializableProtocol) -> (r: Self) {
        match p {
            SerializableProtocol::Ftp => ProtocolType::Ftp,
            SerializableProtocol::Ftps => ProtocolType::Ftps,
            SerializableProtocol::Sftp => ProtocolType::Sftp,
        }
    }
}

impl vstd::std_specs::convert::FromSpecImpl<SerializableProtocol> for ProtocolType {
    open spec fn obeys_from_spec() -> bool {
        true
    }

    open spec fn from_spec(p: SerializableProtocol) -> ProtocolType {
        to_protocol_type(p)
    }
}

impl From<ProtocolType> for SerializableProtocol {
    fn from(p: ProtocolType) -> (r: Self) {
        match p {
            ProtocolType::Ftp => SerializableProtocol::Ftp,
            ProtocolType::Ftps => SerializableProtocol::Ftps,
            ProtocolType::Sftp => SerializableProtocol::Sftp,
        }
    }
}

impl vstd::std_specs::convert::FromSpecImpl<ProtocolType> for SerializableProtocol {
    open spec fn obeys_from_spec() -> bool {
        true
    }

    open spec fn from_spec(p: ProtocolType) -> SerializableProtocol {
        to_serializable(p)
    }
}

/// Converting a stored protocol to a protocol and back gives it back.
pub proof fn law_serializable_round_trip(p: SerializableProtocol)
    ensures
        to_serializable(to_protocol_type(p)) == p,
{
}

/// Converting a protocol to its stored form and back gives it back.
pub proof fn law_protocol_round_trip(p: ProtocolType)
    ensures
        to_protocol_type(to_serializable(p)) == p,
{
}

/// Authentication method of a saved site. Passwords are never stored.
#[derive(Debug, Clone, PartialEq, Eq)]
pub enum AuthMethodType {
    Password,
    KeyFile { path: String },
    Agent,
}

/// Whether `c` is a lowercase hexadecimal digit.
pub open spec fn is_lower_hex(c: char) -> bool {
    ('0' <= c <= '9') || ('a' <= c <= 'f')
}

/// Whether `s` has the form of a random UUID as `uuid` renders it:
/// 36 characters, hyphens at 8, 13, 18 and 23, the version digit `4` at 14,
/// and lowercase hexadecimal digits elsewhere.
pub open spec fn is_uuid_v4_text(s: Seq<char>) -> bool {
    &&& s.len() == 36
    &&& s[8] == '-' && s[13] == '-' && s[18] == '-' && s[23] == '-'
    &&& s[14] == '4'
    &&& forall|i: int|
        0 <= i < 36 && i != 8 && i != 13 && i != 18 && i != 23 ==> #[trigger] is_lower_hex(s[i])
}

/// A fresh identifier for a new site.
///
/// Trusted: calls `uuid::Uuid::new_v4()`, which builds a UUID from random
/// bits with the version set to 4, and `to_string()`, whose `Display` output
/// is the lowercase hyphenated form. Which identifier comes out rests on the
/// random number generator; the contract states only its form.
#[verifier::external_body]
fn new_site_id() -> (id: String)
    ensures
        is_uuid_v4_text(id@),
{
    uuid::Uuid::new_v4().to_string()
}

/// A saved server connection profile.
#[derive(Debug, Clone)]
pub struct SiteProfile {
    pub id: String,
    pub name: String,
    pub protocol: SerializableProtocol,
    pub host: String,
    pub port: u16,
    pub username: String,
    pub auth_method: AuthMethodType,
    pub local_dir: Option<String>,
    pub remote_dir: Option<String>,
    pub sync_browsing: bool,
}

/// The authentication of a connection to a site with the given method,
/// with `password` as the password or the key's passphrase; password
/// authentication without a password uses an empty one.
pub open spec fn auth_for(method: AuthMethodType, password: Option<String>) -> AuthView {
    match method {
        AuthMethodType::Password => AuthView::Password(
            match password {
                Some(p) => p@,
                None => Seq::empty(),
            },
        ),
        AuthMethodType::KeyFile { path } => AuthView::KeyFile {
            path: path@,
            passphrase: opt_chars(password),
        },
        AuthMethodType::Agent => AuthView::Agent,
    }
}

impl SiteProfile {
    /// A new profile with a fresh identifier, named "New Site", for SFTP on
    /// port 22 with password authentication, and everything else empty.
    pub fn new() -> (p: Self)
        ensures
            is_uuid_v4_text(p.id@),
            p.name@ == "New Site"@,
            p.protocol == SerializableProtocol::Sftp,
            p.host@.len() == 0,
            p.port == 22,
            p.username@.len() == 0,
            p.auth_method == AuthMethodType::Password,
            p.local_dir is None,
            p.remote_dir is None,
            !p.sync_browsing,
    {
        SiteProfile {
            id: new_site_id(),
            name: "New Site".to_owned(),
            protocol: SerializableProtocol::Sftp,
            host: String::new(),
            port: 22,
            username: String::new(),
            auth_method: AuthMethodType::Password,
            local_dir: None,
            remote_dir: None,
            sync_browsing: false,
        }
    }

    /// The connection settings of this site. The password (or key
    /// passphrase) is supplied separately, as it is never stored; password
    /// authentication without one uses an empty password.
    pub fn to_connection_config(&self, password: Option<String>) -> (c: ConnectionConfig)
        ensures
            c.protocol == to_protocol_type(self.protocol),
            c.host@ == self.host@,
            c.port == self.port,
            c.username@ == self.username@,
            c.auth@ == auth_for(self.auth_method, password),
    {
        let auth = match &self.auth_method {
            AuthMethodType::Password => AuthMethod::Password(
                match password {
                    Some(p) => p,
                    None => String::new(),
                },
            ),
            AuthMethodType::KeyFile { path } => AuthMethod::KeyFile {
                path: path.clone(),
                passphrase: password,
            },
            AuthMethodType::Agent => AuthMethod::Agent,
        };
        ConnectionConfig {
            protocol: self.protocol.into(),
            host: self.host.clone(),
            port: self.port,
            username: self.username.clone(),
            auth,
        }
    }
}

/// Whether `i` is the first position in `sites` of a site with identifier `id`.
pub open spec fn is_first_with_id(sites: Seq<SiteProfile>, id: Seq<char>, i: int) -> bool {
    &&& 0 <= i < sites.len()
    &&& sites[i].id@ == id
    &&& forall|j: int| 0 <= j < i ==> sites[j].id@ != id
}

/// Whether a site with identifier `id` is in `sites`.
pub open spec fn has_id(sites: Seq<SiteProfile>, id: Seq<char>) -> bool {
    exists|i: int| 0 <= i < sites.len() && sites[i].id@ == id
}

/// `sites` without the sites whose identifier is `id`, order kept.
pub open spec fn without_id(sites: Seq<SiteProfile>, id: Seq<char>) -> Seq<SiteProfile>
    decreases sites.len(),
{
    if sites.len() == 0 {
        sites
    } else {
        let rest = without_id(sites.drop_last(), id);
        if sites.last().id@ == id {
            rest
        } else {
            rest.push(sites.last())
        }
    }
}

/// Removing the sites with an identifier leaves none with it.
pub proof fn law_remove_removes(sites: Seq<SiteProfile>, id: Seq<char>)
    ensures
        !has_id(without_id(sites, id), id),
    decreases sites.len(),
{
    if sites.len() > 0 {
        law_remove_removes(sites.drop_last(), id);
        let rest = without_id(sites.drop_last(), id);
        if sites.last().id@ != id {
            assert forall|i: int| 0 <= i < rest.push(sites.last()).len() implies rest.push(
                sites.last(),
            )[i].id@ != id by {
                if i < rest.len() {
                    assert(rest.push(sites.last())[i] == rest[i]);
                }
            }
        }
    }
}

/// Removing the sites with an identifier keeps every other site.
pub proof fn law_remove_keeps_others(sites: Seq<SiteProfile>, id: Seq<char>, k: int)
    requires
        0 <= k < sites.len(),
        sites[k].id@ != id,
    ensures
        without_id(sites, id).contains(sites[k]),
    decreases sites.len(),
{
    let rest = without_id(sites.drop_last(), id);
    if k == sites.len() - 1 {
        assert(rest.push(sites.last())[rest.len() as int] == sites[k]);
    } else {
        assert(sites.drop_last()[k] == sites[k]);
        law_remove_keeps_others(sites.drop_last(), id, k);
        let j = choose|j: int| 0 <= j < rest.len() && rest[j] == sites[k];
        if sites.last().id@ != id {
            assert(rest.push(sites.last())[j] == sites[k]);
        }
    }
}

/// A site added under a new identifier is the one found by that identifier.
pub proof fn law_add_then_find(sites: Seq<SiteProfile>, p: SiteProfile)
    requires
        !has_id(sites, p.id@),
    ensures
        is_first_with_id(sites.push(p), p.id@, sites.len() as int),
        sites.push(p)[sites.len() as int] == p,
{
    assert forall|j: int| 0 <= j < sites.len() implies sites.push(p)[j].id@ != p.id@ by {
        assert(sites.push(p)[j] == sites[j]);
    }
}

/// Persistent storage for all saved site profiles.
#[derive(Debug, Clone)]
pub struct SiteStore {
    pub sites: Vec<SiteProfile>,
}

impl Default for SiteStore {
    fn default() -> (s: Self)
        ensures
            s.sites@.len() == 0,
    {
        SiteStore { sites: Vec::new() }
    }
}

impl SiteStore {
    /// Adds a profile at the end.
    pub fn add(&mut self, profile: SiteProfile)
        ensures
            final(self).sites@ == old(self).sites@.push(profile),
    {
        self.sites.push(profile);
    }

    /// Removes every profile with identifier `id`, keeping the others in order.
    pub fn remove(&mut self, id: &str)
        ensures
            final(self).sites@ == without_id(old(self).sites@, id@),
    {
        let ghost all = self.sites@;
        let mut rest: Vec<SiteProfile> = Vec::new();
        std::mem::swap(&mut rest, &mut self.sites);
        let mut kept: Vec<SiteProfile> = Vec::new();
        let mut i: usize = 0;
        assert(all.subrange(0, 0) =~= Seq::<SiteProfile>::empty());
        assert(all.subrange(0, all.len() as int) == all);
        let n: usize = rest.len();
        assert(all.len() == n);
        while rest.len() > 0
            invariant
                i <= all.len(),
                all.len() <= usize::MAX,
                rest@.len() + i == all.len(),
                rest@ == all.subrange(i as int, all.len() as int),
                kept@ == without_id(all.subrange(0, i as int), id@),
            decreases rest.len(),
        {
            let p = rest.remove(0);
            assert(all.subrange(0, i + 1).drop_last() =~= all.subrange(0, i as int));
            assert(all.subrange(0, i + 1).last() == p);
            if !str_eq(p.id.as_str(), id) {
                kept.push(p);
            }
            i += 1;
            assert(rest@ =~= all.subrange(i as int, all.len() as int));
        }
        assert(all.subrange(0, i as int) =~= all);
        self.sites = kept;
    }

    /// The position of the first profile with identifier `id`.
    pub fn position(&self, id: &str) -> (r: Option<usize>)
        ensures
            match r {
                Some(i) => is_first_with_id(self.sites@, id@, i as int),
                None => !has_id(self.sites@, id@),
            },
    {
        let mut i: usize = 0;
        while i < self.sites.len()
            invariant
                i <= self.sites@.len(),
                forall|j: int| 0 <= j < i ==> self.sites@[j].id@ != id@,
            decreases self.sites.len() - i,
        {
            if str_eq(self.sites[i].id.as_str(), id) {
                return Some(i);
            }
            i += 1;
        }
        None
    }

    /// The first profile with identifier `id`.
    pub fn find(&self, id: &str) -> (r: Option<&SiteProfile>)
        ensures
            match r {
                Some(p) => exists|i: int| is_first_with_id(self.sites@, id@, i) && *p == self.sites@[i],
                None => !has_id(self.sites@, id@),
            },
    {
        match self.position(id) {
            Some(i) => Some(&self.sites[i]),
            None => None,
        }
    }

    /// The first profile with identifier `id`, for changing it in place.
    pub fn find_mut(&mut self, id: &str) -> (r: Option<&mut SiteProfile>)
        ensures
            match r {
                Some(p) => exists|i: int|
                    is_first_with_id(old(self).sites@, id@, i) && *p == old(self).sites@[i]
                        && final(self).sites@ == old(self).sites@.update(i, *final(p)),
                None => !has_id(old(self).sites@, id@) && *final(self) == *old(self),
            },
    {
        match self.position(id) {
            Some(i) => Some(&mut self.sites[i]),
            None => None,
        }
    }
}

} // verus!
