use vstd::prelude::*;

use crate::numbers::{decimal_digits, octal_digits, octal_string, push_decimal};
use crate::text::{chars_eq, push_char};

verus! {

broadcast use vstd::string::group_string_axioms;

/// Supported protocol types.
#[derive(Debug, Clone, Copy, PartialEq, Eq, Structural)]
pub enum ProtocolType {
    Ftp,
    Ftps,
    Sftp,
}

/// The display name of a protocol.
pub open spec fn protocol_label(p: ProtocolType) -> Seq<char> {
    match p {
        ProtocolType::Ftp => seq!['F', 'T', 'P'],
        ProtocolType::Ftps => seq!['F', 'T', 'P', 'S'],
        ProtocolType::Sftp => seq!['S', 'F', 'T', 'P'],
    }
}

impl ProtocolType {
    /// The display name: `FTP`, `FTPS` or `SFTP`.
    pub fn label(&self) -> (s: String)
        ensures
            s@ == protocol_label(*self),
    {
        let mut s = String::new();
        match self {
            ProtocolType::Ftp => {
                push_char(&mut s, 'F');
                push_char(&mut s, 'T');
                push_char(&mut s, 'P');
            },
            ProtocolType::Ftps => {
                push_char(&mut s, 'F');
                push_char(&mut s, 'T');
                push_char(&mut s, 'P');
                push_char(&mut s, 'S');
            },
            ProtocolType::Sftp => {
                push_char(&mut s, 'S');
                push_char(&mut s, 'F');
                push_char(&mut s, 'T');
                push_char(&mut s, 'P');
            },
        }
        assert(s@ =~= protocol_label(*self));
        s
    }
}

/// SSH authentication method.
#[derive(Debug, Clone)]
pub enum AuthMethod {
    Password(String),
    KeyFile { path: String, passphrase: Option<String> },
    Agent,
}

/// The mathematical content of an [`AuthMethod`].
pub enum AuthView {
    Password(Seq<char>),
    KeyFile { path: Seq<char>, passphrase: Option<Seq<char>> },
    Agent,
}

impl View for AuthMethod {
    type V = AuthView;

    open spec fn view(&self) -> AuthView {
        match self {
            AuthMethod::Password(p) => AuthView::Password(p@),
            AuthMethod::KeyFile { path, passphrase } => AuthView::KeyFile {
                path: path@,
                passphrase: opt_chars(*passphrase),
            },
            AuthMethod::Agent => AuthView::Agent,
        }
    }
}

/// Connection configuration for a remote server.
#[derive(Debug, Clone)]
pub struct ConnectionConfig {
    pub protocol: ProtocolType,
    pub host: String,
    pub port: u16,
    pub username: String,
    pub auth: AuthMethod,
}

/// The standard port of a protocol.
pub open spec fn spec_default_port(protocol: ProtocolType) -> u16 {
    match protocol {
        ProtocolType::Ftp | ProtocolType::Ftps => 21,
        ProtocolType::Sftp => 22,
    }
}

/// `host:port`.
pub open spec fn address_of(host: Seq<char>, port: u16) -> Seq<char> {
    host + seq![':'] + decimal_digits(port as nat)
}

/// `user@host:port`.
pub open spec fn connection_label_of(username: Seq<char>, host: Seq<char>, port: u16) -> Seq<
    char,
> {
    username + seq!['@'] + address_of(host, port)
}

impl ConnectionConfig {
    /// The standard port of `protocol`: 21 for FTP and FTPS, 22 for SFTP.
    pub fn default_port(protocol: ProtocolType) -> (port: u16)
        ensures
            port == spec_default_port(protocol),
    {
        match protocol {
            ProtocolType::Ftp | ProtocolType::Ftps => 21,
            ProtocolType::Sftp => 22,
        }
    }

    /// The address to connect to, `host:port`.
    pub fn address(&self) -> (s: String)
        ensures
            s@ == address_of(self.host@, self.port),
    {
        let mut s = self.host.clone();
        push_char(&mut s, ':');
        push_decimal(&mut s, self.port as u64);
        assert(s@ =~= address_of(self.host@, self.port));
        s
    }

    /// The label shown for an open connection, `user@host:port`.
    pub fn host_label(&self) -> (s: String)
        ensures
            s@ == connection_label_of(self.username@, self.host@, self.port),
    {
        let mut s = self.username.clone();
        push_char(&mut s, '@');
        let a = self.address();
        let ghost before = s@;
        let av = crate::text::chars_of(a.as_str());
        crate::text::push_chars(&mut s, &av, 0, av.len());
        assert(av@.subrange(0, av@.len() as int) == av@);
        assert(s@ =~= connection_label_of(self.username@, self.host@, self.port));
        s
    }
}

/// The password that an FTP login sends: the password of password
/// authentication, and an empty one for any other method.
pub open spec fn spec_ftp_password(auth: AuthMethod) -> Seq<char> {
    match auth {
        AuthMethod::Password(pw) => pw@,
        _ => Seq::empty(),
    }
}

/// The password that an FTP login sends for `auth`.
pub fn ftp_password(auth: &AuthMethod) -> (pw: String)
    ensures
        pw@ == spec_ftp_password(*auth),
{
    match auth {
        AuthMethod::Password(pw) => pw.clone(),
        _ => String::new(),
    }
}

/// A single entry in a remote directory listing.
#[derive(Debug, Clone)]
pub struct RemoteEntry {
    pub name: String,
    pub is_dir: bool,
    pub size: u64,
    pub modified: Option<i64>,
    pub permissions: Option<String>,
    pub owner: Option<String>,
}

/// The mathematical content of a [`RemoteEntry`].
pub struct EntryView {
    pub name: Seq<char>,
    pub is_dir: bool,
    pub size: u64,
    pub modified: Option<i64>,
    pub permissions: Option<Seq<char>>,
    pub owner: Option<Seq<char>>,
}

/// The characters of an optional string.
pub open spec fn opt_chars(o: Option<String>) -> Option<Seq<char>> {
    match o {
        Some(s) => Some(s@),
        None => None,
    }
}

impl View for RemoteEntry {
    type V = EntryView;

    open spec fn view(&self) -> EntryView {
        EntryView {
            name: self.name@,
            is_dir: self.is_dir,
            size: self.size,
            modified: self.modified,
            permissions: opt_chars(self.permissions),
            owner: opt_chars(self.owner),
        }
    }
}

/// The content of an optional entry.
pub open spec fn opt_entry(o: Option<RemoteEntry>) -> Option<EntryView> {
    match o {
        Some(e) => Some(e@),
        None => None,
    }
}

/// The contents of a list of entries.
pub open spec fn entry_views(v: Seq<RemoteEntry>) -> Seq<EntryView> {
    v.map_values(|e: RemoteEntry| e@)
}

/// Whether a directory entry name is `.` or `..`.
pub open spec fn is_dot_name(name: Seq<char>) -> bool {
    name == seq!['.'] || name == seq!['.', '.']
}

/// Whether `name` is `.` or `..`.
pub fn is_dot_entry(name: &Vec<char>) -> (r: bool)
    ensures
        r == is_dot_name(name@),
{
    let one = vec!['.'];
    let two = vec!['.', '.'];
    assert(one@ =~= seq!['.']);
    assert(two@ =~= seq!['.', '.']);
    chars_eq(name, &one) || chars_eq(name, &two)
}

/// What an SFTP server reports of one directory entry.
#[derive(Debug, Clone)]
pub struct SftpAttrs {
    pub name: String,
    pub is_dir: bool,
    pub size: Option<u64>,
    pub mtime: Option<u32>,
    pub permissions: Option<u32>,
    pub uid: Option<u32>,
}

/// The entry that an SFTP listing shows for `a`: no entry for `.` and `..`;
/// otherwise size 0 when unknown, permission bits in octal, owner as the
/// decimal user id.
pub open spec fn sftp_entry_spec(a: SftpAttrs) -> Option<EntryView> {
    if is_dot_name(a.name@) {
        None
    } else {
        Some(
            EntryView {
                name: a.name@,
                is_dir: a.is_dir,
                size: match a.size {
                    Some(s) => s,
                    None => 0,
                },
                modified: match a.mtime {
                    Some(t) => Some(t as i64),
                    None => None,
                },
                permissions: match a.permissions {
                    Some(p) => Some(octal_digits((p % 4096) as nat)),
                    None => None,
                },
                owner: match a.uid {
                    Some(u) => Some(decimal_digits(u as nat)),
                    None => None,
                },
            },
        )
    }
}

/// Converts what an SFTP server reports of an entry into a listing entry.
pub fn sftp_entry(a: &SftpAttrs) -> (r: Option<RemoteEntry>)
    ensures
        opt_entry(r) == sftp_entry_spec(*a),
{
    let name = crate::text::chars_of(a.name.as_str());
    if is_dot_entry(&name) {
        return None;
    }
    let size = match a.size {
        Some(s) => s,
        None => 0,
    };
    let modified = match a.mtime {
        Some(t) => Some(t as i64),
        None => None,
    };
    let permissions = match a.permissions {
        Some(p) => {
            let bits: u32 = p % 4096;
            Some(octal_string(bits as u64))
        },
        None => None,
    };
    let owner = match a.uid {
        Some(u) => Some(crate::numbers::decimal_string(u as u64)),
        None => None,
    };
    let e = RemoteEntry {
        name: a.name.clone(),
        is_dir: a.is_dir,
        size,
        modified,
        permissions,
        owner,
    };
    Some(e)
}

/// The listing that an SFTP directory read gives: every entry but `.` and
/// `..`, in the order the server sent them.
pub open spec fn sftp_listing_spec(attrs: Seq<SftpAttrs>) -> Seq<EntryView>
    decreases attrs.len(),
{
    if attrs.len() == 0 {
        Seq::empty()
    } else {
        let rest = sftp_listing_spec(attrs.drop_last());
        match sftp_entry_spec(attrs.last()) {
            Some(e) => rest.push(e),
            None => rest,
        }
    }
}

/// Converts an SFTP directory read into listing entries.
pub fn sftp_listing(attrs: &Vec<SftpAttrs>) -> (r: Vec<RemoteEntry>)
    ensures
        entry_views(r@) == sftp_listing_spec(attrs@),
{
    let mut out: Vec<RemoteEntry> = Vec::new();
    let mut i: usize = 0;
    while i < attrs.len()
        invariant
            i <= attrs@.len(),
            entry_views(out@) == sftp_listing_spec(attrs@.take(i as int)),
        decreases attrs.len() - i,
    {
        assert(attrs@.take(i + 1).drop_last() == attrs@.take(i as int));
        assert(attrs@.take(i + 1).last() == attrs@[i as int]);
        let ghost before = out@;
        match sftp_entry(&attrs[i]) {
            Some(e) => {
                out.push(e);
                assert(entry_views(out@) =~= entry_views(before).push(out@.last()@));
            },
            None => {},
        }
        i += 1;
    }
    assert(attrs@.take(attrs@.len() as int) == attrs@);
    out
}

/// An SFTP entry keeps the server's name, kind and size, and shows the
/// permission bits (file type bits dropped) as octal text that reads back
/// as those bits, and the user id as decimal text that reads back as it.
pub proof fn law_sftp_entry_fields(a: SftpAttrs)
    requires
        !is_dot_name(a.name@),
    ensures
        sftp_entry_spec(a) matches Some(e) && e.name == a.name@ && e.is_dir == a.is_dir && e.size
            == (match a.size {
            Some(s) => s,
            None => 0,
        }),
        a.permissions matches Some(p) ==> sftp_entry_spec(a)->0.permissions matches Some(t)
            && crate::numbers::parse_unsigned(t, 8, u32::MAX as nat) == Some((p & 0o7777) as nat),
        a.uid matches Some(u) ==> sftp_entry_spec(a)->0.owner matches Some(t)
            && crate::numbers::parse_unsigned(t, 10, u32::MAX as nat) == Some(u as nat),
        a.permissions is None ==> sftp_entry_spec(a)->0.permissions is None,
        a.uid is None ==> sftp_entry_spec(a)->0.owner is None,
{
    if let Some(p) = a.permissions {
        assert(p % 4096 == p & 0o7777) by (bit_vector);
        crate::numbers::law_octal_round_trip((p % 4096) as nat, u32::MAX as nat);
    }
    if let Some(u) = a.uid {
        crate::numbers::law_decimal_round_trip(u as nat, u32::MAX as nat);
    }
}

/// An SFTP listing never shows the `.` and `..` entries.
pub proof fn law_sftp_listing_skips_dots(attrs: Seq<SftpAttrs>)
    ensures
        forall|i: int|
            0 <= i < sftp_listing_spec(attrs).len() ==> !is_dot_name(
                #[trigger] sftp_listing_spec(attrs)[i].name,
            ),
    decreases attrs.len(),
{
    if attrs.len() > 0 {
        law_sftp_listing_skips_dots(attrs.drop_last());
    }
}

/// Progress information for a file transfer.
#[derive(Debug, Clone, Copy)]
pub struct TransferProgress {
    pub bytes_transferred: u64,
    pub total_bytes: Option<u64>,
}

/// The smallest growth between two progress reports of an SFTP transfer.
pub const SFTP_REPORT_STEP: u64 = 262144;

/// Counts the bytes of a transfer and decides when to report progress.
#[derive(Debug)]
pub struct ProgressCounter {
    bytes_transferred: u64,
    last_reported: u64,
    total_bytes: Option<u64>,
    min_step: u64,
}

impl ProgressCounter {
    #[verifier::type_invariant]
    spec fn inv(self) -> bool {
        self.last_reported <= self.bytes_transferred
    }

    /// The bytes counted so far.
    pub closed spec fn spec_bytes(&self) -> u64 {
        self.bytes_transferred
    }

    /// The byte count of the last report.
    pub closed spec fn spec_last_reported(&self) -> u64 {
        self.last_reported
    }

    /// The size of the whole transfer, when known.
    pub closed spec fn spec_total(&self) -> Option<u64> {
        self.total_bytes
    }

    /// The growth needed for a new report.
    pub closed spec fn spec_min_step(&self) -> u64 {
        self.min_step
    }

    /// A counter that reports after every chunk (FTP transfers).
    pub fn every_chunk(total_bytes: Option<u64>) -> (c: Self)
        ensures
            c.spec_bytes() == 0,
            c.spec_last_reported() == 0,
            c.spec_total() == total_bytes,
            c.spec_min_step() == 0,
    {
        ProgressCounter { bytes_transferred: 0, last_reported: 0, total_bytes, min_step: 0 }
    }

    /// A counter that reports only after 256 KiB more have been counted
    /// (SFTP transfers).
    pub fn throttled(total_bytes: Option<u64>) -> (c: Self)
        ensures
            c.spec_bytes() == 0,
            c.spec_last_reported() == 0,
            c.spec_total() == total_bytes,
            c.spec_min_step() == SFTP_REPORT_STEP,
    {
        ProgressCounter {
            bytes_transferred: 0,
            last_reported: 0,
            total_bytes,
            min_step: SFTP_REPORT_STEP,
        }
    }

    /// The bytes counted so far.
    pub fn bytes_transferred(&self) -> (n: u64)
        ensures
            n == self.spec_bytes(),
    {
        self.bytes_transferred
    }

    /// Counts a chunk of `n` bytes; returns the report to send, if one is
    /// due: when at least the step has been counted since the last report.
    pub fn advance(&mut self, n: u64) -> (r: Option<TransferProgress>)
        requires
            old(self).spec_bytes() + n <= u64::MAX,
        ensures
            final(self).spec_bytes() == old(self).spec_bytes() + n,
            final(self).spec_total() == old(self).spec_total(),
            final(self).spec_min_step() == old(self).spec_min_step(),
            final(self).spec_bytes() - old(self).spec_last_reported() >= old(self).spec_min_step()
                ==> r == Some(
                TransferProgress {
                    bytes_transferred: final(self).spec_bytes(),
                    total_bytes: old(self).spec_total(),
                },
            ) && final(self).spec_last_reported() == final(self).spec_bytes(),
            final(self).spec_bytes() - old(self).spec_last_reported() < old(self).spec_min_step()
                ==> r is None && final(self).spec_last_reported() == old(
                self,
            ).spec_last_reported(),
    {
        proof {
            use_type_invariant(&*self);
        }
        self.bytes_transferred = self.bytes_transferred + n;
        if self.bytes_transferred - self.last_reported >= self.min_step {
            self.last_reported = self.bytes_transferred;
            Some(
                TransferProgress {
                    bytes_transferred: self.bytes_transferred,
                    total_bytes: self.total_bytes,
                },
            )
        } else {
            None
        }
    }

    /// The report sent when the transfer ends: everything counted.
    pub fn final_report(&self) -> (p: TransferProgress)
        ensures
            p == (TransferProgress {
                bytes_transferred: self.spec_bytes(),
                total_bytes: self.spec_total(),
            }),
    {
        TransferProgress { bytes_transferred: self.bytes_transferred, total_bytes: self.total_bytes }
    }
}

/// The ways a protocol operation can fail.
#[derive(Debug)]
pub enum ProtocolError {
    ConnectionFailed(String),
    AuthenticationFailed(String),
    NotConnected,
    ListFailed(String),
    TransferFailed(String),
    FileOperation(String),
    PermissionDenied(String),
    NotFound(String),
    Timeout(String),
    Io(String),
    Other(String),
}

/// `prefix` followed by `detail`.
pub open spec fn prefixed(prefix: Seq<char>, detail: Seq<char>) -> Seq<char> {
    prefix + detail
}

/// The message shown for an error.
pub open spec fn error_message(e: ProtocolError) -> Seq<char> {
    match e {
        ProtocolError::ConnectionFailed(s) => "Connection failed: "@ + s@,
        ProtocolError::AuthenticationFailed(s) => "Authentication failed: "@ + s@,
        ProtocolError::NotConnected => "Not connected"@,
        ProtocolError::ListFailed(s) => "Directory listing failed: "@ + s@,
        ProtocolError::TransferFailed(s) => "Transfer failed: "@ + s@,
        ProtocolError::FileOperation(s) => "File operation failed: "@ + s@,
        ProtocolError::PermissionDenied(s) => "Permission denied: "@ + s@,
        ProtocolError::NotFound(s) => "Path not found: "@ + s@,
        ProtocolError::Timeout(s) => "Timeout: "@ + s@,
        ProtocolError::Io(s) => "IO error: "@ + s@,
        ProtocolError::Other(s) => s@,
    }
}

/// `prefix` followed by `detail`, as a string.
fn concat_message(prefix: &str, detail: &String) -> (s: String)
    ensures
        s@ == prefix@ + detail@,
{
    let mut s = prefix.to_owned();
    let d = crate::text::chars_of(detail.as_str());
    crate::text::push_chars(&mut s, &d, 0, d.len());
    assert(d@.subrange(0, d@.len() as int) == d@);
    s
}

impl ProtocolError {
    /// The message shown for this error.
    pub fn message(&self) -> (s: String)
        ensures
            s@ == error_message(*self),
    {
        match self {
            ProtocolError::ConnectionFailed(d) => concat_message("Connection failed: ", d),
            ProtocolError::AuthenticationFailed(d) => concat_message(
                "Authentication failed: ",
                d,
            ),
            ProtocolError::NotConnected => "Not connected".to_owned(),
            ProtocolError::ListFailed(d) => concat_message("Directory listing failed: ", d),
            ProtocolError::TransferFailed(d) => concat_message("Transfer failed: ", d),
            ProtocolError::FileOperation(d) => concat_message("File operation failed: ", d),
            ProtocolError::PermissionDenied(d) => concat_message("Permission denied: ", d),
            ProtocolError::NotFound(d) => concat_message("Path not found: ", d),
            ProtocolError::Timeout(d) => concat_message("Timeout: ", d),
            ProtocolError::Io(d) => concat_message("IO error: ", d),
            ProtocolError::Other(d) => d.clone(),
        }
    }
}

/// The outcome of SSH authentication: success when the server accepted the
/// credentials (for agent authentication: one of the agent's keys), and an
/// authentication failure otherwise.
pub open spec fn sftp_auth_outcome_spec(auth: AuthMethod, accepted: bool) -> Result<
    (),
    Seq<char>,
> {
    if accepted {
        Ok(())
    } else {
        match auth {
            AuthMethod::Agent => Err("No agent key accepted"@),
            _ => Err("Authentication rejected by server"@),
        }
    }
}

/// Decides the outcome of SSH authentication from whether the server
/// accepted the credentials.
pub fn sftp_auth_outcome(auth: &AuthMethod, accepted: bool) -> (r: Result<(), ProtocolError>)
    ensures
        match (r, sftp_auth_outcome_spec(*auth, accepted)) {
            (Ok(()), Ok(())) => true,
            (Err(ProtocolError::AuthenticationFailed(m)), Err(s)) => m@ == s,
            _ => false,
        },
{
    if accepted {
        Ok(())
    } else {
        match auth {
            AuthMethod::Agent => Err(
                ProtocolError::AuthenticationFailed("No agent key accepted".to_owned()),
            ),
            _ => Err(
                ProtocolError::AuthenticationFailed("Authentication rejected by server".to_owned()),
            ),
        }
    }
}

} // verus!
