//! The SMB2 client context: configuration, credentials, descriptor and
//! event bookkeeping, message-id accounting and the queue of requested
//! operations.

use vstd::prelude::*;

use crate::headers::smb2::libsmb2::{
    AuthenticationMethod, ErrorCode, FileHandle, LeaseKey, LibVersion, NegotiateVersion,
    PduHandle, Result, Smb2Operation, Socket, DEFAULT_MAX_READ_SIZE, DEFAULT_MAX_WRITE_SIZE,
    EINVAL, LIBSMB2_MAJOR_VERSION, LIBSMB2_MINOR_VERSION, LIBSMB2_PATCH_VERSION,
    SMB2_GUID_SIZE,
};

verus! {

/// Abstract state of a client context, as the contracts speak of it.
pub struct ClientModel {
    pub server: Option<Seq<char>>,
    pub share: Option<Seq<char>>,
    pub user: Option<Seq<char>>,
    pub domain: Option<Seq<char>>,
    pub workstation: Option<Seq<char>>,
    pub password: Option<Seq<char>>,
    pub opaque: Option<usize>,
    pub timeout_seconds: i32,
    pub passthrough: bool,
    pub version: NegotiateVersion,
    pub dialect: u16,
    pub security_mode: u16,
    pub seal: bool,
    pub sign: bool,
    pub authentication: AuthenticationMethod,
    pub client_guid: Option<[u8; 16]>,
    pub error_string: Option<Seq<char>>,
    pub nterror: i32,
    pub fd: Socket,
    pub fds: Seq<Socket>,
    pub events: i32,
    pub active: bool,
    pub session_id: Option<u64>,
    pub tree_id: Option<u32>,
    pub last_request_message_id: u64,
    pub last_reply_message_id: u64,
    pub max_read_size: u32,
    pub max_write_size: u32,
    pub queued_operations: Seq<Smb2Operation>,
}

/// The view of an optional owned string.
pub open spec fn opt_string_view(o: Option<String>) -> Option<Seq<char>> {
    match o {
        Some(s) => Some(s@),
        None => None,
    }
}

/// The view of an optional borrowed string.
pub open spec fn opt_str_view(o: Option<&str>) -> Option<Seq<char>> {
    match o {
        Some(s) => Some(s@),
        None => None,
    }
}

/// High-level SMB2 client context corresponding to `struct smb2_context`.
#[derive(Debug)]
pub struct Smb2Client {
    server: Option<String>,
    share: Option<String>,
    user: Option<String>,
    domain: Option<String>,
    workstation: Option<String>,
    password: Option<String>,
    opaque: Option<usize>,
    timeout_seconds: i32,
    passthrough: bool,
    version: NegotiateVersion,
    dialect: u16,
    security_mode: u16,
    seal: bool,
    sign: bool,
    authentication: AuthenticationMethod,
    client_guid: Option<[u8; SMB2_GUID_SIZE]>,
    error_string: Option<String>,
    nterror: i32,
    fd: Socket,
    fds: Vec<Socket>,
    events: i32,
    active: bool,
    session_id: Option<u64>,
    tree_id: Option<u32>,
    last_request_message_id: u64,
    last_reply_message_id: u64,
    max_read_size: u32,
    max_write_size: u32,
    queued_operations: Vec<Smb2Operation>,
}

impl View for Smb2Client {
    type V = ClientModel;

    closed spec fn view(&self) -> ClientModel {
        ClientModel {
            server: opt_string_view(self.server),
            share: opt_string_view(self.share),
            user: opt_string_view(self.user),
            domain: opt_string_view(self.domain),
            workstation: opt_string_view(self.workstation),
            password: opt_string_view(self.password),
            opaque: self.opaque,
            timeout_seconds: self.timeout_seconds,
            passthrough: self.passthrough,
            version: self.version,
            dialect: self.dialect,
            security_mode: self.security_mode,
            seal: self.seal,
            sign: self.sign,
            authentication: self.authentication,
            client_guid: self.client_guid,
            error_string: opt_string_view(self.error_string),
            nterror: self.nterror,
            fd: self.fd,
            fds: self.fds@,
            events: self.events,
            active: self.active,
            session_id: self.session_id,
            tree_id: self.tree_id,
            last_request_message_id: self.last_request_message_id,
            last_reply_message_id: self.last_reply_message_id,
            max_read_size: self.max_read_size,
            max_write_size: self.max_write_size,
            queued_operations: self.queued_operations@,
        }
    }
}

/// The state of a freshly created context.
pub open spec fn initial_client_model() -> ClientModel {
    ClientModel {
        server: None,
        share: None,
        user: None,
        domain: None,
        workstation: None,
        password: None,
        opaque: None,
        timeout_seconds: 0,
        passthrough: false,
        version: NegotiateVersion::Any,
        dialect: 0,
        security_mode: 0,
        seal: false,
        sign: false,
        authentication: AuthenticationMethod::Undefined,
        client_guid: None,
        error_string: None,
        nterror: 0,
        fd: -1i32,
        fds: Seq::empty(),
        events: 0,
        active: true,
        session_id: None,
        tree_id: None,
        last_request_message_id: 0,
        last_reply_message_id: 0,
        max_read_size: DEFAULT_MAX_READ_SIZE,
        max_write_size: DEFAULT_MAX_WRITE_SIZE,
        queued_operations: Seq::empty(),
    }
}

fn owned(s: &str) -> (r: String)
    ensures
        r@ == s@,
{
    s.to_owned()
}

impl Default for Smb2Client {
    fn default() -> (r: Self)
        ensures
            r@ == initial_client_model(),
    {
        Self {
            server: None,
            share: None,
            user: None,
            domain: None,
            workstation: None,
            password: None,
            opaque: None,
            timeout_seconds: 0,
            passthrough: false,
            version: NegotiateVersion::Any,
            dialect: 0,
            security_mode: 0,
            seal: false,
            sign: false,
            authentication: AuthenticationMethod::Undefined,
            client_guid: None,
            error_string: None,
            nterror: 0,
            fd: -1,
            fds: Vec::new(),
            events: 0,
            active: true,
            session_id: None,
            tree_id: None,
            last_request_message_id: 0,
            last_reply_message_id: 0,
            max_read_size: DEFAULT_MAX_READ_SIZE,
            max_write_size: DEFAULT_MAX_WRITE_SIZE,
            queued_operations: Vec::new(),
        }
    }
}

impl Smb2Client {
    /// Creates an empty SMB2 client context.
    #[must_use]
    pub fn new() -> (r: Self)
        ensures
            r@ == initial_client_model(),
    {
        Self::default()
    }

    /// Marks the context as closed while leaving allocated state available.
    pub fn close_context(&mut self)
        ensures
            final(self)@ == (ClientModel { fd: -1i32, fds: Seq::empty(), events: 0i32, ..old(self)@ }),
    {
        self.fd = -1;
        self.fds.clear();
        self.events = 0;
    }

    /// Marks the context as destroyed and clears the queued operations.
    pub fn destroy_context(&mut self)
        ensures
            final(self)@ == (ClientModel {
                fd: -1i32,
                fds: Seq::empty(),
                events: 0i32,
                active: false,
                queued_operations: Seq::empty(),
                ..old(self)@
            }),
    {
        self.close_context();
        self.active = false;
        self.queued_operations.clear();
    }

    /// Returns whether the context is currently active.
    #[must_use]
    pub fn is_active(&self) -> (r: bool)
        ensures
            r == self@.active,
    {
        self.active
    }

    /// Returns the primary socket descriptor of the context.
    #[must_use]
    pub fn fd(&self) -> (r: Socket)
        ensures
            r == self@.fd,
    {
        self.fd
    }

    /// Replaces the primary socket descriptor; a valid descriptor becomes the
    /// only known descriptor, an invalid one leaves none known.
    pub fn set_fd(&mut self, fd: Socket)
        ensures
            final(self)@ == (ClientModel {
                fd: fd,
                fds: if fd >= 0 { seq![fd] } else { Seq::empty() },
                ..old(self)@
            }),
    {
        self.fd = fd;
        self.fds.clear();
        if fd >= 0 {
            self.fds.push(fd);
        }
        proof {
            if fd >= 0 {
                assert(self.fds@ =~= seq![fd]);
            }
        }
    }

    /// Returns the event mask currently requested by the context.
    #[must_use]
    pub fn which_events(&self) -> (r: i32)
        ensures
            r == self@.events,
    {
        self.events
    }

    /// Sets the event mask requested by the context.
    pub fn set_events(&mut self, events: i32)
        ensures
            final(self)@ == (ClientModel { events: events, ..old(self)@ }),
    {
        self.events = events;
    }

    /// Returns all socket descriptors known to the context.
    #[must_use]
    pub fn fds(&self) -> (r: &[Socket])
        ensures
            r@ == self@.fds,
    {
        self.fds.as_slice()
    }

    /// Processes an event mask: an inactive context refuses it with `EINVAL`
    /// and records why; an active one records the mask.
    pub fn service(&mut self, revents: i32) -> (r: Result<()>)
        ensures
            !old(self)@.active ==> r == Err::<(), ErrorCode>(ErrorCode(EINVAL)) && final(self)@ == (
            ClientModel { error_string: Some("context is not active"@), ..old(self)@ }),
            old(self)@.active ==> r is Ok && final(self)@ == (ClientModel {
                events: revents,
                ..old(self)@
            }),
    {
        if !self.active {
            self.error_string = Some(owned("context is not active"));
            return Err(ErrorCode(EINVAL));
        }
        self.events = revents;
        Ok(())
    }

    /// Processes events for a descriptor. The descriptor must be the timeout
    /// marker `-1`, the primary descriptor or a known one; otherwise the call
    /// fails with `EINVAL` and records why.
    pub fn service_fd(&mut self, fd: Socket, revents: i32) -> (r: Result<()>)
        ensures
            ({
                let known = fd == -1 || fd == old(self)@.fd || old(self)@.fds.contains(fd);
                &&& !known ==> r == Err::<(), ErrorCode>(ErrorCode(EINVAL)) && final(self)@ == (
                ClientModel { error_string: Some("unknown file descriptor"@), ..old(self)@ })
                &&& (known && !old(self)@.active) ==> r == Err::<(), ErrorCode>(ErrorCode(EINVAL))
                    && final(self)@ == (ClientModel {
                    error_string: Some("context is not active"@),
                    ..old(self)@
                })
                &&& (known && old(self)@.active) ==> r is Ok && final(self)@ == (ClientModel {
                    events: revents,
                    ..old(self)@
                })
            }),
    {
        let mut found = false;
        let mut i: usize = 0;
        while i < self.fds.len()
            invariant
                i <= self.fds@.len(),
                found <==> exists|k: int| 0 <= k < i && self.fds@[k] == fd,
            decreases self.fds@.len() - i,
        {
            if self.fds[i] == fd {
                found = true;
            }
            i = i + 1;
        }
        proof {
            if found {
                let k = choose|k: int| 0 <= k < i && self.fds@[k] == fd;
                assert(self.fds@.contains(fd)) by {
                    assert(self.fds@[k] == fd);
                }
            }
        }
        if fd != -1 && fd != self.fd && !found {
            self.error_string = Some(owned("unknown file descriptor"));
            return Err(ErrorCode(EINVAL));
        }
        self.service(revents)
    }

    /// Sets the timeout in seconds for future commands.
    pub fn set_timeout(&mut self, seconds: i32)
        ensures
            final(self)@ == (ClientModel { timeout_seconds: seconds, ..old(self)@ }),
    {
        self.timeout_seconds = seconds;
    }

    /// Returns the configured timeout in seconds.
    #[must_use]
    pub fn timeout(&self) -> (r: i32)
        ensures
            r == self@.timeout_seconds,
    {
        self.timeout_seconds
    }

    /// Enables or disables passthrough handling for uninterpreted command data.
    pub fn set_passthrough(&mut self, passthrough: bool)
        ensures
            final(self)@ == (ClientModel { passthrough: passthrough, ..old(self)@ }),
    {
        self.passthrough = passthrough;
    }

    /// Returns whether passthrough handling is enabled.
    #[must_use]
    pub fn passthrough(&self) -> (r: bool)
        ensures
            r == self@.passthrough,
    {
        self.passthrough
    }

    /// Sets the SMB dialect negotiation selector.
    pub fn set_version(&mut self, version: NegotiateVersion)
        ensures
            final(self)@ == (ClientModel { version: version, ..old(self)@ }),
    {
        self.version = version;
    }

    /// Returns the SMB dialect negotiation selector.
    #[must_use]
    pub fn version(&self) -> (r: NegotiateVersion)
        ensures
            r == self@.version,
    {
        self.version
    }

    /// Returns the version of this library.
    #[must_use]
    pub fn libsmb2_version(&self) -> (r: LibVersion)
        ensures
            r.major_version == LIBSMB2_MAJOR_VERSION,
            r.minor_version == LIBSMB2_MINOR_VERSION,
            r.patch_version == LIBSMB2_PATCH_VERSION,
    {
        LibVersion::current()
    }

    /// Returns the negotiated dialect recorded on the context.
    #[must_use]
    pub fn dialect(&self) -> (r: u16)
        ensures
            r == self@.dialect,
    {
        self.dialect
    }

    /// Records a negotiated dialect.
    pub fn set_dialect(&mut self, dialect: u16)
        ensures
            final(self)@ == (ClientModel { dialect: dialect, ..old(self)@ }),
    {
        self.dialect = dialect;
    }

    /// Sets the SMB2 security mode bitmask.
    pub fn set_security_mode(&mut self, security_mode: u16)
        ensures
            final(self)@ == (ClientModel { security_mode: security_mode, ..old(self)@ }),
    {
        self.security_mode = security_mode;
    }

    /// Returns the SMB2 security mode bitmask.
    #[must_use]
    pub fn security_mode(&self) -> (r: u16)
        ensures
            r == self@.security_mode,
    {
        self.security_mode
    }

    /// Enables or disables SMB3 encryption for future connections.
    pub fn set_seal(&mut self, val: bool)
        ensures
            final(self)@ == (ClientModel { seal: val, ..old(self)@ }),
    {
        self.seal = val;
    }

    /// Returns whether SMB3 encryption was requested.
    #[must_use]
    pub fn seal(&self) -> (r: bool)
        ensures
            r == self@.seal,
    {
        self.seal
    }

    /// Enables or disables required signing for future connections.
    pub fn set_sign(&mut self, val: bool)
        ensures
            final(self)@ == (ClientModel { sign: val, ..old(self)@ }),
    {
        self.sign = val;
    }

    /// Returns whether signing is required.
    #[must_use]
    pub fn sign(&self) -> (r: bool)
        ensures
            r == self@.sign,
    {
        self.sign
    }

    /// Sets the authentication method used by future session setups.
    pub fn set_authentication(&mut self, authentication: AuthenticationMethod)
        ensures
            final(self)@ == (ClientModel { authentication: authentication, ..old(self)@ }),
    {
        self.authentication = authentication;
    }

    /// Returns the configured authentication method.
    #[must_use]
    pub fn authentication(&self) -> (r: AuthenticationMethod)
        ensures
            r == self@.authentication,
    {
        self.authentication
    }

    /// Sets the username used for authentication.
    pub fn set_user(&mut self, user: &str)
        ensures
            final(self)@ == (ClientModel { user: Some(user@), ..old(self)@ }),
    {
        self.user = Some(owned(user));
    }

    /// Returns the configured username, if any.
    #[must_use]
    pub fn user(&self) -> (r: Option<&str>)
        ensures
            opt_str_view(r) == self@.user,
    {
        match &self.user {
            Some(u) => Some(u.as_str()),
            None => None,
        }
    }

    /// Sets the authentication domain.
    pub fn set_domain(&mut self, domain: &str)
        ensures
            final(self)@ == (ClientModel { domain: Some(domain@), ..old(self)@ }),
    {
        self.domain = Some(owned(domain));
    }

    /// Returns the configured authentication domain, if any.
    #[must_use]
    pub fn domain(&self) -> (r: Option<&str>)
        ensures
            opt_str_view(r) == self@.domain,
    {
        match &self.domain {
            Some(u) => Some(u.as_str()),
            None => None,
        }
    }

    /// Sets the workstation used for authentication.
    pub fn set_workstation(&mut self, workstation: &str)
        ensures
            final(self)@ == (ClientModel { workstation: Some(workstation@), ..old(self)@ }),
    {
        self.workstation = Some(owned(workstation));
    }

    /// Returns the configured workstation, if any.
    #[must_use]
    pub fn workstation(&self) -> (r: Option<&str>)
        ensures
            opt_str_view(r) == self@.workstation,
    {
        match &self.workstation {
            Some(u) => Some(u.as_str()),
            None => None,
        }
    }

    /// Sets the password used for authentication. A password with an
    /// interior NUL character cannot be handed to the C-string based
    /// authentication back ends and is refused with `EINVAL`.
    pub fn set_password(&mut self, password: &str) -> (r: Result<()>)
        ensures
            password@.contains('\0') ==> r == Err::<(), ErrorCode>(ErrorCode(EINVAL))
                && final(self)@ == old(self)@,
            !password@.contains('\0') ==> r is Ok && final(self)@ == (ClientModel {
                password: Some(password@),
                ..old(self)@
            }),
    {
        if has_nul(password) {
            return Err(ErrorCode(EINVAL));
        }
        self.password = Some(owned(password));
        Ok(())
    }

    /// Forgets any configured password so that it is looked up from the
    /// password file when a session is set up.
    pub fn set_password_from_file(&mut self)
        ensures
            final(self)@ == (ClientModel { password: None, ..old(self)@ }),
    {
        self.password = None;
    }

    /// Returns whether a password has been configured.
    #[must_use]
    pub fn has_password(&self) -> (r: bool)
        ensures
            r == self@.password.is_some(),
    {
        self.password.is_some()
    }

    /// Stores caller-defined opaque data as an address-sized value.
    pub fn set_opaque(&mut self, opaque: Option<usize>)
        ensures
            final(self)@ == (ClientModel { opaque: opaque, ..old(self)@ }),
    {
        self.opaque = opaque;
    }

    /// Returns caller-defined opaque data.
    #[must_use]
    pub fn opaque(&self) -> (r: Option<usize>)
        ensures
            r == self@.opaque,
    {
        self.opaque
    }

    /// Records a client GUID for future negotiation.
    pub fn set_client_guid(&mut self, guid: [u8; SMB2_GUID_SIZE])
        ensures
            final(self)@ == (ClientModel { client_guid: Some(guid), ..old(self)@ }),
    {
        self.client_guid = Some(guid);
    }

    /// Returns the configured client GUID.
    #[must_use]
    pub fn client_guid(&self) -> (r: Option<[u8; SMB2_GUID_SIZE]>)
        ensures
            r == self@.client_guid,
    {
        self.client_guid
    }

    /// Sets the context error string.
    pub fn set_error(&mut self, error_string: &str)
        ensures
            final(self)@ == (ClientModel { error_string: Some(error_string@), ..old(self)@ }),
    {
        self.error_string = Some(owned(error_string));
    }

    /// Returns a description of the last encountered error.
    #[must_use]
    pub fn error(&self) -> (r: Option<&str>)
        ensures
            opt_str_view(r) == self@.error_string,
    {
        match &self.error_string {
            Some(u) => Some(u.as_str()),
            None => None,
        }
    }

    /// Records the last NT status code observed.
    pub fn set_nterror(&mut self, nterror: i32)
        ensures
            final(self)@ == (ClientModel { nterror: nterror, ..old(self)@ }),
    {
        self.nterror = nterror;
    }

    /// Returns the last NT status code observed.
    #[must_use]
    pub fn nterror(&self) -> (r: i32)
        ensures
            r == self@.nterror,
    {
        self.nterror
    }

    /// Transfers credential state from this context into another context:
    /// the password moves, user and domain are copied. A context with none
    /// of the three refuses with `EINVAL` and neither context changes.
    pub fn delegate_credentials(&mut self, out: &mut Smb2Client) -> (r: Result<()>)
        ensures
            ({
                let any_credential = old(self)@.password.is_some() || old(self)@.user.is_some()
                    || old(self)@.domain.is_some();
                &&& !any_credential ==> r == Err::<(), ErrorCode>(ErrorCode(EINVAL)) && final(self)@ == old(
                self)@ && final(out)@ == old(out)@
                &&& any_credential ==> r is Ok && final(self)@ == (ClientModel {
                    password: None,
                    ..old(self)@
                }) && final(out)@ == (ClientModel {
                    password: old(self)@.password,
                    user: old(self)@.user,
                    domain: old(self)@.domain,
                    ..old(out)@
                })
            }),
    {
        let has_credentials = self.password.is_some() || self.user.is_some()
            || self.domain.is_some();
        if !has_credentials {
            return Err(ErrorCode(EINVAL));
        }
        out.password = self.password.take();
        out.user = clone_opt(&self.user);
        out.domain = clone_opt(&self.domain);
        Ok(())
    }

    /// Records the server and share of a share connection and queues it.
    pub fn connect_share(&mut self, server: &str, share: &str) -> (r: Result<()>)
        ensures
            r is Ok,
            queued_one(
                ClientModel { server: Some(server@), share: Some(share@), ..old(self)@ },
                final(self)@,
            ),
            (final(self)@.queued_operations.last() matches Smb2Operation::ConnectShare {
                server: s,
                share: h,
                user: u,
            } && s@ == server@ && h@ == share@ && u is None),
    {
        self.server = Some(owned(server));
        self.share = Some(owned(share));
        self.queue_operation(
            Smb2Operation::ConnectShare { server: owned(server), share: owned(share), user: None },
        );
        Ok(())
    }

    /// Records the server of a transport connection and queues it.
    pub fn connect_async(&mut self, server: &str)
        ensures
            queued_one(ClientModel { server: Some(server@), ..old(self)@ }, final(self)@),
            (final(self)@.queued_operations.last() matches Smb2Operation::Connect { server: s }
                && s@ == server@),
    {
        self.server = Some(owned(server));
        self.queue_operation(Smb2Operation::Connect { server: owned(server) });
    }

    /// Records server, share and (when given) user of a share connection and
    /// queues it.
    pub fn connect_share_async(&mut self, server: &str, share: &str, user: Option<&str>)
        ensures
            queued_one(
                ClientModel {
                    server: Some(server@),
                    share: Some(share@),
                    user: if user is Some { opt_str_view(user) } else { old(self)@.user },
                    ..old(self)@
                },
                final(self)@,
            ),
            (final(self)@.queued_operations.last() matches Smb2Operation::ConnectShare {
                server: s,
                share: h,
                user: u,
            } && s@ == server@ && h@ == share@ && opt_string_view(u) == opt_str_view(user)),
    {
        self.server = Some(owned(server));
        self.share = Some(owned(share));
        match user {
            Some(u) => {
                self.user = Some(owned(u));
            },
            None => {},
        }
        let queued_user = match user {
            Some(u) => Some(owned(u)),
            None => None,
        };
        self.queue_operation(
            Smb2Operation::ConnectShare {
                server: owned(server),
                share: owned(share),
                user: queued_user,
            },
        );
    }

    /// Forgets the connected share and queues its disconnection.
    pub fn disconnect_share(&mut self) -> (r: Result<()>)
        ensures
            r is Ok,
            queued_one(ClientModel { share: None, ..old(self)@ }, final(self)@),
            final(self)@.queued_operations.last() == Smb2Operation::DisconnectShare,
    {
        self.share = None;
        self.queue_operation(Smb2Operation::DisconnectShare);
        Ok(())
    }

    /// Selects a connected tree id for subsequent requests.
    pub fn select_tree_id(&mut self, tree_id: u32)
        ensures
            final(self)@ == (ClientModel { tree_id: Some(tree_id), ..old(self)@ }),
    {
        self.tree_id = Some(tree_id);
    }

    /// Returns the selected tree id.
    #[must_use]
    pub fn tree_id(&self) -> (r: Option<u32>)
        ensures
            r == self@.tree_id,
    {
        self.tree_id
    }

    /// Records a tree id on a PDU.
    pub fn set_tree_id_for_pdu(&self, pdu: &mut PduHandle, tree_id: u32)
        ensures
            *final(pdu) == (PduHandle { tree_id: Some(tree_id), ..*old(pdu) }),
    {
        pdu.tree_id = Some(tree_id);
    }

    /// Reads the tree id of a PDU.
    #[must_use]
    pub fn tree_id_for_pdu(&self, pdu: &PduHandle) -> (r: Option<u32>)
        ensures
            r == pdu.tree_id,
    {
        pdu.tree_id
    }

    /// Returns the current session id, if one has been recorded.
    #[must_use]
    pub fn session_id(&self) -> (r: Option<u64>)
        ensures
            r == self@.session_id,
    {
        self.session_id
    }

    /// Records a session id.
    pub fn set_session_id(&mut self, session_id: u64)
        ensures
            final(self)@ == (ClientModel { session_id: Some(session_id), ..old(self)@ }),
    {
        self.session_id = Some(session_id);
    }

    /// Chains two PDUs into a compound request.
    pub fn add_compound_pdu(&self, pdu: &mut PduHandle, next_pdu: &mut PduHandle)
        ensures
            *final(pdu) == (PduHandle { is_compound: true, ..*old(pdu) }),
            *final(next_pdu) == (PduHandle { is_compound: true, ..*old(next_pdu) }),
    {
        pdu.is_compound = true;
        next_pdu.is_compound = true;
    }

    /// Queues a PDU: the next message id (saturating at the largest value)
    /// is assigned to it and recorded as the last request message id.
    pub fn queue_pdu(&mut self, pdu: &mut PduHandle)
        ensures
            ({
                let next = if old(self)@.last_request_message_id == u64::MAX {
                    u64::MAX
                } else {
                    (old(self)@.last_request_message_id + 1) as u64
                };
                &&& final(self)@ == (ClientModel { last_request_message_id: next, ..old(self)@ })
                &&& *final(pdu) == (PduHandle { message_id: Some(next), ..*old(pdu) })
            }),
    {
        self.last_request_message_id = self.last_request_message_id.saturating_add(1);
        pdu.message_id = Some(self.last_request_message_id);
    }

    /// Sets the completion status of a PDU.
    pub fn set_pdu_status(&self, pdu: &mut PduHandle, status: i32)
        ensures
            *final(pdu) == (PduHandle { status: status, ..*old(pdu) }),
    {
        pdu.status = status;
    }

    /// Sets the SMB2 message id of a PDU.
    pub fn set_pdu_message_id(&self, pdu: &mut PduHandle, message_id: u64)
        ensures
            *final(pdu) == (PduHandle { message_id: Some(message_id), ..*old(pdu) }),
    {
        pdu.message_id = Some(message_id);
    }

    /// Returns the SMB2 message id recorded on a PDU.
    #[must_use]
    pub fn pdu_message_id(&self, pdu: &PduHandle) -> (r: Option<u64>)
        ensures
            r == pdu.message_id,
    {
        pdu.message_id
    }

    /// Returns the last request message id assigned by `queue_pdu`.
    #[must_use]
    pub fn last_request_message_id(&self) -> (r: u64)
        ensures
            r == self@.last_request_message_id,
    {
        self.last_request_message_id
    }

    /// Returns the last reply message id recorded.
    #[must_use]
    pub fn last_reply_message_id(&self) -> (r: u64)
        ensures
            r == self@.last_reply_message_id,
    {
        self.last_reply_message_id
    }

    /// Records the last reply message id observed.
    pub fn set_last_reply_message_id(&mut self, message_id: u64)
        ensures
            final(self)@ == (ClientModel { last_reply_message_id: message_id, ..old(self)@ }),
    {
        self.last_reply_message_id = message_id;
    }

    /// Returns whether the PDU belongs to a compound chain.
    #[must_use]
    pub fn pdu_is_compound(&self, pdu: &PduHandle) -> (r: bool)
        ensures
            r == pdu.is_compound,
    {
        pdu.is_compound
    }

    /// Queues the opening of a directory.
    pub fn opendir_async(&mut self, path: &str)
        ensures
            queued_one(old(self)@, final(self)@),
            (final(self)@.queued_operations.last() matches Smb2Operation::OpenDir { path: p }
                && p@ == path@),
    {
        self.queue_operation(Smb2Operation::OpenDir { path: owned(path) });
    }

    /// Queues the opening of a file without oplock or lease.
    pub fn open_async(&mut self, path: &str, flags: i32)
        ensures
            queued_one(old(self)@, final(self)@),
            (final(self)@.queued_operations.last() matches Smb2Operation::Open {
                path: p,
                flags: f,
                oplock_level: o,
                lease_state: l,
                lease_key: k,
            } && p@ == path@ && f == flags && o is None && l is None && k is None),
    {
        self.queue_operation(
            Smb2Operation::Open {
                path: owned(path),
                flags,
                oplock_level: None,
                lease_state: None,
                lease_key: None,
            },
        );
    }

    /// Queues the opening of a file with an oplock level and a lease.
    pub fn open_async_with_oplock_or_lease(
        &mut self,
        path: &str,
        flags: i32,
        oplock_level: u8,
        lease_state: u32,
        lease_key: LeaseKey,
    )
        ensures
            queued_one(old(self)@, final(self)@),
            (final(self)@.queued_operations.last() matches Smb2Operation::Open {
                path: p,
                flags: f,
                oplock_level: o,
                lease_state: l,
                lease_key: k,
            } && p@ == path@ && f == flags && o == Some(oplock_level) && l == Some(lease_state)
                && k == Some(lease_key)),
    {
        self.queue_operation(
            Smb2Operation::Open {
                path: owned(path),
                flags,
                oplock_level: Some(oplock_level),
                lease_state: Some(lease_state),
                lease_key: Some(lease_key),
            },
        );
    }

    /// Queues the closing of a file handle.
    pub fn close_async(&mut self, handle: &FileHandle)
        ensures
            queued_one(old(self)@, final(self)@),
            final(self)@.queued_operations.last() == (Smb2Operation::Close {
                file_id: handle.spec_id(),
            }),
    {
        self.queue_operation(Smb2Operation::Close { file_id: handle.id() });
    }

    /// Queues the flushing of a file handle.
    pub fn fsync_async(&mut self, handle: &FileHandle)
        ensures
            queued_one(old(self)@, final(self)@),
            final(self)@.queued_operations.last() == (Smb2Operation::Fsync {
                file_id: handle.spec_id(),
            }),
    {
        self.queue_operation(Smb2Operation::Fsync { file_id: handle.id() });
    }

    /// Returns the maximum read size recorded for the context.
    #[must_use]
    pub fn max_read_size(&self) -> (r: u32)
        ensures
            r == self@.max_read_size,
    {
        self.max_read_size
    }

    /// Returns the maximum write size recorded for the context.
    #[must_use]
    pub fn max_write_size(&self) -> (r: u32)
        ensures
            r == self@.max_write_size,
    {
        self.max_write_size
    }

    /// Records negotiated maximum read and write sizes.
    pub fn set_max_io_sizes(&mut self, max_read_size: u32, max_write_size: u32)
        ensures
            final(self)@ == (ClientModel {
                max_read_size: max_read_size,
                max_write_size: max_write_size,
                ..old(self)@
            }),
    {
        self.max_read_size = max_read_size;
        self.max_write_size = max_write_size;
    }

    /// Queues a positioned read.
    pub fn pread_async(&mut self, handle: &FileHandle, count: u32, offset: u64)
        ensures
            queued_one(old(self)@, final(self)@),
            final(self)@.queued_operations.last() == (Smb2Operation::Read {
                file_id: handle.spec_id(),
                count: count,
                offset: Some(offset),
            }),
    {
        self.queue_operation(Smb2Operation::Read { file_id: handle.id(), count, offset: Some(offset) });
    }

    /// Queues a positioned write.
    pub fn pwrite_async(&mut self, handle: &FileHandle, count: u32, offset: u64)
        ensures
            queued_one(old(self)@, final(self)@),
            final(self)@.queued_operations.last() == (Smb2Operation::Write {
                file_id: handle.spec_id(),
                count: count,
                offset: Some(offset),
            }),
    {
        self.queue_operation(
            Smb2Operation::Write { file_id: handle.id(), count, offset: Some(offset) },
        );
    }

    /// Queues a sequential read.
    pub fn read_async(&mut self, handle: &FileHandle, count: u32)
        ensures
            queued_one(old(self)@, final(self)@),
            final(self)@.queued_operations.last() == (Smb2Operation::Read {
                file_id: handle.spec_id(),
                count: count,
                offset: None,
            }),
    {
        self.queue_operation(Smb2Operation::Read { file_id: handle.id(), count, offset: None });
    }

    /// Queues a sequential write.
    pub fn write_async(&mut self, handle: &FileHandle, count: u32)
        ensures
            queued_one(old(self)@, final(self)@),
            final(self)@.queued_operations.last() == (Smb2Operation::Write {
                file_id: handle.spec_id(),
                count: count,
                offset: None,
            }),
    {
        self.queue_operation(Smb2Operation::Write { file_id: handle.id(), count, offset: None });
    }

    /// Queues a seek and returns the requested offset when it is not negative.
    #[must_use]
    pub fn lseek(&mut self, handle: &FileHandle, offset: i64, whence: i32) -> (r: Option<u64>)
        ensures
            queued_one(old(self)@, final(self)@),
            final(self)@.queued_operations.last() == (Smb2Operation::Lseek {
                file_id: handle.spec_id(),
                offset: offset,
                whence: whence,
            }),
            r == (if offset >= 0 { Some(offset as u64) } else { None::<u64> }),
    {
        self.queue_operation(Smb2Operation::Lseek { file_id: handle.id(), offset, whence });
        if offset >= 0 {
            Some(offset as u64)
        } else {
            None
        }
    }

    /// Queues the removal of a file.
    pub fn unlink_async(&mut self, path: &str)
        ensures
            queued_one(old(self)@, final(self)@),
            (final(self)@.queued_operations.last() matches Smb2Operation::Unlink { path: p }
                && p@ == path@),
    {
        self.queue_operation(Smb2Operation::Unlink { path: owned(path) });
    }

    /// Queues the removal of a directory.
    pub fn rmdir_async(&mut self, path: &str)
        ensures
            queued_one(old(self)@, final(self)@),
            (final(self)@.queued_operations.last() matches Smb2Operation::Rmdir { path: p }
                && p@ == path@),
    {
        self.queue_operation(Smb2Operation::Rmdir { path: owned(path) });
    }

    /// Queues the creation of a directory.
    pub fn mkdir_async(&mut self, path: &str)
        ensures
            queued_one(old(self)@, final(self)@),
            (final(self)@.queued_operations.last() matches Smb2Operation::Mkdir { path: p }
                && p@ == path@),
    {
        self.queue_operation(Smb2Operation::Mkdir { path: owned(path) });
    }

    /// Queues a filesystem metadata query.
    pub fn statvfs_async(&mut self, path: &str)
        ensures
            queued_one(old(self)@, final(self)@),
            (final(self)@.queued_operations.last() matches Smb2Operation::StatVfs { path: p }
                && p@ == path@),
    {
        self.queue_operation(Smb2Operation::StatVfs { path: owned(path) });
    }

    /// Queues a metadata query on a file handle.
    pub fn fstat_async(&mut self, handle: &FileHandle)
        ensures
            queued_one(old(self)@, final(self)@),
            final(self)@.queued_operations.last() == (Smb2Operation::Fstat {
                file_id: handle.spec_id(),
            }),
    {
        self.queue_operation(Smb2Operation::Fstat { file_id: handle.id() });
    }

    /// Queues a metadata query on a path.
    pub fn stat_async(&mut self, path: &str)
        ensures
            queued_one(old(self)@, final(self)@),
            (final(self)@.queued_operations.last() matches Smb2Operation::Stat { path: p }
                && p@ == path@),
    {
        self.queue_operation(Smb2Operation::Stat { path: owned(path) });
    }

    /// Queues a rename.
    pub fn rename_async(&mut self, old_path: &str, new_path: &str)
        ensures
            queued_one(old(self)@, final(self)@),
            (final(self)@.queued_operations.last() matches Smb2Operation::Rename {
                old_path: o,
                new_path: n,
            } && o@ == old_path@ && n@ == new_path@),
    {
        self.queue_operation(
            Smb2Operation::Rename { old_path: owned(old_path), new_path: owned(new_path) },
        );
    }

    /// Queues the truncation of a path.
    pub fn truncate_async(&mut self, path: &str, length: u64)
        ensures
            queued_one(old(self)@, final(self)@),
            (final(self)@.queued_operations.last() matches Smb2Operation::Truncate {
                path: p,
                length: l,
            } && p@ == path@ && l == length),
    {
        self.queue_operation(Smb2Operation::Truncate { path: owned(path), length });
    }

    /// Queues the truncation of a file handle.
    pub fn ftruncate_async(&mut self, handle: &FileHandle, length: u64)
        ensures
            queued_one(old(self)@, final(self)@),
            final(self)@.queued_operations.last() == (Smb2Operation::Ftruncate {
                file_id: handle.spec_id(),
                length: length,
            }),
    {
        self.queue_operation(Smb2Operation::Ftruncate { file_id: handle.id(), length });
    }

    /// Queues the reading of a symbolic link target.
    pub fn readlink_async(&mut self, path: &str, buffer_size: u32)
        ensures
            queued_one(old(self)@, final(self)@),
            (final(self)@.queued_operations.last() matches Smb2Operation::Readlink {
                path: p,
                buffer_size: b,
            } && p@ == path@ && b == buffer_size),
    {
        self.queue_operation(Smb2Operation::Readlink { path: owned(path), buffer_size });
    }

    /// Queues an echo.
    pub fn echo_async(&mut self)
        ensures
            queued_one(old(self)@, final(self)@),
            final(self)@.queued_operations.last() == Smb2Operation::Echo,
    {
        self.queue_operation(Smb2Operation::Echo);
    }

    /// Queues a change watch on a path.
    pub fn notify_change_async(&mut self, path: &str, flags: u16, filter: u32, repeat: bool)
        ensures
            queued_one(old(self)@, final(self)@),
            (final(self)@.queued_operations.last() matches Smb2Operation::NotifyChange {
                path: p,
                flags: fl,
                filter: fi,
                repeat: re,
            } && p@ == path@ && fl == flags && fi == filter && re == repeat),
    {
        self.queue_operation(
            Smb2Operation::NotifyChange { path: owned(path), flags, filter, repeat },
        );
    }

    /// Queues a change watch on an open directory handle.
    pub fn notify_change_filehandle_async(
        &mut self,
        handle: &FileHandle,
        flags: u16,
        filter: u32,
        repeat: bool,
    )
        ensures
            queued_one(old(self)@, final(self)@),
            final(self)@.queued_operations.last() == (Smb2Operation::NotifyChangeFileHandle {
                file_id: handle.spec_id(),
                flags: flags,
                filter: filter,
                repeat: repeat,
            }),
    {
        self.queue_operation(
            Smb2Operation::NotifyChangeFileHandle { file_id: handle.id(), flags, filter, repeat },
        );
    }

    /// Returns the queued operations in submission order.
    #[must_use]
    pub fn queued_operations(&self) -> (r: &[Smb2Operation])
        ensures
            r@ == self@.queued_operations,
    {
        self.queued_operations.as_slice()
    }

    /// Removes all queued operations.
    pub fn clear_queued_operations(&mut self)
        ensures
            final(self)@ == (ClientModel { queued_operations: Seq::empty(), ..old(self)@ }),
    {
        self.queued_operations.clear();
    }

    fn queue_operation(&mut self, operation: Smb2Operation)
        ensures
            queued_one(old(self)@, final(self)@),
            final(self)@.queued_operations.last() == operation,
    {
        self.queued_operations.push(operation);
        assert(self@.queued_operations.drop_last() =~= old(self)@.queued_operations);
    }
}

/// `new` is `old` with one more operation at the end of the queue.
pub open spec fn queued_one(old: ClientModel, new: ClientModel) -> bool {
    &&& new == (ClientModel { queued_operations: new.queued_operations, ..old })
    &&& new.queued_operations.len() == old.queued_operations.len() + 1
    &&& new.queued_operations.drop_last() == old.queued_operations
}

fn has_nul(s: &str) -> (r: bool)
    ensures
        r == s@.contains('\0'),
{
    let n = s.unicode_len();
    let mut i: usize = 0;
    while i < n
        invariant
            n == s@.len(),
            i <= n,
            forall|k: int| 0 <= k < i ==> s@[k] != '\0',
        decreases n - i,
    {
        if s.get_char(i) == '\0' {
            assert(s@[i as int] == '\0');
            return true;
        }
        i = i + 1;
    }
    false
}

fn clone_opt(o: &Option<String>) -> (r: Option<String>)
    ensures
        opt_string_view(r) == opt_string_view(*o),
{
    match o {
        Some(s) => Some(s.clone()),
        None => None,
    }
}

/// Builds the client context that serves a listening descriptor: a fresh
/// context with that descriptor and timeout. A negative descriptor is
/// refused with `EINVAL`.
pub fn serve_port_async(fd: Socket, timeout_msecs: i32) -> (r: Result<Smb2Client>)
    ensures
        fd < 0 ==> r is Err && r->Err_0 == ErrorCode(EINVAL),
        fd >= 0 ==> (r matches Ok(c) && c@ == (ClientModel {
            fd: fd,
            fds: seq![fd],
            timeout_seconds: timeout_msecs,
            ..initial_client_model()
        })),
{
    if fd < 0 {
        return Err(ErrorCode(EINVAL));
    }
    let mut client = Smb2Client::new();
    client.set_fd(fd);
    client.set_timeout(timeout_msecs);
    Ok(client)
}

} // verus!
