//! Kerberos authentication state: negotiation inputs, the service
//! principal naming, session tokens and keys, and the credential steps. The
//! GSSAPI exchanges themselves are not provided: the steps that need them
//! report `ProtocolLogicNotImplemented`.
use vstd::prelude::*;
use vstd::string::*;

use crate::engine::init::{opt_view, split_once, split_once_exec};

verus! {

/// GSS sequence request flag.
pub const GSS_SEQUENCE_FLAG: u32 = 1;

/// GSS mutual-authentication request flag.
pub const GSS_MUTUAL_FLAG: u32 = 2;

/// GSS replay-detection request flag.
pub const GSS_REPLAY_FLAG: u32 = 4;

/// Request flags of a session request: sequence, mutual and replay.
pub const DEFAULT_SESSION_REQUEST_FLAGS: u32 = 7;

/// Result type of the Kerberos helpers.
pub type Krb5Result<T> = Result<T, Krb5Error>;

/// Errors of the Kerberos helpers.
#[derive(Debug, Clone, PartialEq, Eq)]
#[non_exhaustive]
pub enum Krb5Error {
    /// A required server, user, domain, password, or keytab value was absent.
    MissingParameter(&'static str),
    /// A host name was empty after stripping any port suffix.
    EmptyHost,
    /// The operation needs a GSSAPI exchange, which is not provided.
    ProtocolLogicNotImplemented,
    /// A session key was requested before one had been established.
    MissingSessionKey,
}

/// Security mechanism selected for a Kerberos-backed exchange.
#[derive(Debug, Clone, Copy, PartialEq, Eq)]
#[non_exhaustive]
pub enum Krb5Mechanism {
    /// Let the platform GSSAPI choose its default mechanism.
    Default,
    /// Kerberos V5 mechanism.
    Kerberos5,
    /// SPNEGO wrapper mechanism.
    Spnego,
    /// NTLMSSP through a Kerberos/SPNEGO provider when available.
    NtlmSsp,
}

/// Current side and progress of a GSS security context.
#[derive(Debug, Clone, Copy, PartialEq, Eq)]
#[non_exhaustive]
pub enum Krb5ContextState {
    /// No context has been initialized.
    Empty,
    /// Client-side initiator context has been prepared.
    Initiating,
    /// Server-side acceptor context has been prepared.
    Accepting,
    /// Additional token exchange is required.
    ContinueNeeded,
    /// Context establishment completed.
    Complete,
}

impl Default for Krb5Mechanism {
    fn default() -> (r: Self)
        ensures
            r == Krb5Mechanism::Default,
    {
        Krb5Mechanism::Default
    }
}

impl Default for Krb5ContextState {
    fn default() -> (r: Self)
        ensures
            r == Krb5ContextState::Empty,
    {
        Krb5ContextState::Empty
    }
}

/// Raw token exchanged with SMB session setup messages.
#[derive(Debug, Clone, Default, PartialEq, Eq)]
pub struct GssToken {
    bytes: Vec<u8>,
}

impl GssToken {
    /// The token bytes.
    pub closed spec fn view(&self) -> Seq<u8> {
        self.bytes@
    }

    /// Creates an empty token.
    pub fn new() -> (r: Self)
        ensures
            r.view() == Seq::<u8>::empty(),
    {
        GssToken { bytes: Vec::new() }
    }

    /// Creates a token from raw bytes.
    pub fn from_bytes(bytes: Vec<u8>) -> (r: Self)
        ensures
            r.view() == bytes@,
    {
        GssToken { bytes }
    }

    /// Returns the token bytes.
    pub fn as_bytes(&self) -> (r: &[u8])
        ensures
            r@ == self.view(),
    {
        self.bytes.as_slice()
    }

    /// Returns the token length in bytes.
    pub fn len(&self) -> (r: usize)
        ensures
            r == self.view().len(),
    {
        self.bytes.len()
    }

    /// Returns whether this token is empty.
    pub fn is_empty(&self) -> (r: bool)
        ensures
            r == (self.view().len() == 0),
    {
        self.bytes.len() == 0
    }

    /// Replaces the token contents.
    pub fn replace(&mut self, bytes: Vec<u8>)
        ensures
            final(self).view() == bytes@,
    {
        self.bytes = bytes;
    }

    /// Clears the token contents.
    pub fn clear(&mut self)
        ensures
            final(self).view() == Seq::<u8>::empty(),
    {
        self.bytes.clear();
    }

    /// Consumes the token and returns its bytes.
    pub fn into_bytes(self) -> (r: Vec<u8>)
        ensures
            r@ == self.view(),
    {
        self.bytes
    }
}

/// Client-side inputs of a Kerberos negotiation.
#[derive(Debug, Clone, Default, PartialEq, Eq)]
pub struct Krb5NegotiateConfig {
    /// Server host name, optionally including a port suffix.
    pub server: String,
    /// Optional authentication domain or realm.
    pub domain: Option<String>,
    /// Optional user name.
    pub user_name: Option<String>,
    /// Optional password used when a memory credentials cache is requested.
    pub password: Option<String>,
    /// Whether to use cached credentials.
    pub use_cached_creds: bool,
    /// Whether SPNEGO should be selected instead of raw Kerberos.
    pub use_spnego: bool,
    /// Optional delegated credential marker from an existing SMB context.
    pub delegated_credential: Option<String>,
}

/// Server-side inputs of client credential setup.
#[derive(Debug, Clone, PartialEq, Eq)]
pub struct Krb5ServerClientCredConfig {
    /// Server host name, optionally including a port suffix.
    pub hostname: String,
    /// Whether constrained delegation should be attempted.
    pub proxy_authentication: bool,
    /// Security mechanism selected by the SMB negotiation layer.
    pub mechanism: Krb5Mechanism,
    /// Optional server keytab path already initialized for server credentials.
    pub keytab_path: Option<String>,
    /// Optional memory credentials cache name already initialized for the server.
    pub ccache_name: Option<String>,
}

/// Server keytab credential inputs.
#[derive(Debug, Clone, Default, PartialEq, Eq)]
pub struct Krb5ServerCredentialsConfig {
    /// Server host name, optionally including a port suffix.
    pub hostname: String,
    /// Keytab path used for server credential renewal.
    pub keytab_path: Option<String>,
}

/// Result returned by a client-side session request step.
#[derive(Debug, Clone, PartialEq, Eq)]
pub struct Krb5SessionRequest {
    /// Whether another session setup round trip is expected.
    pub continue_needed: bool,
    /// Output token that should be sent to the peer.
    pub output_token: GssToken,
}

/// Result returned by a server-side session reply step.
#[derive(Debug, Clone, PartialEq, Eq)]
pub struct Krb5SessionReply {
    /// Whether the peer must send another token.
    pub more_processing_needed: bool,
    /// Authenticated user name when it has been extracted.
    pub user: Option<String>,
    /// Authenticated domain when it has been extracted.
    pub domain: Option<String>,
    /// Output token that should be sent to the peer.
    pub output_token: GssToken,
}

impl Default for Krb5ServerClientCredConfig {
    fn default() -> (r: Self)
        ensures
            r.hostname@ == Seq::<char>::empty(),
            !r.proxy_authentication,
            r.mechanism == Krb5Mechanism::Default,
            r.keytab_path is None,
            r.ccache_name is None,
    {
        Krb5ServerClientCredConfig {
            hostname: String::new(),
            proxy_authentication: false,
            mechanism: Krb5Mechanism::Default,
            keytab_path: None,
            ccache_name: None,
        }
    }
}

/// The host part of a server name: the text before any `:`.
pub open spec fn host_of(server: Seq<char>) -> Seq<char> {
    match split_once(server, ':') {
        Some((h, _)) => h,
        None => server,
    }
}

/// The service principal name of a host.
pub open spec fn service_name_of(host: Seq<char>) -> Seq<char> {
    "cifs@"@ + host
}

/// Strips a `:port` suffix from a server name, refusing an empty host.
pub fn strip_port(server: &str) -> (r: Krb5Result<String>)
    ensures
        host_of(server@).len() == 0 ==> r == Err::<String, Krb5Error>(Krb5Error::EmptyHost),
        host_of(server@).len() > 0 ==> (r matches Ok(h) && h@ == host_of(server@)),
{
    let host = match split_once_exec(server, ':') {
        Some((h, _)) => h,
        None => server,
    };
    if host.unicode_len() == 0 {
        return Err(Krb5Error::EmptyHost);
    }
    Ok(String::from_str(host))
}

/// The service principal name of a host: `cifs@host`.
pub fn service_name(host: &str) -> (r: String)
    ensures
        r@ == service_name_of(host@),
{
    String::from_str("cifs@").concat(host)
}

fn require_some(value: &Option<String>, name: &'static str) -> (r: Krb5Result<()>)
    ensures
        r == (match value {
            Some(_) => Ok::<(), Krb5Error>(()),
            None => Err(Krb5Error::MissingParameter(name)),
        }),
{
    match value {
        Some(_) => Ok(()),
        None => Err(Krb5Error::MissingParameter(name)),
    }
}

/// The authentication state of one Kerberos exchange.
#[derive(Debug, Clone, PartialEq, Eq)]
pub struct PrivateAuthData {
    g_server: Option<String>,
    target_name: Option<String>,
    user_name: Option<String>,
    credential: Option<String>,
    delegated_credential: Option<String>,
    keytab_path: Option<String>,
    principal_name: Option<String>,
    ccache_name: Option<String>,
    output_token: GssToken,
    input_token: GssToken,
    session_key: Vec<u8>,
    req_flags: u32,
    mechanism: Krb5Mechanism,
    context_state: Krb5ContextState,
    use_spnego: bool,
    get_proxy_cred: bool,
}

/// The outcome of a client negotiation for the given inputs: the refusal,
/// or the service name, delegated credential, mechanism and SPNEGO choice
/// of the prepared state.
pub open spec fn negotiate_outcome(c: Krb5NegotiateConfig) -> Result<(Seq<char>, Seq<char>, Krb5Mechanism), Krb5Error> {
    let host = host_of(c.server@);
    if host.len() == 0 {
        Err(Krb5Error::EmptyHost)
    } else if c.use_cached_creds && c.domain is None {
        Err(Krb5Error::MissingParameter("domain"))
    } else if c.use_cached_creds && c.password is None {
        Err(Krb5Error::MissingParameter("password"))
    } else {
        let mech = if c.use_spnego { Krb5Mechanism::Spnego } else { Krb5Mechanism::Kerberos5 };
        match c.delegated_credential {
            Some(d) => Ok((service_name_of(host), d@, mech)),
            None => if c.user_name is None {
                Err(Krb5Error::MissingParameter("user_name"))
            } else {
                Err(Krb5Error::ProtocolLogicNotImplemented)
            },
        }
    }
}

impl PrivateAuthData {
    /// The service principal name.
    pub closed spec fn spec_g_server(&self) -> Option<Seq<char>> {
        opt_view(self.g_server)
    }

    /// The target name.
    pub closed spec fn spec_target_name(&self) -> Option<Seq<char>> {
        opt_view(self.target_name)
    }

    /// The user name.
    pub closed spec fn spec_user_name(&self) -> Option<Seq<char>> {
        opt_view(self.user_name)
    }

    /// The delegated credential.
    pub closed spec fn spec_delegated(&self) -> Option<Seq<char>> {
        opt_view(self.delegated_credential)
    }

    /// The keytab path.
    pub closed spec fn spec_keytab(&self) -> Option<Seq<char>> {
        opt_view(self.keytab_path)
    }

    /// The bytes of the token to send.
    pub closed spec fn spec_output_token(&self) -> Seq<u8> {
        self.output_token.view()
    }

    /// The bytes of the last received token.
    pub closed spec fn spec_input_token(&self) -> Seq<u8> {
        self.input_token.view()
    }

    /// The session key bytes.
    pub closed spec fn spec_session_key(&self) -> Seq<u8> {
        self.session_key@
    }

    /// The requested GSS flags.
    pub closed spec fn spec_req_flags(&self) -> u32 {
        self.req_flags
    }

    /// The selected mechanism.
    pub closed spec fn spec_mechanism(&self) -> Krb5Mechanism {
        self.mechanism
    }

    /// The context state.
    pub closed spec fn spec_context_state(&self) -> Krb5ContextState {
        self.context_state
    }

    /// Whether SPNEGO is used.
    pub closed spec fn spec_use_spnego(&self) -> bool {
        self.use_spnego
    }

    /// Whether proxy credentials are wanted.
    pub closed spec fn spec_get_proxy_cred(&self) -> bool {
        self.get_proxy_cred
    }

    /// The client credential.
    pub closed spec fn spec_credential(&self) -> Option<Seq<char>> {
        opt_view(self.credential)
    }

    /// The principal name.
    pub closed spec fn spec_principal_name(&self) -> Option<Seq<char>> {
        opt_view(self.principal_name)
    }

    /// The credential cache name.
    pub closed spec fn spec_ccache_name(&self) -> Option<Seq<char>> {
        opt_view(self.ccache_name)
    }

    /// Whether the state holds no names, credentials, tokens or key, no
    /// request flags, an empty context and no proxy-credential request.
    pub open spec fn is_cleared(&self) -> bool {
        &&& self.spec_g_server() is None && self.spec_target_name() is None
        &&& self.spec_user_name() is None
        &&& self.spec_credential() is None && self.spec_delegated() is None
        &&& self.spec_keytab() is None
        &&& self.spec_principal_name() is None && self.spec_ccache_name() is None
        &&& self.spec_output_token().len() == 0 && self.spec_input_token().len() == 0
        &&& self.spec_session_key().len() == 0 && self.spec_req_flags() == 0
        &&& self.spec_context_state() == Krb5ContextState::Empty && !self.spec_get_proxy_cred()
    }

    /// `b` holds the names, credentials, mechanism and choices of `a`.
    pub open spec fn same_identity(a: &Self, b: &Self) -> bool {
        &&& b.spec_g_server() == a.spec_g_server() && b.spec_target_name() == a.spec_target_name()
        &&& b.spec_user_name() == a.spec_user_name()
        &&& b.spec_credential() == a.spec_credential() && b.spec_delegated() == a.spec_delegated()
        &&& b.spec_keytab() == a.spec_keytab()
        &&& b.spec_principal_name() == a.spec_principal_name()
        &&& b.spec_ccache_name() == a.spec_ccache_name()
        &&& b.spec_mechanism() == a.spec_mechanism() && b.spec_use_spnego() == a.spec_use_spnego()
        &&& b.spec_get_proxy_cred() == a.spec_get_proxy_cred()
    }

    /// Creates empty authentication state.
    pub fn new() -> (r: Self)
        ensures
            r.is_cleared(),
            r.spec_mechanism() == Krb5Mechanism::Default,
            !r.spec_use_spnego(),
    {
        PrivateAuthData {
            g_server: None,
            target_name: None,
            user_name: None,
            credential: None,
            delegated_credential: None,
            keytab_path: None,
            principal_name: None,
            ccache_name: None,
            output_token: GssToken::new(),
            input_token: GssToken::new(),
            session_key: Vec::new(),
            req_flags: 0,
            mechanism: Krb5Mechanism::Default,
            context_state: Krb5ContextState::Empty,
            use_spnego: false,
            get_proxy_cred: false,
        }
    }

    /// Prepares client authentication state. Only a delegated credential
    /// can be used without a GSSAPI credential acquisition, which is not
    /// provided; the other paths check their inputs and then report
    /// `ProtocolLogicNotImplemented`.
    pub fn negotiate_reply(config: Krb5NegotiateConfig) -> (r: Krb5Result<Self>)
        ensures
            match negotiate_outcome(config) {
                Err(e) => r == Err::<PrivateAuthData, Krb5Error>(e),
                Ok((g, d, mech)) => r matches Ok(a) && a.spec_g_server() == Some(g) && a.spec_target_name() == Some(g)
                    && a.spec_delegated() == Some(d) && a.spec_mechanism() == mech
                    && a.spec_context_state() == Krb5ContextState::Initiating
                    && a.spec_use_spnego() == config.use_spnego && a.spec_user_name() is None
                    && a.spec_keytab() is None && a.spec_session_key().len() == 0,
            },
    {
        let host = match strip_port(config.server.as_str()) {
            Err(e) => {
                return Err(e);
            },
            Ok(h) => h,
        };
        if config.use_cached_creds {
            match require_some(&config.domain, "domain") {
                Err(e) => {
                    return Err(e);
                },
                Ok(()) => {},
            }
            match require_some(&config.password, "password") {
                Err(e) => {
                    return Err(e);
                },
                Ok(()) => {},
            }
        }
        let g_server = service_name(host.as_str());
        let mechanism = if config.use_spnego {
            Krb5Mechanism::Spnego
        } else {
            Krb5Mechanism::Kerberos5
        };
        match config.delegated_credential {
            Some(delegated) => {
                let mut data = PrivateAuthData::new();
                data.g_server = Some(g_server.clone());
                data.target_name = Some(g_server);
                data.delegated_credential = Some(delegated);
                data.mechanism = mechanism;
                data.context_state = Krb5ContextState::Initiating;
                data.use_spnego = config.use_spnego;
                Ok(data)
            },
            None => {
                if config.user_name.is_none() {
                    Err(Krb5Error::MissingParameter("user_name"))
                } else {
                    Err(Krb5Error::ProtocolLogicNotImplemented)
                }
            },
        }
    }

    /// Prepares server-side client credentials: checks the host, then
    /// reports `ProtocolLogicNotImplemented` (the GSSAPI credential
    /// acquisition is not provided).
    pub fn init_server_client_cred(config: Krb5ServerClientCredConfig) -> (r: Krb5Result<Self>)
        ensures
            host_of(config.hostname@).len() == 0 ==> r == Err::<PrivateAuthData, Krb5Error>(Krb5Error::EmptyHost),
            host_of(config.hostname@).len() > 0 ==> r == Err::<PrivateAuthData, Krb5Error>(Krb5Error::ProtocolLogicNotImplemented),
    {
        match strip_port(config.hostname.as_str()) {
            Err(e) => Err(e),
            Ok(_) => Err(Krb5Error::ProtocolLogicNotImplemented),
        }
    }

    /// Prepares server credentials from a keytab: without a non-empty
    /// keytab path there is nothing to do; otherwise the host is checked
    /// and `ProtocolLogicNotImplemented` reported (keytab login is not
    /// provided).
    pub fn init_server_credentials(config: Krb5ServerCredentialsConfig) -> (r: Krb5Result<Option<Self>>)
        ensures
            match config.keytab_path {
                None => r == Ok::<Option<PrivateAuthData>, Krb5Error>(None),
                Some(k) => if k@.len() == 0 {
                    r == Ok::<Option<PrivateAuthData>, Krb5Error>(None)
                } else if host_of(config.hostname@).len() == 0 {
                    r == Err::<Option<PrivateAuthData>, Krb5Error>(Krb5Error::EmptyHost)
                } else {
                    r == Err::<Option<PrivateAuthData>, Krb5Error>(Krb5Error::ProtocolLogicNotImplemented)
                },
            },
    {
        let keytab_path = match config.keytab_path {
            None => {
                return Ok(None);
            },
            Some(k) => k,
        };
        if keytab_path.as_str().unicode_len() == 0 {
            return Ok(None);
        }
        match strip_port(config.hostname.as_str()) {
            Err(e) => Err(e),
            Ok(_) => Err(Krb5Error::ProtocolLogicNotImplemented),
        }
    }

    /// Clears names, credentials, tokens, the key, the flags and the
    /// context state.
    pub fn free_auth_data(&mut self)
        ensures
            final(self).is_cleared(),
            final(self).spec_mechanism() == old(self).spec_mechanism(),
            final(self).spec_use_spnego() == old(self).spec_use_spnego(),
    {
        self.g_server = None;
        self.target_name = None;
        self.user_name = None;
        self.credential = None;
        self.delegated_credential = None;
        self.keytab_path = None;
        self.principal_name = None;
        self.ccache_name = None;
        self.output_token.clear();
        self.input_token.clear();
        self.session_key.clear();
        self.req_flags = 0;
        self.context_state = Krb5ContextState::Empty;
        self.get_proxy_cred = false;
    }

    /// Starts a session request: clears the output token, sets the default
    /// request flags and keeps the input token; the GSSAPI step is not
    /// provided, so it reports `ProtocolLogicNotImplemented`.
    pub fn session_request(&mut self, input: Option<&[u8]>) -> (r: Krb5Result<Krb5SessionRequest>)
        ensures
            r == Err::<Krb5SessionRequest, Krb5Error>(Krb5Error::ProtocolLogicNotImplemented),
            final(self).spec_output_token().len() == 0,
            final(self).spec_req_flags() == DEFAULT_SESSION_REQUEST_FLAGS,
            final(self).spec_input_token() == match input {
                Some(i) => i@,
                None => old(self).spec_input_token(),
            },
            final(self).spec_context_state() == old(self).spec_context_state(),
            final(self).spec_session_key() == old(self).spec_session_key(),
            PrivateAuthData::same_identity(old(self), final(self)),
    {
        self.output_token.clear();
        self.req_flags = DEFAULT_SESSION_REQUEST_FLAGS;
        match input {
            Some(i) => {
                self.input_token.replace(slice_to_vec(i));
            },
            None => {},
        }
        Err(Krb5Error::ProtocolLogicNotImplemented)
    }

    /// Accepts a token: clears the output token, keeps the input token and
    /// enters the accepting state; the GSSAPI step is not provided, so it
    /// reports `ProtocolLogicNotImplemented`.
    pub fn session_reply(&mut self, input: &[u8]) -> (r: Krb5Result<Krb5SessionReply>)
        ensures
            r == Err::<Krb5SessionReply, Krb5Error>(Krb5Error::ProtocolLogicNotImplemented),
            final(self).spec_output_token().len() == 0,
            final(self).spec_input_token() == input@,
            final(self).spec_context_state() == Krb5ContextState::Accepting,
            final(self).spec_req_flags() == old(self).spec_req_flags(),
            final(self).spec_session_key() == old(self).spec_session_key(),
            PrivateAuthData::same_identity(old(self), final(self)),
    {
        self.output_token.clear();
        self.input_token.replace(slice_to_vec(input));
        self.context_state = Krb5ContextState::Accepting;
        Err(Krb5Error::ProtocolLogicNotImplemented)
    }

    /// Returns the session key, refusing when none is stored.
    pub fn session_get_session_key(&self) -> (r: Krb5Result<&[u8]>)
        ensures
            self.spec_session_key().len() == 0 ==> r == Err::<&[u8], Krb5Error>(Krb5Error::MissingSessionKey),
            self.spec_session_key().len() > 0 ==> (r matches Ok(k) && k@ == self.spec_session_key()),
    {
        if self.session_key.len() == 0 {
            return Err(Krb5Error::MissingSessionKey);
        }
        Ok(self.session_key.as_slice())
    }

    /// Replaces the stored session key.
    pub fn set_session_key(&mut self, session_key: Vec<u8>)
        ensures
            final(self).spec_session_key() == session_key@,
            final(self).spec_context_state() == old(self).spec_context_state(),
            final(self).spec_output_token() == old(self).spec_output_token(),
            final(self).spec_input_token() == old(self).spec_input_token(),
            final(self).spec_req_flags() == old(self).spec_req_flags(),
            PrivateAuthData::same_identity(old(self), final(self)),
    {
        self.session_key = session_key;
    }

    /// Renews keytab-backed server credentials: nothing to do without a
    /// keytab; otherwise keytab renewal is not provided.
    pub fn renew_server_credentials(&self) -> (r: Krb5Result<()>)
        ensures
            self.spec_keytab() is None ==> r == Ok::<(), Krb5Error>(()),
            self.spec_keytab() is Some ==> r == Err::<(), Krb5Error>(Krb5Error::ProtocolLogicNotImplemented),
    {
        if self.keytab_path.is_none() {
            return Ok(());
        }
        Err(Krb5Error::ProtocolLogicNotImplemented)
    }

    /// Returns the output token length in bytes.
    pub fn get_output_token_length(&self) -> (r: usize)
        ensures
            r == self.spec_output_token().len(),
    {
        self.output_token.len()
    }

    /// Returns the output token bytes.
    pub fn get_output_token_buffer(&self) -> (r: &[u8])
        ensures
            r@ == self.spec_output_token(),
    {
        self.output_token.as_bytes()
    }

    /// Returns the service principal name.
    pub fn g_server(&self) -> (r: Option<&str>)
        ensures
            match r {
                Some(s) => self.spec_g_server() == Some(s@),
                None => self.spec_g_server() is None,
            },
    {
        match &self.g_server {
            Some(s) => Some(s.as_str()),
            None => None,
        }
    }

    /// Returns the target name.
    pub fn target_name(&self) -> (r: Option<&str>)
        ensures
            match r {
                Some(s) => self.spec_target_name() == Some(s@),
                None => self.spec_target_name() is None,
            },
    {
        match &self.target_name {
            Some(s) => Some(s.as_str()),
            None => None,
        }
    }

    /// Returns the user name.
    pub fn user_name(&self) -> (r: Option<&str>)
        ensures
            match r {
                Some(s) => self.spec_user_name() == Some(s@),
                None => self.spec_user_name() is None,
            },
    {
        match &self.user_name {
            Some(s) => Some(s.as_str()),
            None => None,
        }
    }

    /// Returns the selected mechanism.
    pub fn mechanism(&self) -> (r: Krb5Mechanism)
        ensures
            r == self.spec_mechanism(),
    {
        self.mechanism
    }

    /// Returns the context state.
    pub fn context_state(&self) -> (r: Krb5ContextState)
        ensures
            r == self.spec_context_state(),
    {
        self.context_state
    }

    /// Returns whether SPNEGO is selected.
    pub fn use_spnego(&self) -> (r: bool)
        ensures
            r == self.spec_use_spnego(),
    {
        self.use_spnego
    }

    /// Returns whether proxy credentials should be acquired.
    pub fn get_proxy_cred(&self) -> (r: bool)
        ensures
            r == self.spec_get_proxy_cred(),
    {
        self.get_proxy_cred
    }
}

impl Default for PrivateAuthData {
    fn default() -> (r: Self)
        ensures
            r.is_cleared(),
            r.spec_mechanism() == Krb5Mechanism::Default,
            !r.spec_use_spnego(),
    {
        PrivateAuthData::new()
    }
}

fn slice_to_vec(s: &[u8]) -> (r: Vec<u8>)
    ensures
        r@ == s@,
{
    let mut v: Vec<u8> = Vec::new();
    let n = s.len();
    let mut i: usize = 0;
    while i < n
        invariant
            n == s@.len(),
            i <= n,
            v@ == s@.subrange(0, i as int),
        decreases n - i,
    {
        v.push(s[i]);
        i = i + 1;
        assert(v@ =~= s@.subrange(0, i as int));
    }
    assert(s@.subrange(0, n as int) =~= s@);
    v
}

/// The decimal digits of `n`.
pub open spec fn decimal_digits(n: nat) -> Seq<char>
    decreases n,
{
    if n < 10 {
        seq![(n + 48) as char]
    } else {
        decimal_digits(n / 10).push(((n % 10) + 48) as char)
    }
}

/// Writes `n` in decimal.
pub fn u32_to_decimal(n: u32) -> (r: String)
    ensures
        r@ == decimal_digits(n as nat),
    decreases n,
{
    let d = n % 10;
    let c = match crate::text::char_from_u32(48 + d) {
        Some(c) => c,
        None => '0',
    };
    assert(crate::text::is_scalar_value((48 + d) as u32));
    if n < 10 {
        let mut s = String::new();
        crate::text::string_push(&mut s, c);
        assert(s@ =~= decimal_digits(n as nat));
        s
    } else {
        let mut s = u32_to_decimal(n / 10);
        crate::text::string_push(&mut s, c);
        s
    }
}

/// The text of a GSS status report: `function: (major, minor)`.
pub fn krb5_set_gss_error_message(function: &str, major: u32, minor: u32) -> (r: String)
    ensures
        r@ == function@ + ": ("@ + decimal_digits(major as nat) + ", "@ + decimal_digits(minor as nat) + ")"@,
{
    let mut s = String::from_str(function);
    s.append(": (");
    let a = u32_to_decimal(major);
    s.append(a.as_str());
    s.append(", ");
    let b = u32_to_decimal(minor);
    s.append(b.as_str());
    s.append(")");
    s
}

/// Whether NTLMSSP can go through Kerberos here: it cannot.
pub fn krb5_can_do_ntlmssp() -> (r: bool)
    ensures
        !r,
{
    false
}

} // verus!
