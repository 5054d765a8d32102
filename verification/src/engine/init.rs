//! Context initialization: the configuration a client context starts with,
//! the `smb://` URL grammar with its query arguments, error strings, and the
//! internal context record with its I/O vector lists.
use vstd::prelude::*;
use vstd::string::*;

use crate::engine::compat::{all_digits, decimal_value, is_digit, lemma_decimal_nonneg, str_equals};
use crate::engine::context::{Context, IoVec, IoVectors, RecvState, Smb2Header, SMB2_MAX_VECTORS};
use crate::headers::smb2::libsmb2::Smb2Url;

verus! {

/// Maximum URL payload accepted after `smb://`, in bytes.
pub const MAX_URL_SIZE: usize = 1024;

/// Size of the SMB2 client GUID buffer.
pub const SMB2_GUID_SIZE: usize = 16;

/// Size of the SMB3 salt buffer initialized with the context.
pub const SMB2_SALT_SIZE: usize = 32;

/// Maximum stored error string length, in characters.
pub const MAX_ERROR_SIZE: usize = 256;

/// Result type of the initialization helpers.
pub type InitResult<T> = Result<T, InitError>;

/// Errors of context initialization and URL parsing.
#[derive(Debug, Clone, PartialEq, Eq)]
pub enum InitError {
    /// The URL does not start with the `smb://` scheme.
    InvalidScheme,
    /// The URL exceeds the URL size limit.
    UrlTooLong,
    /// The URL is missing server or share components.
    WrongUrlFormat,
    /// A query argument is unknown or has an unsupported value.
    UnknownArgument(String),
    /// The dialect selection is incompatible with SMB3 sealing.
    SealRequiresSmb3,
    /// The I/O vector list is at its capacity.
    TooManyIoVectors,
    /// The accumulated I/O vector size overflowed `usize`.
    IoVectorSizeOverflow,
}

/// Authentication selector.
#[derive(Debug, Clone, Copy, PartialEq, Eq)]
pub enum AuthenticationMethod {
    /// Let later negotiation choose the authentication method.
    Undefined,
    /// Use NTLMSSP authentication.
    NtlmSsp,
    /// Use Kerberos authentication.
    Krb5,
}

impl Default for AuthenticationMethod {
    fn default() -> (r: Self)
        ensures
            r == AuthenticationMethod::Undefined,
    {
        AuthenticationMethod::Undefined
    }
}

/// SMB dialect selector.
#[derive(Debug, Clone, Copy, PartialEq, Eq)]
pub enum NegotiateVersion {
    /// Let the server choose any supported SMB2 or SMB3 dialect.
    Any,
    /// Let the server choose any SMB2 dialect.
    Any2,
    /// Let the server choose any SMB3 dialect.
    Any3,
    /// SMB 2.0.2.
    V0202,
    /// SMB 2.1.0.
    V0210,
    /// SMB 3.0.0.
    V0300,
    /// SMB 3.0.2.
    V0302,
    /// SMB 3.1.1.
    V0311,
}

impl Default for NegotiateVersion {
    fn default() -> (r: Self)
        ensures
            r == NegotiateVersion::Any,
    {
        NegotiateVersion::Any
    }
}

/// Whether a dialect selector is limited to SMB3-capable dialects.
pub open spec fn seal_capable(v: NegotiateVersion) -> bool {
    v == NegotiateVersion::Any3 || v == NegotiateVersion::V0300 || v == NegotiateVersion::V0302
        || v == NegotiateVersion::V0311
}

impl NegotiateVersion {
    /// Returns true when the selector is limited to an SMB3-capable dialect.
    pub fn supports_seal(self) -> (r: bool)
        ensures
            r == seal_capable(self),
    {
        match self {
            NegotiateVersion::Any3 | NegotiateVersion::V0300 | NegotiateVersion::V0302
            | NegotiateVersion::V0311 => true,
            _ => false,
        }
    }
}

/// NDR transfer syntax preference configured by URL arguments.
#[derive(Debug, Clone, Copy, PartialEq, Eq)]
pub enum NdrMode {
    /// Accept both NDR32 and NDR64.
    Ndr3264,
    /// Prefer NDR32.
    Ndr32,
    /// Prefer NDR64.
    Ndr64,
}

impl Default for NdrMode {
    fn default() -> (r: Self)
        ensures
            r == NdrMode::Ndr32,
    {
        NdrMode::Ndr32
    }
}

/// DCE/RPC byte order configured by URL arguments.
#[derive(Debug, Clone, Copy, PartialEq, Eq)]
pub enum Endianness {
    /// Little endian transfer encoding.
    Little,
    /// Big endian transfer encoding.
    Big,
}

impl Default for Endianness {
    fn default() -> (r: Self)
        ensures
            r == Endianness::Little,
    {
        Endianness::Little
    }
}

/// Configuration a client context keeps and URL arguments update.
#[derive(Debug, Clone, Copy, PartialEq, Eq)]
pub struct InitConfig {
    /// Authentication mechanism selector.
    pub authentication: AuthenticationMethod,
    /// Dialect version selector.
    pub version: NegotiateVersion,
    /// DCE/RPC NDR width selector.
    pub ndr: NdrMode,
    /// DCE/RPC byte order selector.
    pub endianness: Endianness,
    /// Enable SMB3 sealing.
    pub seal: bool,
    /// Require SMB2 signing.
    pub sign: bool,
    /// Use cached Kerberos credentials.
    pub use_cached_creds: bool,
    /// Operation timeout in seconds.
    pub timeout: i32,
    /// Negotiated or requested security mode bitmask.
    pub security_mode: u16,
    /// Pass through opaque command payloads.
    pub passthrough: bool,
}

/// The configuration a new context starts with.
pub open spec fn default_config() -> InitConfig {
    InitConfig {
        authentication: AuthenticationMethod::Undefined,
        version: NegotiateVersion::Any,
        ndr: NdrMode::Ndr32,
        endianness: Endianness::Little,
        seal: false,
        sign: false,
        use_cached_creds: false,
        timeout: 0,
        security_mode: 0,
        passthrough: false,
    }
}

impl Default for InitConfig {
    fn default() -> (r: Self)
        ensures
            r == default_config(),
    {
        InitConfig {
            authentication: AuthenticationMethod::Undefined,
            version: NegotiateVersion::Any,
            ndr: NdrMode::Ndr32,
            endianness: Endianness::Little,
            seal: false,
            sign: false,
            use_cached_creds: false,
            timeout: 0,
            security_mode: 0,
            passthrough: false,
        }
    }
}

// ----------------------------------------------------------------------
// Character-level helpers of the URL grammar.

/// Whether `i` is the first position of `c` in `s`.
pub open spec fn is_first(s: Seq<char>, c: char, i: int) -> bool {
    &&& 0 <= i < s.len()
    &&& s[i] == c
    &&& forall|k: int| 0 <= k < i ==> s[k] != c
}

/// The first position of `c` in `s`, if `c` occurs.
pub open spec fn first_index(s: Seq<char>, c: char) -> Option<int> {
    if exists|i: int| is_first(s, c, i) {
        Some(choose|i: int| is_first(s, c, i))
    } else {
        None
    }
}

proof fn lemma_first_unique(s: Seq<char>, c: char, i: int)
    requires
        is_first(s, c, i),
    ensures
        first_index(s, c) == Some(i),
{
    let j = choose|j: int| is_first(s, c, j);
    assert(is_first(s, c, j));
    if j < i {
        assert(s[j] != c);
    }
    if i < j {
        assert(s[i] != c);
    }
}

proof fn lemma_first_none(s: Seq<char>, c: char)
    requires
        forall|k: int| 0 <= k < s.len() ==> s[k] != c,
    ensures
        first_index(s, c) is None,
{
    if exists|i: int| is_first(s, c, i) {
        let j = choose|j: int| is_first(s, c, j);
        assert(s[j] == c);
    }
}

/// Returns the position of the first `c` in `s`.
pub fn find_char(s: &str, c: char) -> (r: Option<usize>)
    ensures
        match first_index(s@, c) {
            Some(i) => r == Some(i as usize),
            None => r is None,
        },
{
    let n = s.unicode_len();
    let mut i: usize = 0;
    while i < n
        invariant
            n == s@.len(),
            i <= n,
            forall|k: int| 0 <= k < i ==> s@[k] != c,
        decreases n - i,
    {
        if s.get_char(i) == c {
            proof {
                lemma_first_unique(s@, c, i as int);
            }
            return Some(i);
        }
        i = i + 1;
    }
    proof {
        lemma_first_none(s@, c);
    }
    None
}

/// `s` split at the first `c`: the text before it and the text after it.
pub open spec fn split_once(s: Seq<char>, c: char) -> Option<(Seq<char>, Seq<char>)> {
    match first_index(s, c) {
        Some(i) => Some((s.subrange(0, i), s.subrange(i + 1, s.len() as int))),
        None => None,
    }
}

/// Splits `s` at the first `c`.
pub fn split_once_exec<'a>(s: &'a str, c: char) -> (r: Option<(&'a str, &'a str)>)
    ensures
        match split_once(s@, c) {
            Some((a, b)) => r matches Some((x, y)) && x@ == a && y@ == b,
            None => r is None,
        },
{
    match find_char(s, c) {
        Some(i) => {
            let n = s.unicode_len();
            let a = s.substring_char(0, i);
            let b = s.substring_char(i + 1, n);
            Some((a, b))
        },
        None => None,
    }
}

/// The pieces of `s` between occurrences of `c`.
pub open spec fn split_pieces(s: Seq<char>, c: char) -> Seq<Seq<char>>
    decreases s.len(),
{
    match first_index(s, c) {
        Some(i) => {
            if 0 <= i < s.len() {
                seq![s.subrange(0, i)] + split_pieces(s.subrange(i + 1, s.len() as int), c)
            } else {
                seq![s]
            }
        },
        None => seq![s],
    }
}

/// The first 256 characters of an error message.
pub open spec fn truncated_error(m: Seq<char>) -> Seq<char> {
    if m.len() <= 256 { m } else { m.subrange(0, 256) }
}

/// `str::parse::<i32>`: an optional sign, then at least one decimal digit,
/// and a value within the range of `i32`.
pub open spec fn parse_i32_spec(s: Seq<char>) -> Option<i32> {
    let neg = s.len() > 0 && s[0] == '-';
    let d = signed_digits(s);
    if d.len() > 0 && all_digits(d) {
        let v = if neg { -decimal_value(d) } else { decimal_value(d) };
        if i32::MIN <= v <= i32::MAX {
            Some(v as i32)
        } else {
            None
        }
    } else {
        None
    }
}

/// The text after an optional leading sign.
pub open spec fn signed_digits(s: Seq<char>) -> Seq<char> {
    if s.len() > 0 && (s[0] == '+' || s[0] == '-') { s.drop_first() } else { s }
}

/// Parses a decimal `i32` as `str::parse::<i32>` does.
pub fn parse_i32(s: &str) -> (r: Option<i32>)
    ensures
        r == parse_i32_spec(s@),
{
    let n = s.unicode_len();
    let mut start: usize = 0;
    let mut neg = false;
    if n > 0 {
        let c0 = s.get_char(0);
        if c0 == '+' || c0 == '-' {
            start = 1;
            neg = c0 == '-';
        }
    }
    if start == n {
        return None;
    }
    let ghost d = s@.subrange(start as int, n as int);
    assert(d =~= signed_digits(s@));
    let cap: u64 = 2147483649;
    let mut value: u64 = 0;
    let mut i: usize = start;
    while i < n
        invariant
            n == s@.len(),
            start <= i <= n,
            start < n,
            cap == 2147483649,
            d == s@.subrange(start as int, n as int),
            d == signed_digits(s@),
            neg == (s@.len() > 0 && s@[0] == '-'),
            forall|k: int| start <= k < i ==> is_digit(#[trigger] s@[k]),
            value == if decimal_value(s@.subrange(start as int, i as int)) < cap {
                decimal_value(s@.subrange(start as int, i as int))
            } else {
                cap as int
            },
        decreases n - i,
    {
        let c = s.get_char(i);
        if !('0' <= c && c <= '9') {
            assert(d[i - start] == c);
            assert(!is_digit(d[i - start]));
            assert(!all_digits(d));
            return None;
        }
        let digit = (c as u32) - ('0' as u32);
        let ghost prev = s@.subrange(start as int, i as int);
        let ghost next = s@.subrange(start as int, i + 1);
        assert(next.drop_last() =~= prev);
        assert(next.last() == c);
        proof {
            assert forall|k: int| 0 <= k < prev.len() implies is_digit(#[trigger] prev[k]) by {
                assert(prev[k] == s@[start + k]);
            }
            lemma_decimal_nonneg(prev);
        }
        if value >= 214748365 {
            value = cap;
        } else {
            value = value * 10 + digit as u64;
            if value > cap {
                value = cap;
            }
        }
        i = i + 1;
    }
    assert(s@.subrange(start as int, n as int) =~= d);
    assert(all_digits(d));
    if neg {
        if value <= 2147483648 {
            Some((0i64 - value as i64) as i32)
        } else {
            None
        }
    } else {
        if value <= 2147483647 {
            Some(value as i32)
        } else {
            None
        }
    }
}

/// The name part of a query argument: the text before its first `=`.
pub open spec fn arg_name(arg: Seq<char>) -> Seq<char> {
    match split_once(arg, '=') {
        Some((n, _)) => n,
        None => arg,
    }
}

/// The value part of a query argument: the text after its first `=`.
pub open spec fn arg_value(arg: Seq<char>) -> Option<Seq<char>> {
    match split_once(arg, '=') {
        Some((_, v)) => Some(v),
        None => None,
    }
}

/// The effect of one non-empty query argument on the configuration, or the
/// name reported as unknown and the error message.
pub open spec fn arg_step(cfg: InitConfig, arg: Seq<char>) -> Result<InitConfig, (Seq<char>, Seq<char>)> {
    let name = arg_name(arg);
    let value = arg_value(arg);
    if name == "seal"@ {
        Ok(InitConfig { seal: true, ..cfg })
    } else if name == "sign"@ {
        Ok(InitConfig { sign: true, ..cfg })
    } else if name == "ndr3264"@ {
        Ok(InitConfig { ndr: NdrMode::Ndr3264, ..cfg })
    } else if name == "ndr32"@ {
        Ok(InitConfig { ndr: NdrMode::Ndr32, ..cfg })
    } else if name == "ndr64"@ {
        Ok(InitConfig { ndr: NdrMode::Ndr64, ..cfg })
    } else if name == "le"@ {
        Ok(InitConfig { endianness: Endianness::Little, ..cfg })
    } else if name == "be"@ {
        Ok(InitConfig { endianness: Endianness::Big, ..cfg })
    } else if name == "sec"@ {
        security_step(cfg, value)
    } else if name == "vers"@ {
        version_step(cfg, value)
    } else if name == "timeout"@ {
        Ok(InitConfig {
            timeout: match value {
                Some(v) => match parse_i32_spec(v) {
                    Some(t) => t,
                    None => 0,
                },
                None => 0,
            },
            ..cfg
        })
    } else {
        Err((name, "Unknown argument: "@ + name))
    }
}

/// The effect of a `sec=` argument with value `value`.
pub open spec fn security_step(cfg: InitConfig, value: Option<Seq<char>>) -> Result<InitConfig, (Seq<char>, Seq<char>)> {
    match value {
        Some(v) => if v == "krb5"@ {
            Ok(InitConfig { authentication: AuthenticationMethod::Krb5, ..cfg })
        } else if v == "krb5cc"@ {
            Ok(InitConfig { authentication: AuthenticationMethod::Krb5, use_cached_creds: true, ..cfg })
        } else if v == "ntlmssp"@ {
            Ok(InitConfig { authentication: AuthenticationMethod::NtlmSsp, ..cfg })
        } else {
            Err(("sec"@, "Unknown sec= argument: "@ + v))
        },
        None => Err(("sec"@, "Unknown sec= argument: "@)),
    }
}

/// A `sec=` value that starts with `krb5` selects Kerberos, `ntlmssp`
/// selects NTLMSSP, and only `krb5cc` turns on cached credentials; an
/// accepted value changes nothing but these two settings, and every other
/// value is refused.
pub proof fn lemma_security_selects_mechanism(cfg: InitConfig, v: Seq<char>)
    ensures
        security_step(cfg, Some(v)) is Ok <==> (v == "krb5"@ || v == "krb5cc"@ || v == "ntlmssp"@),
        security_step(cfg, Some(v)) matches Ok(c) ==> {
            &&& (c.authentication == AuthenticationMethod::Krb5 <==> (v.len() >= 4 && v.subrange(0, 4) == "krb5"@))
            &&& (c.authentication == AuthenticationMethod::NtlmSsp <==> v == "ntlmssp"@)
            &&& c.use_cached_creds == (cfg.use_cached_creds || v == "krb5cc"@)
            &&& c == InitConfig { authentication: c.authentication, use_cached_creds: c.use_cached_creds, ..cfg }
        },
        security_step(cfg, None) is Err,
{
    reveal_strlit("krb5");
    reveal_strlit("krb5cc");
    reveal_strlit("ntlmssp");
    if v == "krb5"@ {
        assert(v.subrange(0, 4) =~= "krb5"@);
    }
    if v == "krb5cc"@ {
        assert(v.subrange(0, 4) =~= "krb5"@);
    }
    if v == "ntlmssp"@ {
        assert(v.subrange(0, 4) != "krb5"@) by {
            assert(v.subrange(0, 4)[0] == 'n');
        }
    }
}

/// The `vers=` spellings name dialect choices: `2` and `3` any dialect of that major version, and `2.02`,
/// `2.10`, `3.0` (or `3.00`), `3.02` and `3.1.1` one dialect each; every
/// other spelling names none.
pub proof fn lemma_version_spellings(v: Seq<char>)
    ensures
        version_of("2"@) == Some(NegotiateVersion::Any2),
        version_of("3"@) == Some(NegotiateVersion::Any3),
        version_of("2.02"@) == Some(NegotiateVersion::V0202),
        version_of("2.10"@) == Some(NegotiateVersion::V0210),
        version_of("3.0"@) == Some(NegotiateVersion::V0300),
        version_of("3.00"@) == Some(NegotiateVersion::V0300),
        version_of("3.02"@) == Some(NegotiateVersion::V0302),
        version_of("3.1.1"@) == Some(NegotiateVersion::V0311),
        !(v == "2"@ || v == "3"@ || v == "2.02"@ || v == "2.10"@ || v == "3.0"@ || v == "3.00"@
            || v == "3.02"@ || v == "3.1.1"@) ==> version_of(v) is None,
{
    reveal_strlit("2");
    reveal_strlit("3");
    reveal_strlit("2.02");
    reveal_strlit("2.10");
    reveal_strlit("3.0");
    reveal_strlit("3.00");
    reveal_strlit("3.02");
    reveal_strlit("3.1.1");
    assert("2"@.len() == 1);
    assert("3"@.len() == 1);
    assert("2.02"@.len() == 4);
    assert("2.10"@.len() == 4);
    assert("3.0"@.len() == 3);
    assert("3.00"@.len() == 4);
    assert("3.02"@.len() == 4);
    assert("3.1.1"@.len() == 5);
    assert("2"@[0] != "3"@[0]);
    assert("2.02"@[2] != "2.10"@[2]);
    assert("2.02"@[0] != "3.00"@[0]);
    assert("2.02"@[0] != "3.02"@[0]);
    assert("2.10"@[0] != "3.00"@[0]);
    assert("2.10"@[0] != "3.02"@[0]);
    assert("3.00"@[3] != "3.02"@[3]);
}

/// A flag argument sets just its setting: `seal` turns on sealing, `sign`
/// signing, `ndr32`, `ndr64` and `ndr3264` pick that NDR width, and `le`
/// and `be` pick little- or big-endian byte order.
pub proof fn lemma_flag_arguments(cfg: InitConfig, arg: Seq<char>)
    ensures
        arg_name(arg) == "seal"@ ==> arg_step(cfg, arg) == Ok::<InitConfig, (Seq<char>, Seq<char>)>(InitConfig { seal: true, ..cfg }),
        arg_name(arg) == "sign"@ ==> arg_step(cfg, arg) == Ok::<InitConfig, (Seq<char>, Seq<char>)>(InitConfig { sign: true, ..cfg }),
        arg_name(arg) == "ndr32"@ ==> arg_step(cfg, arg) == Ok::<InitConfig, (Seq<char>, Seq<char>)>(InitConfig { ndr: NdrMode::Ndr32, ..cfg }),
        arg_name(arg) == "ndr64"@ ==> arg_step(cfg, arg) == Ok::<InitConfig, (Seq<char>, Seq<char>)>(InitConfig { ndr: NdrMode::Ndr64, ..cfg }),
        arg_name(arg) == "ndr3264"@ ==> arg_step(cfg, arg) == Ok::<InitConfig, (Seq<char>, Seq<char>)>(InitConfig { ndr: NdrMode::Ndr3264, ..cfg }),
        arg_name(arg) == "le"@ ==> arg_step(cfg, arg) == Ok::<InitConfig, (Seq<char>, Seq<char>)>(InitConfig { endianness: Endianness::Little, ..cfg }),
        arg_name(arg) == "be"@ ==> arg_step(cfg, arg) == Ok::<InitConfig, (Seq<char>, Seq<char>)>(InitConfig { endianness: Endianness::Big, ..cfg }),
        arg_name(arg) == "sec"@ ==> arg_step(cfg, arg) == security_step(cfg, arg_value(arg)),
        arg_name(arg) == "vers"@ ==> arg_step(cfg, arg) == version_step(cfg, arg_value(arg)),
{
    reveal_strlit("seal");
    reveal_strlit("sign");
    reveal_strlit("ndr32");
    reveal_strlit("ndr64");
    reveal_strlit("ndr3264");
    reveal_strlit("le");
    reveal_strlit("be");
    reveal_strlit("sec");
    reveal_strlit("timeout");
    reveal_strlit("vers");
    assert("seal"@[1] != "sign"@[1]);
    assert("seal"@[0] != "vers"@[0]);
    assert("sign"@[0] != "vers"@[0]);
    assert("ndr3264"@[0] != "timeout"@[0]);
    assert("ndr32"@[3] != "ndr64"@[3]);
    assert("le"@[0] != "be"@[0]);
}

/// The effect of a `vers=` argument with value `value`.
pub open spec fn version_step(cfg: InitConfig, value: Option<Seq<char>>) -> Result<InitConfig, (Seq<char>, Seq<char>)> {
    match value {
        Some(v) => match version_of(v) {
            Some(ver) => Ok(InitConfig { version: ver, ..cfg }),
            None => Err(("vers"@, "Unknown vers= argument: "@ + v)),
        },
        None => Err(("vers"@, "Unknown vers= argument: "@)),
    }
}

/// The dialect selector a `vers=` value names.
pub open spec fn version_of(v: Seq<char>) -> Option<NegotiateVersion> {
    if v == "2"@ {
        Some(NegotiateVersion::Any2)
    } else if v == "3"@ {
        Some(NegotiateVersion::Any3)
    } else if v == "2.02"@ {
        Some(NegotiateVersion::V0202)
    } else if v == "2.10"@ {
        Some(NegotiateVersion::V0210)
    } else if v == "3.0"@ || v == "3.00"@ {
        Some(NegotiateVersion::V0300)
    } else if v == "3.02"@ {
        Some(NegotiateVersion::V0302)
    } else if v == "3.1.1"@ {
        Some(NegotiateVersion::V0311)
    } else {
        None
    }
}

/// Applies the arguments in order, skipping empty ones and stopping at the
/// first refused one; returns the configuration reached and the refusal.
pub open spec fn args_fold(cfg: InitConfig, pieces: Seq<Seq<char>>) -> (InitConfig, Option<(Seq<char>, Seq<char>)>)
    decreases pieces.len(),
{
    if pieces.len() == 0 {
        (cfg, None)
    } else if pieces[0].len() == 0 {
        args_fold(cfg, pieces.drop_first())
    } else {
        match arg_step(cfg, pieces[0]) {
            Ok(c) => args_fold(c, pieces.drop_first()),
            Err(e) => (cfg, Some(e)),
        }
    }
}

/// The outcome of a whole query string: the configuration reached and, on
/// refusal, the unknown argument name (`None` when sealing needs SMB3)
/// with the error message.
pub open spec fn parse_args_spec(cfg: InitConfig, args: Seq<char>) -> (InitConfig, Option<(Option<Seq<char>>, Seq<char>)>) {
    let (c1, e) = args_fold(cfg, split_pieces(args, '&'));
    match e {
        Some((n, m)) => (c1, Some((Some(n), m))),
        None => if c1.seal {
            if c1.version == NegotiateVersion::Any {
                (InitConfig { version: NegotiateVersion::Any3, ..c1 }, None)
            } else if seal_capable(c1.version) {
                (c1, None)
            } else {
                (c1, Some((None, "Can only use seal with SMB3"@)))
            }
        } else {
            (c1, None)
        },
    }
}

/// Applies one non-empty query argument to `cfg`.
pub fn step_arg(cfg: InitConfig, arg: &str) -> (r: Result<InitConfig, (String, String)>)
    ensures
        match arg_step(cfg, arg@) {
            Ok(c) => r == Ok::<InitConfig, (String, String)>(c),
            Err((n, m)) => r matches Err((a, b)) && a@ == n && b@ == m,
        },
{
    let (name, value) = match split_once_exec(arg, '=') {
        Some((n, v)) => (n, Some(v)),
        None => (arg, None),
    };
    assert(name@ == arg_name(arg@));
    assert(match value { Some(v) => arg_value(arg@) == Some(v@), None => arg_value(arg@) is None });
    if str_equals(name, "seal") {
        Ok(InitConfig { seal: true, ..cfg })
    } else if str_equals(name, "sign") {
        Ok(InitConfig { sign: true, ..cfg })
    } else if str_equals(name, "ndr3264") {
        Ok(InitConfig { ndr: NdrMode::Ndr3264, ..cfg })
    } else if str_equals(name, "ndr32") {
        Ok(InitConfig { ndr: NdrMode::Ndr32, ..cfg })
    } else if str_equals(name, "ndr64") {
        Ok(InitConfig { ndr: NdrMode::Ndr64, ..cfg })
    } else if str_equals(name, "le") {
        Ok(InitConfig { endianness: Endianness::Little, ..cfg })
    } else if str_equals(name, "be") {
        Ok(InitConfig { endianness: Endianness::Big, ..cfg })
    } else if str_equals(name, "sec") {
        parse_security_arg(cfg, value)
    } else if str_equals(name, "vers") {
        parse_version_arg(cfg, value)
    } else if str_equals(name, "timeout") {
        let t = match value {
            Some(v) => match parse_i32(v) {
                Some(t) => t,
                None => 0,
            },
            None => 0,
        };
        Ok(InitConfig { timeout: t, ..cfg })
    } else {
        Err((String::from_str(name), String::from_str("Unknown argument: ").concat(name)))
    }
}

/// Applies a `sec=` argument: `krb5`, `krb5cc` (Kerberos with cached
/// credentials) or `ntlmssp`; anything else is refused.
pub fn parse_security_arg(cfg: InitConfig, value: Option<&str>) -> (r: Result<InitConfig, (String, String)>)
    ensures
        match security_step(cfg, opt_str_seq(value)) {
            Ok(c) => r == Ok::<InitConfig, (String, String)>(c),
            Err((n, m)) => r matches Err((a, b)) && a@ == n && b@ == m,
        },
{
    match value {
        Some(v) => {
            if str_equals(v, "krb5") {
                Ok(InitConfig { authentication: AuthenticationMethod::Krb5, ..cfg })
            } else if str_equals(v, "krb5cc") {
                Ok(InitConfig { authentication: AuthenticationMethod::Krb5, use_cached_creds: true, ..cfg })
            } else if str_equals(v, "ntlmssp") {
                Ok(InitConfig { authentication: AuthenticationMethod::NtlmSsp, ..cfg })
            } else {
                Err((String::from_str("sec"), String::from_str("Unknown sec= argument: ").concat(v)))
            }
        },
        None => Err((String::from_str("sec"), String::from_str("Unknown sec= argument: "))),
    }
}

/// Applies a `vers=` argument naming a dialect selector; anything else is
/// refused.
pub fn parse_version_arg(cfg: InitConfig, value: Option<&str>) -> (r: Result<InitConfig, (String, String)>)
    ensures
        match version_step(cfg, opt_str_seq(value)) {
            Ok(c) => r == Ok::<InitConfig, (String, String)>(c),
            Err((n, m)) => r matches Err((a, b)) && a@ == n && b@ == m,
        },
{
    match value {
        Some(v) => {
            match version_exec(v) {
                Some(ver) => Ok(InitConfig { version: ver, ..cfg }),
                None => Err((String::from_str("vers"), String::from_str("Unknown vers= argument: ").concat(v))),
            }
        },
        None => Err((String::from_str("vers"), String::from_str("Unknown vers= argument: "))),
    }
}

/// The view of an optional borrowed string.
pub open spec fn opt_str_seq(o: Option<&str>) -> Option<Seq<char>> {
    match o {
        Some(s) => Some(s@),
        None => None,
    }
}

/// Maps a `vers=` value to its dialect selector.
fn version_exec(v: &str) -> (r: Option<NegotiateVersion>)
    ensures
        r == version_of(v@),
{
    if str_equals(v, "2") {
        Some(NegotiateVersion::Any2)
    } else if str_equals(v, "3") {
        Some(NegotiateVersion::Any3)
    } else if str_equals(v, "2.02") {
        Some(NegotiateVersion::V0202)
    } else if str_equals(v, "2.10") {
        Some(NegotiateVersion::V0210)
    } else if str_equals(v, "3.0") || str_equals(v, "3.00") {
        Some(NegotiateVersion::V0300)
    } else if str_equals(v, "3.02") {
        Some(NegotiateVersion::V0302)
    } else if str_equals(v, "3.1.1") {
        Some(NegotiateVersion::V0311)
    } else {
        None
    }
}

proof fn lemma_split_pieces_step(s: Seq<char>, c: char)
    ensures
        match split_once(s, c) {
            Some((a, b)) => split_pieces(s, c) == seq![a] + split_pieces(b, c) && b.len() < s.len(),
            None => split_pieces(s, c) == seq![s],
        },
{
    match first_index(s, c) {
        Some(i) => {
            let j = choose|j: int| is_first(s, c, j);
            assert(is_first(s, c, j));
        },
        None => {},
    }
}

proof fn lemma_fold_cons(cfg: InitConfig, p: Seq<char>, rest: Seq<Seq<char>>)
    ensures
        args_fold(cfg, seq![p] + rest) == (if p.len() == 0 {
            args_fold(cfg, rest)
        } else {
            match arg_step(cfg, p) {
                Ok(c) => args_fold(c, rest),
                Err(e) => (cfg, Some(e)),
            }
        }),
{
    let s = seq![p] + rest;
    assert(s[0] == p);
    assert(s.drop_first() =~= rest);
}

/// Applies a whole query string to `cfg`: each `&`-separated non-empty
/// argument in order, then the sealing rule.
pub fn parse_args(cfg: InitConfig, args: &str) -> (r: (InitConfig, Option<(Option<String>, String)>))
    ensures
        r.0 == parse_args_spec(cfg, args@).0,
        match parse_args_spec(cfg, args@).1 {
            None => r.1 is None,
            Some((None, m)) => r.1 matches Some((None, b)) && b@ == m,
            Some((Some(n), m)) => r.1 matches Some((Some(a), b)) && a@ == n && b@ == m,
        },
{
    let ghost target = args_fold(cfg, split_pieces(args@, '&'));
    let mut cur = cfg;
    let mut rest: &str = args;
    let mut failure: Option<(String, String)> = None;
    loop
        invariant_except_break
            failure is None,
            args_fold(cur, split_pieces(rest@, '&')) == target,
        ensures
            match target.1 {
                None => failure is None && cur == target.0,
                Some((n, m)) => failure matches Some((a, b)) && a@ == n && b@ == m && cur == target.0,
            },
        decreases rest@.len(),
    {
        proof {
            lemma_split_pieces_step(rest@, '&');
        }
        let (piece, next, last) = match split_once_exec(rest, '&') {
            Some((p, after)) => (p, after, false),
            None => (rest, rest, true),
        };
        proof {
            if last {
                assert(split_pieces(rest@, '&') =~= seq![piece@] + Seq::<Seq<char>>::empty());
                lemma_fold_cons(cur, piece@, Seq::<Seq<char>>::empty());
            } else {
                lemma_fold_cons(cur, piece@, split_pieces(next@, '&'));
            }
        }
        if piece.unicode_len() > 0 {
            match step_arg(cur, piece) {
                Ok(c) => {
                    cur = c;
                },
                Err(e) => {
                    failure = Some(e);
                    break;
                },
            }
        }
        if last {
            break;
        }
        rest = next;
    }
    match failure {
        Some((n, m)) => (cur, Some((Some(n), m))),
        None => {
            if cur.seal {
                match cur.version {
                    NegotiateVersion::Any => (InitConfig { version: NegotiateVersion::Any3, ..cur }, None),
                    v => {
                        if v.supports_seal() {
                            (cur, None)
                        } else {
                            (cur, Some((None, String::from_str("Can only use seal with SMB3"))))
                        }
                    },
                }
            } else {
                (cur, None)
            }
        },
    }
}

/// Whether the text starts with the `smb://` scheme.
pub open spec fn has_smb_scheme(s: Seq<char>) -> bool {
    &&& s.len() >= 6
    &&& s[0] == 's' && s[1] == 'm' && s[2] == 'b' && s[3] == ':' && s[4] == '/' && s[5] == '/'
}

/// The URL fields of the part of an `smb://` URL after the scheme and
/// before any `?`: `[domain;][user@]server/share[/path]`, or `None` when
/// the server or share is missing.
pub open spec fn url_fields(pp: Seq<char>) -> Option<(Option<Seq<char>>, Option<Seq<char>>, Seq<char>, Seq<char>, Option<Seq<char>>)> {
    match split_once(pp, '/') {
        None => None,
        Some((auth, sp)) => {
            let share = match split_once(sp, '/') {
                Some((a, _)) => a,
                None => sp,
            };
            let path = match split_once(sp, '/') {
                Some((_, b)) => Some(b),
                None => None,
            };
            if auth.len() == 0 || share.len() == 0 {
                None
            } else {
                let domain = match split_once(auth, ';') {
                    Some((d, r)) => if d.len() > 0 && r.len() > 0 { Some(d) } else { None },
                    None => None,
                };
                let rest = match split_once(auth, ';') {
                    Some((d, r)) => if d.len() > 0 && r.len() > 0 { r } else { auth },
                    None => auth,
                };
                let user = match split_once(rest, '@') {
                    Some((u, sv)) => if u.len() > 0 && sv.len() > 0 { Some(u) } else { None },
                    None => None,
                };
                let server = match split_once(rest, '@') {
                    Some((u, sv)) => if u.len() > 0 && sv.len() > 0 { sv } else { rest },
                    None => rest,
                };
                if server.len() == 0 {
                    None
                } else {
                    Some((domain, user, server, share, path))
                }
            }
        },
    }
}

/// An optional URL field followed by its separator, or nothing.
pub open spec fn field_with_separator(o: Option<Seq<char>>, sep: char) -> Seq<char> {
    match o {
        Some(x) => x.push(sep),
        None => Seq::empty(),
    }
}

/// The text `[domain;][user@]server/share[/path]` written from URL fields.
pub open spec fn url_join(
    domain: Option<Seq<char>>,
    user: Option<Seq<char>>,
    server: Seq<char>,
    share: Seq<char>,
    path: Option<Seq<char>>,
) -> Seq<char> {
    field_with_separator(domain, ';') + field_with_separator(user, '@') + server + seq!['/'] + share
        + match path {
        Some(x) => seq!['/'] + x,
        None => Seq::empty(),
    }
}

proof fn lemma_split_once_join(s: Seq<char>, c: char)
    ensures
        split_once(s, c) matches Some((a, b)) ==> s == a + seq![c] + b,
{
    if exists|i: int| is_first(s, c, i) {
        let i = choose|i: int| is_first(s, c, i);
        assert(is_first(s, c, i));
        assert(s =~= s.subrange(0, i) + seq![c] + s.subrange(i + 1, s.len() as int));
    }
}

/// The fields read from the part of an `smb://` URL before its query,
/// written back in order with their separators, give that text again.
#[verifier::rlimit(40)]
pub proof fn lemma_url_fields_reassemble(pp: Seq<char>)
    ensures
        url_fields(pp) matches Some((d, u, sv, sh, p)) ==> url_join(d, u, sv, sh, p) == pp,
{
    lemma_split_once_join(pp, '/');
    if let Some((auth, sp)) = split_once(pp, '/') {
        lemma_split_once_join(sp, '/');
        lemma_split_once_join(auth, ';');
        let rest = match split_once(auth, ';') {
            Some((d, r)) => if d.len() > 0 && r.len() > 0 { r } else { auth },
            None => auth,
        };
        lemma_split_once_join(rest, '@');
        if let Some((d, u, sv, sh, p)) = url_fields(pp) {
            let head = field_with_separator(d, ';') + field_with_separator(u, '@') + sv;
            assert(head =~= auth);
            let tail = sh + match p {
                Some(x) => seq!['/'] + x,
                None => Seq::<char>::empty(),
            };
            assert(tail =~= sp);
            assert(url_join(d, u, sv, sh, p) =~= head + seq!['/'] + tail);
            assert(pp =~= auth + seq!['/'] + sp);
        }
    }
}

/// The text of an optional string.
pub open spec fn opt_view(o: Option<String>) -> Option<Seq<char>> {
    match o {
        Some(s) => Some(s@),
        None => None,
    }
}

fn clone_opt(o: &Option<String>) -> (r: Option<String>)
    ensures
        opt_view(r) == opt_view(*o),
{
    match o {
        Some(s) => Some(s.clone()),
        None => None,
    }
}

fn opt_from_str(o: Option<&str>) -> (r: Option<String>)
    ensures
        opt_view(r) == match o {
            Some(s) => Some(s@),
            None => None::<Seq<char>>,
        },
{
    match o {
        Some(s) => Some(String::from_str(s)),
        None => None,
    }
}

/// Splits the URL part before any `?` into its fields.
pub fn url_fields_exec(pp: &str) -> (r: Option<(Option<String>, Option<String>, String, String, Option<String>)>)
    ensures
        match url_fields(pp@) {
            None => r is None,
            Some((d, u, sv, sh, p)) => r matches Some((rd, ru, rsv, rsh, rp)) && opt_view(rd) == d
                && opt_view(ru) == u && rsv@ == sv && rsh@ == sh && opt_view(rp) == p,
        },
{
    let (auth, sp) = match split_once_exec(pp, '/') {
        None => {
            return None;
        },
        Some(x) => x,
    };
    let (share, path) = match split_once_exec(sp, '/') {
        Some((a, b)) => (a, Some(b)),
        None => (sp, None),
    };
    if auth.unicode_len() == 0 || share.unicode_len() == 0 {
        return None;
    }
    let (domain, rest) = match split_once_exec(auth, ';') {
        Some((d, r)) => {
            if d.unicode_len() > 0 && r.unicode_len() > 0 {
                (Some(d), r)
            } else {
                (None, auth)
            }
        },
        None => (None, auth),
    };
    let (user, server) = match split_once_exec(rest, '@') {
        Some((u, sv)) => {
            if u.unicode_len() > 0 && sv.unicode_len() > 0 {
                (Some(u), sv)
            } else {
                (None, rest)
            }
        },
        None => (None, rest),
    };
    if server.unicode_len() == 0 {
        return None;
    }
    Some((opt_from_str(domain), opt_from_str(user), String::from_str(server), String::from_str(share), opt_from_str(path)))
}

/// The client GUID a new context starts with: `libsmb2-rs` padded with zeros.
pub open spec fn default_guid() -> Seq<u8> {
    seq![0x6cu8, 0x69, 0x62, 0x73, 0x6d, 0x62, 0x32, 0x2d, 0x72, 0x73, 0, 0, 0, 0, 0, 0]
}

fn default_client_guid() -> (r: [u8; 16])
    ensures
        r@ == default_guid(),
{
    let g: [u8; 16] = [0x6c, 0x69, 0x62, 0x73, 0x6d, 0x62, 0x32, 0x2d, 0x72, 0x73, 0, 0, 0, 0, 0, 0];
    assert(g@ =~= default_guid());
    g
}

/// The state a client context keeps: configuration, connection target,
/// credentials, identity buffers and the last error.
#[derive(Debug, Clone, PartialEq, Eq)]
pub struct InitState {
    /// Mutable initialization and negotiation configuration.
    pub config: InitConfig,
    /// Server name copied from a parsed URL or setter.
    pub server: Option<String>,
    /// Share name copied from a parsed URL or setter.
    pub share: Option<String>,
    /// Authentication user.
    pub user: Option<String>,
    /// Authentication password.
    pub password: Option<String>,
    /// Authentication domain.
    pub domain: Option<String>,
    /// Client workstation name.
    pub workstation: Option<String>,
    /// Caller-defined opaque data represented as an address-sized value.
    pub opaque: Option<usize>,
    /// Client challenge bytes created during context initialization.
    pub client_challenge: [u8; 8],
    /// SMB3 salt bytes created during context initialization.
    pub salt: [u8; 32],
    /// Client GUID buffer.
    pub client_guid: [u8; 16],
    /// Negotiated dialect value.
    pub dialect: u16,
    /// Last NT status associated with the context.
    pub nterror: i32,
    /// Last stored error text; read it with [`InitState::error`].
    pub error_string: String,
}

/// The fields URL parsing and error reporting leave alone.
pub open spec fn same_identity(a: InitState, b: InitState) -> bool {
    &&& opt_view(a.password) == opt_view(b.password)
    &&& opt_view(a.workstation) == opt_view(b.workstation)
    &&& a.opaque == b.opaque
    &&& a.client_challenge == b.client_challenge
    &&& a.salt == b.salt
    &&& a.client_guid == b.client_guid
    &&& a.dialect == b.dialect
    &&& a.nterror == b.nterror
}

/// The fields URL parsing sets on success.
pub open spec fn same_target(a: InitState, b: InitState) -> bool {
    &&& opt_view(a.server) == opt_view(b.server)
    &&& opt_view(a.share) == opt_view(b.share)
    &&& opt_view(a.user) == opt_view(b.user)
    &&& opt_view(a.domain) == opt_view(b.domain)
}

impl InitState {
    /// The last stored error text.
    pub open spec fn error_text(&self) -> Seq<char> {
        self.error_string@
    }

    /// Creates context state with the initial defaults: default
    /// configuration, user `Guest`, zeroed challenge and salt, the default
    /// client GUID and no error.
    pub fn new() -> (r: Self)
        ensures
            r.config == default_config(),
            opt_view(r.user) == Some("Guest"@),
            r.server is None && r.share is None && r.password is None,
            r.domain is None && r.workstation is None && r.opaque is None,
            r.client_challenge@ == Seq::new(8, |i: int| 0u8),
            r.salt@ == Seq::new(32, |i: int| 0u8),
            r.client_guid@ == default_guid(),
            r.dialect == 0,
            r.nterror == 0,
            r.error_text() == Seq::<char>::empty(),
    {
        let r = InitState {
            config: InitConfig::default(),
            server: None,
            share: None,
            user: Some(String::from_str("Guest")),
            password: None,
            domain: None,
            workstation: None,
            opaque: None,
            client_challenge: [0u8; 8],
            salt: [0u8; 32],
            client_guid: default_client_guid(),
            dialect: 0,
            nterror: 0,
            error_string: String::new(),
        };
        assert(r.client_challenge@ =~= Seq::new(8, |i: int| 0u8));
        assert(r.salt@ =~= Seq::new(32, |i: int| 0u8));
        r
    }

    /// Stores the first 256 characters of `error_string`; an empty message
    /// also clears the NT status.
    pub fn set_error(&mut self, error_string: &str)
        ensures
            final(self).error_text() == truncated_error(error_string@),
            final(self).nterror == (if error_string@.len() == 0 { 0 } else { old(self).nterror }),
            final(self).config == old(self).config,
            same_target(*old(self), *final(self)),
            same_identity(*old(self), *final(self)) || error_string@.len() == 0,
            opt_view(final(self).password) == opt_view(old(self).password),
            opt_view(final(self).workstation) == opt_view(old(self).workstation),
            final(self).opaque == old(self).opaque,
            final(self).client_challenge == old(self).client_challenge,
            final(self).salt == old(self).salt,
            final(self).client_guid == old(self).client_guid,
            final(self).dialect == old(self).dialect,
    {
        let n = error_string.unicode_len();
        if n <= MAX_ERROR_SIZE {
            self.error_string = String::from_str(error_string);
        } else {
            self.error_string = String::from_str(error_string.substring_char(0, MAX_ERROR_SIZE));
        }
        if n == 0 {
            self.nterror = 0;
        }
    }

    /// Stores an NT status with its error string.
    pub fn set_nterror(&mut self, nterror: i32, error_string: &str)
        ensures
            final(self).error_text() == truncated_error(error_string@),
            final(self).nterror == nterror,
            final(self).config == old(self).config,
            same_target(*old(self), *final(self)),
    {
        self.set_error(error_string);
        self.nterror = nterror;
    }

    /// Returns the last stored error string.
    pub fn error(&self) -> (r: &str)
        ensures
            r@ == self.error_text(),
    {
        self.error_string.as_str()
    }

    /// Returns the last stored NT status.
    pub fn nterror(&self) -> (r: i32)
        ensures
            r == self.nterror,
    {
        self.nterror
    }

    /// Replaces the client GUID buffer.
    pub fn set_client_guid(&mut self, guid: [u8; 16])
        ensures
            final(self).client_guid == guid,
            final(self).config == old(self).config,
            final(self).error_text() == old(self).error_text(),
    {
        self.client_guid = guid;
    }

    /// Returns the client GUID buffer.
    pub fn client_guid(&self) -> (r: [u8; 16])
        ensures
            r == self.client_guid,
    {
        self.client_guid
    }

    /// Returns the negotiated dialect value.
    pub fn dialect(&self) -> (r: u16)
        ensures
            r == self.dialect,
    {
        self.dialect
    }

    /// Sets the configured security mode bitmask.
    pub fn set_security_mode(&mut self, security_mode: u16)
        ensures
            final(self).config == (InitConfig { security_mode, ..old(self).config }),
    {
        self.config.security_mode = security_mode;
    }

    /// Sets the authentication user.
    pub fn set_user(&mut self, user: Option<&str>)
        ensures
            opt_view(final(self).user) == match user {
                Some(u) => Some(u@),
                None => None::<Seq<char>>,
            },
            final(self).config == old(self).config,
    {
        self.user = opt_from_str(user);
    }

    /// Returns the configured authentication user.
    pub fn user(&self) -> (r: Option<&str>)
        ensures
            match r {
                Some(u) => opt_view(self.user) == Some(u@),
                None => self.user is None,
            },
    {
        match &self.user {
            Some(u) => Some(u.as_str()),
            None => None,
        }
    }

    /// Sets the authentication password.
    pub fn set_password(&mut self, password: Option<&str>)
        ensures
            opt_view(final(self).password) == match password {
                Some(u) => Some(u@),
                None => None::<Seq<char>>,
            },
            final(self).config == old(self).config,
    {
        self.password = opt_from_str(password);
    }

    /// Sets the authentication domain.
    pub fn set_domain(&mut self, domain: Option<&str>)
        ensures
            opt_view(final(self).domain) == match domain {
                Some(u) => Some(u@),
                None => None::<Seq<char>>,
            },
            final(self).config == old(self).config,
    {
        self.domain = opt_from_str(domain);
    }

    /// Returns the configured authentication domain.
    pub fn domain(&self) -> (r: Option<&str>)
        ensures
            match r {
                Some(u) => opt_view(self.domain) == Some(u@),
                None => self.domain is None,
            },
    {
        match &self.domain {
            Some(u) => Some(u.as_str()),
            None => None,
        }
    }

    /// Sets the workstation name.
    pub fn set_workstation(&mut self, workstation: Option<&str>)
        ensures
            opt_view(final(self).workstation) == match workstation {
                Some(u) => Some(u@),
                None => None::<Seq<char>>,
            },
            final(self).config == old(self).config,
    {
        self.workstation = opt_from_str(workstation);
    }

    /// Returns the configured workstation name.
    pub fn workstation(&self) -> (r: Option<&str>)
        ensures
            match r {
                Some(u) => opt_view(self.workstation) == Some(u@),
                None => self.workstation is None,
            },
    {
        match &self.workstation {
            Some(u) => Some(u.as_str()),
            None => None,
        }
    }

    /// Stores caller-defined opaque data.
    pub fn set_opaque(&mut self, opaque: Option<usize>)
        ensures
            final(self).opaque == opaque,
            final(self).config == old(self).config,
    {
        self.opaque = opaque;
    }

    /// Returns caller-defined opaque data.
    pub fn opaque(&self) -> (r: Option<usize>)
        ensures
            r == self.opaque,
    {
        self.opaque
    }

    /// Enables or disables SMB3 sealing.
    pub fn set_seal(&mut self, val: bool)
        ensures
            final(self).config == (InitConfig { seal: val, ..old(self).config }),
    {
        self.config.seal = val;
    }

    /// Enables or disables SMB2 signing.
    pub fn set_sign(&mut self, val: bool)
        ensures
            final(self).config == (InitConfig { sign: val, ..old(self).config }),
    {
        self.config.sign = val;
    }

    /// Sets the authentication method.
    pub fn set_authentication(&mut self, val: AuthenticationMethod)
        ensures
            final(self).config == (InitConfig { authentication: val, ..old(self).config }),
    {
        self.config.authentication = val;
    }

    /// Sets the operation timeout in seconds.
    pub fn set_timeout(&mut self, seconds: i32)
        ensures
            final(self).config == (InitConfig { timeout: seconds, ..old(self).config }),
    {
        self.config.timeout = seconds;
    }

    /// Sets the dialect version selector.
    pub fn set_version(&mut self, version: NegotiateVersion)
        ensures
            final(self).config == (InitConfig { version, ..old(self).config }),
    {
        self.config.version = version;
    }

    /// Sets pass-through decoding for complex command payloads.
    pub fn set_passthrough(&mut self, passthrough: bool)
        ensures
            final(self).config == (InitConfig { passthrough, ..old(self).config }),
    {
        self.config.passthrough = passthrough;
    }

    /// Returns the pass-through decoding setting.
    pub fn passthrough(&self) -> (r: bool)
        ensures
            r == self.config.passthrough,
    {
        self.config.passthrough
    }

    /// Parses an `smb://[domain;][user@]server/share[/path][?args]` URL.
    /// Query arguments update the configuration in order; on success the
    /// domain, user (when given), server and share are stored and the
    /// fields are returned. Each refusal stores its error message.
    pub fn parse_url(&mut self, url: &str) -> (r: InitResult<Smb2Url>)
        ensures
            same_identity(*old(self), *final(self)),
            !has_smb_scheme(url@) ==> {
                &&& r == Err::<Smb2Url, InitError>(InitError::InvalidScheme)
                &&& final(self).error_text() == truncated_error("URL does not start with 'smb://'"@)
                &&& final(self).config == old(self).config
                &&& same_target(*old(self), *final(self))
            },
            has_smb_scheme(url@) && vstd::utf8::encode_utf8(url_body(url@)).len() >= MAX_URL_SIZE ==> {
                &&& r == Err::<Smb2Url, InitError>(InitError::UrlTooLong)
                &&& final(self).error_text() == truncated_error("URL is too long"@)
                &&& final(self).config == old(self).config
                &&& same_target(*old(self), *final(self))
            },
            has_smb_scheme(url@) && vstd::utf8::encode_utf8(url_body(url@)).len() < MAX_URL_SIZE ==> {
                &&& final(self).config == url_config(old(self).config, url@)
                &&& match url_args_failure(old(self).config, url@) {
                    Some((Some(n), m)) => r matches Err(InitError::UnknownArgument(x)) && x@ == n
                        && final(self).error_text() == truncated_error(m)
                        && same_target(*old(self), *final(self)),
                    Some((None, m)) => r == Err::<Smb2Url, InitError>(InitError::SealRequiresSmb3)
                        && final(self).error_text() == truncated_error(m)
                        && same_target(*old(self), *final(self)),
                    None => match url_fields(url_path_part(url@)) {
                        None => r == Err::<Smb2Url, InitError>(InitError::WrongUrlFormat)
                            && final(self).error_text() == truncated_error("Wrong URL format"@)
                            && same_target(*old(self), *final(self)),
                        Some((d, u, sv, sh, p)) => {
                            &&& r matches Ok(parsed) && opt_view(parsed.domain) == d && opt_view(parsed.user) == u
                                && parsed.server@ == sv && parsed.share@ == sh && opt_view(parsed.path) == p
                            &&& url_join(d, u, sv, sh, p) == url_path_part(url@)
                            &&& final(self).error_text() == old(self).error_text()
                            &&& opt_view(final(self).domain) == d
                            &&& opt_view(final(self).user) == (match u {
                                Some(x) => Some(x),
                                None => opt_view(old(self).user),
                            })
                            &&& opt_view(final(self).server) == Some(sv)
                            &&& opt_view(final(self).share) == Some(sh)
                        },
                    },
                }
            },
    {
        let n = url.unicode_len();
        let scheme = n >= 6 && url.get_char(0) == 's' && url.get_char(1) == 'm' && url.get_char(2) == 'b'
            && url.get_char(3) == ':' && url.get_char(4) == '/' && url.get_char(5) == '/';
        if !scheme {
            proof {
                reveal_strlit("URL does not start with 'smb://'");
            }
            self.set_error("URL does not start with 'smb://'");
            return Err(InitError::InvalidScheme);
        }
        let body = url.substring_char(6, n);
        assert(body@ == url_body(url@));
        let blen = body.as_bytes().len();
        assert(blen == vstd::utf8::encode_utf8(url_body(url@)).len());
        if blen >= MAX_URL_SIZE {
            proof {
                reveal_strlit("URL is too long");
            }
            self.set_error("URL is too long");
            return Err(InitError::UrlTooLong);
        }
        let (pp, query) = match split_once_exec(body, '?') {
            Some((a, b)) => (a, Some(b)),
            None => (body, None),
        };
        match query {
            Some(q) => {
                proof {
                    lemma_args_messages_nonempty(self.config, q@);
                }
                let (c, failure) = parse_args(self.config, q);
                self.config = c;
                match failure {
                    Some((Some(name), m)) => {
                        self.set_error(m.as_str());
                        return Err(InitError::UnknownArgument(name));
                    },
                    Some((None, m)) => {
                        self.set_error(m.as_str());
                        return Err(InitError::SealRequiresSmb3);
                    },
                    None => {},
                }
            },
            None => {},
        }
        match url_fields_exec(pp) {
            None => {
                proof {
                reveal_strlit("Wrong URL format");
            }
            self.set_error("Wrong URL format");
                Err(InitError::WrongUrlFormat)
            },
            Some((domain, user, server, share, path)) => {
                let parsed = Smb2Url { domain, user, server, share, path };
                proof {
                    lemma_url_fields_reassemble(pp@);
                }
                self.apply_url(&parsed);
                Ok(parsed)
            },
        }
    }

    /// Stores the domain, user (when the URL names one), server and share of
    /// a parsed URL.
    fn apply_url(&mut self, url: &Smb2Url)
        ensures
            opt_view(final(self).domain) == opt_view(url.domain),
            opt_view(final(self).user) == (if url.user is Some {
                opt_view(url.user)
            } else {
                opt_view(old(self).user)
            }),
            opt_view(final(self).server) == Some(url.server@),
            opt_view(final(self).share) == Some(url.share@),
            same_identity(*old(self), *final(self)),
            final(self).config == old(self).config,
            final(self).error_text() == old(self).error_text(),
    {
        self.domain = clone_opt(&url.domain);
        match &url.user {
            Some(u) => {
                self.user = Some(u.clone());
            },
            None => {},
        }
        self.server = Some(url.server.clone());
        self.share = Some(url.share.clone());
    }

    /// Releases a parsed URL; ownership makes this a drop.
    pub fn destroy_url(&mut self, url: Smb2Url)
        ensures
            *final(self) == *old(self),
    {
    }
}

/// The part of a URL after the `smb://` scheme.
pub open spec fn url_body(s: Seq<char>) -> Seq<char> {
    s.subrange(6, s.len() as int)
}

/// The part of a URL body before any `?`.
pub open spec fn url_path_part(s: Seq<char>) -> Seq<char> {
    match split_once(url_body(s), '?') {
        Some((a, _)) => a,
        None => url_body(s),
    }
}

/// The query string of a URL, after its first `?`.
pub open spec fn url_query(s: Seq<char>) -> Option<Seq<char>> {
    match split_once(url_body(s), '?') {
        Some((_, b)) => Some(b),
        None => None,
    }
}

/// The configuration reached after a URL's query arguments.
pub open spec fn url_config(cfg: InitConfig, s: Seq<char>) -> InitConfig {
    match url_query(s) {
        Some(q) => parse_args_spec(cfg, q).0,
        None => cfg,
    }
}

/// The refusal of a URL's query arguments, if any.
pub open spec fn url_args_failure(cfg: InitConfig, s: Seq<char>) -> Option<(Option<Seq<char>>, Seq<char>)> {
    match url_query(s) {
        Some(q) => parse_args_spec(cfg, q).1,
        None => None,
    }
}

proof fn lemma_step_message_nonempty(cfg: InitConfig, arg: Seq<char>)
    ensures
        arg_step(cfg, arg) matches Err((_, m)) ==> m.len() > 0,
{
    reveal_strlit("Unknown sec= argument: ");
    reveal_strlit("Unknown vers= argument: ");
    reveal_strlit("Unknown argument: ");
}

proof fn lemma_fold_message_nonempty(cfg: InitConfig, pieces: Seq<Seq<char>>)
    ensures
        args_fold(cfg, pieces).1 matches Some((_, m)) ==> m.len() > 0,
    decreases pieces.len(),
{
    if pieces.len() > 0 {
        lemma_step_message_nonempty(cfg, pieces[0]);
        if pieces[0].len() == 0 {
            lemma_fold_message_nonempty(cfg, pieces.drop_first());
        } else {
            match arg_step(cfg, pieces[0]) {
                Ok(c) => lemma_fold_message_nonempty(c, pieces.drop_first()),
                Err(_) => {},
            }
        }
    }
}

/// Every refusal of a query string comes with a non-empty message.
pub proof fn lemma_args_messages_nonempty(cfg: InitConfig, args: Seq<char>)
    ensures
        parse_args_spec(cfg, args).1 matches Some((_, m)) ==> m.len() > 0,
{
    lemma_fold_message_nonempty(cfg, split_pieces(args, '&'));
    reveal_strlit("Can only use seal with SMB3");
}

/// Creates the internal connection record in its initial state: waiting
/// for a length prefix, no credits, no message or session, empty queues and
/// a header holding only the protocol identifier and the header size 64.
pub fn init_context() -> (r: Context)
    ensures
        r.recv_state == RecvState::Spl,
        r.credits == 0,
        r.message_id == 0,
        r.session_id == 0,
        r.tree_ids@.len() == 0,
        r.input.vectors@.len() == 0 && r.input.done == 0 && r.input.total_size == 0,
        r.header.protocol_id == crate::headers::smb2::protocol::SMB2_PROTOCOL_ID,
        r.header.struct_size == 64,
        r.header.credit_charge == 0 && r.header.status == 0 && r.header.command == 0,
        r.header.credit_request_response == 0 && r.header.flags == 0 && r.header.next_command == 0,
        r.header.message_id == 0 && r.header.process_id == 0 && r.header.tree_id == 0,
        r.header.async_id == 0 && r.header.session_id == 0,
        r.header.signature@ == Seq::new(16, |i: int| 0u8),
        r.outqueue@.len() == 0,
        r.waitqueue@.len() == 0,
{
    let r = Context {
        recv_state: RecvState::Spl,
        credits: 0,
        message_id: 0,
        session_id: 0,
        tree_ids: Vec::new(),
        input: IoVectors { vectors: Vec::new(), done: 0, total_size: 0 },
        header: Smb2Header {
            protocol_id: crate::headers::smb2::protocol::SMB2_PROTOCOL_ID,
            struct_size: 64,
            credit_charge: 0,
            status: 0,
            command: 0,
            credit_request_response: 0,
            flags: 0,
            next_command: 0,
            message_id: 0,
            process_id: 0,
            tree_id: 0,
            async_id: 0,
            session_id: 0,
            signature: [0u8; 16],
        },
        outqueue: Vec::new(),
        waitqueue: Vec::new(),
    };
    assert(r.header.signature@ =~= Seq::new(16, |i: int| 0u8));
    r
}

/// Releases all vectors and resets the counters.
pub fn free_iovector(v: &mut IoVectors)
    ensures
        final(v).vectors@.len() == 0,
        final(v).done == 0,
        final(v).total_size == 0,
{
    v.vectors.clear();
    v.done = 0;
    v.total_size = 0;
}

/// Appends an owned buffer to a vector list, refusing when the list holds
/// [`SMB2_MAX_VECTORS`] vectors or the total size would overflow.
pub fn add_iovector(v: &mut IoVectors, buf: Vec<u8>) -> (r: InitResult<()>)
    ensures
        old(v).vectors@.len() >= SMB2_MAX_VECTORS ==> r == Err::<(), InitError>(InitError::TooManyIoVectors)
            && *final(v) == *old(v),
        old(v).vectors@.len() < SMB2_MAX_VECTORS && old(v).total_size + buf@.len() > usize::MAX
            ==> r == Err::<(), InitError>(InitError::IoVectorSizeOverflow) && *final(v) == *old(v),
        old(v).vectors@.len() < SMB2_MAX_VECTORS && old(v).total_size + buf@.len() <= usize::MAX ==> {
            &&& r == Ok::<(), InitError>(())
            &&& final(v).vectors@ == old(v).vectors@.push(IoVec { buf })
            &&& final(v).total_size == old(v).total_size + buf@.len()
            &&& final(v).done == old(v).done
        },
{
    if v.vectors.len() >= SMB2_MAX_VECTORS {
        return Err(InitError::TooManyIoVectors);
    }
    match v.total_size.checked_add(buf.len()) {
        None => Err(InitError::IoVectorSizeOverflow),
        Some(t) => {
            v.total_size = t;
            v.vectors.push(IoVec { buf });
            Ok(())
        },
    }
}

} // verus!
