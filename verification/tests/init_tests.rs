use lib::engine::context::{IoVectors, RecvState};
use lib::engine::init::{
    add_iovector, find_char, free_iovector, init_context, parse_args, parse_i32, parse_security_arg,
    parse_version_arg, split_once_exec,
    step_arg, url_fields_exec, AuthenticationMethod, Endianness, InitConfig, InitError, InitState,
    NdrMode, NegotiateVersion,
};

#[test]
fn new_state_has_defaults() {
    let s = InitState::new();
    assert_eq!(s.config, InitConfig::default());
    assert_eq!(s.user(), Some("Guest"));
    assert_eq!(s.error(), "");
    assert_eq!(s.nterror(), 0);
    assert_eq!(s.dialect(), 0);
    assert!(!s.passthrough());
}

#[test]
fn parse_url_full_form() {
    let mut s = InitState::new();
    let u = s.parse_url("smb://DOM;alice@host/share/dir/file").unwrap();
    assert_eq!(u.domain.as_deref(), Some("DOM"));
    assert_eq!(u.user.as_deref(), Some("alice"));
    assert_eq!(u.server, "host");
    assert_eq!(u.share, "share");
    assert_eq!(u.path.as_deref(), Some("dir/file"));
    assert_eq!(s.user(), Some("alice"));
    assert_eq!(s.domain(), Some("DOM"));
    assert_eq!(s.server.as_deref(), Some("host"));
    assert_eq!(s.share.as_deref(), Some("share"));
}

#[test]
fn parse_url_without_user_keeps_previous_user() {
    let mut s = InitState::new();
    let u = s.parse_url("smb://host/share").unwrap();
    assert_eq!(u.user, None);
    assert_eq!(u.path, None);
    assert_eq!(s.user(), Some("Guest"));
}

#[test]
fn parse_url_rejects_bad_scheme() {
    let mut s = InitState::new();
    assert_eq!(s.parse_url("http://host/share"), Err(InitError::InvalidScheme));
    assert_eq!(s.error(), "URL does not start with 'smb://'");
}

#[test]
fn parse_url_rejects_missing_share() {
    let mut s = InitState::new();
    assert_eq!(s.parse_url("smb://host"), Err(InitError::WrongUrlFormat));
    assert_eq!(s.error(), "Wrong URL format");
    assert_eq!(s.parse_url("smb://host/"), Err(InitError::WrongUrlFormat));
    assert_eq!(s.parse_url("smb:///share"), Err(InitError::WrongUrlFormat));
}

#[test]
fn parse_url_rejects_long_url() {
    let mut s = InitState::new();
    let long = format!("smb://{}", "a".repeat(1024));
    assert_eq!(s.parse_url(&long), Err(InitError::UrlTooLong));
    assert_eq!(s.error(), "URL is too long");
}

#[test]
fn parse_url_applies_arguments() {
    let mut s = InitState::new();
    s.parse_url("smb://h/s?sign&sec=krb5cc&vers=3.02&timeout=17&ndr64&be").unwrap();
    assert!(s.config.sign);
    assert_eq!(s.config.authentication, AuthenticationMethod::Krb5);
    assert!(s.config.use_cached_creds);
    assert_eq!(s.config.version, NegotiateVersion::V0302);
    assert_eq!(s.config.timeout, 17);
    assert_eq!(s.config.ndr, NdrMode::Ndr64);
    assert_eq!(s.config.endianness, Endianness::Big);
}

#[test]
fn seal_upgrades_any_to_smb3() {
    let mut s = InitState::new();
    s.parse_url("smb://h/s?seal").unwrap();
    assert!(s.config.seal);
    assert_eq!(s.config.version, NegotiateVersion::Any3);
}

#[test]
fn seal_with_smb2_is_refused() {
    let mut s = InitState::new();
    assert_eq!(s.parse_url("smb://h/s?vers=2&seal"), Err(InitError::SealRequiresSmb3));
    assert_eq!(s.error(), "Can only use seal with SMB3");
}

#[test]
fn unknown_arguments_are_refused() {
    let mut s = InitState::new();
    assert_eq!(
        s.parse_url("smb://h/s?bogus=1"),
        Err(InitError::UnknownArgument("bogus".to_string()))
    );
    assert_eq!(s.error(), "Unknown argument: bogus");
    assert_eq!(s.parse_url("smb://h/s?sec=foo"), Err(InitError::UnknownArgument("sec".to_string())));
    assert_eq!(s.error(), "Unknown sec= argument: foo");
    assert_eq!(s.parse_url("smb://h/s?vers=9"), Err(InitError::UnknownArgument("vers".to_string())));
    assert_eq!(s.error(), "Unknown vers= argument: 9");
}

#[test]
fn timeout_argument_defaults_to_zero() {
    let (cfg, err) = parse_args(InitConfig::default(), "timeout=abc");
    assert!(err.is_none());
    assert_eq!(cfg.timeout, 0);
    let (cfg, _) = parse_args(InitConfig::default(), "&&timeout=-5&");
    assert_eq!(cfg.timeout, -5);
}

#[test]
fn step_arg_sets_one_option() {
    let cfg = step_arg(InitConfig::default(), "sec=ntlmssp").unwrap();
    assert_eq!(cfg.authentication, AuthenticationMethod::NtlmSsp);
    let cfg = step_arg(InitConfig::default(), "vers=3.0").unwrap();
    assert_eq!(cfg.version, NegotiateVersion::V0300);
    assert_eq!(
        step_arg(InitConfig::default(), "xyz"),
        Err(("xyz".to_string(), "Unknown argument: xyz".to_string()))
    );
}

#[test]
fn parse_i32_follows_str_parse() {
    assert_eq!(parse_i32("42"), Some(42));
    assert_eq!(parse_i32("-2147483648"), Some(i32::MIN));
    assert_eq!(parse_i32("+7"), Some(7));
    assert_eq!(parse_i32("2147483648"), None);
    assert_eq!(parse_i32(""), None);
    assert_eq!(parse_i32("-"), None);
    assert_eq!(parse_i32("1a"), None);
}

#[test]
fn char_helpers() {
    assert_eq!(find_char("a;b;c", ';'), Some(1));
    assert_eq!(find_char("abc", ';'), None);
    assert_eq!(split_once_exec("k=v=w", '='), Some(("k", "v=w")));
    assert_eq!(split_once_exec("kv", '='), None);
}

#[test]
fn url_fields_split_authority() {
    let f = url_fields_exec("u@h/s").unwrap();
    assert_eq!(f, (None, Some("u".to_string()), "h".to_string(), "s".to_string(), None));
    assert!(url_fields_exec("h").is_none());
}

#[test]
fn error_string_is_truncated() {
    let mut s = InitState::new();
    let long = "x".repeat(300);
    s.set_error(&long);
    assert_eq!(s.error().chars().count(), 256);
    s.set_nterror(-3, "bad");
    assert_eq!(s.nterror(), -3);
    assert_eq!(s.error(), "bad");
}

#[test]
fn init_context_starts_empty() {
    let c = init_context();
    assert_eq!(c.recv_state, RecvState::Spl);
    assert_eq!(c.credits, 0);
    assert_eq!(c.message_id, 0);
    assert!(c.input.vectors.is_empty());
}

#[test]
fn iovector_accounting() {
    let mut v = IoVectors::default();
    add_iovector(&mut v, vec![1, 2, 3]).unwrap();
    add_iovector(&mut v, vec![4]).unwrap();
    assert_eq!(v.vectors.len(), 2);
    assert_eq!(v.total_size, 4);
    free_iovector(&mut v);
    assert_eq!(v.total_size, 0);
    assert!(v.vectors.is_empty());
    for _ in 0..256 {
        add_iovector(&mut v, Vec::new()).unwrap();
    }
    assert_eq!(add_iovector(&mut v, vec![1]), Err(InitError::TooManyIoVectors));
}

#[test]
fn security_and_version_arguments() {
    let cfg = parse_security_arg(InitConfig::default(), Some("krb5cc")).unwrap();
    assert_eq!(cfg.authentication, AuthenticationMethod::Krb5);
    assert!(cfg.use_cached_creds);
    assert_eq!(
        parse_security_arg(InitConfig::default(), None),
        Err(("sec".to_string(), "Unknown sec= argument: ".to_string()))
    );
    assert_eq!(parse_version_arg(InitConfig::default(), Some("3.1.1")).unwrap().version, NegotiateVersion::V0311);
    assert_eq!(parse_version_arg(InitConfig::default(), Some("2.10")).unwrap().version, NegotiateVersion::V0210);
    assert_eq!(
        parse_version_arg(InitConfig::default(), Some("4")),
        Err(("vers".to_string(), "Unknown vers= argument: 4".to_string()))
    );
}

#[test]
fn parsed_url_fields_reassemble_the_path_part() {
    let url = "smb://DOM;alice@host/share/dir/file?sec=ntlmssp";
    let mut s = InitState::new();
    let u = s.parse_url(url).unwrap();
    let mut joined = String::new();
    if let Some(d) = &u.domain {
        joined.push_str(d);
        joined.push(';');
    }
    if let Some(x) = &u.user {
        joined.push_str(x);
        joined.push('@');
    }
    joined.push_str(&u.server);
    joined.push('/');
    joined.push_str(&u.share);
    if let Some(p) = &u.path {
        joined.push('/');
        joined.push_str(p);
    }
    assert_eq!(joined, "DOM;alice@host/share/dir/file");
}
