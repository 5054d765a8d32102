use lib::engine::asn1_ber::{
    Asn1BerContext, Asn1BerOidValue, BerError, BerTag, BerType, ASN_CONSTRUCTOR,
    ASN_CONTEXT_SPECIFIC, ASN_STRUCT,
};
use lib::engine::krb5::{
    krb5_can_do_ntlmssp, krb5_set_gss_error_message, service_name, strip_port, u32_to_decimal,
    GssToken, Krb5ContextState, Krb5Error, Krb5Mechanism, Krb5NegotiateConfig, PrivateAuthData,
};

#[test]
fn service_principal_names() {
    assert_eq!(strip_port("fileserver:445"), Ok("fileserver".to_string()));
    assert_eq!(strip_port("fileserver"), Ok("fileserver".to_string()));
    assert_eq!(strip_port(":445"), Err(Krb5Error::EmptyHost));
    assert_eq!(service_name("host"), "cifs@host");
}

#[test]
fn decimal_and_gss_messages() {
    assert_eq!(u32_to_decimal(0), "0");
    assert_eq!(u32_to_decimal(4_294_967_295), "4294967295");
    assert_eq!(krb5_set_gss_error_message("gss_init", 851_968, 2), "gss_init: (851968, 2)");
    assert!(!krb5_can_do_ntlmssp());
}

#[test]
fn negotiate_with_delegated_credential() {
    let cfg = Krb5NegotiateConfig {
        server: "srv:445".to_string(),
        use_spnego: true,
        delegated_credential: Some("cred".to_string()),
        ..Krb5NegotiateConfig::default()
    };
    let a = PrivateAuthData::negotiate_reply(cfg).unwrap();
    assert_eq!(a.g_server(), Some("cifs@srv"));
    assert_eq!(a.target_name(), Some("cifs@srv"));
    assert_eq!(a.mechanism(), Krb5Mechanism::Spnego);
    assert_eq!(a.context_state(), Krb5ContextState::Initiating);
    assert!(a.use_spnego());
    assert_eq!(a.user_name(), None);
}

#[test]
fn negotiate_checks_inputs() {
    let empty_host = Krb5NegotiateConfig { server: String::new(), ..Krb5NegotiateConfig::default() };
    assert_eq!(PrivateAuthData::negotiate_reply(empty_host).err(), Some(Krb5Error::EmptyHost));
    let cached = Krb5NegotiateConfig {
        server: "h".to_string(),
        use_cached_creds: true,
        ..Krb5NegotiateConfig::default()
    };
    assert_eq!(
        PrivateAuthData::negotiate_reply(cached).err(),
        Some(Krb5Error::MissingParameter("domain"))
    );
    let plain = Krb5NegotiateConfig { server: "h".to_string(), ..Krb5NegotiateConfig::default() };
    assert_eq!(
        PrivateAuthData::negotiate_reply(plain).err(),
        Some(Krb5Error::MissingParameter("user_name"))
    );
    let with_user = Krb5NegotiateConfig {
        server: "h".to_string(),
        user_name: Some("u".to_string()),
        ..Krb5NegotiateConfig::default()
    };
    assert_eq!(
        PrivateAuthData::negotiate_reply(with_user).err(),
        Some(Krb5Error::ProtocolLogicNotImplemented)
    );
}

#[test]
fn session_key_handling() {
    let mut a = PrivateAuthData::new();
    assert_eq!(a.session_get_session_key().err(), Some(Krb5Error::MissingSessionKey));
    a.set_session_key(vec![1, 2, 3]);
    assert_eq!(a.session_get_session_key(), Ok(&[1u8, 2, 3][..]));
    a.free_auth_data();
    assert_eq!(a.get_output_token_length(), 0);
}

#[test]
fn gss_token_bytes() {
    let mut t = GssToken::from_bytes(vec![1, 2]);
    assert_eq!(t.len(), 2);
    t.replace(vec![9]);
    assert_eq!(t.as_bytes(), &[9]);
    t.clear();
    assert!(t.is_empty());
    assert_eq!(GssToken::new().into_bytes(), Vec::<u8>::new());
}

#[test]
fn ber_type_codes() {
    assert_eq!(BerType::boolean().value(), 0x01);
    assert_eq!(BerType::octet_string().value(), 0x04);
    assert_eq!(BerType::sequence_type().value(), 0x10);
    assert_eq!(BerType::sequence(0).value(), ASN_STRUCT);
    assert_eq!(BerType::sequence(1).value(), 0x31);
    assert_eq!(BerType::context(2).value(), ASN_CONTEXT_SPECIFIC | ASN_CONSTRUCTOR | 2);
    assert_eq!(BerType::context_simple(0).value(), 0x80);
    let tag = BerTag::from_type_code(BerType::context(3));
    assert_eq!(tag.class, 0xa0);
    assert_eq!(tag.number, 3);
    assert_eq!(BerType::from(0x42u8), BerType(0x42));
}

#[test]
fn ber_output_cursor() {
    let mut buf = [0u8; 2];
    {
        let mut c = Asn1BerContext::from_dst(&mut buf);
        assert_eq!(c.ber_from_typecode(BerType::sequence_type()), Ok(()));
        assert_eq!(c.out_byte(5), Ok(()));
        assert_eq!(c.dst_head(), 2);
        assert_eq!(c.out_byte(6), Err(BerError::OutputTooSmall));
        assert_eq!(c.last_error(), Some(BerError::OutputTooSmall));
    }
    assert_eq!(buf, [0x10, 5]);
}

#[test]
fn ber_input_cursor() {
    let src = [7u8];
    let mut c = Asn1BerContext::from_src(&src);
    assert_eq!(c.next_byte(), Ok(7));
    assert_eq!(c.src_tail(), 1);
    assert_eq!(c.next_byte(), Err(BerError::UnexpectedEof));
}

#[test]
fn ber_reserved_length_writes_zeros_until_full() {
    let mut buf = [9u8; 4];
    {
        let mut c = Asn1BerContext::from_dst(&mut buf);
        assert_eq!(c.ber_reserve_length(3), Ok(()));
        assert_eq!(c.ber_reserve_length(2), Err(BerError::OutputTooSmall));
    }
    assert_eq!(buf, [0, 0, 0, 0]);
}

#[test]
fn ber_unsupported_steps_are_named() {
    let mut buf = [0u8; 4];
    let mut c = Asn1BerContext::from_dst(&mut buf);
    assert_eq!(c.ber_from_string("x"), Err(BerError::Unsupported("asn1ber_ber_from_bytes")));
    assert_eq!(c.last_error(), Some(BerError::Unsupported("asn1ber_ber_from_bytes")));
}

#[test]
fn oid_storage_starts_empty() {
    let mut o = Asn1BerOidValue::new();
    assert!(o.is_empty());
    assert_eq!(o.len(), 0);
    assert!(o.elements().is_empty());
    o.clear();
    assert_eq!(o.len(), 0);
}
