use lib::engine::dcerpc::{
    align_offset, dcerpc_uint32_coder, ndr32_syntax, DceRpcContext, DceRpcError, DceRpcPdu,
    Direction, NdrPreference, PtrType, TransferSyntax, MAX_DEFERRED_PTR,
};
use lib::engine::lsa_client::{RpcUnicodeString, SidNameUse};
use lib::engine::srvsvc_client::{ShareInfoLevel, SrvsvcCodecError};
use lib::headers::smb2::dcerpc::{
    dcerpc_allocate_pdu, dcerpc_create_context, dcerpc_get_error, dcerpc_get_pdu_payload,
    dcerpc_get_size_is, dcerpc_set_size_is, dcerpc_uint8_coder, lsa_interface, srvsvc_interface,
    DceRpcPdu as HeaderPdu, DCERPC_ENCODE,
};
use lib::headers::smb2::libsmb2::{
    accept_connection_async, bind_and_listen, serve_port, timeval_to_win, utf16_to_utf8, utf8_to_utf16,
    win_to_timeval, ErrorCode, FileType, NegotiateVersion, TimeVal,
};
use lib::headers::smb2::libsmb2_raw::{cmd_echo_async, FileId, RawCommandDirection, RawCommandKind};
use lib::headers::smb2::protocol::Command;
use lib::headers::smb2::smb2_errors::{ntstatus_facility, ntstatus_severity, NtStatus, NtStatusSeverity};
use lib::headers::smb2::srvsvc::{ShareInfoLevel as HeaderShareInfoLevel, ShareType};
use lib::engine::client::Smb2Client;

#[test]
fn alignment_rounds_up() {
    assert_eq!(align_offset(0, 8), 0);
    assert_eq!(align_offset(1, 8), 8);
    assert_eq!(align_offset(9, 4), 12);
    assert_eq!(align_offset(5, 1), 5);
}

#[test]
fn dcerpc_context_calls_and_syntaxes() {
    let mut c = DceRpcContext::new();
    assert_eq!(c.call_id, 1);
    c.connect_context("srvsvc", ndr32_syntax());
    assert_eq!(c.path.as_deref(), Some("srvsvc"));
    assert_eq!(c.call_id, 2);
    let pdu = c.allocate_pdu(Direction::Encode, 4);
    assert_eq!(pdu.payload(), &[0, 0, 0, 0]);
    assert_eq!(c.call_id, 3);
    assert_eq!(c.tctx_id(), 0);
    c.set_tctx(1);
    assert_eq!(c.transfer_syntax, TransferSyntax::Ndr64);
    assert_eq!(c.align_3264(9), 16);
    assert_eq!(c.build_bind_pdu(NdrPreference::Any).p_cont_elem.len(), 2);
    assert_eq!(c.build_bind_pdu(NdrPreference::Ndr64).p_cont_elem.len(), 1);
    assert_eq!(c.open_async(), Err(DceRpcError::ProtocolNotImplemented("dcerpc_open_async")));
    assert_eq!(dcerpc_uint32_coder(), Err(DceRpcError::ProtocolNotImplemented("dcerpc_uint32_coder")));
}

#[test]
fn deferred_pointers_are_bounded() {
    let mut pdu = DceRpcPdu::new(7, Direction::Decode, 0);
    pdu.add_deferred_pointer(PtrType::Unique, "a").unwrap();
    pdu.add_deferred_pointer(PtrType::Ref, "b").unwrap();
    let drained = pdu.drain_deferred_pointers();
    assert_eq!(drained.len(), 2);
    assert_eq!(drained[0].coder_name, "a");
    for _ in 0..MAX_DEFERRED_PTR {
        pdu.add_deferred_pointer(PtrType::Full, "x").unwrap();
    }
    assert_eq!(
        pdu.add_deferred_pointer(PtrType::Full, "y"),
        Err(DceRpcError::TooManyDeferredPointers { max: MAX_DEFERRED_PTR })
    );
    pdu.set_endian(false);
    assert!(!pdu.is_little_endian());
    pdu.set_endian(true);
    assert!(pdu.is_little_endian());
}

#[test]
fn header_dcerpc_helpers() {
    let mut ctx = dcerpc_create_context(Smb2Client::new());
    assert_eq!(dcerpc_get_error(&ctx), None);
    assert_eq!(dcerpc_allocate_pdu(&mut ctx, DCERPC_ENCODE, -1).err(), Some(ErrorCode(-22)));
    let mut pdu = dcerpc_allocate_pdu(&mut ctx, DCERPC_ENCODE, 3).unwrap();
    assert_eq!(dcerpc_get_pdu_payload(&pdu), &[0, 0, 0]);
    dcerpc_set_size_is(&mut pdu, 12);
    assert_eq!(dcerpc_get_size_is(&pdu), 12);
    assert_eq!(HeaderPdu::default().size_is, 0);
    assert_eq!(lsa_interface().uuid.v1, 0x1234_5778);
    assert_eq!(srvsvc_interface().vers, 3);
    let mut iov = lib::engine::context::IoVec { buf: Vec::new() };
    let mut off = 0usize;
    let mut v = 0u8;
    assert_eq!(dcerpc_uint8_coder(&mut ctx, &mut pdu, &mut iov, &mut off, &mut v), Err(ErrorCode(-38)));
}

#[test]
fn unicode_string_lengths() {
    let s = RpcUnicodeString::new("abc");
    assert_eq!(s.length_bytes(), 6);
    assert_eq!(s.maximum_length_bytes(), 8);
    let t = RpcUnicodeString::new("ab");
    assert_eq!(t.maximum_length_bytes(), 4);
}

#[test]
fn sid_name_use_round_trip() {
    for v in 0u32..12 {
        assert_eq!(SidNameUse::from_raw(v).as_raw(), v);
    }
}

#[test]
fn share_levels_and_types() {
    assert_eq!(ShareInfoLevel::try_from_u32(1), Ok(ShareInfoLevel::Level1));
    assert_eq!(ShareInfoLevel::try_from_u32(2), Err(SrvsvcCodecError::UnsupportedShareInfoLevel(2)));
    assert_eq!(ShareInfoLevel::Level0.as_u32(), 0);
    assert_eq!(HeaderShareInfoLevel::from(7u32), HeaderShareInfoLevel::Unknown(7));
    assert_eq!(u32::from(HeaderShareInfoLevel::Level1), 1);
    for bits in [0u32, 1, 2, 3, 0x4000_0000, 0x8000_0003, 0x1234_5671] {
        assert_eq!(ShareType::from_bits(bits).to_bits(), bits);
    }
}

#[test]
fn timestamps() {
    assert_eq!(win_to_timeval(0), TimeVal { seconds: 0, microseconds: 0 });
    let t = 116_444_736_000_000_000u64 + 12_345_678;
    let tv = win_to_timeval(t);
    assert_eq!(tv, TimeVal { seconds: 1, microseconds: 234_567 });
    assert_eq!(timeval_to_win(tv), t - 8);
}

#[test]
fn raw_values_round_trip() {
    for raw in [0u32, 1, 2, 9] {
        assert_eq!(FileType::from_raw(raw).as_raw(), raw);
    }
    assert_eq!(FileType::from_raw(1), FileType::Directory);
    for raw in [0u16, 0x0202, 0x0311, 0x1234] {
        assert_eq!(NegotiateVersion::from_raw(raw).as_raw(), raw);
    }
    let bytes = [1u8, 2, 3, 4, 5, 6, 7, 8, 9, 10, 11, 12, 13, 14, 15, 16];
    let id = FileId::from_le_bytes(bytes);
    assert_eq!(id.persistent, 0x0807_0605_0403_0201);
    assert_eq!(id.to_le_bytes(), bytes);
}

#[test]
fn command_ids() {
    assert_eq!(Command::Echo.as_u16(), 13);
    assert_eq!(Command::from_u16(13), Some(Command::Echo));
    assert_eq!(Command::from_u16(114), Some(Command::Smb1Negotiate));
    assert_eq!(Command::from_u16(99), None);
    let e = cmd_echo_async();
    assert_eq!(e.kind, RawCommandKind::Echo);
    assert_eq!(e.direction, RawCommandDirection::Request);
}

#[test]
fn ntstatus_fields() {
    assert_eq!(ntstatus_severity(0), NtStatusSeverity::Success);
    assert_eq!(ntstatus_severity(0xC000_0022), NtStatusSeverity::Error);
    assert_eq!(ntstatus_severity(0x8000_0005), NtStatusSeverity::Warning);
    assert_eq!(ntstatus_facility(0xC00A_0001), 0x000A_0000);
    let s = NtStatus::new(0xE000_1234);
    assert!(s.is_customer_defined());
    assert_eq!(s.code(), 0x1234);
    assert!(NtStatus::new(0).is_success());
}

#[test]
fn server_request_helpers() {
    assert_eq!(bind_and_listen(445, -1).err(), Some(ErrorCode(-22)));
    assert_eq!(bind_and_listen(445, 4).unwrap().port, 445);
    assert_eq!(accept_connection_async(-1, 10), Err(ErrorCode(-22)));
    assert_eq!(accept_connection_async(3, 10), Ok((3, 10)));
    let u = utf8_to_utf16("hé");
    assert_eq!(u.value, vec![0x68, 0xe9]);
    assert_eq!(utf16_to_utf8(&u.value), "hé");
}

#[test]
fn utf16_round_trip_with_surrogate_pairs() {
    let s = "a\u{10437}z\u{FFFF}";
    let u = utf8_to_utf16(s);
    assert_eq!(u.value.len(), s.encode_utf16().count());
    assert_eq!(u.value, vec![0x61, 0xD801, 0xDC37, 0x7A, 0xFFFF]);
    assert_eq!(utf16_to_utf8(&u.value), s);
}

#[test]
fn freshly_bound_server_is_not_served() {
    let server = bind_and_listen(445, 0).unwrap();
    assert_eq!(server.port, 445);
    assert_eq!(serve_port(&server, 4), Err(ErrorCode(-22)));
}
