use lib::engine::compat::{
    copy_name, getaddrinfo_port, getaddrinfo_result, login_name, parse_u16, readv_len,
    readv_memory, scatter_readv, service_port, smb2_valid_socket, str_equals, writev_buffer,
    writev_len, writev_memory, CompatError, CompatRandom, IoVec, IoVecMut, MemoryReadWrite,
    MemoryTransportTable, PollEvents, PollFd, PollTimeout, POLLIN, POLLOUT,
};

#[test]
fn socket_validity() {
    assert!(smb2_valid_socket(0));
    assert!(smb2_valid_socket(17));
    assert!(!smb2_valid_socket(-1));
}

#[test]
fn ports_from_service_names() {
    assert_eq!(service_port("smb"), Ok(445));
    assert_eq!(service_port("microsoft-ds"), Ok(445));
    assert_eq!(service_port("netbios-ssn"), Ok(139));
    assert_eq!(service_port("8445"), Ok(8445));
    assert_eq!(service_port("70000"), Err(CompatError::AddressParseFailed));
    assert_eq!(service_port("http"), Err(CompatError::AddressParseFailed));
    assert_eq!(getaddrinfo_port(None, None), Ok(0));
    assert_eq!(getaddrinfo_port(Some("smb"), None), Ok(445));
}

#[test]
fn parse_u16_bounds() {
    assert_eq!(parse_u16("0"), Some(0));
    assert_eq!(parse_u16("65535"), Some(65535));
    assert_eq!(parse_u16("65536"), None);
    assert_eq!(parse_u16(""), None);
    assert_eq!(parse_u16("1x"), None);
    assert!(str_equals("abc", "abc"));
    assert!(!str_equals("abc", "abd"));
}

#[test]
fn address_result_uses_first_ipv4() {
    let a = getaddrinfo_result(445, Some([10, 0, 0, 1])).unwrap();
    assert_eq!(a.addr.address, [10, 0, 0, 1]);
    assert_eq!(a.addr.port, 445);
    assert_eq!(getaddrinfo_result(445, None).err(), Some(CompatError::AddressParseFailed));
}

#[test]
fn random_matches_linear_congruence() {
    let mut r = CompatRandom::new();
    let first = r.random();
    let next: u32 = 1u32.wrapping_mul(1_103_515_245).wrapping_add(12_345);
    assert_eq!(first, (next / 65_536) % 32_768);
    r.srandom(42);
    let v = r.random();
    let n2: u32 = 42u32.wrapping_mul(1_103_515_245).wrapping_add(12_345);
    assert_eq!(v, (n2 / 65_536) % 32_768);
    assert!(v < 32_768);
}

#[test]
fn copy_name_truncates_and_terminates() {
    let mut buf = [0xffu8; 4];
    assert_eq!(copy_name(&mut buf, "hostname"), Ok(3));
    assert_eq!(buf, [b'h', b'o', b's', 0]);
    let mut big = [0xffu8; 8];
    assert_eq!(copy_name(&mut big, "ab"), Ok(2));
    assert_eq!(&big[..3], &[b'a', b'b', 0]);
    assert_eq!(big[3], 0xff);
    let mut empty: [u8; 0] = [];
    assert_eq!(copy_name(&mut empty, "x"), Err(CompatError::InvalidInput));
}

#[test]
fn login_name_fallbacks() {
    assert_eq!(login_name(Some("a".into()), Some("b".into()), None), "a");
    assert_eq!(login_name(None, Some("b".into()), Some("c".into())), "b");
    assert_eq!(login_name(None, None, Some("c".into())), "c");
    assert_eq!(login_name(None, None, None), "unknown");
}

#[test]
fn vector_lengths_and_gather() {
    let a = [1u8, 2];
    let b = [3u8, 4, 5];
    let v = [IoVec::new(&a), IoVec::new(&b)];
    assert_eq!(writev_len(&v), Ok(5));
    assert_eq!(writev_buffer(&v), Ok(vec![1, 2, 3, 4, 5]));
}

#[test]
fn scatter_fills_vectors_in_order() {
    let mut x = [0u8; 2];
    let mut y = [0u8; 3];
    {
        let mut v = [IoVecMut::new(&mut x), IoVecMut::new(&mut y)];
        assert_eq!(readv_len(&v), Ok(5));
        assert_eq!(scatter_readv(&[9, 8, 7, 6], &mut v), Ok(4));
    }
    assert_eq!(x, [9, 8]);
    assert_eq!(y, [7, 6, 0]);
}

#[test]
fn memory_endpoint_reads_and_writes() {
    let mut m = MemoryReadWrite::with_readable(vec![1, 2, 3, 4]);
    let mut buf = [0u8; 3];
    assert_eq!(m.read(&mut buf), Ok(3));
    assert_eq!(buf, [1, 2, 3]);
    assert_eq!(m.readable_len(), 1);
    assert_eq!(m.read(&mut buf), Ok(1));
    assert_eq!(m.read(&mut buf), Err(CompatError::WouldBlock));
    assert_eq!(m.write(&[7, 8]), Ok(2));
    assert_eq!(m.written(), &[7, 8]);
    assert_eq!(m.take_written(), vec![7, 8]);
    assert!(m.written().is_empty());
}

#[test]
fn memory_endpoint_chunk_limits() {
    let mut m = MemoryReadWrite::with_readable(vec![1, 2, 3, 4]);
    m.set_max_read_chunk(Some(2));
    m.set_max_write_chunk(Some(1));
    let mut buf = [0u8; 4];
    assert_eq!(m.read(&mut buf), Ok(2));
    assert_eq!(m.write(&[5, 6, 7]), Ok(1));
    assert_eq!(m.written(), &[5]);
    m.push_readable(&[9]);
    assert_eq!(m.readable_len(), 3);
}

#[test]
fn memory_endpoint_readiness() {
    let m = MemoryReadWrite::with_readable(vec![1]);
    let r = m.poll_ready(PollEvents::from_bits(POLLIN | POLLOUT));
    assert_eq!(r.bits(), POLLIN | POLLOUT);
    let e = MemoryReadWrite::new();
    assert_eq!(e.poll_ready(PollEvents::from_bits(POLLIN | POLLOUT)).bits(), POLLOUT);
}

#[test]
fn vectored_memory_io() {
    let mut m = MemoryReadWrite::new();
    let a = [1u8, 2];
    let b = [3u8];
    assert_eq!(writev_memory(&mut m, &[IoVec::new(&a), IoVec::new(&b)]), Ok(3));
    assert_eq!(m.written(), &[1, 2, 3]);
    let mut r = MemoryReadWrite::with_readable(vec![4, 5, 6]);
    let mut x = [0u8; 1];
    let mut y = [0u8; 5];
    {
        let mut v = [IoVecMut::new(&mut x), IoVecMut::new(&mut y)];
        assert_eq!(readv_memory(&mut r, &mut v), Ok(3));
    }
    assert_eq!(x, [4]);
    assert_eq!(&y[..2], &[5, 6]);
}

#[test]
fn transport_table_routes_by_descriptor() {
    let mut t = MemoryTransportTable::new();
    assert_eq!(t.register(-1, MemoryReadWrite::new()), Err(CompatError::InvalidInput));
    assert_eq!(t.register(3, MemoryReadWrite::with_readable(vec![1, 2])), Ok(()));
    let data = [9u8];
    assert_eq!(t.writev(3, &[IoVec::new(&data)]), Ok(1));
    let mut fds = [
        PollFd::new(3, PollEvents::from_bits(POLLIN)),
        PollFd::new(4, PollEvents::from_bits(POLLOUT)),
        PollFd::new(-1, PollEvents::from_bits(POLLIN | POLLOUT)),
    ];
    assert_eq!(t.poll(&mut fds), 2);
    assert_eq!(fds[0].revents.bits(), POLLIN);
    assert_eq!(fds[1].revents.bits(), POLLOUT);
    assert_eq!(fds[2].revents.bits(), 0);
    let removed = t.unregister(3).unwrap();
    assert_eq!(removed.written(), &[9]);
    assert!(t.unregister(3).is_none());
}

#[test]
fn poll_timeout_from_milliseconds() {
    assert_eq!(PollTimeout::from(-1), PollTimeout::Infinite);
    assert_eq!(PollTimeout::from(0), PollTimeout::Immediate);
    assert_eq!(PollTimeout::from(250), PollTimeout::Milliseconds(250));
}

#[test]
fn error_codes_and_messages() {
    assert_eq!(CompatError::WouldBlock.errno_code(), 6);
    assert_eq!(CompatError::InvalidInput.errno_code(), 22);
    assert_eq!(CompatError::LengthOverflow.message(), "compatibility-layer byte count overflow");
}

#[test]
fn gathered_bytes_scatter_back_in_order() {
    let a = [1u8, 2, 3];
    let b = [4u8];
    let c = [5u8, 6];
    let src = [IoVec::new(&a), IoVec::new(&b), IoVec::new(&c)];
    let data = writev_buffer(&src).unwrap();
    let mut x = [0xAAu8; 4];
    let mut y = [0xBBu8; 4];
    {
        let mut dst = [IoVecMut::new(&mut x), IoVecMut::new(&mut y)];
        assert_eq!(scatter_readv(&data, &mut dst), Ok(6));
    }
    let mut back = x.to_vec();
    back.extend_from_slice(&y);
    assert_eq!(&back[..6], &data[..]);
    assert_eq!(&back[6..], &[0xBB, 0xBB]);
}

#[test]
fn scatter_into_smaller_vectors_keeps_a_prefix() {
    let a = [1u8, 2, 3, 4, 5];
    let src = [IoVec::new(&a)];
    let data = writev_buffer(&src).unwrap();
    let mut x = [0u8; 1];
    let mut y = [0u8; 2];
    {
        let mut dst = [IoVecMut::new(&mut x), IoVecMut::new(&mut y)];
        assert_eq!(scatter_readv(&data, &mut dst), Ok(3));
    }
    assert_eq!(x, [1]);
    assert_eq!(y, [2, 3]);
}
