//! Platform compatibility helpers: socket validity, address records, the
//! fallback pseudo-random generator, bounded name copies, scatter/gather
//! vector accounting, an in-memory read/write endpoint and poll readiness.
use vstd::prelude::*;
use vstd::string::StringSliceAdditionalSpecFns;

verus! {

/// Platform socket descriptor abstraction.
pub type Socket = i32;

/// Process identifier returned by the compatibility layer.
pub type ProcessId = u32;

/// Address family value used by the IPv4-only fallback.
pub const AF_INET: i32 = 2;

/// Address family value used when the caller does not require a specific family.
pub const AF_UNSPEC: i32 = 0;

/// Read readiness event.
pub const POLLIN: i16 = 0x0001;

/// Urgent read readiness event.
pub const POLLPRI: i16 = 0x0002;

/// Write readiness event.
pub const POLLOUT: i16 = 0x0004;

/// Hang-up event.
pub const POLLHUP: i16 = 0x0010;

/// Portable invalid socket value.
pub const SMB2_INVALID_SOCKET: Socket = -1;

const ENOMEM: i32 = 12;

const EINVAL: i32 = 22;

const ENXIO: i32 = 6;

/// Errors of the compatibility helpers.
#[derive(Debug, Clone, PartialEq, Eq)]
#[non_exhaustive]
pub enum CompatError {
    /// The caller supplied an invalid argument.
    InvalidInput,
    /// A byte-count calculation exceeded `isize::MAX`.
    LengthOverflow,
    /// The requested address could not be represented by the IPv4 fallback.
    AddressParseFailed,
    /// A nonblocking memory transport has no bytes available for the operation.
    WouldBlock,
}

impl CompatError {
    /// Returns the positive errno-style value of the error.
    pub fn errno_code(&self) -> (r: i32)
        ensures
            r == match self {
                CompatError::WouldBlock => 6i32,
                _ => 22i32,
            },
    {
        match self {
            CompatError::InvalidInput | CompatError::AddressParseFailed => EINVAL,
            CompatError::LengthOverflow => EINVAL,
            CompatError::WouldBlock => ENXIO,
        }
    }

    /// Returns the human-readable description of the error.
    pub fn message(&self) -> (r: &'static str)
        ensures
            r@ == compat_error_message(*self),
    {
        match self {
            CompatError::InvalidInput => "invalid compatibility-layer input",
            CompatError::LengthOverflow => "compatibility-layer byte count overflow",
            CompatError::AddressParseFailed => "failed to parse compatibility-layer address",
            CompatError::WouldBlock => "compatibility-layer operation would block",
        }
    }
}

/// The description text of each compatibility error.
pub open spec fn compat_error_message(e: CompatError) -> Seq<char> {
    match e {
        CompatError::InvalidInput => "invalid compatibility-layer input"@,
        CompatError::LengthOverflow => "compatibility-layer byte count overflow"@,
        CompatError::AddressParseFailed => "failed to parse compatibility-layer address"@,
        CompatError::WouldBlock => "compatibility-layer operation would block"@,
    }
}

/// Result type returned by compatibility helpers.
pub type CompatResult<T> = Result<T, CompatError>;

/// Returns whether a socket descriptor is valid.
pub fn smb2_valid_socket(socket: Socket) -> (r: bool)
    ensures
        r == (socket >= 0),
{
    socket >= 0
}

/// IPv4 socket address record: family, the four address octets in network
/// order, and the port in host byte order.
#[derive(Debug, Clone, PartialEq, Eq)]
pub struct SockAddrIn {
    /// Address family, normally [`AF_INET`].
    pub family: i32,
    /// IPv4 address octets, most significant first.
    pub address: [u8; 4],
    /// TCP or UDP port in host byte order.
    pub port: u16,
}

impl SockAddrIn {
    /// Creates an IPv4 socket address record.
    pub fn new(address: [u8; 4], port: u16) -> (r: Self)
        ensures
            r.family == AF_INET,
            r.address == address,
            r.port == port,
    {
        SockAddrIn { family: AF_INET, address, port }
    }
}

/// Address-info result holding one IPv4 socket address.
#[derive(Debug, Clone, PartialEq, Eq)]
pub struct AddrInfo {
    /// Address family selected for the result.
    pub family: i32,
    /// IPv4 socket address.
    pub addr: SockAddrIn,
}

impl AddrInfo {
    /// Creates an address-info record for an IPv4 socket address.
    pub fn new(addr: SockAddrIn) -> (r: Self)
        ensures
            r.family == addr.family,
            r.addr == addr,
    {
        AddrInfo { family: addr.family, addr }
    }

    /// Returns the size in bytes of a `sockaddr_in` record.
    pub fn addr_len(&self) -> (r: usize)
        ensures
            r == 16,
    {
        16
    }
}

/// Optional address resolution hints.
#[derive(Debug, Clone, Copy, PartialEq, Eq)]
pub struct AddrInfoHints {
    /// Desired address family, or `None` when the caller accepts the fallback.
    pub family: Option<i32>,
}

impl AddrInfoHints {
    /// Returns hints for the IPv4-only fallback.
    pub fn ipv4() -> (r: Self)
        ensures
            r.family == Some(AF_INET),
    {
        AddrInfoHints { family: Some(AF_INET) }
    }
}

impl Default for AddrInfoHints {
    fn default() -> (r: Self)
        ensures
            r.family == Some(AF_INET),
    {
        AddrInfoHints::ipv4()
    }
}

/// Whether `c` is an ASCII decimal digit.
pub open spec fn is_digit(c: char) -> bool {
    '0' <= c && c <= '9'
}

/// The value of the decimal digit string `s`.
pub open spec fn decimal_value(s: Seq<char>) -> int
    decreases s.len(),
{
    if s.len() == 0 {
        0
    } else {
        decimal_value(s.drop_last()) * 10 + ((s.last() as u32) - ('0' as u32))
    }
}

/// `str::parse::<u16>`: an optional leading `+`, then at least one decimal
/// digit, and a value no greater than `u16::MAX`.
pub open spec fn parse_u16_spec(s: Seq<char>) -> Option<u16> {
    let d = unsigned_digits(s);
    if d.len() > 0 && all_digits(d) && decimal_value(d) <= 65535 {
        Some(decimal_value(d) as u16)
    } else {
        None
    }
}

/// The text after an optional leading `+`.
pub open spec fn unsigned_digits(s: Seq<char>) -> Seq<char> {
    if s.len() > 0 && s[0] == '+' { s.drop_first() } else { s }
}

/// Whether every character of `s` is a decimal digit.
pub open spec fn all_digits(s: Seq<char>) -> bool {
    forall|i: int| 0 <= i < s.len() ==> is_digit(#[trigger] s[i])
}

/// Parses a decimal port number as `str::parse::<u16>` does.
pub fn parse_u16(s: &str) -> (r: Option<u16>)
    ensures
        r == parse_u16_spec(s@),
{
    let n = s.unicode_len();
    let mut start: usize = 0;
    if n > 0 && s.get_char(0) == '+' {
        start = 1;
    }
    if start == n {
        return None;
    }
    let ghost d = s@.subrange(start as int, n as int);
    assert(d =~= unsigned_digits(s@));
    let mut value: u32 = 0;
    let mut i: usize = start;
    while i < n
        invariant
            n == s@.len(),
            start <= i <= n,
            d == s@.subrange(start as int, n as int),
            d == unsigned_digits(s@),
            forall|k: int| start <= k < i ==> is_digit(#[trigger] s@[k]),
            value == if decimal_value(s@.subrange(start as int, i as int)) < 65536 {
                decimal_value(s@.subrange(start as int, i as int))
            } else {
                65536
            },
        decreases n - i,
    {
        let c = s.get_char(i);
        if !('0' <= c && c <= '9') {
            assert(d[i - start] == c);
            assert(!is_digit(d[i - start]));
            return None;
        }
        let digit = (c as u32) - ('0' as u32);
        let ghost prev = s@.subrange(start as int, i as int);
        let ghost next = s@.subrange(start as int, i + 1);
        assert(next.drop_last() =~= prev);
        assert(next.last() == c);
        proof {
            lemma_decimal_nonneg(prev);
        }
        if value >= 6554 {
            value = 65536;
        } else {
            value = value * 10 + digit;
            if value > 65536 {
                value = 65536;
            }
        }
        i = i + 1;
    }
    assert(s@.subrange(start as int, n as int) =~= d);
    if value >= 65536 {
        None
    } else {
        Some(value as u16)
    }
}

pub proof fn lemma_decimal_nonneg(s: Seq<char>)
    requires
        forall|i: int| 0 <= i < s.len() ==> is_digit(#[trigger] s[i]),
    ensures
        decimal_value(s) >= 0,
    decreases s.len(),
{
    if s.len() > 0 {
        assert forall|i: int| 0 <= i < s.drop_last().len() implies is_digit(#[trigger] s.drop_last()[i]) by {
            assert(s.drop_last()[i] == s[i]);
        }
        lemma_decimal_nonneg(s.drop_last());
        assert(is_digit(s[s.len() - 1]));
    }
}

/// Whether two character strings are equal.
pub fn str_equals(a: &str, b: &str) -> (r: bool)
    ensures
        r == (a@ == b@),
{
    let n = a.unicode_len();
    if n != b.unicode_len() {
        return false;
    }
    let mut i: usize = 0;
    while i < n
        invariant
            n == a@.len(),
            n == b@.len(),
            i <= n,
            forall|k: int| 0 <= k < i ==> a@[k] == b@[k],
        decreases n - i,
    {
        if a.get_char(i) != b.get_char(i) {
            return false;
        }
        i = i + 1;
    }
    assert(a@ =~= b@);
    true
}

/// The port a service name stands for: the SMB service names map to their
/// well-known ports, anything else must be a decimal port number.
pub open spec fn service_port_spec(service: Seq<char>) -> Option<u16> {
    if service == "microsoft-ds"@ || service == "smb"@ {
        Some(445)
    } else if service == "netbios-ssn"@ {
        Some(139)
    } else {
        parse_u16_spec(service)
    }
}

/// Resolves a service name or decimal port to a port number.
pub fn service_port(service: &str) -> (r: CompatResult<u16>)
    ensures
        r == match service_port_spec(service@) {
            Some(p) => Ok::<u16, CompatError>(p),
            None => Err(CompatError::AddressParseFailed),
        },
{
    if str_equals(service, "microsoft-ds") || str_equals(service, "smb") {
        Ok(445)
    } else if str_equals(service, "netbios-ssn") {
        Ok(139)
    } else {
        match parse_u16(service) {
            Some(p) => Ok(p),
            None => Err(CompatError::AddressParseFailed),
        }
    }
}

/// Whether address-info hints ask for a family the IPv4 fallback serves.
pub open spec fn hints_accepted(hints: Option<AddrInfoHints>) -> bool {
    match hints {
        Some(h) => h.family is None || h.family == Some(AF_INET) || h.family == Some(AF_UNSPEC),
        None => true,
    }
}

/// The part of `smb2_getaddrinfo` before the name lookup: checks the hints
/// and resolves the service to a port (0 when there is no service).
pub fn getaddrinfo_port(service: Option<&str>, hints: Option<AddrInfoHints>) -> (r: CompatResult<u16>)
    ensures
        !hints_accepted(hints) ==> r == Err::<u16, CompatError>(CompatError::AddressParseFailed),
        hints_accepted(hints) ==> r == match service {
            None => Ok::<u16, CompatError>(0),
            Some(s) => match service_port_spec(s@) {
                Some(p) => Ok::<u16, CompatError>(p),
                None => Err(CompatError::AddressParseFailed),
            },
        },
{
    match hints {
        Some(h) => {
            let ok = match h.family {
                None => true,
                Some(f) => f == AF_INET || f == AF_UNSPEC,
            };
            if !ok {
                return Err(CompatError::AddressParseFailed);
            }
        },
        None => {},
    }
    match service {
        None => Ok(0),
        Some(s) => service_port(s),
    }
}

/// The part of `smb2_getaddrinfo` after the name lookup: the first IPv4
/// address that the lookup produced, if any, becomes the result.
pub fn getaddrinfo_result(port: u16, first_ipv4: Option<[u8; 4]>) -> (r: CompatResult<AddrInfo>)
    ensures
        r == match first_ipv4 {
            Some(a) => Ok::<AddrInfo, CompatError>(
                AddrInfo { family: AF_INET, addr: SockAddrIn { family: AF_INET, address: a, port } },
            ),
            None => Err(CompatError::AddressParseFailed),
        },
{
    match first_ipv4 {
        Some(a) => Ok(AddrInfo::new(SockAddrIn::new(a, port))),
        None => Err(CompatError::AddressParseFailed),
    }
}

/// Releases an address-info record; ownership makes this a drop.
pub fn smb2_freeaddrinfo(_addr_info: AddrInfo) {
}

/// The generator state after one step of the linear congruence
/// `next * 1103515245 + 12345`, wrapping at 32 bits.
pub open spec fn random_step(next: u32) -> u32 {
    vstd::wrapping::u32_specs::wrapping_add(
        vstd::wrapping::u32_specs::wrapping_mul(next, 1_103_515_245),
        12_345,
    )
}

/// The value drawn from a generator whose state has just become `next`.
pub open spec fn random_output(next: u32) -> u32 {
    ((next / 65_536) % 32_768) as u32
}

/// Deterministic pseudo-random state of the `random`/`srandom` fallback.
#[derive(Debug, Clone, Copy, PartialEq, Eq)]
pub struct CompatRandom {
    next: u32,
}

impl CompatRandom {
    /// The generator's state.
    pub closed spec fn state(&self) -> u32 {
        self.next
    }

    /// Creates a generator with the fallback seed 1.
    pub fn new() -> (r: Self)
        ensures
            r.state() == 1,
    {
        CompatRandom { next: 1 }
    }

    /// Seeds the generator like `srandom`.
    pub fn srandom(&mut self, seed: u32)
        ensures
            final(self).state() == seed,
    {
        self.next = seed;
    }

    /// Produces the next pseudo-random value in `0..32768`.
    pub fn random(&mut self) -> (r: u32)
        ensures
            final(self).state() == random_step(old(self).state()),
            r == random_output(final(self).state()),
            r < 32_768,
    {
        self.next = self.next.wrapping_mul(1_103_515_245).wrapping_add(12_345);
        (self.next / 65_536) % 32_768
    }
}

impl Default for CompatRandom {
    fn default() -> (r: Self)
        ensures
            r.state() == 1,
    {
        CompatRandom::new()
    }
}

/// The bytes a bounded name copy leaves in a buffer of length `len`: as much
/// of `name` as fits before a terminating zero.
pub open spec fn copied_name_len(name: Seq<u8>, len: int) -> int {
    if name.len() < len - 1 { name.len() as int } else { len - 1 }
}

/// Copies as much of `name` as fits into `buf` followed by a zero byte and
/// returns the number of name bytes copied.
pub fn copy_name(buf: &mut [u8], name: &str) -> (r: CompatResult<usize>)
    ensures
        final(buf)@.len() == old(buf)@.len(),
        old(buf)@.len() == 0 ==> r == Err::<usize, CompatError>(CompatError::InvalidInput)
            && final(buf)@ == old(buf)@,
        old(buf)@.len() > 0 ==> {
            let n = copied_name_len(name.spec_bytes(), old(buf)@.len() as int);
            &&& r == Ok::<usize, CompatError>(n as usize)
            &&& final(buf)@.subrange(0, n) == name.spec_bytes().subrange(0, n)
            &&& final(buf)@[n] == 0u8
            &&& final(buf)@.subrange(n + 1, old(buf)@.len() as int)
                == old(buf)@.subrange(n + 1, old(buf)@.len() as int)
        },
{
    if buf.len() == 0 {
        return Err(CompatError::InvalidInput);
    }
    let bytes = name.as_bytes();
    let room = buf.len() - 1;
    let copy_len = if bytes.len() < room { bytes.len() } else { room };
    let mut i: usize = 0;
    while i < copy_len
        invariant
            copy_len <= bytes@.len(),
            copy_len < buf@.len(),
            buf@.len() == old(buf)@.len(),
            i <= copy_len,
            forall|k: int| 0 <= k < i ==> buf@[k] == bytes@[k],
            forall|k: int| i <= k < buf@.len() ==> buf@[k] == old(buf)@[k],
        decreases copy_len - i,
    {
        buf[i] = bytes[i];
        i = i + 1;
    }
    buf[copy_len] = 0;
    assert(buf@.subrange(0, copy_len as int) =~= name.spec_bytes().subrange(0, copy_len as int));
    assert(buf@.subrange(copy_len + 1, buf@.len() as int) =~= old(buf)@.subrange(
        copy_len + 1,
        old(buf)@.len() as int,
    ));
    Ok(copy_len)
}

/// Copies a host name into `buf` as `gethostname` does and returns the
/// number of name bytes written before the terminating zero.
pub fn gethostname(buf: &mut [u8], name: &str) -> (r: CompatResult<usize>)
    ensures
        final(buf)@.len() == old(buf)@.len(),
        old(buf)@.len() == 0 ==> r == Err::<usize, CompatError>(CompatError::InvalidInput),
        old(buf)@.len() > 0 ==> {
            let n = copied_name_len(name.spec_bytes(), old(buf)@.len() as int);
            &&& r == Ok::<usize, CompatError>(n as usize)
            &&& final(buf)@.subrange(0, n) == name.spec_bytes().subrange(0, n)
            &&& final(buf)@[n] == 0u8
        },
{
    copy_name(buf, name)
}

/// The login name `getlogin_r` reports: the first of `LOGNAME`, `USER` and
/// `USERNAME` that is set, else `unknown`.
pub fn login_name(logname: Option<String>, user: Option<String>, username: Option<String>) -> (r: String)
    ensures
        r@ == match logname {
            Some(v) => v@,
            None => match user {
                Some(v) => v@,
                None => match username {
                    Some(v) => v@,
                    None => "unknown"@,
                },
            },
        },
{
    match logname {
        Some(v) => v,
        None => match user {
            Some(v) => v,
            None => match username {
                Some(v) => v,
                None => "unknown".to_string(),
            },
        },
    }
}

/// Borrowed byte segment of a gather write.
#[derive(Debug, Clone, Copy, PartialEq, Eq)]
pub struct IoVec<'a> {
    /// Bytes referenced by this vector entry.
    pub bytes: &'a [u8],
}

impl<'a> IoVec<'a> {
    /// Creates a borrowed write vector entry.
    pub fn new(bytes: &'a [u8]) -> (r: Self)
        ensures
            r.bytes@ == bytes@,
    {
        IoVec { bytes }
    }
}

/// Writable byte segment of a scatter read.
#[derive(Debug, PartialEq, Eq)]
pub struct IoVecMut<'a> {
    /// Writable bytes referenced by this vector entry.
    pub bytes: &'a mut [u8],
}

impl<'a> IoVecMut<'a> {
    /// Creates a borrowed read vector entry.
    pub fn new(bytes: &'a mut [u8]) -> (r: Self)
        ensures
            r.bytes@ == old(bytes)@,
    {
        IoVecMut { bytes }
    }
}

/// The sum of a sequence of lengths.
pub open spec fn lens_total(lens: Seq<int>) -> int
    decreases lens.len(),
{
    if lens.len() == 0 {
        0
    } else {
        lens_total(lens.drop_last()) + lens.last()
    }
}

/// The lengths of the segments of a gather write.
pub open spec fn write_lens<'a>(v: Seq<IoVec<'a>>) -> Seq<int> {
    Seq::new(v.len(), |i: int| v[i].bytes@.len() as int)
}

/// The lengths of the segments of a scatter read.
pub open spec fn read_lens<'a>(v: Seq<IoVecMut<'a>>) -> Seq<int> {
    Seq::new(v.len(), |i: int| v[i].bytes@.len() as int)
}

/// The bytes of all segments of a gather write, in order.
pub open spec fn concat_segments<'a>(v: Seq<IoVec<'a>>) -> Seq<u8>
    decreases v.len(),
{
    if v.len() == 0 {
        Seq::empty()
    } else {
        concat_segments(v.drop_last()) + v.last().bytes@
    }
}

/// Where segment `k` starts in the concatenation of the segments.
pub open spec fn seg_start(lens: Seq<int>, k: int) -> int {
    lens_total(lens.subrange(0, k))
}

/// The byte count a vector list stands for, if it fits in `isize`.
pub open spec fn checked_total(lens: Seq<int>) -> CompatResult<usize> {
    if lens_total(lens) <= isize::MAX {
        Ok(lens_total(lens) as usize)
    } else {
        Err(CompatError::LengthOverflow)
    }
}

proof fn lemma_prefix_step(lens: Seq<int>, i: int)
    requires
        0 <= i < lens.len(),
    ensures
        lens_total(lens.subrange(0, i + 1)) == lens_total(lens.subrange(0, i)) + lens[i],
{
    assert(lens.subrange(0, i + 1).drop_last() =~= lens.subrange(0, i));
}

proof fn lemma_prefix_mono(lens: Seq<int>, i: int, j: int)
    requires
        0 <= i <= j <= lens.len(),
        forall|k: int| 0 <= k < lens.len() ==> lens[k] >= 0,
    ensures
        lens_total(lens.subrange(0, i)) <= lens_total(lens.subrange(0, j)),
    decreases j - i,
{
    if i < j {
        lemma_prefix_mono(lens, i, j - 1);
        lemma_prefix_step(lens, j - 1);
    }
}

proof fn lemma_prefix_full(lens: Seq<int>)
    ensures
        lens.subrange(0, lens.len() as int) == lens,
{
    assert(lens.subrange(0, lens.len() as int) =~= lens);
}

/// Returns the total length of write vectors, refusing totals beyond `isize::MAX`.
pub fn writev_len(vectors: &[IoVec<'_>]) -> (r: CompatResult<usize>)
    ensures
        r == checked_total(write_lens(vectors@)),
{
    let ghost lens = write_lens(vectors@);
    let n = vectors.len();
    let mut total: usize = 0;
    let mut i: usize = 0;
    while i < n
        invariant
            n == vectors@.len(),
            lens == write_lens(vectors@),
            i <= n,
            total as int == lens_total(lens.subrange(0, i as int)),
            total <= isize::MAX,
        decreases n - i,
    {
        proof {
            lemma_prefix_step(lens, i as int);
            lemma_prefix_mono(lens, i + 1, n as int);
            lemma_prefix_full(lens);
        }
        let len = vectors[i].bytes.len();
        match total.checked_add(len) {
            None => {
                return Err(CompatError::LengthOverflow);
            },
            Some(next) => {
                if next > isize::MAX as usize {
                    return Err(CompatError::LengthOverflow);
                }
                total = next;
            },
        }
        i = i + 1;
    }
    proof {
        lemma_prefix_full(lens);
    }
    Ok(total)
}

/// Returns the total length of read vectors, refusing totals beyond `isize::MAX`.
pub fn readv_len(vectors: &[IoVecMut<'_>]) -> (r: CompatResult<usize>)
    ensures
        r == checked_total(read_lens(vectors@)),
{
    let ghost lens = read_lens(vectors@);
    let n = vectors.len();
    let mut total: usize = 0;
    let mut i: usize = 0;
    while i < n
        invariant
            n == vectors@.len(),
            lens == read_lens(vectors@),
            i <= n,
            total as int == lens_total(lens.subrange(0, i as int)),
            total <= isize::MAX,
        decreases n - i,
    {
        proof {
            lemma_prefix_step(lens, i as int);
            lemma_prefix_mono(lens, i + 1, n as int);
            lemma_prefix_full(lens);
        }
        let len = vectors[i].bytes.len();
        match total.checked_add(len) {
            None => {
                return Err(CompatError::LengthOverflow);
            },
            Some(next) => {
                if next > isize::MAX as usize {
                    return Err(CompatError::LengthOverflow);
                }
                total = next;
            },
        }
        i = i + 1;
    }
    proof {
        lemma_prefix_full(lens);
    }
    Ok(total)
}

/// Builds the contiguous buffer a gather write sends: the segments in order.
pub fn writev_buffer(vectors: &[IoVec<'_>]) -> (r: CompatResult<Vec<u8>>)
    ensures
        match checked_total(write_lens(vectors@)) {
            Ok(_) => r is Ok && r->Ok_0@ == concat_segments(vectors@),
            Err(e) => r == Err::<Vec<u8>, CompatError>(e),
        },
{
    let total = writev_len(vectors);
    match total {
        Err(e) => {
            return Err(e);
        },
        Ok(_) => {},
    }
    let mut buffer: Vec<u8> = Vec::new();
    let n = vectors.len();
    let mut i: usize = 0;
    while i < n
        invariant
            n == vectors@.len(),
            i <= n,
            buffer@ == concat_segments(vectors@.subrange(0, i as int)),
        decreases n - i,
    {
        let seg = vectors[i].bytes;
        let ghost before = buffer@;
        let m = seg.len();
        let mut j: usize = 0;
        while j < m
            invariant
                m == seg@.len(),
                j <= m,
                buffer@ == before + seg@.subrange(0, j as int),
            decreases m - j,
        {
            buffer.push(seg[j]);
            j = j + 1;
            assert(buffer@ =~= before + seg@.subrange(0, j as int));
        }
        assert(vectors@.subrange(0, i + 1).drop_last() =~= vectors@.subrange(0, i as int));
        assert(seg@.subrange(0, m as int) =~= seg@);
        i = i + 1;
    }
    assert(vectors@.subrange(0, n as int) =~= vectors@);
    Ok(buffer)
}

/// The byte at position `j` of segment `k` after scattering `buffer` over
/// vectors of the given lengths and former contents.
pub open spec fn scattered_byte(lens: Seq<int>, buffer: Seq<u8>, k: int, j: int, old_byte: u8) -> u8 {
    if seg_start(lens, k) + j < buffer.len() {
        buffer[seg_start(lens, k) + j]
    } else {
        old_byte
    }
}

/// Scatters a contiguous read buffer over the supplied vectors in order and
/// returns the number of bytes placed.
pub fn scatter_readv(buffer: &[u8], vectors: &mut [IoVecMut<'_>]) -> (r: CompatResult<usize>)
    ensures
        final(vectors)@.len() == old(vectors)@.len(),
        forall|k: int| 0 <= k < old(vectors)@.len()
            ==> #[trigger] final(vectors)@[k].bytes@.len() == old(vectors)@[k].bytes@.len(),
        match checked_total(read_lens(old(vectors)@)) {
            Err(e) => r == Err::<usize, CompatError>(e)
                && forall|k: int| 0 <= k < old(vectors)@.len()
                    ==> #[trigger] final(vectors)@[k].bytes@ == old(vectors)@[k].bytes@,
            Ok(total) => {
                &&& r == Ok::<usize, CompatError>(
                    if total < buffer@.len() { total } else { buffer@.len() as usize },
                )
                &&& forall|k: int, j: int|
                    0 <= k < old(vectors)@.len() && 0 <= j < old(vectors)@[k].bytes@.len()
                        ==> #[trigger] final(vectors)@[k].bytes@[j] == scattered_byte(
                            read_lens(old(vectors)@),
                            buffer@,
                            k,
                            j,
                            old(vectors)@[k].bytes@[j],
                        )
                &&& concat_read_segments(final(vectors)@) == buffer@.subrange(0, r->Ok_0 as int)
                    + concat_read_segments(old(vectors)@).subrange(r->Ok_0 as int, total as int)
            },
        },
{
    let ghost lens = read_lens(old(vectors)@);
    let checked = readv_len(vectors);
    match checked {
        Err(e) => {
            return Err(e);
        },
        Ok(_) => {},
    }
    let n = vectors.len();
    let blen = buffer.len();
    proof {
        lemma_prefix_full(lens);
    }
    let mut copied: usize = 0;
    let mut i: usize = 0;
    while i < n
        invariant_except_break
            n == vectors@.len(),
            n == old(vectors)@.len(),
            blen == buffer@.len(),
            lens == read_lens(old(vectors)@),
            lens_total(lens) <= isize::MAX,
            seg_start(lens, n as int) == lens_total(lens),
            i <= n,
            copied as int == if seg_start(lens, i as int) < blen { seg_start(lens, i as int) } else { blen as int },
            forall|k: int| 0 <= k < n ==> #[trigger] vectors@[k].bytes@.len() == old(vectors)@[k].bytes@.len(),
            forall|k: int, j: int| 0 <= k < i && 0 <= j < old(vectors)@[k].bytes@.len()
                ==> #[trigger] vectors@[k].bytes@[j] == scattered_byte(lens, buffer@, k, j, old(vectors)@[k].bytes@[j]),
            forall|k: int| i <= k < n ==> #[trigger] vectors@[k].bytes@ == old(vectors)@[k].bytes@,
        ensures
            n == vectors@.len(),
            forall|k: int| 0 <= k < n ==> #[trigger] vectors@[k].bytes@.len() == old(vectors)@[k].bytes@.len(),
            copied as int == if lens_total(lens) < blen { lens_total(lens) } else { blen as int },
            forall|k: int, j: int| 0 <= k < n && 0 <= j < old(vectors)@[k].bytes@.len()
                ==> #[trigger] vectors@[k].bytes@[j] == scattered_byte(lens, buffer@, k, j, old(vectors)@[k].bytes@[j]),
        decreases n - i,
    {
        proof {
            lemma_prefix_step(lens, i as int);
            lemma_prefix_full(lens);
            lemma_lens_nonneg(old(vectors)@);
        }
        if copied >= blen {
            proof {
                assert forall|k: int, j: int| i <= k < n && 0 <= j < old(vectors)@[k].bytes@.len()
                    implies #[trigger] vectors@[k].bytes@[j] == scattered_byte(lens, buffer@, k, j, old(vectors)@[k].bytes@[j]) by {
                    lemma_prefix_mono(lens, i as int, k);
                }
                lemma_prefix_mono(lens, i as int, n as int);
            }
            break;
        }
        let remaining = blen - copied;
        let vlen = vectors[i].bytes.len();
        let copy_len = if vlen < remaining { vlen } else { remaining };
        let ghost pre = vectors@;
        let mut j: usize = 0;
        while j < copy_len
            invariant
                n == vectors@.len(),
                i < n,
                copy_len <= vectors@[i as int].bytes@.len(),
                copied + copy_len <= blen,
                blen == buffer@.len(),
                j <= copy_len,
                forall|k: int| 0 <= k < n ==> #[trigger] vectors@[k].bytes@.len() == old(vectors)@[k].bytes@.len(),
                pre.len() == n,
                forall|k: int| 0 <= k < n && k != i ==> #[trigger] vectors@[k].bytes@ == pre[k].bytes@,
                forall|t: int| 0 <= t < j ==> #[trigger] vectors@[i as int].bytes@[t] == buffer@[copied + t],
                forall|t: int| j <= t < vectors@[i as int].bytes@.len() ==> #[trigger] vectors@[i as int].bytes@[t] == old(vectors)@[i as int].bytes@[t],
            decreases copy_len - j,
        {
            vectors[i].bytes[j] = buffer[copied + j];
            j = j + 1;
        }
        copied = copied + copy_len;
        i = i + 1;
    }
    proof {
        lemma_scatter_contents(buffer@, old(vectors)@, vectors@);
        lemma_concat_read_len(old(vectors)@);
        assert(concat_read_segments(vectors@) =~= buffer@.subrange(0, copied as int)
            + concat_read_segments(old(vectors)@).subrange(copied as int, lens_total(lens)));
    }
    Ok(copied)
}

proof fn lemma_lens_nonneg<'a>(v: Seq<IoVecMut<'a>>)
    ensures
        forall|k: int| 0 <= k < read_lens(v).len() ==> read_lens(v)[k] >= 0,
{
}

/// The bytes of all segments of a scatter read, in order.
pub open spec fn concat_read_segments<'a>(v: Seq<IoVecMut<'a>>) -> Seq<u8>
    decreases v.len(),
{
    if v.len() == 0 {
        Seq::empty()
    } else {
        concat_read_segments(v.drop_last()) + v.last().bytes@
    }
}

/// The read segments, taken in order, are as long as their lengths add up to.
pub proof fn lemma_concat_read_len<'a>(v: Seq<IoVecMut<'a>>)
    ensures
        concat_read_segments(v).len() == lens_total(read_lens(v)),
    decreases v.len(),
{
    if v.len() > 0 {
        lemma_concat_read_len(v.drop_last());
        assert(read_lens(v).drop_last() =~= read_lens(v.drop_last()));
    }
}

/// Scattering `buffer` byte by byte over read vectors, as `scatter_readv`
/// does, leaves the vectors, taken in order, holding the buffer's bytes
/// where it reaches and their former bytes past its end.
pub proof fn lemma_scatter_contents<'a>(buffer: Seq<u8>, before: Seq<IoVecMut<'a>>, after: Seq<IoVecMut<'a>>)
    requires
        after.len() == before.len(),
        forall|k: int| 0 <= k < before.len() ==> #[trigger] after[k].bytes@.len() == before[k].bytes@.len(),
        forall|k: int, j: int| 0 <= k < before.len() && 0 <= j < before[k].bytes@.len()
            ==> #[trigger] after[k].bytes@[j] == scattered_byte(read_lens(before), buffer, k, j, before[k].bytes@[j]),
    ensures
        concat_read_segments(after).len() == concat_read_segments(before).len(),
        forall|p: int| 0 <= p < concat_read_segments(before).len()
            ==> #[trigger] concat_read_segments(after)[p] == if p < buffer.len() {
                buffer[p]
            } else {
                concat_read_segments(before)[p]
            },
    decreases before.len(),
{
    lemma_concat_read_len(before);
    lemma_concat_read_len(after);
    assert(read_lens(after) =~= read_lens(before));
    if before.len() > 0 {
        let n = before.len() - 1;
        let bo = before.drop_last();
        let ao = after.drop_last();
        let lens = read_lens(before);
        assert(read_lens(bo) =~= lens.drop_last());
        assert forall|k: int, j: int| 0 <= k < bo.len() && 0 <= j < bo[k].bytes@.len()
            implies #[trigger] ao[k].bytes@[j] == scattered_byte(read_lens(bo), buffer, k, j, bo[k].bytes@[j]) by {
            assert(read_lens(bo).subrange(0, k) =~= lens.subrange(0, k));
            assert(after[k].bytes@[j] == scattered_byte(lens, buffer, k, j, before[k].bytes@[j]));
        }
        assert forall|k: int| 0 <= k < bo.len() implies #[trigger] ao[k].bytes@.len() == bo[k].bytes@.len() by {
            assert(after[k].bytes@.len() == before[k].bytes@.len());
        }
        lemma_scatter_contents(buffer, bo, ao);
        lemma_concat_read_len(bo);
        let s = lens_total(read_lens(bo));
        assert(lens.subrange(0, n) =~= read_lens(bo));
        assert(seg_start(lens, n) == s);
        assert(after[n].bytes@.len() == before[n].bytes@.len());
        assert forall|p: int| 0 <= p < concat_read_segments(before).len()
            implies #[trigger] concat_read_segments(after)[p] == if p < buffer.len() {
                buffer[p]
            } else {
                concat_read_segments(before)[p]
            } by {
            if p < s {
                assert(concat_read_segments(after)[p] == concat_read_segments(ao)[p]);
                assert(concat_read_segments(before)[p] == concat_read_segments(bo)[p]);
            } else {
                let j = p - s;
                assert(after[n].bytes@[j] == scattered_byte(lens, buffer, n, j, before[n].bytes@[j]));
                assert(concat_read_segments(after)[p] == after[n].bytes@[j]);
                assert(concat_read_segments(before)[p] == before[n].bytes@[j]);
            }
        }
    }
}

/// A gather write and a scatter read of what it gathered give the data back:
/// the read vectors, taken in order, start with as much of the gathered bytes
/// as they can hold, and keep their former bytes past the end of the data.
pub proof fn lemma_gather_scatter_round_trip<'a, 'b>(
    src: Seq<IoVec<'a>>,
    before: Seq<IoVecMut<'b>>,
    after: Seq<IoVecMut<'b>>,
)
    requires
        after.len() == before.len(),
        forall|k: int| 0 <= k < before.len() ==> #[trigger] after[k].bytes@.len() == before[k].bytes@.len(),
        forall|k: int, j: int| 0 <= k < before.len() && 0 <= j < before[k].bytes@.len()
            ==> #[trigger] after[k].bytes@[j] == scattered_byte(
                read_lens(before),
                concat_segments(src),
                k,
                j,
                before[k].bytes@[j],
            ),
    ensures
        ({
            let data = concat_segments(src);
            let total = lens_total(read_lens(before));
            let n = if data.len() < total { data.len() as int } else { total };
            &&& data.len() == lens_total(write_lens(src))
            &&& concat_read_segments(after).len() == total
            &&& concat_read_segments(after).subrange(0, n) == data.subrange(0, n)
            &&& concat_read_segments(after).subrange(n, total) == concat_read_segments(before).subrange(n, total)
        }),
{
    let data = concat_segments(src);
    lemma_concat_len(src);
    lemma_scatter_contents(data, before, after);
    lemma_concat_read_len(before);
    let total = lens_total(read_lens(before));
    let n = if data.len() < total { data.len() as int } else { total };
    assert(concat_read_segments(after).subrange(0, n) =~= data.subrange(0, n));
    assert(concat_read_segments(after).subrange(n, total) =~= concat_read_segments(before).subrange(n, total));
}

/// The number of bytes a single read moves: no more than is pending, than
/// the caller's buffer holds, or than the per-call limit allows.
pub open spec fn read_amount(pending: int, want: int, limit: Option<usize>) -> int {
    let a = if pending < want { pending } else { want };
    match limit {
        Some(l) => if l < a { l as int } else { a },
        None => a,
    }
}

/// Successive reads hand out the pending bytes in order, with nothing lost
/// or repeated: what a read of `n1` bytes returns, followed by what a read
/// of `n2` bytes from the remainder returns, is the first `n1 + n2` pending
/// bytes.
pub proof fn lemma_reads_concatenate(pending: Seq<u8>, n1: int, n2: int)
    requires
        0 <= n1,
        0 <= n2,
        n1 + n2 <= pending.len(),
    ensures
        pending.subrange(0, n1) + pending.subrange(n1, pending.len() as int).subrange(0, n2)
            == pending.subrange(0, n1 + n2),
{
    assert(pending.subrange(0, n1) + pending.subrange(n1, pending.len() as int).subrange(0, n2)
        =~= pending.subrange(0, n1 + n2));
}

/// The number of bytes a single write accepts.
pub open spec fn write_amount(offered: int, limit: Option<usize>) -> int {
    match limit {
        Some(l) => if l < offered { l as int } else { offered },
        None => offered,
    }
}

/// In-memory read/write endpoint: bytes waiting to be read, bytes captured
/// from writes, and optional per-call transfer limits.
#[derive(Debug, PartialEq, Eq)]
pub struct MemoryReadWrite {
    readable: Vec<u8>,
    read_offset: usize,
    written: Vec<u8>,
    max_read_chunk: Option<usize>,
    max_write_chunk: Option<usize>,
}

impl MemoryReadWrite {
    /// The internal consistency every endpoint keeps: the read position lies
    /// within the stored bytes and no limit is zero.
    pub closed spec fn wf(&self) -> bool {
        &&& self.read_offset <= self.readable@.len()
        &&& self.max_read_chunk != Some(0usize)
        &&& self.max_write_chunk != Some(0usize)
    }

    /// The bytes that reads will still deliver, in order.
    pub closed spec fn pending(&self) -> Seq<u8> {
        self.readable@.subrange(self.read_offset as int, self.readable@.len() as int)
    }

    /// The bytes captured from writes, in order.
    pub closed spec fn captured(&self) -> Seq<u8> {
        self.written@
    }

    /// The per-call read limit; never `Some(0)`.
    pub closed spec fn read_limit(&self) -> Option<usize> {
        self.max_read_chunk
    }

    /// The per-call write limit; never `Some(0)`.
    pub closed spec fn write_limit(&self) -> Option<usize> {
        self.max_write_chunk
    }

    /// Creates an empty memory endpoint.
    pub fn new() -> (r: Self)
        ensures
            r.wf(),
            r.pending() == Seq::<u8>::empty(),
            r.captured() == Seq::<u8>::empty(),
            r.read_limit() is None,
            r.write_limit() is None,
    {
        let r = MemoryReadWrite {
            readable: Vec::new(),
            read_offset: 0,
            written: Vec::new(),
            max_read_chunk: None,
            max_write_chunk: None,
        };
        assert(r.readable@.subrange(0, 0) =~= Seq::<u8>::empty());
        r
    }

    /// Creates an endpoint seeded with bytes that future reads will consume.
    pub fn with_readable(bytes: Vec<u8>) -> (r: Self)
        ensures
            r.wf(),
            r.pending() == bytes@,
            r.captured() == Seq::<u8>::empty(),
            r.read_limit() is None,
            r.write_limit() is None,
    {
        let r = MemoryReadWrite {
            readable: bytes,
            read_offset: 0,
            written: Vec::new(),
            max_read_chunk: None,
            max_write_chunk: None,
        };
        assert(r.readable@.subrange(0, r.readable@.len() as int) =~= r.readable@);
        r
    }

    /// Limits each read call to at most `chunk_size` bytes when non-zero.
    pub fn set_max_read_chunk(&mut self, chunk_size: Option<usize>)
        requires
            old(self).wf(),
        ensures
            final(self).wf(),
            final(self).read_limit() == (match chunk_size {
                Some(0usize) => None,
                other => other,
            }),
            final(self).pending() == old(self).pending(),
            final(self).captured() == old(self).captured(),
            final(self).write_limit() == old(self).write_limit(),
    {
        self.max_read_chunk = match chunk_size {
            Some(size) => if size > 0 { Some(size) } else { None },
            None => None,
        };
    }

    /// Limits each write call to at most `chunk_size` bytes when non-zero.
    pub fn set_max_write_chunk(&mut self, chunk_size: Option<usize>)
        requires
            old(self).wf(),
        ensures
            final(self).wf(),
            final(self).write_limit() == (match chunk_size {
                Some(0usize) => None,
                other => other,
            }),
            final(self).pending() == old(self).pending(),
            final(self).captured() == old(self).captured(),
            final(self).read_limit() == old(self).read_limit(),
    {
        self.max_write_chunk = match chunk_size {
            Some(size) => if size > 0 { Some(size) } else { None },
            None => None,
        };
    }

    /// Drops bytes already consumed when that frees enough storage: all of
    /// them once everything stored has been read, otherwise only when more
    /// than 4096 bytes have been read.
    fn compact_readable(&mut self)
        requires
            old(self).wf(),
        ensures
            final(self).wf(),
            old(self).read_offset == 0 ==> final(self).readable@ == old(self).readable@
                && final(self).read_offset == 0,
            0 < old(self).read_offset && old(self).read_offset >= old(self).readable@.len() ==> (
            final(self).readable@.len() == 0 && final(self).read_offset == 0),
            0 < old(self).read_offset < old(self).readable@.len() && old(self).read_offset > 4096 ==> (
            final(self).readable@ == old(self).pending() && final(self).read_offset == 0),
            0 < old(self).read_offset < old(self).readable@.len() && old(self).read_offset <= 4096 ==> (
            final(self).readable@ == old(self).readable@ && final(self).read_offset == old(
                self,
            ).read_offset),
            final(self).pending() == old(self).pending(),
            final(self).captured() == old(self).captured(),
            final(self).read_limit() == old(self).read_limit(),
            final(self).write_limit() == old(self).write_limit(),
    {
        if self.read_offset == 0 {
            return;
        }
        if self.read_offset >= self.readable.len() {
            let ghost p = self.pending();
            self.readable = Vec::new();
            self.read_offset = 0;
            assert(self.readable@.subrange(0, 0) =~= p);
        } else if self.read_offset > 4096 {
            let ghost p = self.pending();
            let mut rest: Vec<u8> = Vec::new();
            let n = self.readable.len();
            let mut i: usize = self.read_offset;
            while i < n
                invariant
                    n == self.readable@.len(),
                    self.read_offset <= i <= n,
                    p == self.readable@.subrange(self.read_offset as int, n as int),
                    rest@ == self.readable@.subrange(self.read_offset as int, i as int),
                decreases n - i,
            {
                rest.push(self.readable[i]);
                i = i + 1;
                assert(rest@ =~= self.readable@.subrange(self.read_offset as int, i as int));
            }
            self.readable = rest;
            self.read_offset = 0;
            assert(self.readable@.subrange(0, self.readable@.len() as int) =~= p);
        }
    }

    /// Appends bytes that future reads will consume.
    pub fn push_readable(&mut self, bytes: &[u8])
        requires
            old(self).wf(),
        ensures
            final(self).wf(),
            final(self).pending() == old(self).pending() + bytes@,
            final(self).captured() == old(self).captured(),
            final(self).read_limit() == old(self).read_limit(),
            final(self).write_limit() == old(self).write_limit(),
    {
        self.compact_readable();
        let ghost p = self.pending();
        let mut buf: Vec<u8> = Vec::new();
        std::mem::swap(&mut buf, &mut self.readable);
        let ghost r0 = buf@;
        let n = bytes.len();
        let mut i: usize = 0;
        while i < n
            invariant
                n == bytes@.len(),
                i <= n,
                buf@ == r0 + bytes@.subrange(0, i as int),
            decreases n - i,
        {
            buf.push(bytes[i]);
            i = i + 1;
            assert(buf@ =~= r0 + bytes@.subrange(0, i as int));
        }
        std::mem::swap(&mut buf, &mut self.readable);
        assert(bytes@.subrange(0, n as int) =~= bytes@);
        assert(self.pending() =~= p + bytes@);
        assert(bytes@.subrange(0, n as int) =~= bytes@);
    }

    /// Returns bytes captured from writes.
    pub fn written(&self) -> (r: &[u8])
        requires
            self.wf(),
        ensures
            r@ == self.captured(),
    {
        self.written.as_slice()
    }

    /// Removes and returns all bytes captured from writes.
    pub fn take_written(&mut self) -> (r: Vec<u8>)
        requires
            old(self).wf(),
        ensures
            final(self).wf(),
            r@ == old(self).captured(),
            final(self).captured() == Seq::<u8>::empty(),
            final(self).pending() == old(self).pending(),
            final(self).read_limit() == old(self).read_limit(),
            final(self).write_limit() == old(self).write_limit(),
    {
        let mut out: Vec<u8> = Vec::new();
        std::mem::swap(&mut out, &mut self.written);
        out
    }

    /// Returns the number of bytes still available to read.
    pub fn readable_len(&self) -> (r: usize)
        requires
            self.wf(),
        ensures
            r == self.pending().len(),
    {
        self.readable.len() - self.read_offset
    }

    /// Returns the readiness bits for the supplied poll request: readable
    /// when asked and bytes are pending, writable whenever asked.
    pub fn poll_ready(&self, requested: PollEvents) -> (r: PollEvents)
        requires
            self.wf(),
        ensures
            r.bits == ready_bits(requested.bits, self.pending().len() > 0),
    {
        let mut ready = PollEvents::empty();
        if requested.contains(POLLIN) && self.readable_len() > 0 {
            ready.insert(POLLIN);
        }
        if requested.contains(POLLOUT) {
            ready.insert(POLLOUT);
        }
        proof {
            let b = requested.bits;
            assert((0i16 | 1i16) == 1i16 && (0i16 | 4i16) == 4i16 && (1i16 | 4i16) == 5i16) by (bit_vector);
        }
        ready
    }

    /// Reads pending bytes into the front of `buf` and returns how many.
    pub fn read(&mut self, buf: &mut [u8]) -> (r: CompatResult<usize>)
        requires
            old(self).wf(),
        ensures
            final(self).wf(),
            final(buf)@.len() == old(buf)@.len(),
            final(self).captured() == old(self).captured(),
            final(self).read_limit() == old(self).read_limit(),
            final(self).write_limit() == old(self).write_limit(),
            old(buf)@.len() == 0 ==> r == Ok::<usize, CompatError>(0)
                && final(self).pending() == old(self).pending() && final(buf)@ == old(buf)@,
            old(buf)@.len() > 0 && old(self).pending().len() == 0
                ==> r == Err::<usize, CompatError>(CompatError::WouldBlock)
                && final(self).pending() == old(self).pending() && final(buf)@ == old(buf)@,
            old(buf)@.len() > 0 && old(self).pending().len() > 0 ==> {
                let n = read_amount(old(self).pending().len() as int, old(buf)@.len() as int, old(self).read_limit());
                &&& r == Ok::<usize, CompatError>(n as usize)
                &&& final(buf)@ == old(self).pending().subrange(0, n) + old(buf)@.subrange(n, old(buf)@.len() as int)
                &&& final(self).pending() == old(self).pending().subrange(n, old(self).pending().len() as int)
            },
    {
        if buf.len() == 0 {
            return Ok(0);
        }
        let available = self.readable_len();
        if available == 0 {
            return Err(CompatError::WouldBlock);
        }
        let limit = match self.max_read_chunk {
            Some(limit) => limit,
            None => buf.len(),
        };
        let a = if available < buf.len() { available } else { buf.len() };
        let copy_len = if limit < a { limit } else { a };
        let start = self.read_offset;
        let rl = self.readable.len();
        let ghost p = self.pending();
        let mut i: usize = 0;
        while i < copy_len
            invariant
                copy_len <= buf@.len(),
                buf@.len() == old(buf)@.len(),
                start + copy_len <= self.readable@.len(),
                rl == self.readable@.len(),
                p == self.readable@.subrange(start as int, self.readable@.len() as int),
                i <= copy_len,
                forall|k: int| 0 <= k < i ==> buf@[k] == p[k],
                forall|k: int| i <= k < buf@.len() ==> buf@[k] == old(buf)@[k],
            decreases copy_len - i,
        {
            buf[i] = self.readable[start + i];
            i = i + 1;
        }
        self.read_offset = start + copy_len;
        assert(buf@ =~= p.subrange(0, copy_len as int) + old(buf)@.subrange(copy_len as int, old(buf)@.len() as int));
        assert(self.pending() =~= p.subrange(copy_len as int, p.len() as int));
        self.compact_readable();
        Ok(copy_len)
    }

    /// Captures bytes written to the endpoint and returns how many it took.
    pub fn write(&mut self, bytes: &[u8]) -> (r: CompatResult<usize>)
        requires
            old(self).wf(),
        ensures
            final(self).wf(),
            final(self).pending() == old(self).pending(),
            final(self).read_limit() == old(self).read_limit(),
            final(self).write_limit() == old(self).write_limit(),
            ({
                let n = write_amount(bytes@.len() as int, old(self).write_limit());
                &&& r == Ok::<usize, CompatError>(n as usize)
                &&& final(self).captured() == old(self).captured() + bytes@.subrange(0, n)
            }),
    {
        if bytes.len() == 0 {
            assert(old(self).captured() + bytes@.subrange(0, 0) =~= old(self).captured());
            return Ok(0);
        }
        let limit = match self.max_write_chunk {
            Some(limit) => limit,
            None => bytes.len(),
        };
        let write_len = if bytes.len() < limit { bytes.len() } else { limit };
        let mut out: Vec<u8> = Vec::new();
        std::mem::swap(&mut out, &mut self.written);
        let ghost w = out@;
        let mut i: usize = 0;
        while i < write_len
            invariant
                write_len <= bytes@.len(),
                i <= write_len,
                out@ == w + bytes@.subrange(0, i as int),
            decreases write_len - i,
        {
            out.push(bytes[i]);
            i = i + 1;
            assert(out@ =~= w + bytes@.subrange(0, i as int));
        }
        std::mem::swap(&mut out, &mut self.written);
        Ok(write_len)
    }
}

impl Default for MemoryReadWrite {
    fn default() -> (r: Self)
        ensures
            r.wf(),
            r.pending() == Seq::<u8>::empty(),
            r.captured() == Seq::<u8>::empty(),
            r.read_limit() is None,
            r.write_limit() is None,
    {
        MemoryReadWrite::new()
    }
}

/// The readiness an endpoint reports for a request: `POLLIN` when asked and
/// bytes are pending, `POLLOUT` whenever asked.
pub open spec fn ready_bits(requested: i16, has_pending: bool) -> i16 {
    let rin = has_bits(requested, POLLIN) && has_pending;
    let rout = has_bits(requested, POLLOUT);
    if rin && rout {
        5i16
    } else if rin {
        1i16
    } else if rout {
        4i16
    } else {
        0i16
    }
}

/// Whether all of `events` are set in `bits`.
pub open spec fn has_bits(bits: i16, events: i16) -> bool {
    bits & events == events
}

/// Poll event mask.
#[derive(Debug, Clone, Copy, PartialEq, Eq)]
pub struct PollEvents {
    /// The raw event bits.
    pub bits: i16,
}

impl PollEvents {
    /// Creates an event mask from raw C-style bits.
    pub fn from_bits(bits: i16) -> (r: Self)
        ensures
            r.bits == bits,
    {
        PollEvents { bits }
    }

    /// Returns an empty event mask.
    pub fn empty() -> (r: Self)
        ensures
            r.bits == 0,
    {
        PollEvents { bits: 0 }
    }

    /// Returns the raw C-style bits for this mask.
    pub fn bits(self) -> (r: i16)
        ensures
            r == self.bits,
    {
        self.bits
    }

    /// Returns `true` when all requested event bits are present.
    pub fn contains(self, events: i16) -> (r: bool)
        ensures
            r == has_bits(self.bits, events),
    {
        self.bits & events == events
    }

    /// Adds raw event bits to this mask.
    pub fn insert(&mut self, events: i16)
        ensures
            final(self).bits == old(self).bits | events,
    {
        self.bits = self.bits | events;
    }

    /// Clears all event bits from this mask.
    pub fn clear(&mut self)
        ensures
            final(self).bits == 0,
    {
        self.bits = 0;
    }
}

impl Default for PollEvents {
    fn default() -> (r: Self)
        ensures
            r.bits == 0,
    {
        PollEvents::empty()
    }
}

/// Poll descriptor equivalent to C `struct pollfd`.
#[derive(Debug, Clone, Copy, PartialEq, Eq)]
pub struct PollFd {
    /// Socket descriptor to poll.
    pub fd: Socket,
    /// Events requested by the caller.
    pub events: PollEvents,
    /// Events observed by the poll operation.
    pub revents: PollEvents,
}

impl PollFd {
    /// Creates a poll descriptor with empty returned events.
    pub fn new(fd: Socket, events: PollEvents) -> (r: Self)
        ensures
            r.fd == fd,
            r.events == events,
            r.revents.bits == 0,
    {
        PollFd { fd, events, revents: PollEvents::empty() }
    }
}

/// Timeout accepted by `poll`.
#[derive(Debug, Clone, Copy, PartialEq, Eq)]
pub enum PollTimeout {
    /// Wait indefinitely.
    Infinite,
    /// Return immediately.
    Immediate,
    /// Wait for the given number of milliseconds.
    Milliseconds(u32),
}

/// The timeout a C `poll` millisecond argument stands for.
pub open spec fn poll_timeout_of(value: i32) -> PollTimeout {
    if value < 0 {
        PollTimeout::Infinite
    } else if value == 0 {
        PollTimeout::Immediate
    } else {
        PollTimeout::Milliseconds(value as u32)
    }
}

impl From<i32> for PollTimeout {
    fn from(value: i32) -> (r: Self) {
        if value < 0 {
            PollTimeout::Infinite
        } else if value == 0 {
            PollTimeout::Immediate
        } else {
            PollTimeout::Milliseconds(value as u32)
        }
    }
}

impl vstd::std_specs::convert::FromSpecImpl<i32> for PollTimeout {
    open spec fn obeys_from_spec() -> bool {
        true
    }

    open spec fn from_spec(v: i32) -> PollTimeout {
        poll_timeout_of(v)
    }
}

/// Writes borrowed vectors into an in-memory endpoint as one write.
pub fn writev_memory(transport: &mut MemoryReadWrite, vectors: &[IoVec<'_>]) -> (r: CompatResult<usize>)
    requires
        old(transport).wf(),
    ensures
        final(transport).wf(),
        final(transport).pending() == old(transport).pending(),
        final(transport).read_limit() == old(transport).read_limit(),
        final(transport).write_limit() == old(transport).write_limit(),
        match checked_total(write_lens(vectors@)) {
            Err(e) => r == Err::<usize, CompatError>(e)
                && final(transport).captured() == old(transport).captured(),
            Ok(total) => {
                let n = write_amount(total as int, old(transport).write_limit());
                &&& r == Ok::<usize, CompatError>(n as usize)
                &&& final(transport).captured() == old(transport).captured()
                    + concat_segments(vectors@).subrange(0, n)
            },
        },
{
    let buffer = writev_buffer(vectors);
    match buffer {
        Err(e) => Err(e),
        Ok(b) => {
            proof {
                lemma_concat_len(vectors@);
            }
            transport.write(b.as_slice())
        },
    }
}

proof fn lemma_concat_len<'a>(v: Seq<IoVec<'a>>)
    ensures
        concat_segments(v).len() == lens_total(write_lens(v)),
    decreases v.len(),
{
    if v.len() > 0 {
        lemma_concat_len(v.drop_last());
        assert(write_lens(v).drop_last() =~= write_lens(v.drop_last()));
    }
}

/// Converts a string slice into an owned string.
pub fn strdup(value: &str) -> (r: String)
    ensures
        r@ == value@,
{
    value.to_string()
}

/// Converts a big-endian 64-bit integer to host order like `be64toh`.
pub fn be64toh(value: u64) -> (r: u64)
    ensures
        r == crate::headers::portable_endian::spec_to_be64(value),
{
    crate::headers::portable_endian::be64_to_host(value)
}

/// The errno value that reports an allocation failure.
pub fn allocation_errno() -> (r: i32)
    ensures
        r == 12,
{
    ENOMEM
}

/// Reads from an in-memory endpoint as one read and scatters the bytes over
/// `vectors`.
pub fn readv_memory(transport: &mut MemoryReadWrite, vectors: &mut [IoVecMut<'_>]) -> (r: CompatResult<usize>)
    requires
        old(transport).wf(),
    ensures
        final(transport).wf(),
        final(transport).captured() == old(transport).captured(),
        final(transport).read_limit() == old(transport).read_limit(),
        final(transport).write_limit() == old(transport).write_limit(),
        final(vectors)@.len() == old(vectors)@.len(),
        forall|k: int| 0 <= k < old(vectors)@.len()
            ==> #[trigger] final(vectors)@[k].bytes@.len() == old(vectors)@[k].bytes@.len(),
        readv_outcome(old(transport).pending(), old(transport).read_limit(), read_lens(old(vectors)@))
            is Err ==> {
            &&& r == readv_outcome(old(transport).pending(), old(transport).read_limit(), read_lens(old(vectors)@))
            &&& final(transport).pending() == old(transport).pending()
            &&& forall|k: int| 0 <= k < old(vectors)@.len()
                ==> #[trigger] final(vectors)@[k].bytes@ == old(vectors)@[k].bytes@
        },
        readv_outcome(old(transport).pending(), old(transport).read_limit(), read_lens(old(vectors)@))
            is Ok ==> {
            let n = readv_outcome(old(transport).pending(), old(transport).read_limit(), read_lens(old(vectors)@))->Ok_0;
            &&& r == Ok::<usize, CompatError>(n)
            &&& final(transport).pending() == old(transport).pending().subrange(n as int, old(transport).pending().len() as int)
            &&& forall|k: int, j: int|
                0 <= k < old(vectors)@.len() && 0 <= j < old(vectors)@[k].bytes@.len()
                    ==> #[trigger] final(vectors)@[k].bytes@[j] == scattered_byte(
                        read_lens(old(vectors)@),
                        old(transport).pending().subrange(0, n as int),
                        k,
                        j,
                        old(vectors)@[k].bytes@[j],
                    )
        },
{
    let checked = readv_len(vectors);
    let total = match checked {
        Err(e) => {
            return Err(e);
        },
        Ok(t) => t,
    };
    let mut buffer: Vec<u8> = vec![0u8; total];
    let got = transport.read(buffer.as_mut_slice());
    let read = match got {
        Err(e) => {
            return Err(e);
        },
        Ok(n) => n,
    };
    let ghost filled = buffer@;
    buffer.truncate(read);
    proof {
        if total > 0 {
            assert(buffer@ =~= old(transport).pending().subrange(0, read as int));
        } else {
            assert(buffer@ =~= old(transport).pending().subrange(0, 0));
        }
        lemma_lens_nonneg(old(vectors)@);
        lemma_prefix_full(read_lens(old(vectors)@));
    }
    let res = scatter_readv(buffer.as_slice(), vectors);
    proof {
        if total == 0 {
            assert(old(transport).pending().subrange(0, 0) =~= Seq::<u8>::empty());
            assert(old(transport).pending().subrange(0, old(transport).pending().len() as int) =~= old(transport).pending());
        }
    }
    res
}

/// What a scatter read from an endpoint with the given pending bytes and
/// read limit returns for vectors of the given lengths.
pub open spec fn readv_outcome(pending: Seq<u8>, limit: Option<usize>, lens: Seq<int>) -> CompatResult<usize> {
    match checked_total(lens) {
        Err(e) => Err(e),
        Ok(total) => if total == 0 {
            Ok(0)
        } else if pending.len() == 0 {
            Err(CompatError::WouldBlock)
        } else {
            Ok(read_amount(pending.len() as int, total as int, limit) as usize)
        },
    }
}

/// Whether every segment holds the same bytes in both lists.
pub open spec fn unchanged_segments<'a>(before: Seq<IoVecMut<'a>>, after: Seq<IoVecMut<'a>>) -> bool {
    &&& after.len() == before.len()
    &&& forall|k: int| 0 <= k < before.len() ==> #[trigger] after[k].bytes@ == before[k].bytes@
}

/// The in-process endpoints registered under descriptor numbers, serving
/// descriptor-shaped `readv`, `writev` and `poll` calls.
pub struct MemoryTransportTable {
    transports: std::collections::HashMap<Socket, MemoryReadWrite>,
}

/// The readiness `poll` reports for one descriptor.
pub open spec fn poll_bits(m: Map<Socket, MemoryReadWrite>, pfd: PollFd) -> i16 {
    if pfd.fd < 0 {
        0
    } else if m.contains_key(pfd.fd) {
        ready_bits(pfd.events.bits, m[pfd.fd].pending().len() > 0)
    } else if has_bits(pfd.events.bits, POLLOUT) {
        POLLOUT
    } else {
        0
    }
}

/// How many descriptors of `fds` `poll` reports as ready.
pub open spec fn count_ready(m: Map<Socket, MemoryReadWrite>, fds: Seq<PollFd>) -> int
    decreases fds.len(),
{
    if fds.len() == 0 {
        0
    } else {
        count_ready(m, fds.drop_last()) + if poll_bits(m, fds.last()) != 0 { 1int } else { 0int }
    }
}

impl MemoryTransportTable {
    /// The registered endpoints by descriptor.
    pub closed spec fn view(&self) -> Map<Socket, MemoryReadWrite> {
        self.transports@
    }

    /// Every registered endpoint is internally consistent.
    pub closed spec fn wf(&self) -> bool {
        forall|fd: Socket| #[trigger] self.transports@.contains_key(fd) ==> self.transports@[fd].wf()
    }

    /// Creates an empty table.
    pub fn new() -> (r: Self)
        ensures
            r.wf(),
            r.view() == Map::<Socket, MemoryReadWrite>::empty(),
    {
        MemoryTransportTable { transports: std::collections::HashMap::new() }
    }

    /// Registers `transport` under descriptor `fd`, replacing any earlier one.
    pub fn register(&mut self, fd: Socket, transport: MemoryReadWrite) -> (r: CompatResult<()>)
        requires
            old(self).wf(),
            transport.wf(),
        ensures
            final(self).wf(),
            fd < 0 ==> r == Err::<(), CompatError>(CompatError::InvalidInput)
                && final(self).view() == old(self).view(),
            fd >= 0 ==> r == Ok::<(), CompatError>(())
                && final(self).view() == old(self).view().insert(fd, transport),
    {
        broadcast use vstd::std_specs::hash::group_hash_axioms;
        if !smb2_valid_socket(fd) {
            return Err(CompatError::InvalidInput);
        }
        self.transports.insert(fd, transport);
        Ok(())
    }

    /// Removes the endpoint registered under `fd` and returns it.
    pub fn unregister(&mut self, fd: Socket) -> (r: Option<MemoryReadWrite>)
        requires
            old(self).wf(),
        ensures
            final(self).wf(),
            r == (if old(self).view().contains_key(fd) { Some(old(self).view()[fd]) } else { None }),
            final(self).view() == old(self).view().remove(fd),
    {
        broadcast use vstd::std_specs::hash::group_hash_axioms;
        self.transports.remove(&fd)
    }

    /// Writes `vectors` to the endpoint registered under `fd`.
    pub fn writev(&mut self, fd: Socket, vectors: &[IoVec<'_>]) -> (r: CompatResult<usize>)
        requires
            old(self).wf(),
        ensures
            final(self).wf(),
            fd < 0 ==> r == Err::<usize, CompatError>(CompatError::InvalidInput)
                && final(self).view() == old(self).view(),
            fd >= 0 && checked_total(write_lens(vectors@)) is Err ==>
                r == Err::<usize, CompatError>(checked_total(write_lens(vectors@))->Err_0)
                && final(self).view() == old(self).view(),
            fd >= 0 && checked_total(write_lens(vectors@)) is Ok && !old(self).view().contains_key(fd) ==>
                r == Err::<usize, CompatError>(CompatError::InvalidInput)
                && final(self).view() == old(self).view(),
            fd >= 0 && checked_total(write_lens(vectors@)) is Ok && old(self).view().contains_key(fd) ==> {
                let t = old(self).view()[fd];
                let n = write_amount(checked_total(write_lens(vectors@))->Ok_0 as int, t.write_limit());
                &&& r == Ok::<usize, CompatError>(n as usize)
                &&& final(self).view().dom() == old(self).view().dom()
                &&& forall|g: Socket| g != fd && #[trigger] old(self).view().contains_key(g)
                    ==> final(self).view()[g] == old(self).view()[g]
                &&& final(self).view()[fd].pending() == t.pending()
                &&& final(self).view()[fd].captured() == t.captured() + concat_segments(vectors@).subrange(0, n)
                &&& final(self).view()[fd].read_limit() == t.read_limit()
                &&& final(self).view()[fd].write_limit() == t.write_limit()
            },
    {
        broadcast use vstd::std_specs::hash::group_hash_axioms;
        if !smb2_valid_socket(fd) {
            return Err(CompatError::InvalidInput);
        }
        let buffer = match writev_buffer(vectors) {
            Err(e) => {
                return Err(e);
            },
            Ok(b) => b,
        };
        let taken = self.transports.remove(&fd);
        match taken {
            None => Err(CompatError::InvalidInput),
            Some(mut t) => {
                proof {
                    lemma_concat_len(vectors@);
                }
                let res = t.write(buffer.as_slice());
                let ghost t2 = t;
                self.transports.insert(fd, t);
                assert(self.transports@.dom() =~= old(self).view().dom());
                res
            },
        }
    }

    /// Reads from the endpoint registered under `fd` and scatters the bytes
    /// over `vectors`.
    pub fn readv(&mut self, fd: Socket, vectors: &mut [IoVecMut<'_>]) -> (r: CompatResult<usize>)
        requires
            old(self).wf(),
        ensures
            final(self).wf(),
            final(vectors)@.len() == old(vectors)@.len(),
            fd < 0 ==> r == Err::<usize, CompatError>(CompatError::InvalidInput)
                && final(self).view() == old(self).view() && unchanged_segments(old(vectors)@, final(vectors)@),
            fd >= 0 && checked_total(read_lens(old(vectors)@)) is Err ==>
                r == Err::<usize, CompatError>(checked_total(read_lens(old(vectors)@))->Err_0)
                && final(self).view() == old(self).view() && unchanged_segments(old(vectors)@, final(vectors)@),
            fd >= 0 && checked_total(read_lens(old(vectors)@)) is Ok && !old(self).view().contains_key(fd) ==>
                r == Err::<usize, CompatError>(CompatError::InvalidInput)
                && final(self).view() == old(self).view() && unchanged_segments(old(vectors)@, final(vectors)@),
            fd >= 0 && checked_total(read_lens(old(vectors)@)) is Ok && old(self).view().contains_key(fd) ==> {
                let t = old(self).view()[fd];
                let out = readv_outcome(t.pending(), t.read_limit(), read_lens(old(vectors)@));
                &&& final(self).view().dom() == old(self).view().dom()
                &&& forall|g: Socket| g != fd && #[trigger] old(self).view().contains_key(g)
                    ==> final(self).view()[g] == old(self).view()[g]
                &&& final(self).view()[fd].captured() == t.captured()
                &&& final(self).view()[fd].read_limit() == t.read_limit()
                &&& final(self).view()[fd].write_limit() == t.write_limit()
                &&& out is Err ==> r == out && final(self).view()[fd].pending() == t.pending()
                    && forall|k: int| 0 <= k < old(vectors)@.len()
                        ==> #[trigger] final(vectors)@[k].bytes@ == old(vectors)@[k].bytes@
                &&& out is Ok ==> {
                    let n = out->Ok_0;
                    &&& r == out
                    &&& final(self).view()[fd].pending() == t.pending().subrange(n as int, t.pending().len() as int)
                    &&& forall|k: int, j: int|
                        0 <= k < old(vectors)@.len() && 0 <= j < old(vectors)@[k].bytes@.len()
                            ==> #[trigger] final(vectors)@[k].bytes@[j] == scattered_byte(
                                read_lens(old(vectors)@),
                                t.pending().subrange(0, n as int),
                                k,
                                j,
                                old(vectors)@[k].bytes@[j],
                            )
                }
            },
    {
        broadcast use vstd::std_specs::hash::group_hash_axioms;
        if !smb2_valid_socket(fd) {
            return Err(CompatError::InvalidInput);
        }
        match readv_len(vectors) {
            Err(e) => {
                return Err(e);
            },
            Ok(_) => {},
        }
        let taken = self.transports.remove(&fd);
        match taken {
            None => Err(CompatError::InvalidInput),
            Some(mut t) => {
                let res = readv_memory(&mut t, vectors);
                self.transports.insert(fd, t);
                assert(self.transports@.dom() =~= old(self).view().dom());
                res
            },
        }
    }

    /// Fills in the readiness of each descriptor and returns how many are
    /// ready: registered endpoints report their own readiness, other valid
    /// descriptors report writability when asked, invalid ones nothing.
    pub fn poll(&self, fds: &mut [PollFd]) -> (r: usize)
        requires
            self.wf(),
        ensures
            final(fds)@.len() == old(fds)@.len(),
            forall|k: int| 0 <= k < old(fds)@.len() ==> {
                &&& #[trigger] final(fds)@[k].fd == old(fds)@[k].fd
                &&& final(fds)@[k].events == old(fds)@[k].events
                &&& final(fds)@[k].revents.bits == poll_bits(self.view(), old(fds)@[k])
            },
            r == count_ready(self.view(), old(fds)@),
    {
        broadcast use vstd::std_specs::hash::group_hash_axioms;
        let n = fds.len();
        let mut ready: usize = 0;
        let mut i: usize = 0;
        while i < n
            invariant
                n == fds@.len(),
                n == old(fds)@.len(),
                self.wf(),
                i <= n,
                ready <= i,
                ready == count_ready(self.view(), old(fds)@.subrange(0, i as int)),
                forall|k: int| 0 <= k < i ==> {
                    &&& #[trigger] fds@[k].fd == old(fds)@[k].fd
                    &&& fds@[k].events == old(fds)@[k].events
                    &&& fds@[k].revents.bits == poll_bits(self.view(), old(fds)@[k])
                },
                forall|k: int| i <= k < n ==> #[trigger] fds@[k] == old(fds)@[k],
            decreases n - i,
        {
            let pfd = fds[i];
            let mut revents = PollEvents::empty();
            if smb2_valid_socket(pfd.fd) {
                match self.transports.get(&pfd.fd) {
                    Some(t) => {
                        revents = t.poll_ready(pfd.events);
                    },
                    None => {
                        if pfd.events.contains(POLLOUT) {
                            revents.insert(POLLOUT);
                            assert((0i16 | 4i16) == 4i16) by (bit_vector);
                        }
                    },
                }
            }
            assert(pfd == old(fds)@[i as int]);
            assert(revents.bits == poll_bits(self.view(), pfd));
            fds[i] = PollFd { fd: pfd.fd, events: pfd.events, revents };
            assert(old(fds)@.subrange(0, i + 1).drop_last() =~= old(fds)@.subrange(0, i as int));
            if revents.bits != 0 {
                ready = ready + 1;
            }
            i = i + 1;
        }
        assert(old(fds)@.subrange(0, n as int) =~= old(fds)@);
        ready
    }
}

} // verus!
