//! ASN.1 BER helpers: type codes and tags, object identifier storage, and a
//! coding context with an input cursor and an output cursor.
use vstd::prelude::*;

verus! {

/// Maximum number of object identifier elements accepted by the BER code.
pub const BER_MAX_OID_ELEMENTS: usize = 32;

/// ASN.1 universal class tag mask.
pub const ASN_UNIVERSAL: u8 = 0x00;
/// ASN.1 boolean tag number.
pub const ASN_BOOLEAN: u8 = 0x01;
/// ASN.1 integer tag number.
pub const ASN_INTEGER: u8 = 0x02;
/// ASN.1 bit string tag number.
pub const ASN_BIT_STRING: u8 = 0x03;
/// ASN.1 octet string tag number.
pub const ASN_OCTET_STRING: u8 = 0x04;
/// ASN.1 null tag number.
pub const ASN_NULL: u8 = 0x05;
/// ASN.1 object identifier tag number.
pub const ASN_OBJECT_ID: u8 = 0x06;
/// ASN.1 enumerated tag number.
pub const ASN_ENUMERATED: u8 = 0x0a;
/// ASN.1 sequence tag number.
pub const ASN_SEQUENCE: u8 = 0x10;
/// ASN.1 set tag number.
pub const ASN_SET: u8 = 0x11;
/// ASN.1 printable string tag number.
pub const ASN_PRINTABLE_STR: u8 = 0x13;
/// ASN.1 UTC time tag number.
pub const ASN_UTC_TIME: u8 = 0x17;
/// ASN.1 extension-id marker used for long-form tags.
pub const ASN_EXTENSION_ID: u8 = 0x1f;
/// ASN.1 constructed bit.
pub const ASN_CONSTRUCTOR: u8 = 0x20;
/// ASN.1 sequence/structure type byte .
pub const ASN_STRUCT: u8 = 0x30;
/// ASN.1 application class bit pattern.
pub const ASN_APPLICATION: u8 = 0x40;
/// ASN.1 context-specific class bit pattern.
pub const ASN_CONTEXT_SPECIFIC: u8 = 0x80;
/// ASN.1 private class bit pattern.
pub const ASN_PRIVATE: u8 = 0xc0;

/// ASN.1 BER tag descriptor.
#[derive(Debug, Clone, Copy, PartialEq, Eq)]
pub struct BerTag {
    /// Tag class and constructed bits.
    pub class: u8,
    /// Tag number.
    pub number: u32,
}

impl BerTag {
    /// Builds a tag descriptor from a single-byte BER type code: the class
    /// and constructed bits are the top three bits, the number the low five.
    pub fn from_type_code(type_code: BerType) -> (r: Self)
        ensures
            r.class == type_code.0 & 0xe0,
            r.number == (type_code.0 & ASN_EXTENSION_ID) as u32,
    {
        BerTag { class: type_code.value() & 0xe0, number: (type_code.value() & ASN_EXTENSION_ID) as u32 }
    }
}

/// BER type code.
#[derive(Debug, Clone, Copy, PartialEq, Eq)]
pub struct BerType(pub u8);

impl BerType {
    /// BER boolean type.
    pub fn boolean() -> (r: Self)
        ensures
            r.0 == 0x01u8,
    {
        BerType(0x01)
    }

    /// BER signed integer type.
    pub fn integer() -> (r: Self)
        ensures
            r.0 == 0x02u8,
    {
        BerType(0x02)
    }

    /// BER bit string type.
    pub fn bit_string() -> (r: Self)
        ensures
            r.0 == 0x03u8,
    {
        BerType(0x03)
    }

    /// BER octet string type.
    pub fn octet_string() -> (r: Self)
        ensures
            r.0 == 0x04u8,
    {
        BerType(0x04)
    }

    /// BER null type.
    pub fn null() -> (r: Self)
        ensures
            r.0 == 0x05u8,
    {
        BerType(0x05)
    }

    /// BER object identifier type.
    pub fn object_id() -> (r: Self)
        ensures
            r.0 == 0x06u8,
    {
        BerType(0x06)
    }

    /// BER enumerated type.
    pub fn enumerated() -> (r: Self)
        ensures
            r.0 == 0x0au8,
    {
        BerType(0x0a)
    }

    /// BER sequence type.
    pub fn sequence_type() -> (r: Self)
        ensures
            r.0 == 0x10u8,
    {
        BerType(0x10)
    }

    /// BER set-of type.
    pub fn setof() -> (r: Self)
        ensures
            r.0 == 0x11u8,
    {
        BerType(0x11)
    }

    /// BER printable string type.
    pub fn printable_str() -> (r: Self)
        ensures
            r.0 == 0x13u8,
    {
        BerType(0x13)
    }

    /// BER UTC time type.
    pub fn utc_time() -> (r: Self)
        ensures
            r.0 == 0x17u8,
    {
        BerType(0x17)
    }

    /// RFC-1442 IP address type.
    pub fn ipaddress() -> (r: Self)
        ensures
            r.0 == 0x40u8,
    {
        BerType(0x40)
    }

    /// RFC-1442 counter type.
    pub fn counter() -> (r: Self)
        ensures
            r.0 == 0x41u8,
    {
        BerType(0x41)
    }

    /// RFC-1442 gauge type.
    pub fn gauge() -> (r: Self)
        ensures
            r.0 == 0x42u8,
    {
        BerType(0x42)
    }

    /// RFC-1442 unsigned type, the same code as gauge.
    pub fn unsigned() -> (r: Self)
        ensures
            r.0 == 0x42u8,
    {
        BerType(0x42)
    }

    /// RFC-1442 timeticks type.
    pub fn timeticks() -> (r: Self)
        ensures
            r.0 == 0x43u8,
    {
        BerType(0x43)
    }

    /// RFC-1442 opaque type.
    pub fn opaque() -> (r: Self)
        ensures
            r.0 == 0x44u8,
    {
        BerType(0x44)
    }

    /// RFC-1442 NSAP address type.
    pub fn nsapaddress() -> (r: Self)
        ensures
            r.0 == 0x45u8,
    {
        BerType(0x45)
    }

    /// RFC-1442 64-bit counter type.
    pub fn counter64() -> (r: Self)
        ensures
            r.0 == 0x46u8,
    {
        BerType(0x46)
    }

    /// RFC-1442 32-bit unsigned type.
    pub fn unsigned32() -> (r: Self)
        ensures
            r.0 == 0x47u8,
    {
        BerType(0x47)
    }

    /// RFC-1442 float type.
    pub fn float() -> (r: Self)
        ensures
            r.0 == 0x48u8,
    {
        BerType(0x48)
    }

    /// RFC-1442 double type.
    pub fn double() -> (r: Self)
        ensures
            r.0 == 0x49u8,
    {
        BerType(0x49)
    }

    /// RFC-3781 64-bit integer type.
    pub fn integer64() -> (r: Self)
        ensures
            r.0 == 0x4au8,
    {
        BerType(0x4a)
    }

    /// RFC-3781 64-bit unsigned type.
    pub fn unsigned64() -> (r: Self)
        ensures
            r.0 == 0x4bu8,
    {
        BerType(0x4b)
    }

    /// RFC-3781 32-bit float type.
    pub fn float32() -> (r: Self)
        ensures
            r.0 == 0x4cu8,
    {
        BerType(0x4c)
    }

    /// RFC-3781 64-bit float type.
    pub fn float64() -> (r: Self)
        ensures
            r.0 == 0x4du8,
    {
        BerType(0x4d)
    }

    /// RFC-3781 128-bit float type.
    pub fn float128() -> (r: Self)
        ensures
            r.0 == 0x4eu8,
    {
        BerType(0x4e)
    }

    /// Creates a BER sequence type byte from a low tag number.
    pub fn sequence(number: u8) -> (r: Self)
        ensures
            r.0 == ASN_STRUCT | number,
    {
        BerType(ASN_STRUCT | number)
    }

    /// Creates a BER context-specific constructed type byte from a low tag number.
    pub fn context(number: u8) -> (r: Self)
        ensures
            r.0 == ASN_CONTEXT_SPECIFIC | ASN_CONSTRUCTOR | number,
    {
        BerType(ASN_CONTEXT_SPECIFIC | ASN_CONSTRUCTOR | number)
    }

    /// Creates a BER context-specific primitive type byte from a low tag number.
    pub fn context_simple(number: u8) -> (r: Self)
        ensures
            r.0 == ASN_CONTEXT_SPECIFIC | number,
    {
        BerType(ASN_CONTEXT_SPECIFIC | number)
    }

    /// Returns the raw BER type byte.
    pub fn value(self) -> (r: u8)
        ensures
            r == self.0,
    {
        self.0
    }
}

impl From<u8> for BerType {
    fn from(value: u8) -> (r: Self) {
        BerType(value)
    }
}

impl vstd::std_specs::convert::FromSpecImpl<u8> for BerType {
    open spec fn obeys_from_spec() -> bool {
        true
    }

    open spec fn from_spec(v: u8) -> BerType {
        BerType(v)
    }
}

impl From<BerType> for u8 {
    fn from(value: BerType) -> (r: Self) {
        value.value()
    }
}

impl vstd::std_specs::convert::FromSpecImpl<BerType> for u8 {
    open spec fn obeys_from_spec() -> bool {
        true
    }

    open spec fn from_spec(v: BerType) -> u8 {
        v.0
    }
}

/// Errors of the BER helpers.
#[derive(Debug, Clone, Copy, PartialEq, Eq)]
pub enum BerError {
    /// Input was exhausted before the requested BER item could be read.
    UnexpectedEof,
    /// Output buffer does not have enough capacity for the requested write.
    OutputTooSmall,
    /// The encountered BER type does not match the requested operation.
    InvalidType,
    /// The encoded length or value exceeds the supported bounds.
    TooLarge,
    /// The named operation is not provided.
    Unsupported(&'static str),
}

/// Result type used by ASN.1 BER helpers.
pub type BerResult<T> = Result<T, BerError>;

/// Object identifier storage: up to [`BER_MAX_OID_ELEMENTS`] elements.
#[derive(Debug, Clone, PartialEq, Eq)]
pub struct Asn1BerOidValue {
    elements: [u32; 32],
    length: usize,
}

impl Asn1BerOidValue {
    /// The populated elements.
    pub closed spec fn view(&self) -> Seq<u32> {
        self.elements@.subrange(0, self.length as int)
    }

    /// The storage bound holds.
    pub closed spec fn wf(&self) -> bool {
        self.length <= BER_MAX_OID_ELEMENTS
    }

    /// Creates an empty OID container.
    pub fn new() -> (r: Self)
        ensures
            r.wf(),
            r.view() == Seq::<u32>::empty(),
    {
        let r = Asn1BerOidValue { elements: [0u32; 32], length: 0 };
        assert(r.elements@.subrange(0, 0) =~= Seq::<u32>::empty());
        r
    }

    /// Returns the number of populated OID elements.
    pub fn len(&self) -> (r: usize)
        requires
            self.wf(),
        ensures
            r == self.view().len(),
    {
        self.length
    }

    /// Returns whether the OID contains no elements.
    pub fn is_empty(&self) -> (r: bool)
        requires
            self.wf(),
        ensures
            r == (self.view().len() == 0),
    {
        self.length == 0
    }

    /// Returns the populated OID elements.
    pub fn elements(&self) -> (r: &[u32])
        requires
            self.wf(),
        ensures
            r@ == self.view(),
    {
        let all: &[u32] = self.elements.as_slice();
        slice_prefix(all, self.length)
    }

    /// Clears the OID without changing its fixed storage.
    pub fn clear(&mut self)
        ensures
            final(self).wf(),
            final(self).view() == Seq::<u32>::empty(),
    {
        self.length = 0;
        assert(self.elements@.subrange(0, 0) =~= Seq::<u32>::empty());
    }
}

fn slice_prefix(s: &[u32], n: usize) -> (r: &[u32])
    requires
        n <= s@.len(),
    ensures
        r@ == s@.subrange(0, n as int),
{
    s.split_at(n).0
}

impl Default for Asn1BerOidValue {
    fn default() -> (r: Self)
        ensures
            r.wf(),
            r.view() == Seq::<u32>::empty(),
    {
        Asn1BerOidValue::new()
    }
}

/// BER type and length pair returned by tag-length decoding.
#[derive(Debug, Clone, Copy, PartialEq, Eq)]
pub struct BerTypeLen {
    /// BER type code.
    pub type_code: BerType,
    /// BER payload length.
    pub len: u32,
}

/// Coding context: an input buffer with a read cursor, an optional output
/// buffer with a write cursor, and the last error recorded.
#[derive(Debug)]
pub struct Asn1BerContext<'src, 'dst> {
    src: &'src [u8],
    src_tail: usize,
    dst: Option<&'dst mut [u8]>,
    dst_head: usize,
    last_error: Option<BerError>,
}

/// The context after recording `e` as its last error, cursors unchanged.
pub open spec fn unchanged_but_error<'s, 'd>(a: &Asn1BerContext<'s, 'd>, b: &Asn1BerContext<'s, 'd>, e: BerError) -> bool {
    &&& b.input() == a.input()
    &&& b.input_pos() == a.input_pos()
    &&& b.output() == a.output()
    &&& b.output_pos() == a.output_pos()
    &&& b.error() == Some(e)
}

impl<'src, 'dst> Asn1BerContext<'src, 'dst> {
    /// The input bytes.
    pub closed spec fn input(&self) -> Seq<u8> {
        self.src@
    }

    /// The read cursor.
    pub closed spec fn input_pos(&self) -> usize {
        self.src_tail
    }

    /// The output bytes, when there is an output buffer.
    pub closed spec fn output(&self) -> Option<Seq<u8>> {
        match self.dst {
            Some(d) => Some(d@),
            None => None,
        }
    }

    /// The write cursor.
    pub closed spec fn output_pos(&self) -> usize {
        self.dst_head
    }

    /// The last recorded error.
    pub closed spec fn error(&self) -> Option<BerError> {
        self.last_error
    }

    /// Both cursors lie within their buffers.
    pub closed spec fn wf(&self) -> bool {
        &&& self.src_tail <= self.src@.len()
        &&& match self.dst {
            Some(d) => self.dst_head <= d@.len(),
            None => self.dst_head == 0,
        }
    }

    /// Creates a context with only an input buffer.
    pub fn from_src(src: &'src [u8]) -> (r: Self)
        ensures
            r.wf(),
            r.input() == src@,
            r.input_pos() == 0,
            r.output() is None,
            r.output_pos() == 0,
            r.error() is None,
    {
        Asn1BerContext { src, src_tail: 0, dst: None, dst_head: 0, last_error: None }
    }

    /// Creates a context with only an output buffer.
    pub fn from_dst(dst: &'dst mut [u8]) -> (r: Self)
        ensures
            r.wf(),
            r.input() == Seq::<u8>::empty(),
            r.input_pos() == 0,
            r.output() == Some(old(dst)@),
            r.output_pos() == 0,
            r.error() is None,
    {
        let empty: &[u8] = &[];
        assert(empty@ =~= Seq::<u8>::empty());
        Asn1BerContext { src: empty, src_tail: 0, dst: Some(dst), dst_head: 0, last_error: None }
    }

    /// Creates a context with both input and output buffers.
    pub fn from_src_dst(src: &'src [u8], dst: &'dst mut [u8]) -> (r: Self)
        ensures
            r.wf(),
            r.input() == src@,
            r.input_pos() == 0,
            r.output() == Some(old(dst)@),
            r.output_pos() == 0,
            r.error() is None,
    {
        Asn1BerContext { src, src_tail: 0, dst: Some(dst), dst_head: 0, last_error: None }
    }

    /// Returns the current input cursor offset.
    pub fn src_tail(&self) -> (r: usize)
        ensures
            r == self.input_pos(),
    {
        self.src_tail
    }

    /// Returns the current output cursor offset.
    pub fn dst_head(&self) -> (r: usize)
        ensures
            r == self.output_pos(),
    {
        self.dst_head
    }

    /// Returns the last BER error recorded on this context.
    pub fn last_error(&self) -> (r: Option<BerError>)
        ensures
            r == self.error(),
    {
        self.last_error
    }

    fn record_error<T>(&mut self, error: BerError) -> (r: BerResult<T>)
        ensures
            r == Err::<T, BerError>(error),
            unchanged_but_error(old(self), final(self), error),
            final(self).wf() == old(self).wf(),
    {
        self.last_error = Some(error);
        Err(error)
    }

    /// Reads the next input byte.
    pub fn next_byte(&mut self) -> (r: BerResult<u8>)
        requires
            old(self).wf(),
        ensures
            final(self).wf(),
            old(self).input_pos() >= old(self).input().len() ==> r == Err::<u8, BerError>(BerError::UnexpectedEof)
                && unchanged_but_error(old(self), final(self), BerError::UnexpectedEof),
            old(self).input_pos() < old(self).input().len() ==> r == Ok::<u8, BerError>(old(self).input()[old(self).input_pos() as int])
                && final(self).input_pos() == old(self).input_pos() + 1
                && final(self).input() == old(self).input()
                && final(self).output() == old(self).output()
                && final(self).output_pos() == old(self).output_pos()
                && final(self).error() == old(self).error(),
    {
        if self.src_tail >= self.src.len() {
            return self.record_error(BerError::UnexpectedEof);
        }
        let byte = self.src[self.src_tail];
        self.src_tail = self.src_tail + 1;
        Ok(byte)
    }

    /// Writes one byte at the output cursor.
    pub fn out_byte(&mut self, value: u8) -> (r: BerResult<()>)
        requires
            old(self).wf(),
        ensures
            final(self).wf(),
            final(self).input() == old(self).input(),
            final(self).input_pos() == old(self).input_pos(),
            match old(self).output() {
                Some(b) => if old(self).output_pos() < b.len() {
                    &&& r == Ok::<(), BerError>(())
                    &&& final(self).output() == Some(b.update(old(self).output_pos() as int, value))
                    &&& final(self).output_pos() == old(self).output_pos() + 1
                    &&& final(self).error() == old(self).error()
                } else {
                    r == Err::<(), BerError>(BerError::OutputTooSmall)
                        && unchanged_but_error(old(self), final(self), BerError::OutputTooSmall)
                },
                None => r == Err::<(), BerError>(BerError::OutputTooSmall)
                    && unchanged_but_error(old(self), final(self), BerError::OutputTooSmall),
            },
    {
        match self.dst.take() {
            Some(d) => {
                if self.dst_head < d.len() {
                    d[self.dst_head] = value;
                    self.dst_head = self.dst_head + 1;
                    self.dst = Some(d);
                    Ok(())
                } else {
                    self.dst = Some(d);
                    self.record_error(BerError::OutputTooSmall)
                }
            },
            None => self.record_error(BerError::OutputTooSmall),
        }
    }

    /// Returns the output cursor for later length back-annotation, when
    /// there is room for at least one more byte.
    pub fn save_out_state(&mut self) -> (r: BerResult<usize>)
        requires
            old(self).wf(),
        ensures
            final(self).wf(),
            match old(self).output() {
                Some(b) => if old(self).output_pos() < b.len() {
                    r == Ok::<usize, BerError>(old(self).output_pos()) && *final(self) == *old(self)
                } else {
                    r == Err::<usize, BerError>(BerError::OutputTooSmall)
                        && unchanged_but_error(old(self), final(self), BerError::OutputTooSmall)
                },
                None => r == Err::<usize, BerError>(BerError::OutputTooSmall)
                    && unchanged_but_error(old(self), final(self), BerError::OutputTooSmall),
            },
    {
        let room = match &self.dst {
            Some(d) => self.dst_head < d.len(),
            None => false,
        };
        if room {
            Ok(self.dst_head)
        } else {
            self.record_error(BerError::OutputTooSmall)
        }
    }

    /// Writes `len` zero bytes at the output cursor, stopping at the end of
    /// the output buffer.
    pub fn ber_reserve_length(&mut self, len: usize) -> (r: BerResult<()>)
        requires
            old(self).wf(),
        ensures
            final(self).wf(),
            final(self).input() == old(self).input(),
            final(self).input_pos() == old(self).input_pos(),
            len == 0 ==> r == Ok::<(), BerError>(()) && final(self).output() == old(self).output()
                && final(self).output_pos() == old(self).output_pos() && final(self).error() == old(self).error(),
            len > 0 && old(self).output() is None ==> r == Err::<(), BerError>(BerError::OutputTooSmall)
                && unchanged_but_error(old(self), final(self), BerError::OutputTooSmall),
            len > 0 ==> (old(self).output() matches Some(b) ==> {
                let room = b.len() - old(self).output_pos();
                let n = if len <= room { len as int } else { room };
                &&& final(self).output() matches Some(b2) && b2 == zero_fill(b, old(self).output_pos() as int, n)
                &&& final(self).output_pos() == old(self).output_pos() + n
                &&& len <= room ==> r == Ok::<(), BerError>(()) && final(self).error() == old(self).error()
                &&& len > room ==> r == Err::<(), BerError>(BerError::OutputTooSmall)
                    && final(self).error() == Some(BerError::OutputTooSmall)
            }),
    {
        let mut i: usize = 0;
        while i < len
            invariant
                self.wf(),
                i <= len,
                self.input() == old(self).input(),
                self.input_pos() == old(self).input_pos(),
                self.error() == old(self).error(),
                old(self).output() is None ==> i == 0 && self.output() is None && self.output_pos() == old(self).output_pos(),
                old(self).output() matches Some(b) ==> {
                    &&& old(self).output_pos() + i <= b.len()
                    &&& self.output() == Some(zero_fill(b, old(self).output_pos() as int, i as int))
                    &&& self.output_pos() == old(self).output_pos() + i
                },
            decreases len - i,
        {
            let ghost before = self.output();
            let res = self.out_byte(0);
            match res {
                Err(e) => {
                    proof {
                        if let Some(b) = old(self).output() {
                            assert(zero_fill(b, old(self).output_pos() as int, i as int) =~= zero_fill(
                                b,
                                old(self).output_pos() as int,
                                (b.len() - old(self).output_pos()) as int,
                            ));
                        }
                    }
                    return Err(e);
                },
                Ok(()) => {},
            }
            proof {
                if let Some(b) = old(self).output() {
                    assert(zero_fill(b, old(self).output_pos() as int, i as int).update(old(self).output_pos() + i, 0u8)
                        =~= zero_fill(b, old(self).output_pos() as int, i + 1));
                }
            }
            i = i + 1;
        }
        Ok(())
    }

    /// Writes a single BER type code byte.
    pub fn ber_from_typecode(&mut self, type_code: BerType) -> (r: BerResult<()>)
        requires
            old(self).wf(),
        ensures
            final(self).wf(),
            final(self).input() == old(self).input(),
            final(self).input_pos() == old(self).input_pos(),
            match old(self).output() {
                Some(b) => if old(self).output_pos() < b.len() {
                    &&& r == Ok::<(), BerError>(())
                    &&& final(self).output() == Some(b.update(old(self).output_pos() as int, type_code.0))
                    &&& final(self).output_pos() == old(self).output_pos() + 1
                } else {
                    r == Err::<(), BerError>(BerError::OutputTooSmall)
                        && unchanged_but_error(old(self), final(self), BerError::OutputTooSmall)
                },
                None => r == Err::<(), BerError>(BerError::OutputTooSmall)
                    && unchanged_but_error(old(self), final(self), BerError::OutputTooSmall),
            },
    {
        self.out_byte(type_code.value())
    }

    /// Encodes a string as an octet string; byte-string encoding is not
    /// provided.
    pub fn ber_from_string(&mut self, value: &str) -> (r: BerResult<()>)
        requires
            old(self).wf(),
        ensures
            final(self).wf(),
            r == Err::<(), BerError>(BerError::Unsupported("asn1ber_ber_from_bytes")),
            unchanged_but_error(old(self), final(self), BerError::Unsupported("asn1ber_ber_from_bytes")),
    {
        self.ber_from_bytes(BerType::octet_string(), value.as_bytes())
    }

    /// Back-annotates a reserved length; this coding step is not provided, so it records and
    /// returns `Unsupported("asn1ber_annotate_length")`.
    pub fn annotate_length(&mut self, _out_pos: usize, _reserved: usize) -> (r: BerResult<()>)
        requires
            old(self).wf(),
        ensures
            final(self).wf(),
            r == Err::<(), BerError>(BerError::Unsupported("asn1ber_annotate_length")),
            unchanged_but_error(old(self), final(self), BerError::Unsupported("asn1ber_annotate_length")),
    {
        self.record_error(BerError::Unsupported("asn1ber_annotate_length"))
    }

    /// Decodes a BER length; this coding step is not provided, so it records and
    /// returns `Unsupported("asn1ber_length_from_ber")`.
    pub fn length_from_ber(&mut self) -> (r: BerResult<u32>)
        requires
            old(self).wf(),
        ensures
            final(self).wf(),
            r == Err::<u32, BerError>(BerError::Unsupported("asn1ber_length_from_ber")),
            unchanged_but_error(old(self), final(self), BerError::Unsupported("asn1ber_length_from_ber")),
    {
        self.record_error(BerError::Unsupported("asn1ber_length_from_ber"))
    }

    /// Decodes a BER type code; this coding step is not provided, so it records and
    /// returns `Unsupported("ber_typecode_from_ber")`.
    pub fn typecode_from_ber(&mut self) -> (r: BerResult<BerType>)
        requires
            old(self).wf(),
        ensures
            final(self).wf(),
            r == Err::<BerType, BerError>(BerError::Unsupported("ber_typecode_from_ber")),
            unchanged_but_error(old(self), final(self), BerError::Unsupported("ber_typecode_from_ber")),
    {
        self.record_error(BerError::Unsupported("ber_typecode_from_ber"))
    }

    /// Decodes a BER type and length; this coding step is not provided, so it records and
    /// returns `Unsupported("ber_typelen_from_ber")`.
    pub fn typelen_from_ber(&mut self) -> (r: BerResult<BerTypeLen>)
        requires
            old(self).wf(),
        ensures
            final(self).wf(),
            r == Err::<BerTypeLen, BerError>(BerError::Unsupported("ber_typelen_from_ber")),
            unchanged_but_error(old(self), final(self), BerError::Unsupported("ber_typelen_from_ber")),
    {
        self.record_error(BerError::Unsupported("ber_typelen_from_ber"))
    }

    /// Decodes a request header; this coding step is not provided, so it records and
    /// returns `Unsupported("asn1ber_request_from_ber")`.
    pub fn request_from_ber(&mut self) -> (r: BerResult<BerTypeLen>)
        requires
            old(self).wf(),
        ensures
            final(self).wf(),
            r == Err::<BerTypeLen, BerError>(BerError::Unsupported("asn1ber_request_from_ber")),
            unchanged_but_error(old(self), final(self), BerError::Unsupported("asn1ber_request_from_ber")),
    {
        self.record_error(BerError::Unsupported("asn1ber_request_from_ber"))
    }

    /// Decodes a structure header; this coding step is not provided, so it records and
    /// returns `Unsupported("asn1ber_struct_from_ber")`.
    pub fn struct_from_ber(&mut self) -> (r: BerResult<u32>)
        requires
            old(self).wf(),
        ensures
            final(self).wf(),
            r == Err::<u32, BerError>(BerError::Unsupported("asn1ber_struct_from_ber")),
            unchanged_but_error(old(self), final(self), BerError::Unsupported("asn1ber_struct_from_ber")),
    {
        self.record_error(BerError::Unsupported("asn1ber_struct_from_ber"))
    }

    /// Decodes a null value; this coding step is not provided, so it records and
    /// returns `Unsupported("asn1ber_null_from_ber")`.
    pub fn null_from_ber(&mut self) -> (r: BerResult<u32>)
        requires
            old(self).wf(),
        ensures
            final(self).wf(),
            r == Err::<u32, BerError>(BerError::Unsupported("asn1ber_null_from_ber")),
            unchanged_but_error(old(self), final(self), BerError::Unsupported("asn1ber_null_from_ber")),
    {
        self.record_error(BerError::Unsupported("asn1ber_null_from_ber"))
    }

    /// Decodes a signed 32-bit integer; this coding step is not provided, so it records and
    /// returns `Unsupported("asn1ber_int32_from_ber")`.
    pub fn int32_from_ber(&mut self) -> (r: BerResult<i32>)
        requires
            old(self).wf(),
        ensures
            final(self).wf(),
            r == Err::<i32, BerError>(BerError::Unsupported("asn1ber_int32_from_ber")),
            unchanged_but_error(old(self), final(self), BerError::Unsupported("asn1ber_int32_from_ber")),
    {
        self.record_error(BerError::Unsupported("asn1ber_int32_from_ber"))
    }

    /// Decodes an unsigned 32-bit integer; this coding step is not provided, so it records and
    /// returns `Unsupported("asn1ber_uint32_from_ber")`.
    pub fn uint32_from_ber(&mut self) -> (r: BerResult<u32>)
        requires
            old(self).wf(),
        ensures
            final(self).wf(),
            r == Err::<u32, BerError>(BerError::Unsupported("asn1ber_uint32_from_ber")),
            unchanged_but_error(old(self), final(self), BerError::Unsupported("asn1ber_uint32_from_ber")),
    {
        self.record_error(BerError::Unsupported("asn1ber_uint32_from_ber"))
    }

    /// Decodes a signed 64-bit integer; this coding step is not provided, so it records and
    /// returns `Unsupported("asn1ber_int64_from_ber")`.
    pub fn int64_from_ber(&mut self) -> (r: BerResult<i64>)
        requires
            old(self).wf(),
        ensures
            final(self).wf(),
            r == Err::<i64, BerError>(BerError::Unsupported("asn1ber_int64_from_ber")),
            unchanged_but_error(old(self), final(self), BerError::Unsupported("asn1ber_int64_from_ber")),
    {
        self.record_error(BerError::Unsupported("asn1ber_int64_from_ber"))
    }

    /// Decodes an unsigned 64-bit integer; this coding step is not provided, so it records and
    /// returns `Unsupported("asn1ber_uint64_from_ber")`.
    pub fn uint64_from_ber(&mut self) -> (r: BerResult<u64>)
        requires
            old(self).wf(),
        ensures
            final(self).wf(),
            r == Err::<u64, BerError>(BerError::Unsupported("asn1ber_uint64_from_ber")),
            unchanged_but_error(old(self), final(self), BerError::Unsupported("asn1ber_uint64_from_ber")),
    {
        self.record_error(BerError::Unsupported("asn1ber_uint64_from_ber"))
    }

    /// Decodes an object identifier; this coding step is not provided, so it records and
    /// returns `Unsupported("asn1ber_oid_from_ber")`.
    pub fn oid_from_ber(&mut self) -> (r: BerResult<Asn1BerOidValue>)
        requires
            old(self).wf(),
        ensures
            final(self).wf(),
            r == Err::<Asn1BerOidValue, BerError>(BerError::Unsupported("asn1ber_oid_from_ber")),
            unchanged_but_error(old(self), final(self), BerError::Unsupported("asn1ber_oid_from_ber")),
    {
        self.record_error(BerError::Unsupported("asn1ber_oid_from_ber"))
    }

    /// Decodes an octet string; this coding step is not provided, so it records and
    /// returns `Unsupported("asn1ber_bytes_from_ber")`.
    pub fn bytes_from_ber(&mut self, _max_len: usize) -> (r: BerResult<Vec<u8>>)
        requires
            old(self).wf(),
        ensures
            final(self).wf(),
            r == Err::<Vec<u8>, BerError>(BerError::Unsupported("asn1ber_bytes_from_ber")),
            unchanged_but_error(old(self), final(self), BerError::Unsupported("asn1ber_bytes_from_ber")),
    {
        self.record_error(BerError::Unsupported("asn1ber_bytes_from_ber"))
    }

    /// Decodes a string; this coding step is not provided, so it records and
    /// returns `Unsupported("asn1ber_string_from_ber")`.
    pub fn string_from_ber(&mut self, _max_len: usize) -> (r: BerResult<String>)
        requires
            old(self).wf(),
        ensures
            final(self).wf(),
            r == Err::<String, BerError>(BerError::Unsupported("asn1ber_string_from_ber")),
            unchanged_but_error(old(self), final(self), BerError::Unsupported("asn1ber_string_from_ber")),
    {
        self.record_error(BerError::Unsupported("asn1ber_string_from_ber"))
    }

    /// Encodes a BER length; this coding step is not provided, so it records and
    /// returns `Unsupported("asn1ber_ber_from_length")`.
    pub fn ber_from_length(&mut self, _len: u32) -> (r: BerResult<usize>)
        requires
            old(self).wf(),
        ensures
            final(self).wf(),
            r == Err::<usize, BerError>(BerError::Unsupported("asn1ber_ber_from_length")),
            unchanged_but_error(old(self), final(self), BerError::Unsupported("asn1ber_ber_from_length")),
    {
        self.record_error(BerError::Unsupported("asn1ber_ber_from_length"))
    }

    /// Encodes a BER type and length; this coding step is not provided, so it records and
    /// returns `Unsupported("asn1ber_ber_from_typelen")`.
    pub fn ber_from_typelen(&mut self, _type_code: BerType, _len: u32) -> (r: BerResult<usize>)
        requires
            old(self).wf(),
        ensures
            final(self).wf(),
            r == Err::<usize, BerError>(BerError::Unsupported("asn1ber_ber_from_typelen")),
            unchanged_but_error(old(self), final(self), BerError::Unsupported("asn1ber_ber_from_typelen")),
    {
        self.record_error(BerError::Unsupported("asn1ber_ber_from_typelen"))
    }

    /// Encodes a signed 32-bit integer; this coding step is not provided, so it records and
    /// returns `Unsupported("asn1ber_ber_from_int32")`.
    pub fn ber_from_int32(&mut self, _type_code: BerType, _value: i32) -> (r: BerResult<()>)
        requires
            old(self).wf(),
        ensures
            final(self).wf(),
            r == Err::<(), BerError>(BerError::Unsupported("asn1ber_ber_from_int32")),
            unchanged_but_error(old(self), final(self), BerError::Unsupported("asn1ber_ber_from_int32")),
    {
        self.record_error(BerError::Unsupported("asn1ber_ber_from_int32"))
    }

    /// Encodes an unsigned 32-bit integer; this coding step is not provided, so it records and
    /// returns `Unsupported("asn1ber_ber_from_uint32")`.
    pub fn ber_from_uint32(&mut self, _type_code: BerType, _value: u32) -> (r: BerResult<()>)
        requires
            old(self).wf(),
        ensures
            final(self).wf(),
            r == Err::<(), BerError>(BerError::Unsupported("asn1ber_ber_from_uint32")),
            unchanged_but_error(old(self), final(self), BerError::Unsupported("asn1ber_ber_from_uint32")),
    {
        self.record_error(BerError::Unsupported("asn1ber_ber_from_uint32"))
    }

    /// Encodes a signed 64-bit integer; this coding step is not provided, so it records and
    /// returns `Unsupported("asn1ber_ber_from_int64")`.
    pub fn ber_from_int64(&mut self, _type_code: BerType, _value: i64) -> (r: BerResult<()>)
        requires
            old(self).wf(),
        ensures
            final(self).wf(),
            r == Err::<(), BerError>(BerError::Unsupported("asn1ber_ber_from_int64")),
            unchanged_but_error(old(self), final(self), BerError::Unsupported("asn1ber_ber_from_int64")),
    {
        self.record_error(BerError::Unsupported("asn1ber_ber_from_int64"))
    }

    /// Encodes an unsigned 64-bit integer; this coding step is not provided, so it records and
    /// returns `Unsupported("asn1ber_ber_from_uint64")`.
    pub fn ber_from_uint64(&mut self, _type_code: BerType, _value: u64) -> (r: BerResult<()>)
        requires
            old(self).wf(),
        ensures
            final(self).wf(),
            r == Err::<(), BerError>(BerError::Unsupported("asn1ber_ber_from_uint64")),
            unchanged_but_error(old(self), final(self), BerError::Unsupported("asn1ber_ber_from_uint64")),
    {
        self.record_error(BerError::Unsupported("asn1ber_ber_from_uint64"))
    }

    /// Encodes an object identifier; this coding step is not provided, so it records and
    /// returns `Unsupported("asn1ber_ber_from_oid")`.
    pub fn ber_from_oid(&mut self, _oid: &Asn1BerOidValue) -> (r: BerResult<()>)
        requires
            old(self).wf(),
        ensures
            final(self).wf(),
            r == Err::<(), BerError>(BerError::Unsupported("asn1ber_ber_from_oid")),
            unchanged_but_error(old(self), final(self), BerError::Unsupported("asn1ber_ber_from_oid")),
    {
        self.record_error(BerError::Unsupported("asn1ber_ber_from_oid"))
    }

    /// Encodes a byte string; this coding step is not provided, so it records and
    /// returns `Unsupported("asn1ber_ber_from_bytes")`.
    pub fn ber_from_bytes(&mut self, _type_code: BerType, _value: &[u8]) -> (r: BerResult<()>)
        requires
            old(self).wf(),
        ensures
            final(self).wf(),
            r == Err::<(), BerError>(BerError::Unsupported("asn1ber_ber_from_bytes")),
            unchanged_but_error(old(self), final(self), BerError::Unsupported("asn1ber_ber_from_bytes")),
    {
        self.record_error(BerError::Unsupported("asn1ber_ber_from_bytes"))
    }

}

/// `b` with the `n` bytes from position `at` set to zero.
pub open spec fn zero_fill(b: Seq<u8>, at: int, n: int) -> Seq<u8> {
    Seq::new(b.len(), |k: int| if at <= k < at + n { 0u8 } else { b[k] })
}

} // verus!
