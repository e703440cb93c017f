//! Ancillary-message layout and the records carried out of band with it.
use vstd::prelude::*;
use byteorder::{ByteOrder, NetworkEndian};

verus! {

/// Socket level of the kernel's TLS options and ancillary messages.
pub const SOL_TLS: i32 = 282;
/// Ancillary type that sets the record type of an outgoing record.
pub const TLS_SET_RECORD_TYPE: i32 = 1;
/// Ancillary type that reports the record type of an incoming record.
pub const TLS_GET_RECORD_TYPE: i32 = 2;
/// Major protocol-version byte written into synthesized record headers.
pub const TLS_1_2_VERSION_MAJOR: u8 = 3;
/// Minor protocol-version byte written into synthesized record headers.
pub const TLS_1_2_VERSION_MINOR: u8 = 3;
/// Length of a TLS record header: type, version, body length.
pub const HEADER_LENGTH: usize = 5;
/// Record type of an alert.
pub const ALERT: u8 = 0x15;
/// Length of the data of a record-type ancillary entry: one byte.
pub const CMSG_DATA_LEN: usize = 1;

/// `n` rounded up to a multiple of `word`.
pub open spec fn align_up(n: nat, word: nat) -> nat
    recommends
        word > 0,
{
    ((n + word - 1) as nat / word) * word
}

/// The two bytes of `n`, most significant first.
pub open spec fn be_u16(n: u16) -> Seq<u8> {
    seq![(n >> 8u16) as u8, n as u8]
}

/// A record of type `tag` whose body is `body`: the synthesized header
/// (tag, protocol version, big-endian body length) followed by the body.
pub open spec fn framed(tag: u8, body: Seq<u8>) -> Seq<u8>
    recommends
        body.len() <= 0xffff,
{
    seq![tag, TLS_1_2_VERSION_MAJOR, TLS_1_2_VERSION_MINOR] + be_u16(body.len() as u16) + body
}

/// Sizes of the platform's ancillary-message ABI: the pointer-word size that
/// fields are padded to, and the size of an ancillary header.
#[derive(Debug, Clone, Copy, PartialEq, Eq, Structural)]
pub struct CmsgLayout {
    pub word: usize,
    pub header: usize,
}

/// One ancillary entry: its level, its type and its single data byte.
#[derive(Debug, Clone, Copy, PartialEq, Eq, Structural)]
pub struct Ancillary {
    pub level: i32,
    pub kind: i32,
    pub data: u8,
}

/// Why a received out-of-band record could not be framed.
#[derive(Debug, Clone, Copy, PartialEq, Eq, Structural)]
pub enum CtrlError {
    /// No record-type entry came with the data: it is application data.
    NotRecord,
    /// The body does not fit the buffer, or its length does not fit a header.
    Oversized,
}

proof fn lemma_align_bounds(n: nat, word: nat)
    requires
        word > 0,
    ensures
        n <= align_up(n, word) <= n + word - 1,
        align_up(n, word) % word == 0,
{
    let x = (n + word - 1) as nat;
    assert((x / word) * word <= x) by (nonlinear_arith)
        requires
            word > 0,
    ;
    assert((x / word) * word > x - word) by (nonlinear_arith)
        requires
            word > 0,
    ;
    assert(((x / word) * word) % word == 0) by (nonlinear_arith)
        requires
            word > 0,
    ;
}

impl CmsgLayout {
    /// The word is positive and both sizes leave room for the arithmetic.
    pub open spec fn wf(&self) -> bool {
        &&& 0 < self.word <= usize::MAX / 4
        &&& self.header <= usize::MAX / 4
    }

    /// A layout for the given word and header sizes, if they are usable.
    pub fn new(word: usize, header: usize) -> (r: Option<CmsgLayout>)
        ensures
            r matches Some(l) ==> l.wf() && l.word == word && l.header == header,
            r is None <==> !(0 < word <= usize::MAX / 4 && header <= usize::MAX / 4),
    {
        if 0 < word && word <= usize::MAX / 4 && header <= usize::MAX / 4 {
            Some(CmsgLayout { word, header })
        } else {
            None
        }
    }

    /// `n` rounded up to the word size.
    pub fn aligned_len(&self, n: usize) -> (r: usize)
        requires
            self.wf(),
            n <= usize::MAX / 4,
        ensures
            r == align_up(n as nat, self.word as nat),
            n <= r < n + self.word,
    {
        proof {
            lemma_align_bounds(n as nat, self.word as nat);
        }
        ((n + self.word - 1) / self.word) * self.word
    }

    /// Size of a buffer that holds one entry with `n` bytes of data: the
    /// padded header followed by the padded data.
    pub fn space_len(&self, n: usize) -> (r: usize)
        requires
            self.wf(),
            n <= usize::MAX / 4,
        ensures
            r == align_up(self.header as nat, self.word as nat) + align_up(
                n as nat,
                self.word as nat,
            ),
    {
        let data = self.aligned_len(n);
        let head = self.aligned_len(self.header);
        head + data
    }

    /// The length field of an entry with `n` bytes of data: the padded
    /// header followed by the unpadded data.
    pub fn entry_len(&self, n: usize) -> (r: usize)
        requires
            self.wf(),
            n <= usize::MAX / 4,
        ensures
            r == align_up(self.header as nat, self.word as nat) + n,
    {
        self.aligned_len(self.header) + n
    }

    /// Offset of an entry's data from the start of the entry.
    pub fn data_offset(&self) -> (r: usize)
        requires
            self.wf(),
        ensures
            r == align_up(self.header as nat, self.word as nat),
    {
        self.aligned_len(self.header)
    }

    /// Whether a control buffer of `control_len` bytes holds a first entry.
    pub fn has_first_header(&self, control_len: usize) -> (r: bool)
        ensures
            r == (control_len >= self.header),
    {
        control_len >= self.header
    }
}

/// The entry that marks an outgoing record as being of type `record_type`.
pub fn set_record_type(record_type: u8) -> (r: Ancillary)
    ensures
        r == (Ancillary { level: SOL_TLS, kind: TLS_SET_RECORD_TYPE, data: record_type }),
{
    Ancillary { level: SOL_TLS, kind: TLS_SET_RECORD_TYPE, data: record_type }
}

/// The record type reported by a received entry, if it is a record-type entry.
pub open spec fn spec_record_type_of(entry: Option<Ancillary>) -> Option<u8> {
    match entry {
        Some(e) => if e.level == SOL_TLS && e.kind == TLS_GET_RECORD_TYPE {
            Some(e.data)
        } else {
            None
        },
        None => None,
    }
}

/// The record type reported by a received entry, if it is a record-type entry.
pub fn record_type_of(entry: Option<Ancillary>) -> (r: Option<u8>)
    ensures
        r == spec_record_type_of(entry),
{
    match entry {
        Some(e) => if e.level == SOL_TLS && e.kind == TLS_GET_RECORD_TYPE {
            Some(e.data)
        } else {
            None
        },
        None => None,
    }
}

/// Relies on byteorder's `NetworkEndian::write_u16`, which writes `n` into
/// the first two bytes, most significant byte first.
#[verifier::external_body]
fn network_u16(n: u16) -> (r: [u8; 2])
    ensures
        r@ == be_u16(n),
{
    let mut buf = [0u8; 2];
    NetworkEndian::write_u16(&mut buf, n);
    buf
}

/// Whether a receive of `len` body bytes into `buf_len` bytes, after the
/// reserved header, fits both the buffer and a record header.
pub open spec fn body_fits(buf_len: nat, len: nat) -> bool {
    &&& buf_len >= HEADER_LENGTH
    &&& len <= buf_len - HEADER_LENGTH
    &&& len <= 0xffff
}

/// Completes a record received out of band. The receive wrote `len` body
/// bytes after the first `HEADER_LENGTH` bytes of `record`, and reported
/// `entry`; when the entry gives a record type, the header is written in front
/// of the body and the whole record's length is returned.
pub fn frame_record(record: &mut Vec<u8>, len: usize, entry: Option<Ancillary>) -> (r: Result<
    usize,
    CtrlError,
>)
    ensures
        !body_fits(old(record)@.len(), len as nat) ==> r == Err::<usize, CtrlError>(
            CtrlError::Oversized,
        ) && final(record)@ == old(record)@,
        body_fits(old(record)@.len(), len as nat) && spec_record_type_of(entry) is None ==> r
            == Err::<usize, CtrlError>(CtrlError::NotRecord) && final(record)@ == old(record)@,
        body_fits(old(record)@.len(), len as nat) && spec_record_type_of(entry) is Some ==> {
            let tag = spec_record_type_of(entry)->0;
            let body = old(record)@.subrange(HEADER_LENGTH as int, HEADER_LENGTH + len);
            &&& r == Ok::<usize, CtrlError>((HEADER_LENGTH + len) as usize)
            &&& final(record)@.len() == old(record)@.len()
            &&& final(record)@.subrange(0, HEADER_LENGTH + len) == framed(tag, body)
            &&& final(record)@.subrange(HEADER_LENGTH + len, final(record)@.len() as int)
                == old(record)@.subrange(HEADER_LENGTH + len, old(record)@.len() as int)
        },
{
    let buf_len = record.len();
    if buf_len < HEADER_LENGTH || len > buf_len - HEADER_LENGTH || len > 0xffff {
        return Err(CtrlError::Oversized);
    }
    let tag = match record_type_of(entry) {
        Some(t) => t,
        None => return Err(CtrlError::NotRecord),
    };
    let length = network_u16(len as u16);
    record.set(0, tag);
    record.set(1, TLS_1_2_VERSION_MAJOR);
    record.set(2, TLS_1_2_VERSION_MINOR);
    record.set(3, length[0]);
    record.set(4, length[1]);
    let ghost body = old(record)@.subrange(HEADER_LENGTH as int, HEADER_LENGTH + len);
    assert(body.len() == len);
    assert(record@.subrange(0, HEADER_LENGTH + len) =~= framed(tag, body));
    assert(record@.subrange(HEADER_LENGTH + len, record@.len() as int) =~= old(record)@.subrange(
        HEADER_LENGTH + len,
        old(record)@.len() as int,
    ));
    Ok(HEADER_LENGTH + len)
}

} // verus!
