use vstd::prelude::*;

verus! {

// Wire protocol codec: every message on the socket is one frame, a 4-byte
// big-endian length prefix followed by exactly that many bytes of UTF-8 text.
// A zero-length frame is a valid message meaning "no payload".

/// The four bytes of `x` in big-endian order, most significant first.
pub open spec fn spec_u32_to_be_bytes(x: u32) -> Seq<u8> {
    seq![
        ((x >> 24) & 0xff) as u8,
        ((x >> 16) & 0xff) as u8,
        ((x >> 8) & 0xff) as u8,
        (x & 0xff) as u8,
    ]
}

/// The u32 read from four bytes in big-endian order.
pub open spec fn spec_u32_from_be_bytes(s: Seq<u8>) -> u32
    recommends
        s.len() == 4,
{
    ((s[0] as u32) << 24) | ((s[1] as u32) << 16) | ((s[2] as u32) << 8) | (s[3] as u32)
}

pub proof fn lemma_u32_be_bytes_round_trip(x: u32)
    ensures
        spec_u32_to_be_bytes(x).len() == 4,
        spec_u32_from_be_bytes(spec_u32_to_be_bytes(x)) == x,
{
    let s = spec_u32_to_be_bytes(x);
    assert(s[0] == ((x >> 24) & 0xff) as u8);
    assert(s[1] == ((x >> 16) & 0xff) as u8);
    assert(s[2] == ((x >> 8) & 0xff) as u8);
    assert(s[3] == (x & 0xff) as u8);
    assert(((((x >> 24) & 0xff) as u8 as u32) << 24) | ((((x >> 16) & 0xff) as u8 as u32) << 16)
        | ((((x >> 8) & 0xff) as u8 as u32) << 8) | ((x & 0xff) as u8 as u32) == x)
        by (bit_vector);
}

pub fn u32_to_be_bytes(x: u32) -> (r: Vec<u8>)
    ensures
        r@ == spec_u32_to_be_bytes(x),
{
    let b0: u8 = ((x >> 24) & 0xff) as u8;
    let b1: u8 = ((x >> 16) & 0xff) as u8;
    let b2: u8 = ((x >> 8) & 0xff) as u8;
    let b3: u8 = (x & 0xff) as u8;
    let r = vec![b0, b1, b2, b3];
    assert(r@ =~= spec_u32_to_be_bytes(x));
    r
}

pub fn u32_from_be_bytes(b: &[u8]) -> (r: u32)
    requires
        b@.len() == 4,
    ensures
        r == spec_u32_from_be_bytes(b@),
{
    ((b[0] as u32) << 24) | ((b[1] as u32) << 16) | ((b[2] as u32) << 8) | (b[3] as u32)
}

/// A whole frame for `payload`: length prefix, then the payload itself.
pub open spec fn spec_write_frame(payload: Seq<u8>) -> Seq<u8>
    recommends
        payload.len() < 0x1_0000_0000,
{
    spec_u32_to_be_bytes(payload.len() as u32) + payload
}

/// Reading one frame from the start of `data`: `None` when `data` is too
/// short to hold the prefix or the payload the prefix announces (a truncated
/// stream), otherwise the announced payload bytes.
pub open spec fn spec_read_frame(data: Seq<u8>) -> Option<Seq<u8>> {
    if data.len() < 4 {
        None
    } else {
        let n = spec_u32_from_be_bytes(data.subrange(0, 4)) as int;
        if data.len() < 4 + n {
            None
        } else {
            Some(data.subrange(4, 4 + n))
        }
    }
}

pub fn write_frame(payload: &[u8]) -> (r: Vec<u8>)
    requires
        payload@.len() < 0x1_0000_0000,
    ensures
        r@ == spec_write_frame(payload@),
{
    let mut r = u32_to_be_bytes(payload.len() as u32);
    let mut i: usize = 0;
    while i < payload.len()
        invariant
            i <= payload@.len() < 0x1_0000_0000,
            r@ == spec_u32_to_be_bytes(payload@.len() as u32) + payload@.subrange(0, i as int),
        decreases payload@.len() - i,
    {
        r.push(payload[i]);
        i = i + 1;
        assert(payload@.subrange(0, i as int)
            =~= payload@.subrange(0, i - 1) + seq![payload@[i - 1]]);
    }
    assert(payload@.subrange(0, payload@.len() as int) =~= payload@);
    r
}

pub fn read_frame<'a>(data: &'a [u8]) -> (r: Option<&'a [u8]>)
    ensures
        match r {
            Some(p) => spec_read_frame(data@) == Some(p@),
            None => spec_read_frame(data@) is None,
        },
{
    if data.len() < 4 {
        return None;
    }
    let prefix = &data[0..4];
    assert(prefix@ =~= data@.subrange(0, 4));
    let n = u32_from_be_bytes(prefix) as usize;
    if data.len() - 4 < n {
        return None;
    }
    let payload = &data[4..4 + n];
    assert(payload@ =~= data@.subrange(4, 4 + n as int));
    Some(payload)
}

/// Law: a frame written for any payload shorter than 2^32 bytes reads back
/// as exactly that payload.
pub proof fn lemma_frame_round_trip(payload: Seq<u8>)
    requires
        payload.len() < 0x1_0000_0000,
    ensures
        spec_read_frame(spec_write_frame(payload)) == Some(payload),
{
    let w = spec_write_frame(payload);
    lemma_u32_be_bytes_round_trip(payload.len() as u32);
    assert(w.subrange(0, 4) =~= spec_u32_to_be_bytes(payload.len() as u32));
    assert(w.subrange(4, 4 + payload.len() as int) =~= payload);
}

/// All bytes are plain ASCII, below 128.
pub open spec fn is_ascii_bytes(bytes: Seq<u8>) -> bool {
    forall|i: int| 0 <= i < bytes.len() ==> bytes[i] < 128
}

/// The characters whose code points are the given ASCII bytes.
pub open spec fn ascii_chars_of(bytes: Seq<u8>) -> Seq<char> {
    Seq::new(bytes.len(), |i: int| bytes[i] as char)
}

pub uninterp spec fn lossy_text_of(bytes: Seq<u8>) -> Seq<char>;

/// Relies on String::from_utf8_lossy: the text depends on the bytes alone;
/// invalid sequences are replaced, never an error; valid UTF-8 decodes
/// unchanged, so ASCII bytes decode to the characters of the same code points.
#[verifier::external_body]
pub fn decode_text(bytes: &[u8]) -> (r: String)
    ensures
        r@ == lossy_text_of(bytes@),
        is_ascii_bytes(bytes@) ==> r@ == ascii_chars_of(bytes@),
{
    String::from_utf8_lossy(bytes).into_owned()
}

} // verus!
