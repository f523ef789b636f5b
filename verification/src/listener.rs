//! The receiving side of the radio link: lines read from the LoRa modem's
//! serial port, and the hex-encoded packets that it reports in them.

use vstd::prelude::*;
use vstd::string::StringSliceAdditionalSpecFns;

verus! {

/// Why a packet report could not be read.
#[derive(Debug, Clone, Copy, PartialEq, Eq, Structural)]
pub enum ParseDataError {
    /// The line does not start with `+TEST: RX "`.
    BadPrefix,
    /// The line does not end with `"`.
    BadSuffix,
    /// A two-byte group of the hex text is not valid UTF-8.
    InvalidUtf8,
    /// A two-byte group of the hex text is not a hex number.
    InvalidDigit,
}

/// The bytes that start a packet report: `+TEST: RX "`.
pub open spec fn rx_prefix() -> Seq<u8> {
    seq![0x2bu8, 0x54, 0x45, 0x53, 0x54, 0x3a, 0x20, 0x52, 0x58, 0x20, 0x22]
}

/// The byte `"` that ends a packet report.
pub open spec fn quote() -> u8 {
    0x22
}

/// The value of a hex digit ('0' to '9', 'a' to 'f', 'A' to 'F').
pub open spec fn hex_digit_value(b: u8) -> Option<nat> {
    if 0x30 <= b <= 0x39 {
        Some((b - 0x30) as nat)
    } else if 0x61 <= b <= 0x66 {
        Some((b - 0x61 + 10) as nat)
    } else if 0x41 <= b <= 0x46 {
        Some((b - 0x41 + 10) as nat)
    } else {
        None
    }
}

/// Whether two bytes on their own are valid UTF-8: two ASCII characters or
/// one two-byte character.
pub open spec fn valid_utf8_pair(a: u8, b: u8) -> bool {
    (a < 0x80 && b < 0x80) || (0xc2 <= a <= 0xdf && 0x80 <= b <= 0xbf)
}

/// The byte that a two-byte group of hex text stands for, read as a `u8` in
/// base 16 (where a leading '+' is allowed).
pub open spec fn hex_pair_value(a: u8, b: u8) -> Result<u8, ParseDataError> {
    if !valid_utf8_pair(a, b) {
        Err(ParseDataError::InvalidUtf8)
    } else if a == 0x2b {
        match hex_digit_value(b) {
            Some(d) => Ok(d as u8),
            None => Err(ParseDataError::InvalidDigit),
        }
    } else {
        match (hex_digit_value(a), hex_digit_value(b)) {
            (Some(hi), Some(lo)) => Ok((16 * hi + lo) as u8),
            _ => Err(ParseDataError::InvalidDigit),
        }
    }
}

/// Two hex digits stand for the byte whose high four bits are the first
/// digit and whose low four bits are the second.
pub proof fn lemma_hex_pair_digit_order(a: u8, b: u8)
    requires
        a < 0x80,
        b < 0x80,
        a != 0x2b,
        hex_digit_value(a) is Some,
        hex_digit_value(b) is Some,
    ensures
        hex_pair_value(a, b) is Ok,
        hex_pair_value(a, b)->Ok_0 / 16 == hex_digit_value(a)->Some_0,
        hex_pair_value(a, b)->Ok_0 % 16 == hex_digit_value(b)->Some_0,
{
}

/// The bytes that hex text stands for, two characters each; a last odd byte
/// is ignored, and the first bad group decides the error.
pub open spec fn decode_hex(h: Seq<u8>) -> Result<Seq<u8>, ParseDataError>
    decreases h.len(),
{
    if h.len() < 2 {
        Ok(Seq::empty())
    } else {
        match hex_pair_value(h[0], h[1]) {
            Err(e) => Err(e),
            Ok(v) => match decode_hex(h.skip(2)) {
                Ok(t) => Ok(seq![v] + t),
                Err(e) => Err(e),
            },
        }
    }
}

/// Decoded hex text holds one byte per two characters, in order: byte `i`
/// is what characters `2i` and `2i + 1` stand for.
pub proof fn lemma_decode_hex_positions(h: Seq<u8>)
    requires
        decode_hex(h) is Ok,
    ensures
        decode_hex(h)->Ok_0.len() == h.len() / 2,
        forall|i: int|
            0 <= i < h.len() / 2 ==> hex_pair_value(h[2 * i], h[2 * i + 1]) == Ok::<
                u8,
                ParseDataError,
            >(#[trigger] decode_hex(h)->Ok_0[i]),
    decreases h.len(),
{
    if h.len() >= 2 {
        let rest = h.skip(2);
        lemma_decode_hex_positions(rest);
        let t = decode_hex(h)->Ok_0;
        let tr = decode_hex(rest)->Ok_0;
        assert forall|i: int| 0 <= i < h.len() / 2 implies hex_pair_value(h[2 * i], h[2 * i + 1])
            == Ok::<u8, ParseDataError>(#[trigger] t[i]) by {
            if i > 0 {
                assert(t[i] == tr[i - 1]);
                assert(rest[2 * (i - 1)] == h[2 * i]);
                assert(rest[2 * (i - 1) + 1] == h[2 * i + 1]);
            }
        }
    }
}

/// The packet that a report line (its bytes) carries.
pub open spec fn parse_data_spec(s: Seq<u8>) -> Result<Seq<u8>, ParseDataError> {
    if s.len() < rx_prefix().len() || s.take(rx_prefix().len() as int) != rx_prefix() {
        Err(ParseDataError::BadPrefix)
    } else {
        let rest = s.skip(rx_prefix().len() as int);
        if rest.len() == 0 || rest.last() != quote() {
            Err(ParseDataError::BadSuffix)
        } else {
            decode_hex(rest.drop_last())
        }
    }
}

/// The lowercase hex digit of a value below 16.
pub open spec fn hex_char(v: nat) -> u8 {
    if v < 10 {
        (0x30 + v) as u8
    } else {
        (0x61 + v - 10) as u8
    }
}

/// Lowercase hex text of `bytes`, two characters per byte.
pub open spec fn encode_hex(bytes: Seq<u8>) -> Seq<u8>
    decreases bytes.len(),
{
    if bytes.len() == 0 {
        Seq::empty()
    } else {
        seq![hex_char(bytes[0] as nat / 16), hex_char(bytes[0] as nat % 16)] + encode_hex(
            bytes.drop_first(),
        )
    }
}

/// A hex digit that `hex_char` writes is ASCII and reads back as its value.
proof fn lemma_hex_char_value(v: nat)
    requires
        v < 16,
    ensures
        hex_digit_value(hex_char(v)) == Some(v),
        hex_char(v) < 0x80,
        hex_char(v) != 0x2b,
{
}

/// Hex text of any bytes reads back as those bytes.
pub proof fn lemma_decode_encode_hex(bytes: Seq<u8>)
    ensures
        decode_hex(encode_hex(bytes)) == Ok::<Seq<u8>, ParseDataError>(bytes),
    decreases bytes.len(),
{
    if bytes.len() > 0 {
        let h = encode_hex(bytes);
        let b = bytes[0];
        let hi = b as nat / 16;
        let lo = b as nat % 16;
        lemma_decode_encode_hex(bytes.drop_first());
        assert(h[0] == hex_char(hi) && h[1] == hex_char(lo));
        assert(h.skip(2) =~= encode_hex(bytes.drop_first()));
        lemma_hex_char_value(hi);
        lemma_hex_char_value(lo);
        assert(16 * hi + lo == b);
        assert(hex_pair_value(h[0], h[1]) == Ok::<u8, ParseDataError>(b));
        assert(seq![b] + bytes.drop_first() =~= bytes);
        assert(h.len() >= 2);
        assert(decode_hex(h) == Ok::<Seq<u8>, ParseDataError>(seq![b] + bytes.drop_first()));
    } else {
        assert(bytes =~= Seq::<u8>::empty());
        assert(encode_hex(bytes) =~= Seq::<u8>::empty());
    }
}

/// A report line made of the prefix, hex text of a packet and the closing
/// quote reads back as that packet.
pub proof fn lemma_parse_report_of_packet(packet: Seq<u8>)
    ensures
        parse_data_spec(rx_prefix() + encode_hex(packet) + seq![quote()]) == Ok::<
            Seq<u8>,
            ParseDataError,
        >(packet),
{
    let s = rx_prefix() + encode_hex(packet) + seq![quote()];
    assert(s.take(rx_prefix().len() as int) =~= rx_prefix());
    let rest = s.skip(rx_prefix().len() as int);
    assert(rest =~= encode_hex(packet) + seq![quote()]);
    assert(rest.drop_last() =~= encode_hex(packet));
    lemma_decode_encode_hex(packet);
}

/// The value of a hex digit.
fn hex_digit(b: u8) -> (v: Option<u8>)
    ensures
        (match v {
            Some(d) => hex_digit_value(b) == Some(d as nat) && d < 16,
            None => hex_digit_value(b) is None,
        }),
{
    if 0x30 <= b && b <= 0x39 {
        Some(b - 0x30)
    } else if 0x61 <= b && b <= 0x66 {
        Some(b - 0x61 + 10)
    } else if 0x41 <= b && b <= 0x46 {
        Some(b - 0x41 + 10)
    } else {
        None
    }
}

/// Reads a two-byte group of hex text.
fn hex_pair(a: u8, b: u8) -> (r: Result<u8, ParseDataError>)
    ensures
        r == hex_pair_value(a, b),
{
    let valid = (a < 0x80 && b < 0x80) || (0xc2 <= a && a <= 0xdf && 0x80 <= b && b <= 0xbf);
    if !valid {
        Err(ParseDataError::InvalidUtf8)
    } else if a == 0x2b {
        match hex_digit(b) {
            Some(d) => Ok(d),
            None => Err(ParseDataError::InvalidDigit),
        }
    } else {
        match (hex_digit(a), hex_digit(b)) {
            (Some(hi), Some(lo)) => Ok(16 * hi + lo),
            _ => Err(ParseDataError::InvalidDigit),
        }
    }
}

/// Reads a packet report of the modem, such as `+TEST: RX "0A1B"`: the bytes
/// that the hex text between the quotes stands for.
pub fn parse_data(s: &str) -> (r: Result<Vec<u8>, ParseDataError>)
    ensures
        (match r {
            Ok(v) => parse_data_spec(s.spec_bytes()) == Ok::<Seq<u8>, ParseDataError>(v@),
            Err(e) => parse_data_spec(s.spec_bytes()) == Err::<Seq<u8>, ParseDataError>(e),
        }),
{
    let b = s.as_bytes();
    let ghost sb = b@;
    let prefix: [u8; 11] = [0x2b, 0x54, 0x45, 0x53, 0x54, 0x3a, 0x20, 0x52, 0x58, 0x20, 0x22];
    assert(prefix@ =~= rx_prefix());
    if b.len() < 11 {
        return Err(ParseDataError::BadPrefix);
    }
    let mut k: usize = 0;
    while k < 11
        invariant
            k <= 11 <= b@.len(),
            b@ == s.spec_bytes(),
            prefix@ == rx_prefix(),
            forall|j: int| 0 <= j < k ==> b@[j] == prefix@[j],
        decreases 11 - k,
    {
        if b[k] != prefix[k] {
            assert(b@.take(11)[k as int] != rx_prefix()[k as int]);
            assert(b@.take(11) != rx_prefix());
            assert(rx_prefix().len() == 11);
            assert(b@ == s.spec_bytes());
            assert(parse_data_spec(s.spec_bytes()) == Err::<Seq<u8>, ParseDataError>(
                ParseDataError::BadPrefix,
            ));
            return Err(ParseDataError::BadPrefix);
        }
        k += 1;
    }
    assert(b@.take(11) =~= rx_prefix());
    if b.len() == 11 || b[b.len() - 1] != 0x22 {
        return Err(ParseDataError::BadSuffix);
    }
    let end = b.len() - 1;
    let ghost h = b@.subrange(11, end as int);
    assert(b@.skip(11).drop_last() =~= h);
    let mut out: Vec<u8> = Vec::new();
    let mut i: usize = 11;
    while end - i >= 2
        invariant
            11 <= i <= end,
            end == b@.len() - 1,
            b@ == s.spec_bytes(),
            h == b@.subrange(11, end as int),
            parse_data_spec(b@) == decode_hex(h),
            decode_hex(h) == match decode_hex(b@.subrange(i as int, end as int)) {
                Ok(t) => Ok::<Seq<u8>, ParseDataError>(out@ + t),
                Err(e) => Err(e),
            },
        decreases end - i,
    {
        let ghost rest = b@.subrange(i as int, end as int);
        assert(rest.skip(2) =~= b@.subrange(i as int + 2, end as int));
        assert(rest[0] == b@[i as int] && rest[1] == b@[i as int + 1]);
        match hex_pair(b[i], b[i + 1]) {
            Err(e) => {
                assert(decode_hex(rest) == Err::<Seq<u8>, ParseDataError>(e));
                return Err(e);
            },
            Ok(v) => {
                proof {
                    let tail = decode_hex(b@.subrange(i as int + 2, end as int));
                    if let Ok(t) = tail {
                        assert(out@.push(v) + t =~= out@ + (seq![v] + t));
                    }
                }
                out.push(v);
            },
        }
        i += 2;
    }
    assert(b@.subrange(i as int, end as int).len() < 2);
    assert(out@ + Seq::<u8>::empty() =~= out@);
    Ok(out)
}

/// Whether `needle` occurs in `haystack` at position `i`.
pub open spec fn occurs_at(haystack: Seq<u8>, needle: Seq<u8>, i: int) -> bool {
    0 <= i && i + needle.len() <= haystack.len() && haystack.subrange(i, i + needle.len()) == needle
}

/// Calls `memchr::memmem::find`: the position of the first occurrence of
/// `needle` in `haystack`, or `None` when there is none.
#[verifier::external_body]
fn memmem_find(haystack: &[u8], needle: &[u8]) -> (r: Option<usize>)
    ensures
        (match r {
            Some(i) => occurs_at(haystack@, needle@, i as int) && forall|j: int|
                0 <= j < i ==> !occurs_at(haystack@, needle@, j),
            None => forall|j: int| !occurs_at(haystack@, needle@, j),
        }),
{
    memchr::memmem::find(haystack, needle)
}

/// Size of the buffer of bytes read from the serial port.
pub const LINE_BUFFER_CAPACITY: usize = 1000;

/// Carriage return and line feed, which end a line of the modem's output.
pub open spec fn crlf() -> Seq<u8> {
    seq![0x0du8, 0x0a]
}

/// Bytes read from the modem's serial port that do not yet form a whole line.
pub struct LineBuffer {
    data: Vec<u8>,
}

impl View for LineBuffer {
    type V = Seq<u8>;

    closed spec fn view(&self) -> Seq<u8> {
        self.data@
    }
}

impl LineBuffer {
    /// The buffer never holds more than its capacity.
    #[verifier::type_invariant]
    spec fn within_capacity(&self) -> bool {
        self.data@.len() <= LINE_BUFFER_CAPACITY
    }

    /// An empty buffer.
    pub fn new() -> (b: Self)
        ensures
            b@ == Seq::<u8>::empty(),
    {
        Self { data: Vec::new() }
    }

    /// Number of bytes held.
    pub fn len(&self) -> (n: usize)
        ensures
            n == self@.len(),
            n <= LINE_BUFFER_CAPACITY,
    {
        proof {
            use_type_invariant(self);
        }
        self.data.len()
    }

    /// Room left for bytes read from the port.
    pub fn free_space(&self) -> (n: usize)
        ensures
            n == LINE_BUFFER_CAPACITY - self@.len(),
    {
        proof {
            use_type_invariant(self);
        }
        LINE_BUFFER_CAPACITY - self.data.len()
    }

    /// Adds bytes read from the port after those held.
    pub fn append(&mut self, bytes: &[u8])
        requires
            old(self)@.len() + bytes@.len() <= LINE_BUFFER_CAPACITY,
        ensures
            final(self)@ == old(self)@ + bytes@,
    {
        let mut data: Vec<u8> = Vec::new();
        std::mem::swap(&mut data, &mut self.data);
        let mut i: usize = 0;
        while i < bytes.len()
            invariant
                i <= bytes@.len(),
                data@ == old(self)@ + bytes@.take(i as int),
            decreases bytes@.len() - i,
        {
            assert(bytes@.take(i as int + 1) =~= bytes@.take(i as int).push(bytes@[i as int]));
            data.push(bytes[i]);
            i += 1;
        }
        assert(bytes@.take(i as int) =~= bytes@);
        self.data = data;
    }

    /// Takes the first whole line, up to and including its CR LF, out of the
    /// buffer; `None`, with the buffer unchanged, when no line is complete.
    pub fn take_line(&mut self) -> (line: Option<Vec<u8>>)
        ensures
            (match line {
                Some(l) => {
                    &&& old(self)@ == l@ + final(self)@
                    &&& occurs_at(l@, crlf(), l@.len() - 2)
                    &&& forall|j: int| 0 <= j < l@.len() - 2 ==> !occurs_at(old(self)@, crlf(), j)
                },
                None => {
                    &&& final(self)@ == old(self)@
                    &&& forall|j: int| !occurs_at(old(self)@, crlf(), j)
                },
            }),
    {
        proof {
            use_type_invariant(&*self);
        }
        let needle: [u8; 2] = [0x0d, 0x0a];
        let needle_slice = needle.as_slice();
        assert(needle_slice@ =~= crlf());
        let held = self.data.len();
        let found = memmem_find(self.data.as_slice(), needle_slice);
        match found {
            None => None,
            Some(position) => {
                assert(occurs_at(self.data@, crlf(), position as int));
                assert(crlf().len() == 2);
                assert(position + 2 <= held);
                let line_length = position + 2;
                let ghost before = self.data@;
                let mut line: Vec<u8> = Vec::new();
                std::mem::swap(&mut line, &mut self.data);
                let rest = line.split_off(line_length);
                self.data = rest;
                assert(before =~= line@ + self.data@);
                assert(line@.subrange(line@.len() - 2, line@.len() as int) =~= before.subrange(
                    position as int,
                    position + 2,
                ));
                Some(line)
            },
        }
    }
}

} // verus!
