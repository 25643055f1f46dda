//! The payload grammar of the wire protocol: base-128 varints and a stream of
//! tagged fields, the encoding protobuf messages use. Each frame's payload is
//! such a field stream; the message modules interpret the fields.

use vstd::prelude::*;

verus! {

/// How many continuation bytes one varint may span; a longer run is a decode
/// error, as is a value that does not fit in 64 bits.
pub const VARINT_MAX_BYTES: u32 = 10;

/// The base-128 little-endian encoding of an integer: seven value bits per
/// byte, the high bit set on every byte but the last.
pub open spec fn varint_enc(v: nat) -> Seq<u8>
    decreases v,
{
    if v < 128 {
        seq![v as u8]
    } else {
        seq![(v % 128 + 128) as u8] + varint_enc(v / 128)
    }
}

/// Parse one varint off the front of a byte sequence, reading at most `fuel`
/// bytes: the value and the number of bytes consumed.
pub open spec fn varint_parse_fuel(b: Seq<u8>, fuel: nat) -> Option<(nat, int)>
    decreases fuel,
{
    if fuel == 0 || b.len() == 0 {
        None
    } else if b[0] < 128 {
        Some((b[0] as nat, 1))
    } else {
        match varint_parse_fuel(b.skip(1), (fuel - 1) as nat) {
            None => None,
            Some((v, n)) => Some((((b[0] - 128) + 128 * v) as nat, n + 1)),
        }
    }
}

/// Parse one varint off the front of a byte sequence: at most ten bytes, and
/// the value must fit in 64 bits.
pub open spec fn varint_parse(b: Seq<u8>) -> Option<(nat, int)> {
    match varint_parse_fuel(b, VARINT_MAX_BYTES as nat) {
        None => None,
        Some((v, n)) => if v <= u64::MAX {
            Some((v, n))
        } else {
            None
        },
    }
}

pub proof fn lemma_varint_parse_fuel_consumes(b: Seq<u8>, fuel: nat)
    ensures
        varint_parse_fuel(b, fuel) matches Some((v, n)) ==> 1 <= n <= b.len(),
    decreases fuel,
{
    if fuel > 0 && b.len() > 0 && b[0] >= 128 {
        lemma_varint_parse_fuel_consumes(b.skip(1), (fuel - 1) as nat);
    }
}

pub proof fn lemma_varint_parse_consumes(b: Seq<u8>)
    ensures
        varint_parse(b) matches Some((v, n)) ==> 1 <= n <= b.len(),
{
    lemma_varint_parse_fuel_consumes(b, VARINT_MAX_BYTES as nat);
}

proof fn lemma_varint_enc_len_step(v: nat)
    ensures
        1 <= varint_enc(v).len(),
        varint_enc(v).len() <= 1 + varint_enc(v / 128).len(),
{
    if v < 128 {
    } else {
        assert(varint_enc(v) == seq![(v % 128 + 128) as u8] + varint_enc(v / 128));
    }
}

proof fn lemma_varint_enc_len(v: nat)
    ensures
        1 <= varint_enc(v).len(),
        v <= u64::MAX ==> varint_enc(v).len() <= 10,
{
    lemma_varint_enc_len_step(v);
    if v <= u64::MAX {
        let v1 = v / 128;
        let v2 = v1 / 128;
        let v3 = v2 / 128;
        let v4 = v3 / 128;
        let v5 = v4 / 128;
        let v6 = v5 / 128;
        let v7 = v6 / 128;
        let v8 = v7 / 128;
        let v9 = v8 / 128;
        lemma_varint_enc_len_step(v1);
        lemma_varint_enc_len_step(v2);
        lemma_varint_enc_len_step(v3);
        lemma_varint_enc_len_step(v4);
        lemma_varint_enc_len_step(v5);
        lemma_varint_enc_len_step(v6);
        lemma_varint_enc_len_step(v7);
        lemma_varint_enc_len_step(v8);
        assert(v9 < 128);
        assert(varint_enc(v9).len() == 1);
    }
}

/// Parsing inverts encoding: a varint encoding of a 64-bit value followed by
/// anything parses back to that value.
pub proof fn lemma_varint_round_trip(v: nat, rest: Seq<u8>)
    requires
        v <= u64::MAX,
    ensures
        varint_parse(varint_enc(v) + rest) == Some((v, varint_enc(v).len() as int)),
{
    lemma_varint_enc_len(v);
    lemma_varint_parse_fuel_enc(v, rest, VARINT_MAX_BYTES as nat);
}

proof fn lemma_varint_parse_fuel_enc(v: nat, rest: Seq<u8>, fuel: nat)
    requires
        varint_enc(v).len() <= fuel,
    ensures
        varint_parse_fuel(varint_enc(v) + rest, fuel) == Some((v, varint_enc(v).len() as int)),
    decreases v,
{
    let b = varint_enc(v) + rest;
    if v < 128 {
        assert(b[0] == v as u8);
    } else {
        assert(b[0] == (v % 128 + 128) as u8);
        assert(b[0] >= 128);
        lemma_varint_enc_len(v / 128);
        assert(b.skip(1) =~= varint_enc(v / 128) + rest);
        lemma_varint_parse_fuel_enc(v / 128, rest, (fuel - 1) as nat);
        assert((b[0] - 128) + 128 * (v / 128) == v % 128 + 128 * (v / 128));
        assert(v % 128 + 128 * (v / 128) == v) by {
            vstd::arithmetic::div_mod::lemma_fundamental_div_mod(v as int, 128);
        }
    }
}

/// Read one varint starting at `pos`, following at most `fuel` bytes.
fn read_varint_fuel(buf: &[u8], pos: usize, fuel: u32) -> (r: Result<(u64, usize), ()>)
    requires
        pos <= buf@.len(),
        fuel <= VARINT_MAX_BYTES,
    ensures
        match varint_parse_fuel(buf@.skip(pos as int), fuel as nat) {
            None => r is Err,
            Some((v, n)) => if v <= u64::MAX {
                r == Ok::<(u64, usize), ()>((v as u64, (pos + n) as usize))
            } else {
                r is Err
            },
        },
    decreases fuel,
{
    proof {
        lemma_varint_parse_fuel_consumes(buf@.skip(pos as int), fuel as nat);
    }
    if fuel == 0 || pos >= buf.len() {
        return Err(());
    }
    let byte = buf[pos];
    if byte < 128 {
        return Ok((byte as u64, pos + 1));
    }
    let low = (byte - 128) as u64;
    proof {
        assert(buf@.skip(pos as int).skip(1) =~= buf@.skip(pos as int + 1));
    }
    match read_varint_fuel(buf, pos + 1, fuel - 1) {
        Err(()) => Err(()),
        Ok((v, n)) => {
            proof {
                vstd::arithmetic::div_mod::lemma_fundamental_div_mod(
                    (u64::MAX - low) as int,
                    128,
                );
            }
            if v > (u64::MAX - low) / 128 {
                Err(())
            } else {
                Ok((low + 128 * v, n))
            }
        },
    }
}

/// Read one varint starting at `pos`: the value and the position just past it.
pub fn read_varint(buf: &[u8], pos: usize) -> (r: Result<(u64, usize), ()>)
    requires
        pos <= buf@.len(),
    ensures
        match varint_parse(buf@.skip(pos as int)) {
            None => r is Err,
            Some((v, n)) => r == Ok::<(u64, usize), ()>((v as u64, (pos + n) as usize)),
        },
{
    read_varint_fuel(buf, pos, VARINT_MAX_BYTES)
}

/// Append the varint encoding of a value to an output buffer.
pub fn emit_varint(out: &mut Vec<u8>, v: u64)
    ensures
        final(out)@ == old(out)@ + varint_enc(v as nat),
{
    let mut v = v;
    let ghost orig = out@;
    let ghost whole = v as nat;
    while v >= 128
        invariant
            out@ + varint_enc(v as nat) == orig + varint_enc(whole),
        decreases v,
    {
        out.push((v % 128 + 128) as u8);
        proof {
            assert(out@ + varint_enc((v / 128) as nat) =~= orig + varint_enc(whole));
        }
        v = v / 128;
    }
    out.push(v as u8);
    proof {
        assert(out@ =~= orig + varint_enc(whole));
    }
}

/// The value of bytes read as a little-endian integer, the byte order of the
/// fixed-width wire types.
pub open spec fn le_val(b: Seq<u8>) -> nat
    decreases b.len(),
{
    if b.len() == 0 {
        0
    } else {
        (b[0] + 256 * le_val(b.skip(1))) as nat
    }
}

/// One decoded wire value, by wire type: a varint, an eight-byte fixed-width
/// value, a length-delimited byte string, or a four-byte fixed-width value.
#[derive(Debug, Clone, PartialEq, Eq)]
pub enum FieldValue {
    Varint(u64),
    Fixed64(u64),
    Bytes(Vec<u8>),
    Fixed32(u32),
}

/// One field of a message: its field number and its decoded wire value.
#[derive(Debug, Clone, PartialEq, Eq)]
pub struct WireField {
    pub number: u64,
    pub value: FieldValue,
}

pub enum FieldValueV {
    Varint(u64),
    Fixed64(u64),
    Bytes(Seq<u8>),
    Fixed32(u32),
}

pub struct WireFieldV {
    pub number: u64,
    pub value: FieldValueV,
}

impl View for FieldValue {
    type V = FieldValueV;

    open spec fn view(&self) -> FieldValueV {
        match self {
            FieldValue::Varint(v) => FieldValueV::Varint(*v),
            FieldValue::Fixed64(v) => FieldValueV::Fixed64(*v),
            FieldValue::Bytes(b) => FieldValueV::Bytes(b@),
            FieldValue::Fixed32(v) => FieldValueV::Fixed32(*v),
        }
    }
}

impl View for WireField {
    type V = WireFieldV;

    open spec fn view(&self) -> WireFieldV {
        WireFieldV { number: self.number, value: self.value@ }
    }
}

/// Parse one field off the front of a byte sequence: the field and the number
/// of bytes consumed. `None` is a malformed stream: a bad varint, a field
/// number of zero, a truncated value, or an unsupported wire type.
pub open spec fn field_parse(b: Seq<u8>) -> Option<(WireFieldV, int)> {
    match varint_parse(b) {
        None => None,
        Some((key, n)) => {
            let number = (key / 8) as u64;
            let wire_type = key % 8;
            if number == 0 {
                None
            } else if wire_type == 0 {
                match varint_parse(b.skip(n)) {
                    None => None,
                    Some((v, m)) => Some(
                        (WireFieldV { number, value: FieldValueV::Varint(v as u64) }, n + m),
                    ),
                }
            } else if wire_type == 1 {
                if b.len() >= n + 8 {
                    Some(
                        (
                            WireFieldV {
                                number,
                                value: FieldValueV::Fixed64(le_val(b.subrange(n, n + 8)) as u64),
                            },
                            n + 8,
                        ),
                    )
                } else {
                    None
                }
            } else if wire_type == 2 {
                match varint_parse(b.skip(n)) {
                    None => None,
                    Some((len, m)) => if b.len() >= n + m + len {
                        Some(
                            (
                                WireFieldV {
                                    number,
                                    value: FieldValueV::Bytes(
                                        b.subrange(n + m, n + m + len as int),
                                    ),
                                },
                                n + m + len,
                            ),
                        )
                    } else {
                        None
                    },
                }
            } else if wire_type == 5 {
                if b.len() >= n + 4 {
                    Some(
                        (
                            WireFieldV {
                                number,
                                value: FieldValueV::Fixed32(le_val(b.subrange(n, n + 4)) as u32),
                            },
                            n + 4,
                        ),
                    )
                } else {
                    None
                }
            } else {
                None
            }
        },
    }
}

pub proof fn lemma_field_parse_consumes(b: Seq<u8>)
    ensures
        field_parse(b) matches Some((f, n)) ==> 1 <= n <= b.len(),
{
    lemma_varint_parse_consumes(b);
    match varint_parse(b) {
        Some((key, n)) => lemma_varint_parse_consumes(b.skip(n)),
        None => (),
    }
}

/// Parse a whole byte sequence as a field stream; `None` when any field is
/// malformed.
pub open spec fn fields_parse(b: Seq<u8>) -> Option<Seq<WireFieldV>>
    decreases b.len(),
{
    if b.len() == 0 {
        Some(Seq::empty())
    } else {
        match field_parse(b) {
            None => None,
            Some((f, n)) => if 1 <= n <= b.len() {
                match fields_parse(b.skip(n)) {
                    None => None,
                    Some(fs) => Some(seq![f] + fs),
                }
            } else {
                None
            },
        }
    }
}

/// `le_val` of a sequence of `k` bytes is below `le_bound(k)`.
pub open spec fn le_bound(k: nat) -> nat
    decreases k,
{
    if k == 0 {
        1
    } else {
        256 * le_bound((k - 1) as nat)
    }
}

proof fn lemma_le_val_bound(b: Seq<u8>)
    ensures
        le_val(b) < le_bound(b.len()),
    decreases b.len(),
{
    if b.len() > 0 {
        lemma_le_val_bound(b.skip(1));
    }
}

proof fn lemma_le_bound_8()
    ensures
        le_bound(4) == 0x100000000,
        le_bound(8) == 0x10000000000000000,
{
    assert(le_bound(0) == 1);
    assert(le_bound(1) == 256);
    assert(le_bound(2) == 0x10000);
    assert(le_bound(3) == 0x1000000);
    assert(le_bound(4) == 0x100000000);
    assert(le_bound(5) == 0x10000000000);
    assert(le_bound(6) == 0x1000000000000);
    assert(le_bound(7) == 0x100000000000000);
    assert(le_bound(8) == 0x10000000000000000);
}

/// Read `count` bytes at `pos` as a little-endian integer.
fn read_le(buf: &[u8], pos: usize, count: usize) -> (r: u64)
    requires
        pos + count <= buf@.len(),
        count <= 8,
    ensures
        r == le_val(buf@.subrange(pos as int, pos + count)),
{
    let ghost b = buf@.subrange(pos as int, pos + count);
    let buf_len = buf.len();
    let mut acc: u64 = 0;
    let mut i = count;
    proof {
        assert(b.skip(count as int) =~= Seq::<u8>::empty());
        lemma_le_bound_8();
    }
    while i > 0
        invariant
            i <= count,
            count <= 8,
            pos + count <= buf@.len(),
            buf@.len() == buf_len,
            b == buf@.subrange(pos as int, pos + count),
            acc == le_val(b.skip(i as int)),
            le_bound(8) == 0x10000000000000000,
        decreases i,
    {
        proof {
            lemma_le_val_bound(b.skip(i as int));
            lemma_le_bound_chain(b.skip(i as int).len());
            assert(b.skip(i - 1).skip(1) =~= b.skip(i as int));
            assert(b.skip(i - 1)[0] == b[i - 1]);
            assert(le_val(b.skip(i - 1)) == b[i - 1] + 256 * le_val(b.skip(i as int)));
        }
        acc = buf[pos + i - 1] as u64 + 256 * acc;
        i = i - 1;
    }
    proof {
        assert(b.skip(0) =~= b);
    }
    acc
}

proof fn lemma_le_bound_chain(k: nat)
    requires
        k <= 7,
    ensures
        256 * le_bound(k) <= le_bound(7 as nat) * 256,
    decreases 7 - k,
{
    if k < 7 {
        lemma_le_bound_chain(k + 1);
        assert(le_bound(k + 1) == 256 * le_bound(k));
        assert(le_bound(k) <= le_bound(k + 1));
    }
}

/// Parse one field starting at `pos`: the field and the position just past it.
pub fn parse_field(buf: &[u8], pos: usize) -> (r: Result<(WireField, usize), ()>)
    requires
        pos <= buf@.len(),
    ensures
        match field_parse(buf@.skip(pos as int)) {
            None => r is Err,
            Some((f, n)) => r matches Ok((rf, np)) && rf@ == f && np == pos + n,
        },
{
    let buf_len = buf.len();
    let ghost b = buf@.skip(pos as int);
    proof {
        lemma_varint_parse_consumes(b);
    }
    let (key, after_key) = match read_varint(buf, pos) {
        Ok(k) => k,
        Err(()) => {
            return Err(());
        },
    };
    let ghost n = varint_parse(b)->Some_0.1;
    proof {
        assert(after_key == pos + n);
        assert(b.skip(n) =~= buf@.skip(after_key as int));
        lemma_varint_parse_consumes(b.skip(n));
        lemma_le_bound_8();
    }
    let number = key / 8;
    let wire_type = key % 8;
    if number == 0 {
        return Err(());
    }
    if wire_type == 0 {
        match read_varint(buf, after_key) {
            Ok((v, end)) => Ok((WireField { number, value: FieldValue::Varint(v) }, end)),
            Err(()) => Err(()),
        }
    } else if wire_type == 1 {
        if buf_len - after_key >= 8 {
            let v = read_le(buf, after_key, 8);
            proof {
                assert(buf@.subrange(after_key as int, after_key + 8) =~= b.subrange(n, n + 8));
                lemma_le_val_bound(b.subrange(n, n + 8));
            }
            Ok((WireField { number, value: FieldValue::Fixed64(v) }, after_key + 8))
        } else {
            Err(())
        }
    } else if wire_type == 2 {
        let (len, after_len) = match read_varint(buf, after_key) {
            Ok(k) => k,
            Err(()) => {
                return Err(());
            },
        };
        let ghost m = varint_parse(b.skip(n))->Some_0.1;
        proof {
            assert(after_len == after_key + m);
        }
        if len <= (buf_len - after_len) as u64 {
            let len = len as usize;
            let body = vstd::slice::slice_subrange(buf, after_len, after_len + len);
            let bytes = vstd::slice::slice_to_vec(body);
            proof {
                assert(buf@.subrange(after_len as int, after_len + len) =~= b.subrange(
                    n + m,
                    n + m + len,
                ));
            }
            Ok((WireField { number, value: FieldValue::Bytes(bytes) }, after_len + len))
        } else {
            Err(())
        }
    } else if wire_type == 5 {
        if buf_len - after_key >= 4 {
            let v = read_le(buf, after_key, 4);
            proof {
                assert(buf@.subrange(after_key as int, after_key + 4) =~= b.subrange(n, n + 4));
                lemma_le_val_bound(b.subrange(n, n + 4));
            }
            Ok((WireField { number, value: FieldValue::Fixed32(v as u32) }, after_key + 4))
        } else {
            Err(())
        }
    } else {
        Err(())
    }
}

/// The spec-level contents of a parsed field vector.
pub open spec fn fields_view(s: Seq<WireField>) -> Seq<WireFieldV> {
    s.map_values(|f: WireField| f@)
}

pub proof fn lemma_fields_view_index(s: Seq<WireField>, i: int)
    requires
        0 <= i < s.len(),
    ensures
        fields_view(s).len() == s.len(),
        fields_view(s)[i] == s[i]@,
{
}

/// Parse a whole payload as a field stream.
pub fn parse_fields(buf: &[u8]) -> (r: Result<Vec<WireField>, ()>)
    ensures
        match r {
            Ok(fields) => fields_parse(buf@) == Some(fields_view(fields@)),
            Err(()) => fields_parse(buf@) is None,
        },
{
    let mut out: Vec<WireField> = Vec::new();
    let mut pos: usize = 0;
    proof {
        assert(buf@.skip(0) =~= buf@);
        match fields_parse(buf@) {
            Some(fs) => {
                assert(fields_view(out@) + fs =~= fs);
            },
            None => (),
        }
    }
    while pos < buf.len()
        invariant
            pos <= buf@.len(),
            match fields_parse(buf@.skip(pos as int)) {
                None => fields_parse(buf@) is None,
                Some(fs) => fields_parse(buf@) == Some(fields_view(out@) + fs),
            },
        decreases buf@.len() - pos,
    {
        let ghost rest = buf@.skip(pos as int);
        proof {
            lemma_field_parse_consumes(rest);
        }
        match parse_field(buf, pos) {
            Ok((f, next)) => {
                proof {
                    let (fv, n) = field_parse(rest)->Some_0;
                    assert(rest.skip(n) =~= buf@.skip(next as int));
                    match fields_parse(buf@.skip(next as int)) {
                        Some(fs2) => {
                            assert(fields_view(out@) + (seq![fv] + fs2) =~= fields_view(
                                out@ + seq![f],
                            ) + fs2);
                        },
                        None => (),
                    }
                }
                out.push(f);
                pos = next;
            },
            Err(()) => {
                return Err(());
            },
        }
    }
    proof {
        assert(buf@.skip(pos as int) =~= Seq::<u8>::empty());
        assert(fields_view(out@) + Seq::<WireFieldV>::empty() =~= fields_view(out@));
    }
    Ok(out)
}

/// The encoding of a field key: the field number and the wire type packed into
/// one varint.
pub open spec fn key_enc(number: u64, wire_type: u64) -> Seq<u8>
    recommends
        number >= 1,
        wire_type < 8,
        number * 8 + wire_type <= u64::MAX,
{
    varint_enc((number * 8 + wire_type) as nat)
}

/// The encoding of a varint field.
pub open spec fn varint_field_enc(number: u64, v: u64) -> Seq<u8> {
    key_enc(number, 0) + varint_enc(v as nat)
}

/// The encoding of a length-delimited field.
pub open spec fn bytes_field_enc(number: u64, b: Seq<u8>) -> Seq<u8> {
    key_enc(number, 2) + varint_enc(b.len()) + b
}

/// Append the encoding of a varint field.
pub fn emit_varint_field(out: &mut Vec<u8>, number: u32, v: u64)
    requires
        number >= 1,
    ensures
        final(out)@ == old(out)@ + varint_field_enc(number as u64, v),
{
    emit_varint(out, (number as u64) * 8);
    emit_varint(out, v);
    proof {
        assert(out@ =~= old(out)@ + varint_field_enc(number as u64, v));
    }
}

/// Append the encoding of a length-delimited field.
pub fn emit_bytes_field(out: &mut Vec<u8>, number: u32, b: &[u8])
    requires
        number >= 1,
    ensures
        final(out)@ == old(out)@ + bytes_field_enc(number as u64, b@),
{
    emit_varint(out, (number as u64) * 8 + 2);
    emit_varint(out, b.len() as u64);
    out.extend_from_slice(b);
    proof {
        assert(out@ =~= old(out)@ + bytes_field_enc(number as u64, b@));
    }
}

/// The encoding of a string field: its UTF-8 bytes, length-delimited.
pub open spec fn str_field_enc(number: u64, s: Seq<char>) -> Seq<u8> {
    bytes_field_enc(number, vstd::utf8::encode_utf8(s))
}

/// Append the encoding of a string field.
pub fn emit_str_field(out: &mut Vec<u8>, number: u32, s: &str)
    requires
        number >= 1,
    ensures
        final(out)@ == old(out)@ + str_field_enc(number as u64, s@),
{
    emit_bytes_field(out, number, s.as_bytes());
}

} // verus!

