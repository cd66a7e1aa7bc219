//! Binary wire codec and length-prefixed framing.
//!
//! One message occupies exactly one frame: a 4-byte little-endian length
//! prefix followed by the encoded payload.  The payload encoding is a
//! fixed, versionless binary schema: an enum discriminant byte followed by
//! the fields in declared order; integers are little-endian; strings are a
//! byte length followed by UTF-8 bytes; options and results carry a tag
//! byte.  Every decoder is the exact inverse of its encoder, and a
//! malformed payload decodes to `None`.

use vstd::prelude::*;

use vstd::utf8::decode_utf8;
use vstd::utf8::encode_utf8;
use vstd::utf8::encode_utf8_decode_utf8;
use vstd::utf8::encode_utf8_valid_utf8;
use vstd::utf8::valid_utf8;

use crate::device::DeviceView;
use crate::device::InstallConfigView;
use crate::device::spec_device_wf;
use crate::messages::OrchestratorMessageView;
use crate::messages::WorkerMessageView;

verus! {

// ---------------------------------------------------------------------
// Primitive encoders: little-endian bytes.
// ---------------------------------------------------------------------

pub open spec fn enc_u8(v: u8) -> Seq<u8> {
    seq![v]
}

pub open spec fn enc_u16(v: u16) -> Seq<u8> {
    seq![(v & 0xff) as u8, ((v >> 8) & 0xff) as u8]
}

pub open spec fn enc_u32(v: u32) -> Seq<u8> {
    seq![
        (v & 0xff) as u8,
        ((v >> 8) & 0xff) as u8,
        ((v >> 16) & 0xff) as u8,
        ((v >> 24) & 0xff) as u8,
    ]
}

pub open spec fn enc_u64(v: u64) -> Seq<u8> {
    seq![
        (v & 0xff) as u8,
        ((v >> 8) & 0xff) as u8,
        ((v >> 16) & 0xff) as u8,
        ((v >> 24) & 0xff) as u8,
        ((v >> 32) & 0xff) as u8,
        ((v >> 40) & 0xff) as u8,
        ((v >> 48) & 0xff) as u8,
        ((v >> 56) & 0xff) as u8,
    ]
}

pub open spec fn enc_bool(v: bool) -> Seq<u8> {
    seq![if v { 1u8 } else { 0u8 }]
}

// ---------------------------------------------------------------------
// Value assembly from little-endian bytes.
// ---------------------------------------------------------------------

pub open spec fn u16_of(b0: u8, b1: u8) -> u16 {
    (b0 as u16) | ((b1 as u16) << 8)
}

pub open spec fn u32_of(b0: u8, b1: u8, b2: u8, b3: u8) -> u32 {
    (b0 as u32) | ((b1 as u32) << 8) | ((b2 as u32) << 16) | ((b3 as u32) << 24)
}

pub open spec fn u64_of(b0: u8, b1: u8, b2: u8, b3: u8, b4: u8, b5: u8, b6: u8, b7: u8) -> u64 {
    (b0 as u64) | ((b1 as u64) << 8) | ((b2 as u64) << 16) | ((b3 as u64) << 24) | ((b4
        as u64) << 32) | ((b5 as u64) << 40) | ((b6 as u64) << 48) | ((b7 as u64) << 56)
}

// ---------------------------------------------------------------------
// Primitive decoders: a decoded value and the remaining bytes, or `None`
// when the input is too short or malformed.
// ---------------------------------------------------------------------

pub open spec fn dec_u8(b: Seq<u8>) -> Option<(u8, Seq<u8>)> {
    if b.len() >= 1 {
        Some((b[0], b.skip(1)))
    } else {
        None
    }
}

pub open spec fn dec_u16(b: Seq<u8>) -> Option<(u16, Seq<u8>)> {
    if b.len() >= 2 {
        Some((u16_of(b[0], b[1]), b.skip(2)))
    } else {
        None
    }
}

pub open spec fn dec_u32(b: Seq<u8>) -> Option<(u32, Seq<u8>)> {
    if b.len() >= 4 {
        Some((u32_of(b[0], b[1], b[2], b[3]), b.skip(4)))
    } else {
        None
    }
}

pub open spec fn dec_u64(b: Seq<u8>) -> Option<(u64, Seq<u8>)> {
    if b.len() >= 8 {
        Some((u64_of(b[0], b[1], b[2], b[3], b[4], b[5], b[6], b[7]), b.skip(8)))
    } else {
        None
    }
}

pub open spec fn dec_bool(b: Seq<u8>) -> Option<(bool, Seq<u8>)> {
    match dec_u8(b) {
        Some((t, r)) => {
            if t == 0 {
                Some((false, r))
            } else if t == 1 {
                Some((true, r))
            } else {
                None
            }
        },
        None => None,
    }
}

// ---------------------------------------------------------------------
// Byte strings and UTF-8 strings: a 64-bit byte length, then the bytes.
// ---------------------------------------------------------------------

pub open spec fn enc_bytes(s: Seq<u8>) -> Seq<u8> {
    enc_u64(s.len() as u64) + s
}

pub open spec fn dec_bytes(b: Seq<u8>) -> Option<(Seq<u8>, Seq<u8>)> {
    match dec_u64(b) {
        Some((n, r)) => {
            if n <= r.len() {
                Some((r.take(n as int), r.skip(n as int)))
            } else {
                None
            }
        },
        None => None,
    }
}

pub open spec fn enc_str(s: Seq<char>) -> Seq<u8> {
    enc_bytes(encode_utf8(s))
}

pub open spec fn dec_str(b: Seq<u8>) -> Option<(Seq<char>, Seq<u8>)> {
    match dec_bytes(b) {
        Some((bs, r)) => {
            if valid_utf8(bs) {
                Some((decode_utf8(bs), r))
            } else {
                None
            }
        },
        None => None,
    }
}

// ---------------------------------------------------------------------
// Round trips of the primitives.
// ---------------------------------------------------------------------

/// Concatenation of byte sequences is associative.
pub proof fn lemma_seq_assoc(a: Seq<u8>, b: Seq<u8>, c: Seq<u8>)
    ensures
        (a + b) + c == a + (b + c),
{
    assert((a + b) + c =~= a + (b + c));
}

pub proof fn lemma_dec_enc_u8(v: u8, rest: Seq<u8>)
    ensures
        dec_u8(enc_u8(v) + rest) == Some((v, rest)),
{
    assert((enc_u8(v) + rest).skip(1) =~= rest);
}

pub proof fn lemma_dec_enc_u16(v: u16, rest: Seq<u8>)
    ensures
        dec_u16(enc_u16(v) + rest) == Some((v, rest)),
{
    assert((enc_u16(v) + rest).skip(2) =~= rest);
    assert(u16_of((v & 0xff) as u8, ((v >> 8) & 0xff) as u8) == v) by (bit_vector);
}

pub proof fn lemma_dec_enc_u32(v: u32, rest: Seq<u8>)
    ensures
        dec_u32(enc_u32(v) + rest) == Some((v, rest)),
{
    assert((enc_u32(v) + rest).skip(4) =~= rest);
    assert(u32_of(
        (v & 0xff) as u8,
        ((v >> 8) & 0xff) as u8,
        ((v >> 16) & 0xff) as u8,
        ((v >> 24) & 0xff) as u8,
    ) == v) by (bit_vector);
}

pub proof fn lemma_dec_enc_u64(v: u64, rest: Seq<u8>)
    ensures
        dec_u64(enc_u64(v) + rest) == Some((v, rest)),
{
    assert((enc_u64(v) + rest).skip(8) =~= rest);
    assert(u64_of(
        (v & 0xff) as u8,
        ((v >> 8) & 0xff) as u8,
        ((v >> 16) & 0xff) as u8,
        ((v >> 24) & 0xff) as u8,
        ((v >> 32) & 0xff) as u8,
        ((v >> 40) & 0xff) as u8,
        ((v >> 48) & 0xff) as u8,
        ((v >> 56) & 0xff) as u8,
    ) == v) by (bit_vector);
}

pub proof fn lemma_dec_enc_bool(v: bool, rest: Seq<u8>)
    ensures
        dec_bool(enc_bool(v) + rest) == Some((v, rest)),
{
    lemma_dec_enc_u8(if v { 1u8 } else { 0u8 }, rest);
}

pub proof fn lemma_dec_enc_bytes(s: Seq<u8>, rest: Seq<u8>)
    requires
        s.len() <= u64::MAX,
    ensures
        dec_bytes(enc_bytes(s) + rest) == Some((s, rest)),
{
    lemma_dec_enc_u64(s.len() as u64, s + rest);
    assert(enc_bytes(s) + rest =~= enc_u64(s.len() as u64) + (s + rest));
    assert((s + rest).take(s.len() as int) =~= s);
    assert((s + rest).skip(s.len() as int) =~= rest);
}

pub proof fn lemma_dec_enc_str(s: Seq<char>, rest: Seq<u8>)
    requires
        encode_utf8(s).len() <= u64::MAX,
    ensures
        dec_str(enc_str(s) + rest) == Some((s, rest)),
{
    broadcast use encode_utf8_valid_utf8, encode_utf8_decode_utf8;

    lemma_dec_enc_bytes(encode_utf8(s), rest);
}

// ---------------------------------------------------------------------
// Options, signed integers and unit results.
// ---------------------------------------------------------------------

pub open spec fn enc_opt_u8(o: Option<u8>) -> Seq<u8> {
    match o {
        None => seq![0u8],
        Some(v) => seq![1u8] + enc_u8(v),
    }
}

pub open spec fn dec_opt_u8(b: Seq<u8>) -> Option<(Option<u8>, Seq<u8>)> {
    match dec_u8(b) {
        None => None,
        Some((t, r)) => {
            if t == 0 {
                Some((None, r))
            } else if t == 1 {
                match dec_u8(r) {
                    None => None,
                    Some((v, r2)) => Some((Some(v), r2)),
                }
            } else {
                None
            }
        },
    }
}

/// Like `dec_opt_u8`, but a present value of zero is malformed: the wire
/// carries the interface index only as a non-zero value.
pub open spec fn dec_opt_nz_u8(b: Seq<u8>) -> Option<(Option<u8>, Seq<u8>)> {
    match dec_opt_u8(b) {
        None => None,
        Some((o, r)) => match o {
            Some(v) => {
                if v == 0 {
                    None
                } else {
                    Some((Some(v), r))
                }
            },
            None => Some((None, r)),
        },
    }
}

/// Like `dec_opt_u64`, but a present value of zero is malformed: the wire
/// carries the driver version only as a non-zero value.
pub open spec fn dec_opt_nz_u64(b: Seq<u8>) -> Option<(Option<u64>, Seq<u8>)> {
    match dec_opt_u64(b) {
        None => None,
        Some((o, r)) => match o {
            Some(v) => {
                if v == 0 {
                    None
                } else {
                    Some((Some(v), r))
                }
            },
            None => Some((None, r)),
        },
    }
}

pub open spec fn enc_opt_u64(o: Option<u64>) -> Seq<u8> {
    match o {
        None => seq![0u8],
        Some(v) => seq![1u8] + enc_u64(v),
    }
}

pub open spec fn dec_opt_u64(b: Seq<u8>) -> Option<(Option<u64>, Seq<u8>)> {
    match dec_u8(b) {
        None => None,
        Some((t, r)) => {
            if t == 0 {
                Some((None, r))
            } else if t == 1 {
                match dec_u64(r) {
                    None => None,
                    Some((v, r2)) => Some((Some(v), r2)),
                }
            } else {
                None
            }
        },
    }
}

pub open spec fn enc_opt_str(o: Option<Seq<char>>) -> Seq<u8> {
    match o {
        None => seq![0u8],
        Some(s) => seq![1u8] + enc_str(s),
    }
}

pub open spec fn dec_opt_str(b: Seq<u8>) -> Option<(Option<Seq<char>>, Seq<u8>)> {
    match dec_u8(b) {
        None => None,
        Some((t, r)) => {
            if t == 0 {
                Some((None, r))
            } else if t == 1 {
                match dec_str(r) {
                    None => None,
                    Some((s, r2)) => Some((Some(s), r2)),
                }
            } else {
                None
            }
        },
    }
}

pub open spec fn enc_i64(v: i64) -> Seq<u8> {
    enc_u64(v as u64)
}

pub open spec fn dec_i64(b: Seq<u8>) -> Option<(i64, Seq<u8>)> {
    match dec_u64(b) {
        None => None,
        Some((v, r)) => Some((v as i64, r)),
    }
}

pub open spec fn enc_unit_result(r: Result<(), Seq<char>>) -> Seq<u8> {
    match r {
        Ok(_) => seq![0u8],
        Err(e) => seq![1u8] + enc_str(e),
    }
}

pub open spec fn dec_unit_result(b: Seq<u8>) -> Option<(Result<(), Seq<char>>, Seq<u8>)> {
    match dec_u8(b) {
        None => None,
        Some((t, r)) => {
            if t == 0 {
                Some((Ok(()), r))
            } else if t == 1 {
                match dec_str(r) {
                    None => None,
                    Some((e, r2)) => Some((Err(e), r2)),
                }
            } else {
                None
            }
        },
    }
}

/// The string's UTF-8 form fits the 64-bit length field of the schema.
pub open spec fn str_encodable(s: Seq<char>) -> bool {
    encode_utf8(s).len() <= u64::MAX
}

pub open spec fn opt_str_encodable(o: Option<Seq<char>>) -> bool {
    o matches Some(s) ==> str_encodable(s)
}

pub open spec fn unit_result_encodable(r: Result<(), Seq<char>>) -> bool {
    r matches Err(e) ==> str_encodable(e)
}

pub proof fn lemma_dec_enc_opt_u8(o: Option<u8>, rest: Seq<u8>)
    ensures
        dec_opt_u8(enc_opt_u8(o) + rest) == Some((o, rest)),
{
    match o {
        None => {
            lemma_dec_enc_u8(0u8, rest);
            assert(enc_opt_u8(o) + rest =~= enc_u8(0u8) + rest);
        },
        Some(v) => {
            lemma_dec_enc_u8(1u8, enc_u8(v) + rest);
            assert(enc_opt_u8(o) + rest =~= enc_u8(1u8) + (enc_u8(v) + rest));
            lemma_dec_enc_u8(v, rest);
        },
    }
}

pub proof fn lemma_dec_enc_opt_u64(o: Option<u64>, rest: Seq<u8>)
    ensures
        dec_opt_u64(enc_opt_u64(o) + rest) == Some((o, rest)),
{
    match o {
        None => {
            lemma_dec_enc_u8(0u8, rest);
            assert(enc_opt_u64(o) + rest =~= enc_u8(0u8) + rest);
        },
        Some(v) => {
            lemma_dec_enc_u8(1u8, enc_u64(v) + rest);
            assert(enc_opt_u64(o) + rest =~= enc_u8(1u8) + (enc_u64(v) + rest));
            lemma_dec_enc_u64(v, rest);
        },
    }
}

pub proof fn lemma_dec_enc_opt_nz_u8(o: Option<u8>, rest: Seq<u8>)
    requires
        o matches Some(v) ==> v != 0,
    ensures
        dec_opt_nz_u8(enc_opt_u8(o) + rest) == Some((o, rest)),
{
    lemma_dec_enc_opt_u8(o, rest);
}

pub proof fn lemma_dec_enc_opt_nz_u64(o: Option<u64>, rest: Seq<u8>)
    requires
        o matches Some(v) ==> v != 0,
    ensures
        dec_opt_nz_u64(enc_opt_u64(o) + rest) == Some((o, rest)),
{
    lemma_dec_enc_opt_u64(o, rest);
}

pub proof fn lemma_dec_enc_opt_str(o: Option<Seq<char>>, rest: Seq<u8>)
    requires
        opt_str_encodable(o),
    ensures
        dec_opt_str(enc_opt_str(o) + rest) == Some((o, rest)),
{
    match o {
        None => {
            lemma_dec_enc_u8(0u8, rest);
            assert(enc_opt_str(o) + rest =~= enc_u8(0u8) + rest);
        },
        Some(s) => {
            lemma_dec_enc_u8(1u8, enc_str(s) + rest);
            assert(enc_opt_str(o) + rest =~= enc_u8(1u8) + (enc_str(s) + rest));
            lemma_dec_enc_str(s, rest);
        },
    }
}

pub proof fn lemma_dec_enc_i64(v: i64, rest: Seq<u8>)
    ensures
        dec_i64(enc_i64(v) + rest) == Some((v, rest)),
{
    lemma_dec_enc_u64(v as u64, rest);
    assert((v as u64) as i64 == v) by (bit_vector);
}

pub proof fn lemma_dec_enc_unit_result(r: Result<(), Seq<char>>, rest: Seq<u8>)
    requires
        unit_result_encodable(r),
    ensures
        dec_unit_result(enc_unit_result(r) + rest) == Some((r, rest)),
{
    match r {
        Ok(u) => {
            lemma_dec_enc_u8(0u8, rest);
            assert(enc_unit_result(r) + rest =~= enc_u8(0u8) + rest);
            assert(u == ());
            assert(r == Ok::<(), Seq<char>>(()));
        },
        Err(e) => {
            lemma_dec_enc_u8(1u8, enc_str(e) + rest);
            assert(enc_unit_result(r) + rest =~= enc_u8(1u8) + (enc_str(e) + rest));
            lemma_dec_enc_str(e, rest);
        },
    }
}

// ---------------------------------------------------------------------
// Devices, configurations and device lists.
// ---------------------------------------------------------------------

pub open spec fn device_encodable(d: DeviceView) -> bool {
    &&& str_encodable(d.desc)
    &&& opt_str_encodable(d.driver)
    &&& opt_str_encodable(d.device_id)
    &&& opt_str_encodable(d.hardware_id)
    &&& opt_str_encodable(d.compatible_id)
    &&& opt_str_encodable(d.upper_filter)
}

#[verifier::opaque]
pub open spec fn enc_device(d: DeviceView) -> Seq<u8> {
    enc_u16(d.vid) + enc_u16(d.pid) + enc_bool(d.is_composite) + enc_opt_u8(d.mi) + enc_opt_u64(
        d.driver_version,
    ) + enc_str(d.desc) + enc_opt_str(d.driver) + enc_opt_str(d.device_id) + enc_opt_str(
        d.hardware_id,
    ) + enc_opt_str(d.compatible_id) + enc_opt_str(d.upper_filter)
}

#[verifier::opaque]
pub open spec fn dec_device(b: Seq<u8>) -> Option<(DeviceView, Seq<u8>)> {
    match dec_u16(b) {
        None => None,
        Some((vid, b)) => match dec_u16(b) {
            None => None,
            Some((pid, b)) => match dec_bool(b) {
                None => None,
                Some((is_composite, b)) => match dec_opt_nz_u8(b) {
                    None => None,
                    Some((mi, b)) => match dec_opt_nz_u64(b) {
                        None => None,
                        Some((driver_version, b)) => match dec_str(b) {
                            None => None,
                            Some((desc, b)) => match dec_opt_str(b) {
                                None => None,
                                Some((driver, b)) => match dec_opt_str(b) {
                                    None => None,
                                    Some((device_id, b)) => match dec_opt_str(b) {
                                        None => None,
                                        Some((hardware_id, b)) => match dec_opt_str(b) {
                                            None => None,
                                            Some((compatible_id, b)) => match dec_opt_str(b) {
                                                None => None,
                                                Some((upper_filter, b)) => Some(
                                                    (
                                                        DeviceView {
                                                            vid,
                                                            pid,
                                                            is_composite,
                                                            mi,
                                                            driver_version,
                                                            desc,
                                                            driver,
                                                            device_id,
                                                            hardware_id,
                                                            compatible_id,
                                                            upper_filter,
                                                        },
                                                        b,
                                                    ),
                                                ),
                                            },
                                        },
                                    },
                                },
                            },
                        },
                    },
                },
            },
        },
    }
}

#[verifier::rlimit(80)]
pub proof fn lemma_dec_enc_device(d: DeviceView, rest: Seq<u8>)
    requires
        device_encodable(d),
        spec_device_wf(d),
    ensures
        dec_device(enc_device(d) + rest) == Some((d, rest)),
{
    reveal(enc_device);
    reveal(dec_device);
    let e1 = enc_u16(d.vid);
    let e2 = enc_u16(d.pid);
    let e3 = enc_bool(d.is_composite);
    let e4 = enc_opt_u8(d.mi);
    let e5 = enc_opt_u64(d.driver_version);
    let e6 = enc_str(d.desc);
    let e7 = enc_opt_str(d.driver);
    let e8 = enc_opt_str(d.device_id);
    let e9 = enc_opt_str(d.hardware_id);
    let e10 = enc_opt_str(d.compatible_id);
    let e11 = enc_opt_str(d.upper_filter);
    let t10 = e11 + rest;
    let t9 = e10 + t10;
    let t8 = e9 + t9;
    let t7 = e8 + t8;
    let t6 = e7 + t7;
    let t5 = e6 + t6;
    let t4 = e5 + t5;
    let t3 = e4 + t4;
    let t2 = e3 + t3;
    let t1 = e2 + t2;
    let a1 = e1 + e2;
    let a2 = a1 + e3;
    let a3 = a2 + e4;
    let a4 = a3 + e5;
    let a5 = a4 + e6;
    let a6 = a5 + e7;
    let a7 = a6 + e8;
    let a8 = a7 + e9;
    let a9 = a8 + e10;
    let a10 = a9 + e11;
    assert(enc_device(d) == a10);
    lemma_seq_assoc(a9, e11, rest);
    lemma_seq_assoc(a8, e10, t10);
    lemma_seq_assoc(a7, e9, t9);
    lemma_seq_assoc(a6, e8, t8);
    lemma_seq_assoc(a5, e7, t7);
    lemma_seq_assoc(a4, e6, t6);
    lemma_seq_assoc(a3, e5, t5);
    lemma_seq_assoc(a2, e4, t4);
    lemma_seq_assoc(a1, e3, t3);
    lemma_seq_assoc(e1, e2, t2);
    assert(enc_device(d) + rest == e1 + t1);
    lemma_dec_enc_u16(d.vid, t1);
    lemma_dec_enc_u16(d.pid, t2);
    lemma_dec_enc_bool(d.is_composite, t3);
    lemma_dec_enc_opt_nz_u8(d.mi, t4);
    lemma_dec_enc_opt_nz_u64(d.driver_version, t5);
    lemma_dec_enc_str(d.desc, t6);
    lemma_dec_enc_opt_str(d.driver, t7);
    lemma_dec_enc_opt_str(d.device_id, t8);
    lemma_dec_enc_opt_str(d.hardware_id, t9);
    lemma_dec_enc_opt_str(d.compatible_id, t10);
    lemma_dec_enc_opt_str(d.upper_filter, rest);
}

pub open spec fn config_encodable(c: InstallConfigView) -> bool {
    &&& str_encodable(c.vendor)
    &&& str_encodable(c.driver_path)
    &&& str_encodable(c.inf_name)
}

pub open spec fn enc_config(c: InstallConfigView) -> Seq<u8> {
    enc_str(c.vendor) + enc_str(c.driver_path) + enc_str(c.inf_name)
}

pub open spec fn dec_config(b: Seq<u8>) -> Option<(InstallConfigView, Seq<u8>)> {
    match dec_str(b) {
        None => None,
        Some((vendor, b)) => match dec_str(b) {
            None => None,
            Some((driver_path, b)) => match dec_str(b) {
                None => None,
                Some((inf_name, b)) => Some((InstallConfigView { vendor, driver_path, inf_name }, b)),
            },
        },
    }
}

pub proof fn lemma_dec_enc_config(c: InstallConfigView, rest: Seq<u8>)
    requires
        config_encodable(c),
    ensures
        dec_config(enc_config(c) + rest) == Some((c, rest)),
{
    let t2 = enc_str(c.inf_name) + rest;
    let t1 = enc_str(c.driver_path) + t2;
    assert(enc_config(c) + rest =~= enc_str(c.vendor) + t1);
    lemma_dec_enc_str(c.vendor, t1);
    lemma_dec_enc_str(c.driver_path, t2);
    lemma_dec_enc_str(c.inf_name, rest);
}

pub open spec fn devices_encodable(ds: Seq<DeviceView>) -> bool {
    &&& ds.len() <= u64::MAX
    &&& forall|i: int| 0 <= i < ds.len() ==> device_encodable(#[trigger] ds[i])
}

/// Every device in the list keeps the non-zero invariant that the wire
/// format demands of the optional fields.
pub open spec fn devices_wf(ds: Seq<DeviceView>) -> bool {
    forall|i: int| 0 <= i < ds.len() ==> spec_device_wf(#[trigger] ds[i])
}

pub open spec fn enc_device_seq(ds: Seq<DeviceView>) -> Seq<u8>
    decreases ds.len(),
{
    if ds.len() == 0 {
        Seq::empty()
    } else {
        enc_device(ds[0]) + enc_device_seq(ds.skip(1))
    }
}

pub open spec fn dec_device_seq(b: Seq<u8>, n: nat) -> Option<(Seq<DeviceView>, Seq<u8>)>
    decreases n,
{
    if n == 0 {
        Some((Seq::empty(), b))
    } else {
        match dec_device(b) {
            None => None,
            Some((d, r)) => match dec_device_seq(r, (n - 1) as nat) {
                None => None,
                Some((ds, r2)) => Some((seq![d] + ds, r2)),
            },
        }
    }
}

pub open spec fn enc_devices(ds: Seq<DeviceView>) -> Seq<u8> {
    enc_u64(ds.len() as u64) + enc_device_seq(ds)
}

pub open spec fn dec_devices(b: Seq<u8>) -> Option<(Seq<DeviceView>, Seq<u8>)> {
    match dec_u64(b) {
        None => None,
        Some((n, r)) => dec_device_seq(r, n as nat),
    }
}

#[verifier::rlimit(80)]
pub proof fn lemma_dec_enc_device_seq(ds: Seq<DeviceView>, rest: Seq<u8>)
    requires
        devices_encodable(ds),
        devices_wf(ds),
    ensures
        dec_device_seq(enc_device_seq(ds) + rest, ds.len()) == Some((ds, rest)),
    decreases ds.len(),
{
    if ds.len() == 0 {
        assert(enc_device_seq(ds) + rest =~= rest);
        assert(ds =~= Seq::<DeviceView>::empty());
    } else {
        let tail = ds.skip(1);
        assert(devices_encodable(tail) && devices_wf(tail)) by {
            assert(forall|i: int| 0 <= i < tail.len() ==> tail[i] == ds[i + 1]);
        }
        let t1 = enc_device_seq(tail) + rest;
        lemma_seq_assoc(enc_device(ds[0]), enc_device_seq(tail), rest);
        assert(enc_device_seq(ds) + rest == enc_device(ds[0]) + t1);
        lemma_dec_enc_device(ds[0], t1);
        lemma_dec_enc_device_seq(tail, rest);
        assert(seq![ds[0]] + tail =~= ds);
    }
}

pub proof fn lemma_dec_enc_devices(ds: Seq<DeviceView>, rest: Seq<u8>)
    requires
        devices_encodable(ds),
        devices_wf(ds),
    ensures
        dec_devices(enc_devices(ds) + rest) == Some((ds, rest)),
{
    let t1 = enc_device_seq(ds) + rest;
    assert(enc_devices(ds) + rest =~= enc_u64(ds.len() as u64) + t1);
    lemma_dec_enc_u64(ds.len() as u64, t1);
    lemma_dec_enc_device_seq(ds, rest);
}

// ---------------------------------------------------------------------
// Whole messages: one discriminant byte, then the fields in order.  A
// payload that does not parse, carries an unknown discriminant, or has
// bytes left over is malformed.
// ---------------------------------------------------------------------

pub open spec fn orchestrator_msg_encodable(m: OrchestratorMessageView) -> bool {
    match m {
        OrchestratorMessageView::InstallRequest(c, ds) => config_encodable(c) && devices_encodable(
            ds,
        ),
        OrchestratorMessageView::ConfigureLogSink(_) => true,
        OrchestratorMessageView::Terminate => true,
    }
}

/// Every device the message carries keeps the non-zero invariant.
pub open spec fn orchestrator_msg_wf(m: OrchestratorMessageView) -> bool {
    match m {
        OrchestratorMessageView::InstallRequest(_, ds) => devices_wf(ds),
        _ => true,
    }
}

pub open spec fn enc_orchestrator_msg(m: OrchestratorMessageView) -> Seq<u8> {
    match m {
        OrchestratorMessageView::InstallRequest(c, ds) => seq![0u8] + enc_config(c) + enc_devices(
            ds,
        ),
        OrchestratorMessageView::ConfigureLogSink(w) => seq![1u8] + enc_i64(w),
        OrchestratorMessageView::Terminate => seq![2u8],
    }
}

pub open spec fn dec_orchestrator_msg(b: Seq<u8>) -> Option<OrchestratorMessageView> {
    match dec_u8(b) {
        None => None,
        Some((tag, r)) => {
            if tag == 0 {
                match dec_config(r) {
                    None => None,
                    Some((c, r2)) => match dec_devices(r2) {
                        None => None,
                        Some((ds, r3)) => {
                            if r3.len() == 0 {
                                Some(OrchestratorMessageView::InstallRequest(c, ds))
                            } else {
                                None
                            }
                        },
                    },
                }
            } else if tag == 1 {
                match dec_i64(r) {
                    None => None,
                    Some((w, r2)) => {
                        if r2.len() == 0 {
                            Some(OrchestratorMessageView::ConfigureLogSink(w))
                        } else {
                            None
                        }
                    },
                }
            } else if tag == 2 {
                if r.len() == 0 {
                    Some(OrchestratorMessageView::Terminate)
                } else {
                    None
                }
            } else {
                None
            }
        },
    }
}

pub open spec fn worker_msg_encodable(m: WorkerMessageView) -> bool {
    match m {
        WorkerMessageView::DeviceResult(d, r) => device_encodable(d) && unit_result_encodable(r),
        WorkerMessageView::Error(e) => str_encodable(e),
        _ => true,
    }
}

/// The device the message carries, if any, keeps the non-zero invariant.
pub open spec fn worker_msg_wf(m: WorkerMessageView) -> bool {
    match m {
        WorkerMessageView::DeviceResult(d, _) => spec_device_wf(d),
        _ => true,
    }
}

pub open spec fn enc_worker_msg(m: WorkerMessageView) -> Seq<u8> {
    match m {
        WorkerMessageView::DeviceResult(d, r) => seq![0u8] + enc_device(d) + enc_unit_result(r),
        WorkerMessageView::Error(e) => seq![1u8] + enc_str(e),
        WorkerMessageView::InstallStarted => seq![2u8],
        WorkerMessageView::InstallFinished => seq![3u8],
        WorkerMessageView::Heartbeat => seq![4u8],
    }
}

pub open spec fn dec_worker_msg(b: Seq<u8>) -> Option<WorkerMessageView> {
    match dec_u8(b) {
        None => None,
        Some((tag, r)) => {
            if tag == 0 {
                match dec_device(r) {
                    None => None,
                    Some((d, r2)) => match dec_unit_result(r2) {
                        None => None,
                        Some((res, r3)) => {
                            if r3.len() == 0 {
                                Some(WorkerMessageView::DeviceResult(d, res))
                            } else {
                                None
                            }
                        },
                    },
                }
            } else if tag == 1 {
                match dec_str(r) {
                    None => None,
                    Some((e, r2)) => {
                        if r2.len() == 0 {
                            Some(WorkerMessageView::Error(e))
                        } else {
                            None
                        }
                    },
                }
            } else if tag == 2 {
                if r.len() == 0 {
                    Some(WorkerMessageView::InstallStarted)
                } else {
                    None
                }
            } else if tag == 3 {
                if r.len() == 0 {
                    Some(WorkerMessageView::InstallFinished)
                } else {
                    None
                }
            } else if tag == 4 {
                if r.len() == 0 {
                    Some(WorkerMessageView::Heartbeat)
                } else {
                    None
                }
            } else {
                None
            }
        },
    }
}

/// Round trip of the orchestrator-to-worker vocabulary: for every message
/// value, encoding and then decoding yields the same value.
pub proof fn lemma_orchestrator_msg_round_trip(m: OrchestratorMessageView)
    requires
        orchestrator_msg_encodable(m),
        orchestrator_msg_wf(m),
    ensures
        dec_orchestrator_msg(enc_orchestrator_msg(m)) == Some(m),
{
    let empty = Seq::<u8>::empty();
    match m {
        OrchestratorMessageView::InstallRequest(c, ds) => {
            let t1 = enc_config(c) + enc_devices(ds);
            assert(enc_orchestrator_msg(m) =~= enc_u8(0u8) + t1);
            lemma_dec_enc_u8(0u8, t1);
            assert(t1 =~= enc_config(c) + (enc_devices(ds) + empty));
            lemma_dec_enc_config(c, enc_devices(ds) + empty);
            lemma_dec_enc_devices(ds, empty);
        },
        OrchestratorMessageView::ConfigureLogSink(w) => {
            let t1 = enc_i64(w) + empty;
            assert(enc_orchestrator_msg(m) =~= enc_u8(1u8) + t1);
            lemma_dec_enc_u8(1u8, t1);
            lemma_dec_enc_i64(w, empty);
        },
        OrchestratorMessageView::Terminate => {
            assert(enc_orchestrator_msg(m) =~= enc_u8(2u8) + empty);
            lemma_dec_enc_u8(2u8, empty);
        },
    }
}

/// Round trip of the worker-to-orchestrator vocabulary.
pub proof fn lemma_worker_msg_round_trip(m: WorkerMessageView)
    requires
        worker_msg_encodable(m),
        worker_msg_wf(m),
    ensures
        dec_worker_msg(enc_worker_msg(m)) == Some(m),
{
    let empty = Seq::<u8>::empty();
    match m {
        WorkerMessageView::DeviceResult(d, r) => {
            let t1 = enc_device(d) + enc_unit_result(r);
            assert(enc_worker_msg(m) =~= enc_u8(0u8) + t1);
            lemma_dec_enc_u8(0u8, t1);
            assert(t1 =~= enc_device(d) + (enc_unit_result(r) + empty));
            lemma_dec_enc_device(d, enc_unit_result(r) + empty);
            lemma_dec_enc_unit_result(r, empty);
        },
        WorkerMessageView::Error(e) => {
            let t1 = enc_str(e) + empty;
            assert(enc_worker_msg(m) =~= enc_u8(1u8) + t1);
            lemma_dec_enc_u8(1u8, t1);
            lemma_dec_enc_str(e, empty);
        },
        WorkerMessageView::InstallStarted => {
            assert(enc_worker_msg(m) =~= enc_u8(2u8) + empty);
            lemma_dec_enc_u8(2u8, empty);
        },
        WorkerMessageView::InstallFinished => {
            assert(enc_worker_msg(m) =~= enc_u8(3u8) + empty);
            lemma_dec_enc_u8(3u8, empty);
        },
        WorkerMessageView::Heartbeat => {
            assert(enc_worker_msg(m) =~= enc_u8(4u8) + empty);
            lemma_dec_enc_u8(4u8, empty);
        },
    }
}

// ---------------------------------------------------------------------
// Executable encoders, appending onto an output buffer.
// ---------------------------------------------------------------------

fn put_u8(out: &mut Vec<u8>, v: u8)
    ensures
        final(out)@ == old(out)@ + enc_u8(v),
{
    out.push(v);
    assert(final(out)@ =~= old(out)@ + enc_u8(v));
}

fn put_u16(out: &mut Vec<u8>, v: u16)
    ensures
        final(out)@ == old(out)@ + enc_u16(v),
{
    out.push((v & 0xff) as u8);
    out.push(((v >> 8) & 0xff) as u8);
    assert(final(out)@ =~= old(out)@ + enc_u16(v));
}

fn put_u32(out: &mut Vec<u8>, v: u32)
    ensures
        final(out)@ == old(out)@ + enc_u32(v),
{
    out.push((v & 0xff) as u8);
    out.push(((v >> 8) & 0xff) as u8);
    out.push(((v >> 16) & 0xff) as u8);
    out.push(((v >> 24) & 0xff) as u8);
    assert(final(out)@ =~= old(out)@ + enc_u32(v));
}

fn put_u64(out: &mut Vec<u8>, v: u64)
    ensures
        final(out)@ == old(out)@ + enc_u64(v),
{
    out.push((v & 0xff) as u8);
    out.push(((v >> 8) & 0xff) as u8);
    out.push(((v >> 16) & 0xff) as u8);
    out.push(((v >> 24) & 0xff) as u8);
    out.push(((v >> 32) & 0xff) as u8);
    out.push(((v >> 40) & 0xff) as u8);
    out.push(((v >> 48) & 0xff) as u8);
    out.push(((v >> 56) & 0xff) as u8);
    assert(final(out)@ =~= old(out)@ + enc_u64(v));
}

fn put_bool(out: &mut Vec<u8>, v: bool)
    ensures
        final(out)@ == old(out)@ + enc_bool(v),
{
    out.push(if v { 1u8 } else { 0u8 });
    assert(final(out)@ =~= old(out)@ + enc_bool(v));
}

fn put_str(out: &mut Vec<u8>, s: &str)
    ensures
        final(out)@ == old(out)@ + enc_str(s@),
        str_encodable(s@),
{
    let bs = s.as_bytes();
    let n = bs.len();
    put_u64(out, n as u64);
    out.extend_from_slice(bs);
    assert(final(out)@ =~= old(out)@ + enc_str(s@));
}

fn put_opt_u8(out: &mut Vec<u8>, o: &Option<u8>)
    ensures
        final(out)@ == old(out)@ + enc_opt_u8(*o),
{
    match o {
        None => {
            put_u8(out, 0);
            assert(final(out)@ =~= old(out)@ + enc_opt_u8(*o));
        },
        Some(v) => {
            put_u8(out, 1);
            put_u8(out, *v);
            assert(final(out)@ =~= old(out)@ + enc_opt_u8(*o));
        },
    }
}

fn put_opt_u64(out: &mut Vec<u8>, o: &Option<u64>)
    ensures
        final(out)@ == old(out)@ + enc_opt_u64(*o),
{
    match o {
        None => {
            put_u8(out, 0);
            assert(final(out)@ =~= old(out)@ + enc_opt_u64(*o));
        },
        Some(v) => {
            put_u8(out, 1);
            put_u64(out, *v);
            assert(final(out)@ =~= old(out)@ + enc_opt_u64(*o));
        },
    }
}

fn put_opt_str(out: &mut Vec<u8>, o: &Option<String>)
    ensures
        final(out)@ == old(out)@ + enc_opt_str(crate::device::view_of_opt_string(*o)),
        opt_str_encodable(crate::device::view_of_opt_string(*o)),
{
    match o {
        None => {
            put_u8(out, 0);
            assert(final(out)@ =~= old(out)@ + enc_opt_str(
                crate::device::view_of_opt_string(*o),
            ));
        },
        Some(s) => {
            put_u8(out, 1);
            put_str(out, s.as_str());
            assert(final(out)@ =~= old(out)@ + enc_opt_str(
                crate::device::view_of_opt_string(*o),
            ));
        },
    }
}

fn put_unit_result(out: &mut Vec<u8>, r: &Result<(), String>)
    ensures
        final(out)@ == old(out)@ + enc_unit_result(crate::messages::view_of_unit_result(*r)),
        unit_result_encodable(crate::messages::view_of_unit_result(*r)),
{
    match r {
        Ok(_) => {
            put_u8(out, 0);
            assert(final(out)@ =~= old(out)@ + enc_unit_result(
                crate::messages::view_of_unit_result(*r),
            ));
        },
        Err(e) => {
            put_u8(out, 1);
            put_str(out, e.as_str());
            assert(final(out)@ =~= old(out)@ + enc_unit_result(
                crate::messages::view_of_unit_result(*r),
            ));
        },
    }
}

fn put_device(out: &mut Vec<u8>, d: &crate::device::Device)
    ensures
        final(out)@ == old(out)@ + enc_device(d@),
        device_encodable(d@),
{
    put_u16(out, d.vid);
    put_u16(out, d.pid);
    put_bool(out, d.is_composite);
    put_opt_u8(out, &d.mi);
    put_opt_u64(out, &d.driver_version);
    put_str(out, d.desc.as_str());
    put_opt_str(out, &d.driver);
    put_opt_str(out, &d.device_id);
    put_opt_str(out, &d.hardware_id);
    put_opt_str(out, &d.compatible_id);
    put_opt_str(out, &d.upper_filter);
    proof {
        reveal(enc_device);
        let o = old(out)@;
        let e1 = enc_u16(d.vid);
        let e2 = enc_u16(d.pid);
        let e3 = enc_bool(d.is_composite);
        let e4 = enc_opt_u8(d.mi);
        let e5 = enc_opt_u64(d.driver_version);
        let e6 = enc_str(d.desc@);
        let e7 = enc_opt_str(d@.driver);
        let e8 = enc_opt_str(d@.device_id);
        let e9 = enc_opt_str(d@.hardware_id);
        let e10 = enc_opt_str(d@.compatible_id);
        let e11 = enc_opt_str(d@.upper_filter);
        let a2 = e1 + e2;
        let a3 = a2 + e3;
        let a4 = a3 + e4;
        let a5 = a4 + e5;
        let a6 = a5 + e6;
        let a7 = a6 + e7;
        let a8 = a7 + e8;
        let a9 = a8 + e9;
        let a10 = a9 + e10;
        let a11 = a10 + e11;
        lemma_seq_assoc(o, e1, e2);
        lemma_seq_assoc(o, a2, e3);
        lemma_seq_assoc(o, a3, e4);
        lemma_seq_assoc(o, a4, e5);
        lemma_seq_assoc(o, a5, e6);
        lemma_seq_assoc(o, a6, e7);
        lemma_seq_assoc(o, a7, e8);
        lemma_seq_assoc(o, a8, e9);
        lemma_seq_assoc(o, a9, e10);
        lemma_seq_assoc(o, a10, e11);
        assert(enc_device(d@) == a11);
        assert(final(out)@ == o + a11);
    }
}

fn put_config(out: &mut Vec<u8>, c: &crate::device::InstallConfig)
    ensures
        final(out)@ == old(out)@ + enc_config(c@),
        config_encodable(c@),
{
    put_str(out, c.vendor.as_str());
    put_str(out, c.driver_path.as_str());
    put_str(out, c.inf_name.as_str());
    assert(final(out)@ =~= old(out)@ + enc_config(c@));
}

/// Appending one more device onto an encoded run extends the encoding at
/// its end.
proof fn lemma_enc_device_seq_snoc(ds: Seq<DeviceView>, d: DeviceView)
    ensures
        enc_device_seq(ds.push(d)) == enc_device_seq(ds) + enc_device(d),
    decreases ds.len(),
{
    if ds.len() == 0 {
        let p = ds.push(d);
        assert(p.skip(1) =~= Seq::<DeviceView>::empty());
        assert(ds =~= Seq::<DeviceView>::empty());
        assert(enc_device_seq(Seq::<DeviceView>::empty()) == Seq::<u8>::empty());
        assert(enc_device_seq(p) == enc_device(p[0]) + enc_device_seq(p.skip(1)));
        assert(p[0] == d);
        assert(enc_device(d) + Seq::<u8>::empty() =~= enc_device(d));
        assert(Seq::<u8>::empty() + enc_device(d) =~= enc_device(d));
    } else {
        assert(ds.push(d).skip(1) =~= ds.skip(1).push(d));
        lemma_enc_device_seq_snoc(ds.skip(1), d);
        lemma_seq_assoc(enc_device(ds[0]), enc_device_seq(ds.skip(1)), enc_device(d));
    }
}

fn put_devices(out: &mut Vec<u8>, ds: &Vec<crate::device::Device>)
    ensures
        final(out)@ == old(out)@ + enc_devices(
            ds@.map_values(|d: crate::device::Device| d@),
        ),
        devices_encodable(ds@.map_values(|d: crate::device::Device| d@)),
{
    let ghost dsv = ds@.map_values(|d: crate::device::Device| d@);
    put_u64(out, ds.len() as u64);
    let mut i: usize = 0;
    while i < ds.len()
        invariant
            i <= ds.len(),
            dsv == ds@.map_values(|d: crate::device::Device| d@),
            dsv.len() == ds@.len(),
            out@ == old(out)@ + enc_u64(ds@.len() as u64) + enc_device_seq(dsv.take(i as int)),
            forall|j: int| 0 <= j < i ==> device_encodable(#[trigger] dsv[j]),
        decreases ds.len() - i,
    {
        put_device(out, &ds[i]);
        proof {
            assert(dsv.take(i as int).push(dsv[i as int]) =~= dsv.take(i + 1));
            lemma_enc_device_seq_snoc(dsv.take(i as int), dsv[i as int]);
            lemma_seq_assoc(
                old(out)@ + enc_u64(ds@.len() as u64),
                enc_device_seq(dsv.take(i as int)),
                enc_device(dsv[i as int]),
            );
        }
        i += 1;
    }
    proof {
        assert(dsv.take(dsv.len() as int) =~= dsv);
        lemma_seq_assoc(old(out)@, enc_u64(ds@.len() as u64), enc_device_seq(dsv));
    }
}

/// Encode one orchestrator-to-worker message as a wire payload.
pub fn encode_orchestrator_message(m: &crate::messages::OrchestratorMessage) -> (r: Vec<u8>)
    ensures
        r@ == enc_orchestrator_msg(m@),
        orchestrator_msg_encodable(m@),
{
    let mut out: Vec<u8> = Vec::new();
    match m {
        crate::messages::OrchestratorMessage::InstallRequest(c, ds) => {
            put_u8(&mut out, 0);
            put_config(&mut out, c);
            put_devices(&mut out, ds);
            assert(out@ =~= enc_orchestrator_msg(m@));
        },
        crate::messages::OrchestratorMessage::ConfigureLogSink(w) => {
            put_u8(&mut out, 1);
            put_u64(&mut out, w.0 as u64);
            assert(out@ =~= enc_orchestrator_msg(m@));
        },
        crate::messages::OrchestratorMessage::Terminate => {
            put_u8(&mut out, 2);
            assert(out@ =~= enc_orchestrator_msg(m@));
        },
    }
    out
}

/// Encode one worker-to-orchestrator message as a wire payload.
pub fn encode_worker_message(m: &crate::messages::WorkerMessage) -> (r: Vec<u8>)
    ensures
        r@ == enc_worker_msg(m@),
        worker_msg_encodable(m@),
{
    let mut out: Vec<u8> = Vec::new();
    match m {
        crate::messages::WorkerMessage::DeviceResult(d, res) => {
            put_u8(&mut out, 0);
            put_device(&mut out, d);
            put_unit_result(&mut out, res);
            assert(out@ =~= enc_worker_msg(m@));
        },
        crate::messages::WorkerMessage::Error(e) => {
            put_u8(&mut out, 1);
            put_str(&mut out, e.as_str());
            assert(out@ =~= enc_worker_msg(m@));
        },
        crate::messages::WorkerMessage::InstallStarted => {
            put_u8(&mut out, 2);
            assert(out@ =~= enc_worker_msg(m@));
        },
        crate::messages::WorkerMessage::InstallFinished => {
            put_u8(&mut out, 3);
            assert(out@ =~= enc_worker_msg(m@));
        },
        crate::messages::WorkerMessage::Heartbeat => {
            put_u8(&mut out, 4);
            assert(out@ =~= enc_worker_msg(m@));
        },
    }
    out
}

// ---------------------------------------------------------------------
// Executable decoders: a cursor into the input buffer moves forward as
// values are read, mirroring the specification decoders exactly.
// ---------------------------------------------------------------------

fn read_u8(b: &Vec<u8>, pos: usize) -> (r: Option<(u8, usize)>)
    requires
        pos <= b@.len(),
    ensures
        match r {
            Some(p) => pos < p.1 <= b@.len() && dec_u8(b@.skip(pos as int)) == Some(
                (p.0, b@.skip(p.1 as int)),
            ),
            None => dec_u8(b@.skip(pos as int)) is None,
        },
{
    if pos < b.len() {
        let v = b[pos];
        proof {
            assert(b@.skip(pos as int).skip(1) =~= b@.skip(pos as int + 1));
        }
        Some((v, pos + 1))
    } else {
        None
    }
}

fn read_u16(b: &Vec<u8>, pos: usize) -> (r: Option<(u16, usize)>)
    requires
        pos <= b@.len(),
    ensures
        match r {
            Some(p) => pos < p.1 <= b@.len() && dec_u16(b@.skip(pos as int)) == Some(
                (p.0, b@.skip(p.1 as int)),
            ),
            None => dec_u16(b@.skip(pos as int)) is None,
        },
{
    if b.len() - pos >= 2 {
        let v = (b[pos] as u16) | ((b[pos + 1] as u16) << 8);
        proof {
            assert(b@.skip(pos as int).skip(2) =~= b@.skip(pos as int + 2));
        }
        Some((v, pos + 2))
    } else {
        None
    }
}

fn read_u32(b: &Vec<u8>, pos: usize) -> (r: Option<(u32, usize)>)
    requires
        pos <= b@.len(),
    ensures
        match r {
            Some(p) => pos < p.1 <= b@.len() && dec_u32(b@.skip(pos as int)) == Some(
                (p.0, b@.skip(p.1 as int)),
            ),
            None => dec_u32(b@.skip(pos as int)) is None,
        },
{
    if b.len() - pos >= 4 {
        let v = (b[pos] as u32) | ((b[pos + 1] as u32) << 8) | ((b[pos + 2] as u32) << 16) | ((b[pos
            + 3] as u32) << 24);
        proof {
            assert(b@.skip(pos as int).skip(4) =~= b@.skip(pos as int + 4));
        }
        Some((v, pos + 4))
    } else {
        None
    }
}

fn read_u64(b: &Vec<u8>, pos: usize) -> (r: Option<(u64, usize)>)
    requires
        pos <= b@.len(),
    ensures
        match r {
            Some(p) => pos < p.1 <= b@.len() && dec_u64(b@.skip(pos as int)) == Some(
                (p.0, b@.skip(p.1 as int)),
            ),
            None => dec_u64(b@.skip(pos as int)) is None,
        },
{
    if b.len() - pos >= 8 {
        let v = (b[pos] as u64) | ((b[pos + 1] as u64) << 8) | ((b[pos + 2] as u64) << 16) | ((b[pos
            + 3] as u64) << 24) | ((b[pos + 4] as u64) << 32) | ((b[pos + 5] as u64) << 40) | ((
        b[pos + 6] as u64) << 48) | ((b[pos + 7] as u64) << 56);
        proof {
            assert(b@.skip(pos as int).skip(8) =~= b@.skip(pos as int + 8));
        }
        Some((v, pos + 8))
    } else {
        None
    }
}

fn read_bool(b: &Vec<u8>, pos: usize) -> (r: Option<(bool, usize)>)
    requires
        pos <= b@.len(),
    ensures
        match r {
            Some(p) => pos < p.1 <= b@.len() && dec_bool(b@.skip(pos as int)) == Some(
                (p.0, b@.skip(p.1 as int)),
            ),
            None => dec_bool(b@.skip(pos as int)) is None,
        },
{
    match read_u8(b, pos) {
        None => None,
        Some((t, p1)) => {
            if t == 0 {
                Some((false, p1))
            } else if t == 1 {
                Some((true, p1))
            } else {
                None
            }
        },
    }
}

/// Relies on std's `String::from_utf8`: it succeeds exactly on valid
/// UTF-8 input and the returned string consists of those very bytes.
#[verifier::external_body]
fn string_from_utf8(bytes: Vec<u8>) -> (r: Option<String>)
    ensures
        r is Some <==> valid_utf8(bytes@),
        r matches Some(s) ==> encode_utf8(s@) == bytes@,
{
    String::from_utf8(bytes).ok()
}

fn read_string(b: &Vec<u8>, pos: usize) -> (r: Option<(String, usize)>)
    requires
        pos <= b@.len(),
    ensures
        match r {
            Some(p) => pos < p.1 <= b@.len() && dec_str(b@.skip(pos as int)) == Some(
                (p.0@, b@.skip(p.1 as int)),
            ),
            None => dec_str(b@.skip(pos as int)) is None,
        },
{
    broadcast use encode_utf8_decode_utf8;

    match read_u64(b, pos) {
        None => None,
        Some((n, p1)) => {
            if n > (b.len() - p1) as u64 {
                return None;
            }
            let m = n as usize;
            let mut bytes: Vec<u8> = Vec::new();
            let mut i: usize = 0;
            while i < m
                invariant
                    i <= m,
                    p1 + m <= b@.len(),
                    p1 + m <= usize::MAX,
                    bytes@ =~= b@.subrange(p1 as int, p1 as int + i),
                decreases m - i,
            {
                bytes.push(b[p1 + i]);
                proof {
                    assert(bytes@ =~= b@.subrange(p1 as int, p1 as int + i + 1));
                }
                i += 1;
            }
            proof {
                assert(b@.skip(p1 as int).take(m as int) =~= b@.subrange(
                    p1 as int,
                    p1 as int + m,
                ));
                assert(b@.skip(p1 as int).skip(m as int) =~= b@.skip(p1 as int + m));
            }
            match string_from_utf8(bytes) {
                None => None,
                Some(s) => Some((s, p1 + m)),
            }
        },
    }
}

fn read_opt_u8(b: &Vec<u8>, pos: usize) -> (r: Option<(Option<u8>, usize)>)
    requires
        pos <= b@.len(),
    ensures
        match r {
            Some(p) => pos < p.1 <= b@.len() && dec_opt_u8(b@.skip(pos as int)) == Some(
                (p.0, b@.skip(p.1 as int)),
            ),
            None => dec_opt_u8(b@.skip(pos as int)) is None,
        },
{
    match read_u8(b, pos) {
        None => None,
        Some((t, p1)) => {
            if t == 0 {
                Some((None, p1))
            } else if t == 1 {
                match read_u8(b, p1) {
                    None => None,
                    Some((v, p2)) => Some((Some(v), p2)),
                }
            } else {
                None
            }
        },
    }
}

fn read_opt_u64(b: &Vec<u8>, pos: usize) -> (r: Option<(Option<u64>, usize)>)
    requires
        pos <= b@.len(),
    ensures
        match r {
            Some(p) => pos < p.1 <= b@.len() && dec_opt_u64(b@.skip(pos as int)) == Some(
                (p.0, b@.skip(p.1 as int)),
            ),
            None => dec_opt_u64(b@.skip(pos as int)) is None,
        },
{
    match read_u8(b, pos) {
        None => None,
        Some((t, p1)) => {
            if t == 0 {
                Some((None, p1))
            } else if t == 1 {
                match read_u64(b, p1) {
                    None => None,
                    Some((v, p2)) => Some((Some(v), p2)),
                }
            } else {
                None
            }
        },
    }
}

fn read_opt_nz_u8(b: &Vec<u8>, pos: usize) -> (r: Option<(Option<u8>, usize)>)
    requires
        pos <= b@.len(),
    ensures
        match r {
            Some(p) => pos < p.1 <= b@.len() && dec_opt_nz_u8(b@.skip(pos as int)) == Some(
                (p.0, b@.skip(p.1 as int)),
            ),
            None => dec_opt_nz_u8(b@.skip(pos as int)) is None,
        },
{
    match read_opt_u8(b, pos) {
        None => None,
        Some((o, p1)) => match o {
            Some(v) => {
                if v == 0 {
                    None
                } else {
                    Some((Some(v), p1))
                }
            },
            None => Some((None, p1)),
        },
    }
}

fn read_opt_nz_u64(b: &Vec<u8>, pos: usize) -> (r: Option<(Option<u64>, usize)>)
    requires
        pos <= b@.len(),
    ensures
        match r {
            Some(p) => pos < p.1 <= b@.len() && dec_opt_nz_u64(b@.skip(pos as int)) == Some(
                (p.0, b@.skip(p.1 as int)),
            ),
            None => dec_opt_nz_u64(b@.skip(pos as int)) is None,
        },
{
    match read_opt_u64(b, pos) {
        None => None,
        Some((o, p1)) => match o {
            Some(v) => {
                if v == 0 {
                    None
                } else {
                    Some((Some(v), p1))
                }
            },
            None => Some((None, p1)),
        },
    }
}

fn read_opt_string(b: &Vec<u8>, pos: usize) -> (r: Option<(Option<String>, usize)>)
    requires
        pos <= b@.len(),
    ensures
        match r {
            Some(p) => pos < p.1 <= b@.len() && dec_opt_str(b@.skip(pos as int)) == Some(
                (crate::device::view_of_opt_string(p.0), b@.skip(p.1 as int)),
            ),
            None => dec_opt_str(b@.skip(pos as int)) is None,
        },
{
    match read_u8(b, pos) {
        None => None,
        Some((t, p1)) => {
            if t == 0 {
                Some((None, p1))
            } else if t == 1 {
                match read_string(b, p1) {
                    None => None,
                    Some((s, p2)) => Some((Some(s), p2)),
                }
            } else {
                None
            }
        },
    }
}

fn read_unit_result(b: &Vec<u8>, pos: usize) -> (r: Option<(Result<(), String>, usize)>)
    requires
        pos <= b@.len(),
    ensures
        match r {
            Some(p) => pos < p.1 <= b@.len() && dec_unit_result(b@.skip(pos as int)) == Some(
                (crate::messages::view_of_unit_result(p.0), b@.skip(p.1 as int)),
            ),
            None => dec_unit_result(b@.skip(pos as int)) is None,
        },
{
    match read_u8(b, pos) {
        None => None,
        Some((t, p1)) => {
            if t == 0 {
                Some((Ok(()), p1))
            } else if t == 1 {
                match read_string(b, p1) {
                    None => None,
                    Some((e, p2)) => Some((Err(e), p2)),
                }
            } else {
                None
            }
        },
    }
}

#[verifier::rlimit(80)]
fn read_device(b: &Vec<u8>, pos: usize) -> (r: Option<(crate::device::Device, usize)>)
    requires
        pos <= b@.len(),
    ensures
        match r {
            Some(p) => pos < p.1 <= b@.len() && dec_device(b@.skip(pos as int)) == Some(
                (p.0@, b@.skip(p.1 as int)),
            ),
            None => dec_device(b@.skip(pos as int)) is None,
        },
{
    proof {
        reveal(dec_device);
    }
    let r1 = read_u16(b, pos);
    if r1.is_none() {
        return None;
    }
    let (vid, p1) = r1.unwrap();
    let r2 = read_u16(b, p1);
    if r2.is_none() {
        return None;
    }
    let (pid, p2) = r2.unwrap();
    let r3 = read_bool(b, p2);
    if r3.is_none() {
        return None;
    }
    let (is_composite, p3) = r3.unwrap();
    let r4 = read_opt_nz_u8(b, p3);
    if r4.is_none() {
        return None;
    }
    let (mi, p4) = r4.unwrap();
    let r5 = read_opt_nz_u64(b, p4);
    if r5.is_none() {
        return None;
    }
    let (driver_version, p5) = r5.unwrap();
    let r6 = read_string(b, p5);
    if r6.is_none() {
        return None;
    }
    let (desc, p6) = r6.unwrap();
    let r7 = read_opt_string(b, p6);
    if r7.is_none() {
        return None;
    }
    let (driver, p7) = r7.unwrap();
    let r8 = read_opt_string(b, p7);
    if r8.is_none() {
        return None;
    }
    let (device_id, p8) = r8.unwrap();
    let r9 = read_opt_string(b, p8);
    if r9.is_none() {
        return None;
    }
    let (hardware_id, p9) = r9.unwrap();
    let r10 = read_opt_string(b, p9);
    if r10.is_none() {
        return None;
    }
    let (compatible_id, p10) = r10.unwrap();
    let r11 = read_opt_string(b, p10);
    if r11.is_none() {
        return None;
    }
    let (upper_filter, p11) = r11.unwrap();
    let d = crate::device::Device {
        vid,
        pid,
        is_composite,
        mi,
        driver_version,
        desc,
        driver,
        device_id,
        hardware_id,
        compatible_id,
        upper_filter,
    };
    Some((d, p11))
}

fn read_config(b: &Vec<u8>, pos: usize) -> (r: Option<(crate::device::InstallConfig, usize)>)
    requires
        pos <= b@.len(),
    ensures
        match r {
            Some(p) => pos < p.1 <= b@.len() && dec_config(b@.skip(pos as int)) == Some(
                (p.0@, b@.skip(p.1 as int)),
            ),
            None => dec_config(b@.skip(pos as int)) is None,
        },
{
    match read_string(b, pos) {
        None => None,
        Some((vendor, p1)) => match read_string(b, p1) {
            None => None,
            Some((driver_path, p2)) => match read_string(b, p2) {
                None => None,
                Some((inf_name, p3)) => Some(
                    (crate::device::InstallConfig { vendor, driver_path, inf_name }, p3),
                ),
            },
        },
    }
}

/// Decoding `i + k` devices first decodes `i`, then `k` more from the
/// remainder.
proof fn lemma_dec_device_seq_split(b: Seq<u8>, i: nat, k: nat)
    ensures
        match dec_device_seq(b, i) {
            None => dec_device_seq(b, i + k) is None,
            Some((ds1, r)) => dec_device_seq(b, i + k) == match dec_device_seq(r, k) {
                None => None::<(Seq<DeviceView>, Seq<u8>)>,
                Some((ds2, r2)) => Some((ds1 + ds2, r2)),
            },
        },
    decreases i,
{
    if i == 0 {
        match dec_device_seq(b, 0) {
            None => {},
            Some((ds1, r)) => {
                assert(ds1 == Seq::<DeviceView>::empty() && r == b);
                match dec_device_seq(b, k) {
                    None => {},
                    Some((ds2, r2)) => {
                        assert(ds1 + ds2 =~= ds2);
                    },
                }
            },
        }
    } else {
        match dec_device(b) {
            None => {},
            Some((d, r)) => {
                lemma_dec_device_seq_split(r, (i - 1) as nat, k);
                match dec_device_seq(r, (i - 1) as nat) {
                    None => {},
                    Some((tail1, r1)) => {
                        match dec_device_seq(r1, k) {
                            None => {},
                            Some((ds2, r2)) => {
                                assert((seq![d] + tail1) + ds2 =~= seq![d] + (tail1 + ds2));
                            },
                        }
                    },
                }
            },
        }
    }
}

fn read_devices(b: &Vec<u8>, pos: usize) -> (r: Option<(Vec<crate::device::Device>, usize)>)
    requires
        pos <= b@.len(),
    ensures
        match r {
            Some(p) => pos < p.1 <= b@.len() && dec_devices(b@.skip(pos as int)) == Some(
                (p.0@.map_values(|d: crate::device::Device| d@), b@.skip(p.1 as int)),
            ),
            None => dec_devices(b@.skip(pos as int)) is None,
        },
{
    match read_u64(b, pos) {
        None => None,
        Some((n, p1)) => {
            let mut acc: Vec<crate::device::Device> = Vec::new();
            let mut cur: usize = p1;
            let mut i: u64 = 0;
            while i < n
                invariant
                    i <= n,
                    pos < p1 <= cur <= b@.len(),
                    dec_u64(b@.skip(pos as int)) == Some((n, b@.skip(p1 as int))),
                    acc@.len() == i,
                    dec_device_seq(b@.skip(p1 as int), i as nat) == Some(
                        (
                            acc@.map_values(|d: crate::device::Device| d@),
                            b@.skip(cur as int),
                        ),
                    ),
                decreases n - i,
            {
                let ghost accv = acc@.map_values(|d: crate::device::Device| d@);
                match read_device(b, cur) {
                    None => {
                        proof {
                            assert(dec_device_seq(b@.skip(cur as int), (n - i) as nat) is None);
                            lemma_dec_device_seq_split(
                                b@.skip(p1 as int),
                                i as nat,
                                (n - i) as nat,
                            );
                            assert(dec_device_seq(b@.skip(p1 as int), n as nat) is None);
                        }
                        return None;
                    },
                    Some((d, next)) => {
                        proof {
                            assert(dec_device_seq(b@.skip(cur as int), 1nat) == Some(
                                (seq![d@], b@.skip(next as int)),
                            )) by {
                                assert(dec_device_seq(b@.skip(next as int), 0nat) == Some(
                                    (Seq::<DeviceView>::empty(), b@.skip(next as int)),
                                ));
                                assert(seq![d@] + Seq::<DeviceView>::empty() =~= seq![d@]);
                            }
                            lemma_dec_device_seq_split(b@.skip(p1 as int), i as nat, 1nat);
                            assert(accv.push(d@) =~= accv + seq![d@]);
                            assert((acc@.push(d)).map_values(|x: crate::device::Device| x@)
                                =~= accv.push(d@));
                        }
                        acc.push(d);
                        cur = next;
                        i = i + 1;
                    },
                }
            }
            Some((acc, cur))
        },
    }
}

// ---------------------------------------------------------------------
// Framing: a 4-byte little-endian length prefix in front of the payload.
// ---------------------------------------------------------------------

pub open spec fn frame_of(payload: Seq<u8>) -> Seq<u8> {
    enc_u32(payload.len() as u32) + payload
}

pub open spec fn spec_take_frame(b: Seq<u8>) -> Option<(Seq<u8>, Seq<u8>)> {
    match dec_u32(b) {
        None => None,
        Some((n, r)) => {
            if n <= r.len() {
                Some((r.take(n as int), r.skip(n as int)))
            } else {
                None
            }
        },
    }
}

/// Round trip of the framing layer: a framed payload is taken back off
/// the stream unchanged, leaving exactly the following bytes.
pub proof fn lemma_take_frame_of(payload: Seq<u8>, rest: Seq<u8>)
    requires
        payload.len() <= u32::MAX,
    ensures
        spec_take_frame(frame_of(payload) + rest) == Some((payload, rest)),
{
    lemma_dec_enc_u32(payload.len() as u32, payload + rest);
    lemma_seq_assoc(enc_u32(payload.len() as u32), payload, rest);
    assert((payload + rest).take(payload.len() as int) =~= payload);
    assert((payload + rest).skip(payload.len() as int) =~= rest);
}

/// The framing layer preserves send order: two payloads framed one after
/// the other are taken off the stream in the same order, with no
/// reordering or coalescing.
pub proof fn lemma_frames_in_order(p1: Seq<u8>, p2: Seq<u8>, rest: Seq<u8>)
    requires
        p1.len() <= u32::MAX,
        p2.len() <= u32::MAX,
    ensures
        spec_take_frame(frame_of(p1) + frame_of(p2) + rest) matches Some((q1, r1)) && q1 == p1
            && spec_take_frame(r1) == Some((p2, rest)),
{
    lemma_seq_assoc(frame_of(p1), frame_of(p2), rest);
    lemma_take_frame_of(p1, frame_of(p2) + rest);
    lemma_take_frame_of(p2, rest);
}

/// Wrap a payload in a length-prefixed frame; `None` exactly when the
/// payload is too long for the 4-byte length field.
pub fn frame_payload(payload: &Vec<u8>) -> (r: Option<Vec<u8>>)
    ensures
        payload@.len() <= u32::MAX ==> (r matches Some(f) && f@ == frame_of(payload@)),
        payload@.len() > u32::MAX ==> r is None,
{
    if payload.len() <= u32::MAX as usize {
        let mut out: Vec<u8> = Vec::new();
        put_u32(&mut out, payload.len() as u32);
        out.extend_from_slice(payload.as_slice());
        assert(out@ =~= frame_of(payload@));
        Some(out)
    } else {
        None
    }
}

/// Take one frame's payload off a stream buffer; `None` when no complete
/// frame has arrived yet.
pub fn take_frame(buf: &Vec<u8>, pos: usize) -> (r: Option<(Vec<u8>, usize)>)
    requires
        pos <= buf@.len(),
    ensures
        match r {
            Some(p) => pos < p.1 <= buf@.len() && spec_take_frame(buf@.skip(pos as int)) == Some(
                (p.0@, buf@.skip(p.1 as int)),
            ),
            None => spec_take_frame(buf@.skip(pos as int)) is None,
        },
{
    match read_u32(buf, pos) {
        None => None,
        Some((n, p1)) => {
            if (n as u64) > (buf.len() - p1) as u64 {
                return None;
            }
            let m = n as usize;
            let mut payload: Vec<u8> = Vec::new();
            let mut i: usize = 0;
            while i < m
                invariant
                    i <= m,
                    p1 + m <= buf@.len(),
                    p1 + m <= usize::MAX,
                    payload@ =~= buf@.subrange(p1 as int, p1 as int + i),
                decreases m - i,
            {
                payload.push(buf[p1 + i]);
                proof {
                    assert(payload@ =~= buf@.subrange(p1 as int, p1 as int + i + 1));
                }
                i += 1;
            }
            proof {
                assert(buf@.skip(p1 as int).take(m as int) =~= buf@.subrange(
                    p1 as int,
                    p1 as int + m,
                ));
                assert(buf@.skip(p1 as int).skip(m as int) =~= buf@.skip(p1 as int + m));
            }
            Some((payload, p1 + m))
        },
    }
}

/// Decode one orchestrator-to-worker wire payload; `None` exactly on a
/// malformed payload.
pub fn decode_orchestrator_message(payload: &Vec<u8>) -> (r: Option<
    crate::messages::OrchestratorMessage,
>)
    ensures
        match r {
            Some(m) => dec_orchestrator_msg(payload@) == Some(m@),
            None => dec_orchestrator_msg(payload@) is None,
        },
{
    proof {
        assert(payload@.skip(0) =~= payload@);
    }
    match read_u8(payload, 0) {
        None => None,
        Some((tag, p1)) => {
            if tag == 0 {
                match read_config(payload, p1) {
                    None => None,
                    Some((c, p2)) => match read_devices(payload, p2) {
                        None => None,
                        Some((ds, p3)) => {
                            if p3 == payload.len() {
                                proof {
                                    assert(payload@.skip(p3 as int).len() == 0);
                                }
                                Some(crate::messages::OrchestratorMessage::InstallRequest(c, ds))
                            } else {
                                None
                            }
                        },
                    },
                }
            } else if tag == 1 {
                match read_u64(payload, p1) {
                    None => None,
                    Some((w, p2)) => {
                        if p2 == payload.len() {
                            proof {
                                assert(payload@.skip(p2 as int).len() == 0);
                            }
                            Some(
                                crate::messages::OrchestratorMessage::ConfigureLogSink(
                                    crate::device::Window(w as i64),
                                ),
                            )
                        } else {
                            None
                        }
                    },
                }
            } else if tag == 2 {
                if p1 == payload.len() {
                    proof {
                        assert(payload@.skip(p1 as int).len() == 0);
                    }
                    Some(crate::messages::OrchestratorMessage::Terminate)
                } else {
                    None
                }
            } else {
                None
            }
        },
    }
}

/// Decode one worker-to-orchestrator wire payload; `None` exactly on a
/// malformed payload.
pub fn decode_worker_message(payload: &Vec<u8>) -> (r: Option<crate::messages::WorkerMessage>)
    ensures
        match r {
            Some(m) => dec_worker_msg(payload@) == Some(m@),
            None => dec_worker_msg(payload@) is None,
        },
{
    proof {
        assert(payload@.skip(0) =~= payload@);
    }
    match read_u8(payload, 0) {
        None => None,
        Some((tag, p1)) => {
            if tag == 0 {
                match read_device(payload, p1) {
                    None => None,
                    Some((d, p2)) => match read_unit_result(payload, p2) {
                        None => None,
                        Some((res, p3)) => {
                            if p3 == payload.len() {
                                proof {
                                    assert(payload@.skip(p3 as int).len() == 0);
                                }
                                Some(crate::messages::WorkerMessage::DeviceResult(d, res))
                            } else {
                                None
                            }
                        },
                    },
                }
            } else if tag == 1 {
                match read_string(payload, p1) {
                    None => None,
                    Some((e, p2)) => {
                        if p2 == payload.len() {
                            proof {
                                assert(payload@.skip(p2 as int).len() == 0);
                            }
                            Some(crate::messages::WorkerMessage::Error(e))
                        } else {
                            None
                        }
                    },
                }
            } else if tag == 2 {
                if p1 == payload.len() {
                    proof {
                        assert(payload@.skip(p1 as int).len() == 0);
                    }
                    Some(crate::messages::WorkerMessage::InstallStarted)
                } else {
                    None
                }
            } else if tag == 3 {
                if p1 == payload.len() {
                    proof {
                        assert(payload@.skip(p1 as int).len() == 0);
                    }
                    Some(crate::messages::WorkerMessage::InstallFinished)
                } else {
                    None
                }
            } else if tag == 4 {
                if p1 == payload.len() {
                    proof {
                        assert(payload@.skip(p1 as int).len() == 0);
                    }
                    Some(crate::messages::WorkerMessage::Heartbeat)
                } else {
                    None
                }
            } else {
                None
            }
        },
    }
}

} // verus!
