//! Wire format of the inter-robot message relay.
//!
//! Robots broadcast structured values serialized as a tagged binary
//! encoding of Lua data: booleans, numbers, C strings, user types
//! (vectors and quaternions) and tables of key-value pairs. A number
//! travels as a 64-bit mantissa and a 32-bit exponent, both big-endian;
//! this module keeps that pair as it stands on the wire and leaves any
//! floating-point reading of it to the caller. A table ends at a nil tag
//! or at the end of the buffer.
//!
//! The specification-level decoders below state the grammar over byte
//! sequences; each executable decoder returns exactly what its
//! specification says, with the consumed length.

use vstd::prelude::*;
use vstd::utf8::{decode_utf8, valid_utf8};

verus! {

broadcast use vstd::std_specs::vec::axiom_vec_index_decreases;

/// Wire tag of a nil value, which closes a table.
pub const LUA_TNIL: u8 = 0;

/// Wire tag of a boolean.
pub const LUA_TBOOLEAN: u8 = 1;

/// Wire tag of a number.
pub const LUA_TNUMBER: u8 = 3;

/// Wire tag of a string.
pub const LUA_TSTRING: u8 = 4;

/// Wire tag of a table.
pub const LUA_TTABLE: u8 = 5;

/// Wire tag of a user type.
pub const LUA_TUSERDATA: u8 = 7;

/// User-type tag of a two-component vector.
pub const LUA_TUSERDATA_VECTOR2: u8 = 1;

/// User-type tag of a three-component vector.
pub const LUA_TUSERDATA_VECTOR3: u8 = 2;

/// User-type tag of a quaternion.
pub const LUA_TUSERDATA_QUATERNION: u8 = 3;

/// A Lua number as it stands on the wire: a signed mantissa and a binary
/// exponent. The floating-point value it denotes is for the caller to
/// compute.
#[derive(Clone, Copy, Debug, PartialEq, Eq, Structural)]
pub struct LuaNumber {
    pub mantissa: i64,
    pub exponent: i32,
}

/// A decoded Lua value.
#[derive(Debug, PartialEq)]
pub enum LuaType {
    Text(String),
    Number(LuaNumber),
    Boolean(bool),
    Vector2(LuaNumber, LuaNumber),
    Vector3(LuaNumber, LuaNumber, LuaNumber),
    Quaternion(LuaNumber, LuaNumber, LuaNumber, LuaNumber),
    Table(Vec<(LuaType, LuaType)>),
}

/// The mathematical shape of a decoded Lua value.
pub enum LuaValue {
    Text(Seq<char>),
    Number { mantissa: int, exponent: int },
    Boolean(bool),
    Vector2(LuaValue2),
    Vector3(LuaValue3),
    Quaternion(LuaValue4),
    Table(Seq<(LuaValue, LuaValue)>),
}

/// Two wire numbers, as mantissa-exponent pairs.
pub struct LuaValue2 {
    pub x: (int, int),
    pub y: (int, int),
}

/// Three wire numbers, as mantissa-exponent pairs.
pub struct LuaValue3 {
    pub x: (int, int),
    pub y: (int, int),
    pub z: (int, int),
}

/// Four wire numbers, as mantissa-exponent pairs.
pub struct LuaValue4 {
    pub w: (int, int),
    pub x: (int, int),
    pub y: (int, int),
    pub z: (int, int),
}

/// Which decoder failed.
#[derive(Clone, Copy, Debug, PartialEq, Eq, Structural)]
pub enum LuaDecodeError {
    /// The user-type tag was missing or unknown.
    UserType,
    /// A two-component vector could not be decoded.
    Vector2,
    /// A three-component vector could not be decoded.
    Vector3,
    /// A quaternion could not be decoded.
    Quaternion,
    /// Too few bytes remained for a number.
    Number,
    /// A string held invalid text.
    Text,
    /// No byte remained for a boolean.
    Boolean,
    /// A table key carried an unknown tag.
    Key,
    /// A table value was missing or carried an unknown tag.
    Value,
}

/// The shape of a number value.
pub open spec fn spec_num(n: LuaNumber) -> (int, int) {
    (n.mantissa as int, n.exponent as int)
}

/// The shape of a decoded value.
pub open spec fn lua_view(v: LuaType) -> LuaValue
    decreases v,
{
    match v {
        LuaType::Text(s) => LuaValue::Text(s@),
        LuaType::Number(n) => LuaValue::Number {
            mantissa: n.mantissa as int,
            exponent: n.exponent as int,
        },
        LuaType::Boolean(x) => LuaValue::Boolean(x),
        LuaType::Vector2(x, y) => LuaValue::Vector2(
            LuaValue2 { x: spec_num(x), y: spec_num(y) },
        ),
        LuaType::Vector3(x, y, z) => LuaValue::Vector3(
            LuaValue3 { x: spec_num(x), y: spec_num(y), z: spec_num(z) },
        ),
        LuaType::Quaternion(w, x, y, z) => LuaValue::Quaternion(
            LuaValue4 { w: spec_num(w), x: spec_num(x), y: spec_num(y), z: spec_num(z) },
        ),
        LuaType::Table(entries) => LuaValue::Table(lua_entries_view(entries, 0)),
    }
}

/// The shapes of a table's entries from index `i` on.
pub open spec fn lua_entries_view(entries: Vec<(LuaType, LuaType)>, i: int) -> Seq<
    (LuaValue, LuaValue),
>
    decreases entries, entries@.len() - i,
{
    if i < 0 || i >= entries@.len() {
        Seq::empty()
    } else {
        seq![(lua_view(entries@[i].0), lua_view(entries@[i].1))] + lua_entries_view(
            entries,
            i + 1,
        )
    }
}

/// A decoder result, by shape: the value's shape and the position after
/// it, or the error.
pub open spec fn lua_result_view(r: Result<(LuaType, usize), LuaDecodeError>) -> Result<
    (LuaValue, int),
    LuaDecodeError,
> {
    match r {
        Ok((v, end)) => Ok((lua_view(v), end as int)),
        Err(e) => Err(e),
    }
}

/// The unsigned big-endian value of the eight bytes at `pos`.
pub open spec fn spec_u64_be(b: Seq<u8>, pos: int) -> int {
    b[pos] * 0x100000000000000 + b[pos + 1] * 0x1000000000000 + b[pos + 2] * 0x10000000000 + b[pos
        + 3] * 0x100000000 + b[pos + 4] * 0x1000000 + b[pos + 5] * 0x10000 + b[pos + 6] * 0x100
        + b[pos + 7]
}

/// The signed big-endian value of the eight bytes at `pos`.
pub open spec fn spec_i64_be(b: Seq<u8>, pos: int) -> int {
    if spec_u64_be(b, pos) >= 0x8000000000000000 {
        spec_u64_be(b, pos) - 0x10000000000000000
    } else {
        spec_u64_be(b, pos)
    }
}

/// The unsigned big-endian value of the four bytes at `pos`.
pub open spec fn spec_u32_be(b: Seq<u8>, pos: int) -> int {
    b[pos] * 0x1000000 + b[pos + 1] * 0x10000 + b[pos + 2] * 0x100 + b[pos + 3]
}

/// The signed big-endian value of the four bytes at `pos`.
pub open spec fn spec_i32_be(b: Seq<u8>, pos: int) -> int {
    if spec_u32_be(b, pos) >= 0x80000000 {
        spec_u32_be(b, pos) - 0x100000000
    } else {
        spec_u32_be(b, pos)
    }
}

/// A number decodes when strictly more bytes remain than the twelve it
/// occupies: an eight-byte mantissa, then a four-byte exponent.
pub open spec fn spec_decode_number(b: Seq<u8>, pos: int) -> Result<
    (LuaValue, int),
    LuaDecodeError,
> {
    if b.len() - pos > 12 {
        Ok(
            (
                LuaValue::Number { mantissa: spec_i64_be(b, pos), exponent: spec_i32_be(b, pos + 8) },
                pos + 12,
            ),
        )
    } else {
        Err(LuaDecodeError::Number)
    }
}

/// A boolean is one byte: zero is false, anything else true.
pub open spec fn spec_decode_boolean(b: Seq<u8>, pos: int) -> Result<
    (LuaValue, int),
    LuaDecodeError,
> {
    if pos < b.len() {
        Ok((LuaValue::Boolean(b[pos] != 0), pos + 1))
    } else {
        Err(LuaDecodeError::Boolean)
    }
}

/// The position of the first zero byte at or after `pos`, or the end of
/// the buffer.
pub open spec fn spec_scan_nul(b: Seq<u8>, pos: int) -> int
    decreases b.len() - pos,
{
    if pos < 0 || pos >= b.len() {
        b.len() as int
    } else if b[pos] == 0 {
        pos
    } else {
        spec_scan_nul(b, pos + 1)
    }
}

/// A string is the bytes up to the next zero byte (consumed when present)
/// or the end of the buffer, and must be valid text.
pub open spec fn spec_decode_text(b: Seq<u8>, pos: int) -> Result<
    (LuaValue, int),
    LuaDecodeError,
> {
    let nul = spec_scan_nul(b, pos);
    let raw = b.subrange(pos, nul);
    if valid_utf8(raw) {
        Ok((LuaValue::Text(decode_utf8(raw)), if nul < b.len() { nul + 1 } else { nul }))
    } else {
        Err(LuaDecodeError::Text)
    }
}

/// A two-component vector is two numbers.
pub open spec fn spec_decode_vector2(b: Seq<u8>, pos: int) -> Result<
    (LuaValue, int),
    LuaDecodeError,
> {
    match spec_decode_number(b, pos) {
        Err(_) => Err(LuaDecodeError::Vector2),
        Ok((x, xe)) => match spec_decode_number(b, xe) {
            Err(_) => Err(LuaDecodeError::Vector2),
            Ok((y, ye)) => Ok(
                (
                    LuaValue::Vector2(LuaValue2 { x: spec_num_of(x), y: spec_num_of(y) }),
                    ye,
                ),
            ),
        },
    }
}

/// A three-component vector is three numbers.
pub open spec fn spec_decode_vector3(b: Seq<u8>, pos: int) -> Result<
    (LuaValue, int),
    LuaDecodeError,
> {
    match spec_decode_number(b, pos) {
        Err(_) => Err(LuaDecodeError::Vector3),
        Ok((x, xe)) => match spec_decode_number(b, xe) {
            Err(_) => Err(LuaDecodeError::Vector3),
            Ok((y, ye)) => match spec_decode_number(b, ye) {
                Err(_) => Err(LuaDecodeError::Vector3),
                Ok((z, ze)) => Ok(
                    (
                        LuaValue::Vector3(
                            LuaValue3 {
                                x: spec_num_of(x),
                                y: spec_num_of(y),
                                z: spec_num_of(z),
                            },
                        ),
                        ze,
                    ),
                ),
            },
        },
    }
}

/// A quaternion is four numbers.
pub open spec fn spec_decode_quaternion(b: Seq<u8>, pos: int) -> Result<
    (LuaValue, int),
    LuaDecodeError,
> {
    match spec_decode_number(b, pos) {
        Err(_) => Err(LuaDecodeError::Quaternion),
        Ok((w, we)) => match spec_decode_number(b, we) {
            Err(_) => Err(LuaDecodeError::Quaternion),
            Ok((x, xe)) => match spec_decode_number(b, xe) {
                Err(_) => Err(LuaDecodeError::Quaternion),
                Ok((y, ye)) => match spec_decode_number(b, ye) {
                    Err(_) => Err(LuaDecodeError::Quaternion),
                    Ok((z, ze)) => Ok(
                        (
                            LuaValue::Quaternion(
                                LuaValue4 {
                                    w: spec_num_of(w),
                                    x: spec_num_of(x),
                                    y: spec_num_of(y),
                                    z: spec_num_of(z),
                                },
                            ),
                            ze,
                        ),
                    ),
                },
            },
        },
    }
}

/// The mantissa-exponent pair inside a number shape.
pub open spec fn spec_num_of(v: LuaValue) -> (int, int)
    recommends
        v is Number,
{
    match v {
        LuaValue::Number { mantissa, exponent } => (mantissa, exponent),
        _ => (0, 0),
    }
}

/// A user type is a tag byte naming a vector or quaternion, then its
/// numbers.
pub open spec fn spec_decode_usertype(b: Seq<u8>, pos: int) -> Result<
    (LuaValue, int),
    LuaDecodeError,
> {
    if pos >= b.len() {
        Err(LuaDecodeError::UserType)
    } else if b[pos] == LUA_TUSERDATA_VECTOR2 {
        spec_decode_vector2(b, pos + 1)
    } else if b[pos] == LUA_TUSERDATA_VECTOR3 {
        spec_decode_vector3(b, pos + 1)
    } else if b[pos] == LUA_TUSERDATA_QUATERNION {
        spec_decode_quaternion(b, pos + 1)
    } else {
        Err(LuaDecodeError::UserType)
    }
}

/// Whether a tag opens a value that can stand in a table.
pub open spec fn spec_is_item_tag(tag: u8) -> bool {
    tag == LUA_TBOOLEAN || tag == LUA_TNUMBER || tag == LUA_TSTRING || tag == LUA_TUSERDATA
        || tag == LUA_TTABLE
}

/// One tagged value inside a table.
pub open spec fn spec_decode_item(b: Seq<u8>, pos: int, tag: u8) -> Result<
    (LuaValue, int),
    LuaDecodeError,
>
    decreases b.len() - pos, 2int,
{
    if tag == LUA_TBOOLEAN {
        spec_decode_boolean(b, pos)
    } else if tag == LUA_TNUMBER {
        spec_decode_number(b, pos)
    } else if tag == LUA_TSTRING {
        spec_decode_text(b, pos)
    } else if tag == LUA_TUSERDATA {
        spec_decode_usertype(b, pos)
    } else if tag == LUA_TTABLE && 0 <= pos <= b.len() {
        spec_decode_table(b, pos)
    } else {
        Err(LuaDecodeError::Key)
    }
}

/// The entries of a table from `pos` on, appended to `acc`: pairs of a
/// tagged key and a tagged value, until a nil key tag or the end of the
/// buffer closes the table.
pub open spec fn spec_decode_entries(b: Seq<u8>, pos: int, acc: Seq<(LuaValue, LuaValue)>) -> Result<
    (Seq<(LuaValue, LuaValue)>, int),
    LuaDecodeError,
>
    decreases b.len() - pos, 0int,
{
    if pos < 0 || pos >= b.len() {
        Ok((acc, if pos < 0 { 0 } else { pos }))
    } else if b[pos] == LUA_TNIL {
        Ok((acc, pos + 1))
    } else if !spec_is_item_tag(b[pos]) {
        Err(LuaDecodeError::Key)
    } else {
        match spec_decode_item(b, pos + 1, b[pos]) {
            Err(e) => Err(e),
            Ok((key, key_end)) => if key_end <= pos || key_end >= b.len() {
                Err(LuaDecodeError::Value)
            } else if !spec_is_item_tag(b[key_end]) {
                Err(LuaDecodeError::Value)
            } else {
                match spec_decode_item(b, key_end + 1, b[key_end]) {
                    Err(e) => Err(e),
                    Ok((value, value_end)) => if pos < value_end <= b.len() {
                        spec_decode_entries(b, value_end, acc.push((key, value)))
                    } else {
                        Err(LuaDecodeError::Value)
                    },
                }
            },
        }
    }
}

/// A table: its entries up to the closing nil tag or the end of the
/// buffer.
pub open spec fn spec_decode_table(b: Seq<u8>, pos: int) -> Result<(LuaValue, int), LuaDecodeError>
    decreases b.len() - pos, 1int,
{
    match spec_decode_entries(b, pos, Seq::empty()) {
        Err(e) => Err(e),
        Ok((entries, end)) => Ok((LuaValue::Table(entries), end)),
    }
}


/// Views are preserved when one entry is appended: the view of the longer
/// table is the view of the shorter one with the new pair's views at the
/// end.
pub proof fn lemma_entries_view_push(
    a: Vec<(LuaType, LuaType)>,
    b: Vec<(LuaType, LuaType)>,
    i: int,
)
    requires
        0 <= i <= a@.len(),
        b@.len() == a@.len() + 1,
        forall|k: int| 0 <= k < a@.len() ==> a@[k] == b@[k],
    ensures
        lua_entries_view(b, i) == lua_entries_view(a, i).push(
            (lua_view(b@[a@.len() as int].0), lua_view(b@[a@.len() as int].1)),
        ),
    decreases a@.len() - i,
{
    let p = (lua_view(b@[a@.len() as int].0), lua_view(b@[a@.len() as int].1));
    if i == a@.len() {
        assert(lua_entries_view(b, i + 1) =~= Seq::empty());
        assert(lua_entries_view(b, i) =~= lua_entries_view(a, i).push(p));
    } else {
        lemma_entries_view_push(a, b, i + 1);
        assert(lua_entries_view(b, i) =~= lua_entries_view(a, i).push(p));
    }
}

/// Relies on String::from_utf8: conversion succeeds exactly on valid
/// UTF-8 and yields its decoding.
#[verifier::external_body]
fn utf8_text(bytes: Vec<u8>) -> (r: Option<String>)
    ensures
        match r {
            Some(s) => valid_utf8(bytes@) && s@ == decode_utf8(bytes@),
            None => !valid_utf8(bytes@),
        },
{
    String::from_utf8(bytes).ok()
}

/// Copies the bytes between two positions.
fn copy_range(buf: &Vec<u8>, from: usize, to: usize) -> (r: Vec<u8>)
    requires
        from <= to <= buf@.len(),
    ensures
        r@ == buf@.subrange(from as int, to as int),
{
    let mut r: Vec<u8> = Vec::new();
    let mut i: usize = from;
    while i < to
        invariant
            from <= i <= to <= buf@.len(),
            r@ == buf@.subrange(from as int, i as int),
        decreases to - i,
    {
        r.push(buf[i]);
        proof {
            assert(buf@.subrange(from as int, i as int).push(buf@[i as int]) =~= buf@.subrange(
                from as int,
                i as int + 1,
            ));
        }
        i = i + 1;
    }
    r
}

/// Reads the twelve bytes of a wire number.
fn decode_number_raw(buf: &Vec<u8>, pos: usize) -> (r: Result<(LuaNumber, usize), LuaDecodeError>)
    requires
        pos <= buf@.len(),
    ensures
        match r {
            Ok((n, end)) => spec_decode_number(buf@, pos as int) == Ok::<_, LuaDecodeError>(
                (
                    LuaValue::Number { mantissa: n.mantissa as int, exponent: n.exponent as int },
                    end as int,
                ),
            ),
            Err(e) => spec_decode_number(buf@, pos as int) == Err::<(LuaValue, int), _>(e),
        },
{
    if buf.len() - pos > 12 {
        let m: u64 = (buf[pos] as u64) * 0x100000000000000 + (buf[pos + 1] as u64)
            * 0x1000000000000 + (buf[pos + 2] as u64) * 0x10000000000 + (buf[pos + 3] as u64)
            * 0x100000000 + (buf[pos + 4] as u64) * 0x1000000 + (buf[pos + 5] as u64) * 0x10000 + (
        buf[pos + 6] as u64) * 0x100 + (buf[pos + 7] as u64);
        let mantissa: i64 = if m >= 0x8000000000000000 {
            i64::MIN + ((m - 0x8000000000000000) as i64)
        } else {
            m as i64
        };
        let e: u32 = (buf[pos + 8] as u32) * 0x1000000 + (buf[pos + 9] as u32) * 0x10000 + (buf[pos
            + 10] as u32) * 0x100 + (buf[pos + 11] as u32);
        let exponent: i32 = if e >= 0x80000000 {
            i32::MIN + ((e - 0x80000000) as i32)
        } else {
            e as i32
        };
        Ok((LuaNumber { mantissa, exponent }, pos + 12))
    } else {
        Err(LuaDecodeError::Number)
    }
}

/// Decodes a wire number.
pub fn decode_lua_number(buf: &Vec<u8>, pos: usize) -> (r: Result<
    (LuaType, usize),
    LuaDecodeError,
>)
    requires
        pos <= buf@.len(),
    ensures
        lua_result_view(r) == spec_decode_number(buf@, pos as int),
{
    match decode_number_raw(buf, pos) {
        Ok((n, end)) => Ok((LuaType::Number(n), end)),
        Err(e) => Err(e),
    }
}

/// Decodes a boolean.
pub fn decode_lua_boolean(buf: &Vec<u8>, pos: usize) -> (r: Result<
    (LuaType, usize),
    LuaDecodeError,
>)
    requires
        pos <= buf@.len(),
    ensures
        lua_result_view(r) == spec_decode_boolean(buf@, pos as int),
{
    if pos < buf.len() {
        Ok((LuaType::Boolean(buf[pos] != 0), pos + 1))
    } else {
        Err(LuaDecodeError::Boolean)
    }
}

/// Decodes a C string: the bytes up to the next zero byte or the end of
/// the buffer.
pub fn decode_lua_string(buf: &Vec<u8>, pos: usize) -> (r: Result<
    (LuaType, usize),
    LuaDecodeError,
>)
    requires
        pos <= buf@.len(),
    ensures
        lua_result_view(r) == spec_decode_text(buf@, pos as int),
{
    let mut k: usize = pos;
    while k < buf.len() && buf[k] != 0
        invariant
            pos <= k <= buf@.len(),
            spec_scan_nul(buf@, pos as int) == spec_scan_nul(buf@, k as int),
        decreases buf@.len() - k,
    {
        k = k + 1;
    }
    let raw = copy_range(buf, pos, k);
    match utf8_text(raw) {
        Some(s) => Ok((LuaType::Text(s), if k < buf.len() { k + 1 } else { k })),
        None => Err(LuaDecodeError::Text),
    }
}

/// Decodes a two-component vector.
pub fn decode_lua_vector2(buf: &Vec<u8>, pos: usize) -> (r: Result<
    (LuaType, usize),
    LuaDecodeError,
>)
    requires
        pos <= buf@.len(),
    ensures
        lua_result_view(r) == spec_decode_vector2(buf@, pos as int),
{
    let (x, xe) = match decode_number_raw(buf, pos) {
        Ok(p) => p,
        Err(_) => return Err(LuaDecodeError::Vector2),
    };
    let (y, ye) = match decode_number_raw(buf, xe) {
        Ok(p) => p,
        Err(_) => return Err(LuaDecodeError::Vector2),
    };
    Ok((LuaType::Vector2(x, y), ye))
}

/// Decodes a three-component vector.
pub fn decode_lua_vector3(buf: &Vec<u8>, pos: usize) -> (r: Result<
    (LuaType, usize),
    LuaDecodeError,
>)
    requires
        pos <= buf@.len(),
    ensures
        lua_result_view(r) == spec_decode_vector3(buf@, pos as int),
{
    let (x, xe) = match decode_number_raw(buf, pos) {
        Ok(p) => p,
        Err(_) => return Err(LuaDecodeError::Vector3),
    };
    let (y, ye) = match decode_number_raw(buf, xe) {
        Ok(p) => p,
        Err(_) => return Err(LuaDecodeError::Vector3),
    };
    let (z, ze) = match decode_number_raw(buf, ye) {
        Ok(p) => p,
        Err(_) => return Err(LuaDecodeError::Vector3),
    };
    Ok((LuaType::Vector3(x, y, z), ze))
}

/// Decodes a quaternion.
pub fn decode_lua_quaternion(buf: &Vec<u8>, pos: usize) -> (r: Result<
    (LuaType, usize),
    LuaDecodeError,
>)
    requires
        pos <= buf@.len(),
    ensures
        lua_result_view(r) == spec_decode_quaternion(buf@, pos as int),
{
    let (w, we) = match decode_number_raw(buf, pos) {
        Ok(p) => p,
        Err(_) => return Err(LuaDecodeError::Quaternion),
    };
    let (x, xe) = match decode_number_raw(buf, we) {
        Ok(p) => p,
        Err(_) => return Err(LuaDecodeError::Quaternion),
    };
    let (y, ye) = match decode_number_raw(buf, xe) {
        Ok(p) => p,
        Err(_) => return Err(LuaDecodeError::Quaternion),
    };
    let (z, ze) = match decode_number_raw(buf, ye) {
        Ok(p) => p,
        Err(_) => return Err(LuaDecodeError::Quaternion),
    };
    Ok((LuaType::Quaternion(w, x, y, z), ze))
}

/// Decodes a user type: a tag byte, then the numbers it names.
pub fn decode_lua_usertype(buf: &Vec<u8>, pos: usize) -> (r: Result<
    (LuaType, usize),
    LuaDecodeError,
>)
    requires
        pos <= buf@.len(),
    ensures
        lua_result_view(r) == spec_decode_usertype(buf@, pos as int),
{
    if pos >= buf.len() {
        return Err(LuaDecodeError::UserType);
    }
    let tag = buf[pos];
    if tag == LUA_TUSERDATA_VECTOR2 {
        decode_lua_vector2(buf, pos + 1)
    } else if tag == LUA_TUSERDATA_VECTOR3 {
        decode_lua_vector3(buf, pos + 1)
    } else if tag == LUA_TUSERDATA_QUATERNION {
        decode_lua_quaternion(buf, pos + 1)
    } else {
        Err(LuaDecodeError::UserType)
    }
}

/// Decodes one tagged value inside a table.
fn decode_lua_item(buf: &Vec<u8>, pos: usize, tag: u8) -> (r: Result<
    (LuaType, usize),
    LuaDecodeError,
>)
    requires
        pos <= buf@.len(),
    ensures
        lua_result_view(r) == spec_decode_item(buf@, pos as int, tag),
    decreases buf@.len() - pos, 2int,
{
    if tag == LUA_TBOOLEAN {
        decode_lua_boolean(buf, pos)
    } else if tag == LUA_TNUMBER {
        decode_lua_number(buf, pos)
    } else if tag == LUA_TSTRING {
        decode_lua_string(buf, pos)
    } else if tag == LUA_TUSERDATA {
        decode_lua_usertype(buf, pos)
    } else if tag == LUA_TTABLE {
        decode_lua_table(buf, pos)
    } else {
        Err(LuaDecodeError::Key)
    }
}

/// Decodes table entries from `pos` on, appending to `acc`.
fn decode_lua_entries(buf: &Vec<u8>, pos: usize, acc: Vec<(LuaType, LuaType)>) -> (r: Result<
    (Vec<(LuaType, LuaType)>, usize),
    LuaDecodeError,
>)
    requires
        pos <= buf@.len(),
    ensures
        ({
            let s = spec_decode_entries(buf@, pos as int, lua_entries_view(acc, 0));
            match r {
                Ok((entries, end)) => s == Ok::<_, LuaDecodeError>(
                    (lua_entries_view(entries, 0), end as int),
                ),
                Err(e) => s == Err::<(Seq<(LuaValue, LuaValue)>, int), _>(e),
            }
        }),
    decreases buf@.len() - pos, 0int,
{
    if pos >= buf.len() {
        return Ok((acc, pos));
    }
    let tag = buf[pos];
    if tag == LUA_TNIL {
        return Ok((acc, pos + 1));
    }
    if !(tag == LUA_TBOOLEAN || tag == LUA_TNUMBER || tag == LUA_TSTRING || tag == LUA_TUSERDATA
        || tag == LUA_TTABLE) {
        return Err(LuaDecodeError::Key);
    }
    let (key, key_end) = match decode_lua_item(buf, pos + 1, tag) {
        Ok(p) => p,
        Err(e) => return Err(e),
    };
    if key_end <= pos || key_end >= buf.len() {
        return Err(LuaDecodeError::Value);
    }
    let vtag = buf[key_end];
    if !(vtag == LUA_TBOOLEAN || vtag == LUA_TNUMBER || vtag == LUA_TSTRING || vtag
        == LUA_TUSERDATA || vtag == LUA_TTABLE) {
        return Err(LuaDecodeError::Value);
    }
    let (value, value_end) = match decode_lua_item(buf, key_end + 1, vtag) {
        Ok(p) => p,
        Err(e) => return Err(e),
    };
    if !(pos < value_end && value_end <= buf.len()) {
        return Err(LuaDecodeError::Value);
    }
    let ghost acc_before = acc;
    let mut acc = acc;
    acc.push((key, value));
    proof {
        lemma_entries_view_push(acc_before, acc, 0);
    }
    decode_lua_entries(buf, value_end, acc)
}

/// Decodes a table: its entries up to the closing nil tag or the end of
/// the buffer.
pub fn decode_lua_table(buf: &Vec<u8>, pos: usize) -> (r: Result<(LuaType, usize), LuaDecodeError>)
    requires
        pos <= buf@.len(),
    ensures
        lua_result_view(r) == spec_decode_table(buf@, pos as int),
    decreases buf@.len() - pos, 1int,
{
    match decode_lua_entries(buf, pos, Vec::new()) {
        Ok((entries, end)) => Ok((LuaType::Table(entries), end)),
        Err(e) => Err(e),
    }
}

/// The text under a text key in a table's entries: the value of the first
/// entry whose key is the text sought, if that value is text; the word
/// "nil" when the value is of another kind, when no key matches, or when
/// the value looked in is no table.
pub open spec fn spec_entries_lookup(entries: Seq<(LuaValue, LuaValue)>, key: Seq<char>) -> Seq<
    char,
>
    decreases entries.len(),
{
    if entries.len() == 0 {
        "nil"@
    } else {
        match entries[0].0 {
            LuaValue::Text(k) => if k == key {
                match entries[0].1 {
                    LuaValue::Text(value) => value,
                    _ => "nil"@,
                }
            } else {
                spec_entries_lookup(entries.drop_first(), key)
            },
            _ => spec_entries_lookup(entries.drop_first(), key),
        }
    }
}

/// The text under a text key in a decoded value.
pub open spec fn spec_text_lookup(v: LuaValue, key: Seq<char>) -> Seq<char> {
    match v {
        LuaValue::Table(entries) => spec_entries_lookup(entries, key),
        _ => "nil"@,
    }
}

/// Looks a text value up under a text key in a decoded table, the way the
/// relay reads the sender and receiver names out of a broadcast message.
pub fn read_lua_table_with_string_key_and_string_value(table: &LuaType, key: String) -> (r: String)
    ensures
        r@ == spec_text_lookup(lua_view(*table), key@),
{
    match table {
        LuaType::Table(entries) => {
            let mut i: usize = 0;
            while i < entries.len()
                invariant
                    i <= entries@.len(),
                    spec_text_lookup(lua_view(*table), key@) == spec_entries_lookup(
                        lua_entries_view(*entries, i as int),
                        key@,
                    ),
                decreases entries@.len() - i,
            {
                proof {
                    let vi = lua_entries_view(*entries, i as int);
                    assert(vi[0] == (lua_view(entries@[i as int].0), lua_view(
                        entries@[i as int].1,
                    )));
                    assert(vi.drop_first() =~= lua_entries_view(*entries, i as int + 1));
                }
                match &entries[i].0 {
                    LuaType::Text(k) => {
                        if *k == key {
                            match &entries[i].1 {
                                LuaType::Text(value) => {
                                    return value.clone();
                                },
                                _ => {
                                    return "nil".to_owned();
                                },
                            }
                        }
                    },
                    _ => {},
                }
                i = i + 1;
            }
            "nil".to_owned()
        },
        _ => "nil".to_owned(),
    }
}

} // verus!

