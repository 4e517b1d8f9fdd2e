//! Where each field lies in an event's payload: field lengths and offsets.
//!
//! Fields are laid out back to back in declared order. Fixed-width types take their
//! width, strings run to their terminator, binary fields take their declared length,
//! and arrays hold `count` elements.
use vstd::prelude::*;
use crate::tdh_types::{Property, PropertyInfo, PropertyView, TdhInType};
use crate::schema::props_view;

verus! {

/// First position at or after `pos` that holds a zero byte.
pub open spec fn zero_byte_from(d: Seq<u8>, pos: int) -> Option<int>
    decreases d.len() - pos,
{
    if pos < 0 || pos >= d.len() {
        None
    } else if d[pos] == 0 {
        Some(pos)
    } else {
        zero_byte_from(d, pos + 1)
    }
}

/// First position at or after `pos`, in steps of two, that starts a zero 16-bit unit.
pub open spec fn zero_unit_from(d: Seq<u8>, pos: int) -> Option<int>
    decreases d.len() - pos,
{
    if pos < 0 || pos + 1 >= d.len() {
        None
    } else if d[pos] == 0 && d[pos + 1] == 0 {
        Some(pos)
    } else {
        zero_unit_from(d, pos + 2)
    }
}

/// Width in bytes of a fixed-size element, if the in-type has one.
pub open spec fn fixed_width(t: TdhInType, length: u16, ptr: usize) -> Option<int> {
    match t {
        TdhInType::InTypeNull => Some(0),
        TdhInType::InTypeInt8 | TdhInType::InTypeUInt8 => Some(1),
        TdhInType::InTypeInt16 | TdhInType::InTypeUInt16 => Some(2),
        TdhInType::InTypeInt32 | TdhInType::InTypeUInt32 | TdhInType::InTypeHexInt32
        | TdhInType::InTypeFloat | TdhInType::InTypeBoolean => Some(4),
        TdhInType::InTypeInt64 | TdhInType::InTypeUInt64 | TdhInType::InTypeHexInt64
        | TdhInType::InTypeDouble | TdhInType::InTypeFileTime => Some(8),
        TdhInType::InTypeGuid | TdhInType::InTypeSystemTime => Some(16),
        TdhInType::InTypePointer => Some(ptr as int),
        TdhInType::InTypeBinary => Some(length as int),
        _ => None,
    }
}

/// `Some(k)` when `k` bytes from `off` lie within the payload.
pub open spec fn fits(d: Seq<u8>, off: int, k: int) -> Option<int> {
    if off + k <= d.len() {
        Some(k)
    } else {
        None
    }
}

/// Length in bytes of one element of in-type `t` starting at `off`, if it can be resolved
/// within the payload.
pub open spec fn element_len(d: Seq<u8>, off: int, t: TdhInType, length: u16, ptr: usize) -> Option<int> {
    match fixed_width(t, length, ptr) {
        Some(w) => fits(d, off, w),
        None => match t {
            TdhInType::InTypeUnicodeString => match zero_unit_from(d, off) {
                Some(z) => Some(z + 2 - off),
                None => None,
            },
            TdhInType::InTypeAnsiString => match zero_byte_from(d, off) {
                Some(z) => Some(z + 1 - off),
                None => None,
            },
            TdhInType::InTypeSid => if off + 1 < d.len() {
                fits(d, off, 8 + 4 * d[off + 1])
            } else {
                None
            },
            TdhInType::InTypeCountedString => if off + 2 <= d.len() {
                fits(d, off, 2 + d[off] + 256 * d[off + 1])
            } else {
                None
            },
            _ => None,
        },
    }
}

/// Length of `count` consecutive elements starting at `off`, walking element by element.
pub open spec fn elements_len(
    d: Seq<u8>,
    off: int,
    t: TdhInType,
    length: u16,
    ptr: usize,
    count: nat,
) -> Option<int>
    decreases count,
{
    if count == 0 {
        Some(0)
    } else {
        match element_len(d, off, t, length, ptr) {
            Some(k) => match elements_len(d, off + k, t, length, ptr, (count - 1) as nat) {
                Some(rest) => Some(k + rest),
                None => None,
            },
            None => None,
        }
    }
}

/// Length in bytes of a field starting at `off`, if it can be resolved within the payload.
pub open spec fn field_len(d: Seq<u8>, off: int, info: PropertyInfo, ptr: usize) -> Option<int> {
    let dlen = d.len();
    match info {
        PropertyInfo::Value { in_type, length, .. } => element_len(d, off, in_type, length, ptr),
        PropertyInfo::Array { in_type, length, count, .. } => match fixed_width(in_type, length, ptr) {
            Some(w) => fits(d, off, count * w),
            None => elements_len(d, off, in_type, length, ptr, count as nat),
        },
    }
}

/// Offset of field `i`: the fields before it, laid end to end.
pub open spec fn field_offset(d: Seq<u8>, props: Seq<PropertyView>, i: int, ptr: usize) -> Option<int>
    decreases i,
{
    if i <= 0 {
        Some(0)
    } else {
        match field_offset(d, props, i - 1, ptr) {
            Some(o) => match field_len(d, o, props[i - 1].info, ptr) {
                Some(k) => Some(o + k),
                None => None,
            },
            None => None,
        }
    }
}

pub open spec fn opt_usize_is(r: Option<usize>, s: Option<int>) -> bool {
    match r {
        Some(k) => s == Some(k as int),
        None => s is None,
    }
}

fn find_zero_byte(d: &[u8], pos: usize) -> (r: Option<usize>)
    requires
        pos <= d@.len(),
    ensures
        opt_usize_is(r, zero_byte_from(d@, pos as int)),
        match r {
            Some(z) => pos <= z < d@.len(),
            None => true,
        },
{
    let mut p: usize = pos;
    while p < d.len()
        invariant
            pos <= p <= d@.len(),
            zero_byte_from(d@, pos as int) == zero_byte_from(d@, p as int),
        decreases d@.len() - p,
    {
        if d[p] == 0 {
            return Some(p);
        }
        p = p + 1;
    }
    None
}

fn find_zero_unit(d: &[u8], pos: usize) -> (r: Option<usize>)
    requires
        pos <= d@.len(),
    ensures
        opt_usize_is(r, zero_unit_from(d@, pos as int)),
        match r {
            Some(z) => pos <= z && z + 1 < d@.len(),
            None => true,
        },
{
    let mut p: usize = pos;
    while p < d.len() && d.len() - p >= 2
        invariant
            pos <= p,
            zero_unit_from(d@, pos as int) == zero_unit_from(d@, p as int),
        decreases d@.len() - p,
    {
        if d[p] == 0 && d[p + 1] == 0 {
            return Some(p);
        }
        p = p + 2;
    }
    None
}

/// Exec form of `fixed_width`.
pub fn fixed_width_of(t: TdhInType, length: u16, ptr: usize) -> (r: Option<usize>)
    ensures
        opt_usize_is(r, fixed_width(t, length, ptr)),
{
    match t {
        TdhInType::InTypeNull => Some(0),
        TdhInType::InTypeInt8 | TdhInType::InTypeUInt8 => Some(1),
        TdhInType::InTypeInt16 | TdhInType::InTypeUInt16 => Some(2),
        TdhInType::InTypeInt32 | TdhInType::InTypeUInt32 | TdhInType::InTypeHexInt32
        | TdhInType::InTypeFloat | TdhInType::InTypeBoolean => Some(4),
        TdhInType::InTypeInt64 | TdhInType::InTypeUInt64 | TdhInType::InTypeHexInt64
        | TdhInType::InTypeDouble | TdhInType::InTypeFileTime => Some(8),
        TdhInType::InTypeGuid | TdhInType::InTypeSystemTime => Some(16),
        TdhInType::InTypePointer => Some(ptr),
        TdhInType::InTypeBinary => Some(length as usize),
        _ => None,
    }
}

fn fits_exec(d: &[u8], off: usize, k: usize) -> (r: Option<usize>)
    requires
        off <= d@.len(),
    ensures
        opt_usize_is(r, fits(d@, off as int, k as int)),
        match r {
            Some(n) => off + n <= d@.len(),
            None => true,
        },
{
    if k <= d.len() - off {
        Some(k)
    } else {
        None
    }
}

/// Length of one element starting at `off`.
pub fn element_len_of(d: &[u8], off: usize, t: TdhInType, length: u16, ptr: usize) -> (r: Option<usize>)
    requires
        off <= d@.len(),
    ensures
        opt_usize_is(r, element_len(d@, off as int, t, length, ptr)),
        match r {
            Some(k) => off + k <= d@.len(),
            None => true,
        },
{
    let dlen = d.len();
    match fixed_width_of(t, length, ptr) {
        Some(w) => fits_exec(d, off, w),
        None => match t {
            TdhInType::InTypeUnicodeString => match find_zero_unit(d, off) {
                Some(z) => Some(z - off + 2),
                None => None,
            },
            TdhInType::InTypeAnsiString => match find_zero_byte(d, off) {
                Some(z) => Some(z - off + 1),
                None => None,
            },
            TdhInType::InTypeSid => if d.len() - off > 1 {
                fits_exec(d, off, 8 + 4 * (d[off + 1] as usize))
            } else {
                None
            },
            TdhInType::InTypeCountedString => if d.len() - off >= 2 {
                fits_exec(d, off, 2 + (d[off] as usize) + 256 * (d[off + 1] as usize))
            } else {
                None
            },
            _ => None,
        },
    }
}

/// Length of a field starting at `off`.
pub fn field_len_of(d: &[u8], off: usize, info: PropertyInfo, ptr: usize) -> (r: Option<usize>)
    requires
        off <= d@.len(),
        ptr <= 8,
    ensures
        opt_usize_is(r, field_len(d@, off as int, info, ptr)),
        match r {
            Some(k) => off + k <= d@.len(),
            None => true,
        },
{
    let dlen = d.len();
    match info {
        PropertyInfo::Value { in_type, length, .. } => element_len_of(d, off, in_type, length, ptr),
        PropertyInfo::Array { in_type, length, count, .. } => match fixed_width_of(in_type, length, ptr) {
            Some(w) => {
                assert(w <= 65535);
                assert((count as int) * (w as int) <= 65535 * 65535) by (nonlinear_arith)
                    requires count <= 65535, w <= 65535;
                fits_exec(d, off, (count as usize) * w)
            },
            None => {
                let mut c: u16 = count;
                let mut cur: usize = off;
                while c > 0
                    invariant
                        off <= cur <= d@.len(),
                        dlen == d@.len(),
                        ptr <= 8,
                        info == (PropertyInfo::Array { in_type, out_type: info->Array_out_type, length, count }),
                        fixed_width(in_type, length, ptr) is None,
                        elements_len(d@, off as int, in_type, length, ptr, count as nat) == match elements_len(d@, cur as int, in_type, length, ptr, c as nat) {
                            Some(rest) => Some(cur - off + rest),
                            None => None::<int>,
                        },
                    decreases c,
                {
                    match element_len_of(d, cur, in_type, length, ptr) {
                        Some(k) => {
                            cur = cur + k;
                            c = c - 1;
                        },
                        None => {
                            assert(elements_len(d@, cur as int, in_type, length, ptr, c as nat) is None);
                            assert(elements_len(d@, off as int, in_type, length, ptr, count as nat) is None);
                            return None;
                        },
                    }
                }
                Some(cur - off)
            },
        },
    }
}

/// Offset of field `i` of `props` in the payload.
pub fn field_offset_of(d: &[u8], props: &Vec<Property>, i: usize, ptr: usize) -> (r: Option<usize>)
    requires
        i <= props@.len(),
        ptr <= 8,
    ensures
        opt_usize_is(r, field_offset(d@, props_view(props@), i as int, ptr)),
        match r {
            Some(o) => o <= d@.len(),
            None => true,
        },
{
    let dlen = d.len();
    let mut j: usize = 0;
    let mut off: usize = 0;
    while j < i
        invariant
            j <= i <= props@.len(),
            dlen == d@.len(),
            ptr <= 8,
            off <= d@.len(),
            field_offset(d@, props_view(props@), j as int, ptr) == Some(off as int),
        decreases i - j,
    {
        assert(props_view(props@)[j as int] == props@[j as int]@);
        match field_len_of(d, off, props[j].info, ptr) {
            Some(k) => {
                off = off + k;
            },
            None => {
                proof { lemma_offset_none_stays(d@, props_view(props@), j as int + 1, i as int, ptr); }
                return None;
            },
        }
        j = j + 1;
    }
    Some(off)
}

/// Once a field cannot be placed, no later field can.
proof fn lemma_offset_none_stays(d: Seq<u8>, props: Seq<PropertyView>, j: int, i: int, ptr: usize)
    requires
        0 < j <= i,
        field_offset(d, props, j, ptr) is None,
    ensures
        field_offset(d, props, i, ptr) is None,
    decreases i - j,
{
    if j < i {
        lemma_offset_none_stays(d, props, j + 1, i, ptr);
    }
}

proof fn lemma_zero_byte_bounds(d: Seq<u8>, pos: int)
    requires
        zero_byte_from(d, pos) is Some,
    ensures
        pos <= zero_byte_from(d, pos)->Some_0 < d.len(),
    decreases d.len() - pos,
{
    if pos >= 0 && pos < d.len() && d[pos] != 0 {
        lemma_zero_byte_bounds(d, pos + 1);
    }
}

proof fn lemma_zero_unit_bounds(d: Seq<u8>, pos: int)
    requires
        zero_unit_from(d, pos) is Some,
    ensures
        pos <= zero_unit_from(d, pos)->Some_0,
        zero_unit_from(d, pos)->Some_0 + 1 < d.len(),
    decreases d.len() - pos,
{
    if pos >= 0 && pos + 1 < d.len() && !(d[pos] == 0 && d[pos + 1] == 0) {
        lemma_zero_unit_bounds(d, pos + 2);
    }
}

/// A resolved element lies within the payload.
pub proof fn lemma_element_len_bounds(d: Seq<u8>, off: int, t: TdhInType, length: u16, ptr: usize)
    requires
        0 <= off,
        element_len(d, off, t, length, ptr) is Some,
    ensures
        0 <= element_len(d, off, t, length, ptr)->Some_0,
        off + element_len(d, off, t, length, ptr)->Some_0 <= d.len(),
{
    if fixed_width(t, length, ptr) is None {
        if t == TdhInType::InTypeUnicodeString {
            lemma_zero_unit_bounds(d, off);
        } else if t == TdhInType::InTypeAnsiString {
            lemma_zero_byte_bounds(d, off);
        }
    }
}

proof fn lemma_elements_len_bounds(d: Seq<u8>, off: int, t: TdhInType, length: u16, ptr: usize, count: nat)
    requires
        0 <= off,
        elements_len(d, off, t, length, ptr, count) is Some,
    ensures
        0 <= elements_len(d, off, t, length, ptr, count)->Some_0,
        off + elements_len(d, off, t, length, ptr, count)->Some_0 <= d.len() || count == 0,
        count == 0 ==> elements_len(d, off, t, length, ptr, count)->Some_0 == 0,
    decreases count,
{
    if count > 0 {
        lemma_element_len_bounds(d, off, t, length, ptr);
        let k = element_len(d, off, t, length, ptr)->Some_0;
        lemma_elements_len_bounds(d, off + k, t, length, ptr, (count - 1) as nat);
    }
}

/// A resolved field starting within the payload lies within it.
pub proof fn lemma_field_len_bounds(d: Seq<u8>, off: int, info: PropertyInfo, ptr: usize)
    requires
        0 <= off <= d.len(),
        field_len(d, off, info, ptr) is Some,
    ensures
        0 <= field_len(d, off, info, ptr)->Some_0,
        off + field_len(d, off, info, ptr)->Some_0 <= d.len(),
{
    match info {
        PropertyInfo::Value { in_type, length, .. } => {
            lemma_element_len_bounds(d, off, in_type, length, ptr);
        },
        PropertyInfo::Array { in_type, length, count, .. } => {
            if fixed_width(in_type, length, ptr) is Some {
                let w = fixed_width(in_type, length, ptr)->Some_0;
                assert(w >= 0);
                assert(count * w >= 0) by (nonlinear_arith)
                    requires count >= 0, w >= 0;
            } else {
                lemma_elements_len_bounds(d, off, in_type, length, ptr, count as nat);
            }
        },
    }
}

/// A placed field starts within the payload.
pub proof fn lemma_field_offset_bounds(d: Seq<u8>, props: Seq<PropertyView>, i: int, ptr: usize)
    requires
        i <= props.len(),
        field_offset(d, props, i, ptr) is Some,
    ensures
        0 <= field_offset(d, props, i, ptr)->Some_0 <= d.len(),
    decreases i,
{
    if i > 0 {
        lemma_field_offset_bounds(d, props, i - 1, ptr);
        let o = field_offset(d, props, i - 1, ptr)->Some_0;
        lemma_field_len_bounds(d, o, props[i - 1].info, ptr);
    }
}

} // verus!
