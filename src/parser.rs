//! The field accessor: extracts one named field of an event in a requested representation.
use vstd::prelude::*;
use vstd::slice::slice_subrange;
use crate::event::{pointer_size_of, EventRecord};
use crate::handler::{handler_of, PropHandler};
use crate::layout::{lemma_field_len_bounds, lemma_field_offset_bounds, field_len, field_len_of, field_offset, field_offset_of};
use crate::schema::{lenient, props_view, properties_request, Schema};
use crate::tdh_types::{Property, PropertyView, TdhInType};
use crate::values::{u32_at, u64_at, decode_field, handler_repr, repr_of_handler, size_ok, value_decodes, FieldValue, Repr};

verus! {

/// Why a field could not be extracted.
#[derive(Clone, Copy, Debug, PartialEq, Eq, Structural)]
pub enum ParserError {
    /// No field of that name in the schema's field list.
    FieldNotFound,
    /// The field exists, but decodes to another representation than the one requested.
    TypeMismatch,
    /// The field's wire types have no decoding strategy.
    UnimplementedType,
    /// The field does not lie within the payload, or its length cannot be resolved.
    MalformedBuffer,
}

/// Index of the first field named `name`, looking from index `i` on.
pub open spec fn find_from(props: Seq<PropertyView>, name: Seq<char>, i: int) -> Option<int>
    decreases props.len() - i,
{
    if i < 0 || i >= props.len() {
        None
    } else if props[i].name == name {
        Some(i)
    } else {
        find_from(props, name, i + 1)
    }
}

/// Index of the first field named `name`, in declared order.
pub open spec fn find_field(props: Seq<PropertyView>, name: Seq<char>) -> Option<int> {
    find_from(props, name, 0)
}

/// The error that extracting field `name` as `want` from payload `d` meets, if any; the
/// fields are `props` and the recording process's pointers are `ptr` bytes wide.
pub open spec fn extract_err(
    d: Seq<u8>,
    props: Seq<PropertyView>,
    ptr: usize,
    name: Seq<char>,
    want: Repr,
) -> Option<ParserError> {
    match find_field(props, name) {
        None => Some(ParserError::FieldNotFound),
        Some(i) => match handler_of(props[i].info) {
            None => Some(ParserError::UnimplementedType),
            Some(h) => if handler_repr(h, ptr) != want {
                Some(ParserError::TypeMismatch)
            } else {
                match field_offset(d, props, i, ptr) {
                    None => Some(ParserError::MalformedBuffer),
                    Some(o) => match field_len(d, o, props[i].info, ptr) {
                        None => Some(ParserError::MalformedBuffer),
                        Some(k) => if size_ok(h, props[i].info, ptr, d.subrange(o, o + k)) {
                            None
                        } else {
                            Some(ParserError::MalformedBuffer)
                        },
                    },
                }
            },
        },
    }
}

/// Bytes of field `i`, when it can be placed in the payload.
pub open spec fn field_bytes(d: Seq<u8>, props: Seq<PropertyView>, ptr: usize, i: int) -> Seq<u8> {
    let o = field_offset(d, props, i, ptr)->Some_0;
    let k = field_len(d, o, props[i].info, ptr)->Some_0;
    d.subrange(o, o + k)
}

/// What extracting field `name` as `want` gives: the error `extract_err` names, else a value
/// in representation `want` that the field's bytes decode to.
pub open spec fn parse_outcome(
    d: Seq<u8>,
    props: Seq<PropertyView>,
    ptr: usize,
    name: Seq<char>,
    want: Repr,
    r: Result<FieldValue, ParserError>,
) -> bool {
    match extract_err(d, props, ptr, name, want) {
        Some(e) => r == Err::<FieldValue, ParserError>(e),
        None => {
            let i = find_field(props, name)->Some_0;
            &&& r is Ok
            &&& r->Ok_0.spec_repr() == want
            &&& value_decodes(r->Ok_0, props[i].info, field_bytes(d, props, ptr, i))
        },
    }
}

/// Index of the first field of `props` named `key`.
fn find_index(props: &Vec<Property>, key: &String) -> (r: Option<usize>)
    ensures
        match r {
            Some(i) => find_field(props_view(props@), key@) == Some(i as int) && i < props@.len(),
            None => find_field(props_view(props@), key@) is None,
        },
{
    let ghost pv = props_view(props@);
    let n = props.len();
    let mut i: usize = 0;
    while i < n
        invariant
            i <= n,
            n == props@.len(),
            pv == props_view(props@),
            find_field(pv, key@) == find_from(pv, key@, i as int),
        decreases n - i,
    {
        assert(pv[i as int] == props@[i as int]@);
        if props[i].name == *key {
            return Some(i);
        }
        i = i + 1;
    }
    None
}

/// Extracts typed fields from one event, given its schema's field list.
pub struct Parser<'a> {
    pub record: &'a EventRecord,
    pub properties: Vec<Property>,
}

impl<'a> Parser<'a> {
    /// Binds a record to the field list of its schema (an empty list if that cannot be parsed).
    pub fn create(record: &'a EventRecord, schema: &mut Schema) -> (r: Parser<'a>)
        ensures
            r.record == record,
            props_view(r.properties@) == lenient(old(schema).spec_properties()),
            properties_request(*old(schema), *final(schema), old(schema).spec_properties()),
    {
        let properties = schema.properties();
        Parser { record, properties }
    }

    /// Pointer width, in bytes, that this record's pointer fields have.
    pub open spec fn spec_ptr(&self) -> usize {
        pointer_size_of(self.record.header.flags)
    }

    /// Extracts field `name` as representation `want`.
    pub fn try_parse(&self, name: &str, want: Repr) -> (r: Result<FieldValue, ParserError>)
        ensures
            parse_outcome(self.record.user_data@, props_view(self.properties@), self.spec_ptr(), name@, want, r),
    {
        let ghost props = props_view(self.properties@);
        let key = name.to_owned();
        let i = match find_index(&self.properties, &key) {
            Some(i) => i,
            None => return Err(ParserError::FieldNotFound),
        };
        assert(props[i as int] == self.properties@[i as int]@);
        let info = self.properties[i].info;
        let h = match info.get_parser() {
            Some(h) => h,
            None => return Err(ParserError::UnimplementedType),
        };
        let ptr = self.record.pointer_size();
        if repr_of_handler(h, ptr) != want {
            return Err(ParserError::TypeMismatch);
        }
        let d = self.record.user_data.as_slice();
        let dl = d.len();
        let off = match field_offset_of(d, &self.properties, i, ptr) {
            Some(o) => o,
            None => return Err(ParserError::MalformedBuffer),
        };
        let k = match field_len_of(d, off, info, ptr) {
            Some(k) => k,
            None => return Err(ParserError::MalformedBuffer),
        };
        let b = slice_subrange(d, off, off + k);
        match decode_field(h, info, ptr, b) {
            Ok(v) => Ok(v),
            Err(_) => Err(ParserError::MalformedBuffer),
        }
    }
}

/// A name that no field carries is looked up in vain.
proof fn lemma_find_absent(props: Seq<PropertyView>, name: Seq<char>, i: int)
    requires
        0 <= i,
        forall|j: int| 0 <= j < props.len() ==> #[trigger] props[j].name != name,
    ensures
        find_from(props, name, i) is None,
    decreases props.len() - i,
{
    if i < props.len() {
        lemma_find_absent(props, name, i + 1);
    }
}

/// The lookup finds the first field that carries the name.
proof fn lemma_find_first(props: Seq<PropertyView>, name: Seq<char>, i: int, j: int)
    requires
        0 <= j <= i < props.len(),
        props[i].name == name,
        forall|k: int| 0 <= k < i ==> #[trigger] props[k].name != name,
    ensures
        find_from(props, name, j) == Some(i),
    decreases i - j,
{
    if j < i {
        lemma_find_first(props, name, i, j + 1);
    }
}

/// Asking for a name that no field of the list carries fails with `FieldNotFound`,
/// whatever the payload, the pointer width and the representation asked for.
pub proof fn lemma_absent_field_not_found(
    d: Seq<u8>,
    props: Seq<PropertyView>,
    ptr: usize,
    name: Seq<char>,
    want: Repr,
    r: Result<FieldValue, ParserError>,
)
    requires
        forall|j: int| 0 <= j < props.len() ==> #[trigger] props[j].name != name,
        parse_outcome(d, props, ptr, name, want, r),
    ensures
        r == Err::<FieldValue, ParserError>(ParserError::FieldNotFound),
{
    lemma_find_absent(props, name, 0);
}

/// Asking for an existing field in another representation than its strategy produces
/// fails with `TypeMismatch`: there is no widening or narrowing.
pub proof fn lemma_wrong_representation_mismatch(
    d: Seq<u8>,
    props: Seq<PropertyView>,
    ptr: usize,
    i: int,
    want: Repr,
    r: Result<FieldValue, ParserError>,
)
    requires
        0 <= i < props.len(),
        forall|k: int| 0 <= k < i ==> #[trigger] props[k].name != props[i].name,
        handler_of(props[i].info) is Some,
        handler_repr(handler_of(props[i].info)->Some_0, ptr) != want,
        parse_outcome(d, props, ptr, props[i].name, want, r),
    ensures
        r == Err::<FieldValue, ParserError>(ParserError::TypeMismatch),
{
    lemma_find_first(props, props[i].name, i, 0);
}

/// A pointer field decodes with the width recorded on the event: as a 32-bit value when
/// the record's flags say 4-byte pointers, as a 64-bit value otherwise, whatever the
/// decoding machine's own width.
pub proof fn lemma_pointer_width_from_record(
    d: Seq<u8>,
    props: Seq<PropertyView>,
    flags: u16,
    i: int,
    r: Result<FieldValue, ParserError>,
)
    requires
        0 <= i < props.len(),
        forall|k: int| 0 <= k < i ==> #[trigger] props[k].name != props[i].name,
        handler_of(props[i].info) == Some(PropHandler::Pointer),
        field_offset(d, props, i, pointer_size_of(flags)) is Some,
        field_len(
            d,
            field_offset(d, props, i, pointer_size_of(flags))->Some_0,
            props[i].info,
            pointer_size_of(flags),
        ) is Some,
        parse_outcome(
            d,
            props,
            pointer_size_of(flags),
            props[i].name,
            if pointer_size_of(flags) == 4 { Repr::U32 } else { Repr::U64 },
            r,
        ),
    ensures
        r is Ok,
        pointer_size_of(flags) == 4 ==> r->Ok_0 == FieldValue::U32(u32_at(field_bytes(d, props, 4, i), 0)),
        pointer_size_of(flags) == 8 ==> r->Ok_0 == FieldValue::U64(u64_at(field_bytes(d, props, 8, i), 0)),
{
    lemma_find_first(props, props[i].name, i, 0);
    let ptr = pointer_size_of(flags);
    let info = props[i].info;
    let o = field_offset(d, props, i, ptr)->Some_0;
    let k = field_len(d, o, info, ptr)->Some_0;
    assert(info is Value && info->Value_in_type == TdhInType::InTypePointer);
    lemma_field_offset_bounds(d, props, i, ptr);
    lemma_field_len_bounds(d, o, info, ptr);
    assert(k == ptr);
    assert(size_ok(PropHandler::Pointer, info, ptr, d.subrange(o, o + k)));
    assert(extract_err(d, props, ptr, props[i].name, if ptr == 4 { Repr::U32 } else { Repr::U64 }) is None);
}

} // verus!
