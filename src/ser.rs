//! What a structured rendering of an event holds: schema names, header, and the decoded
//! fields in declared order, shaped by a few options.
use vstd::prelude::*;
use crate::event::{pointer_size_of, EventHeader, EventRecord};
use crate::handler::handler_of;
use crate::parser::{extract_err, parse_outcome, Parser, ParserError};
use crate::schema::{props_view, properties_request, Schema};
use crate::tdh_types::{PropertyError, PropertyInfo, PropertyView};
use crate::values::{handler_repr, repr_of_handler, FieldValue, Repr};

verus! {

/// Serialization options for `EventSerializer`.
#[derive(Clone, Copy, Debug, PartialEq, Eq, Structural)]
pub struct EventSerializerOptions {
    /// Include the provider, opcode and task names of the schema.
    pub include_schema: bool,
    /// Include the record's header.
    pub include_header: bool,
    /// Include the record's extended data items (not supported).
    pub include_extended_data: bool,
    /// Fail on a field without decoding strategy, rather than leave it out.
    pub fail_unimplemented: bool,
}

impl Default for EventSerializerOptions {
    fn default() -> (r: Self)
        ensures
            r.include_schema && r.include_header && !r.include_extended_data && !r.fail_unimplemented,
    {
        EventSerializerOptions {
            include_schema: true,
            include_header: true,
            include_extended_data: false,
            fail_unimplemented: false,
        }
    }
}

/// Why an event could not be rendered.
#[derive(Clone, Debug)]
pub enum SerError {
    /// The schema's field list could not be parsed.
    Schema(PropertyError),
    /// A field has no decoding strategy; it is named with its wire types.
    NotImplemented { name: String, info: PropertyInfo },
    /// A field with a strategy could not be extracted.
    Field { name: String, error: ParserError },
    /// Extended data items were asked for, and unsupported output is an error.
    ExtendedData,
}

/// What `str::trim` makes of a string.
pub uninterp spec fn trimmed(s: Seq<char>) -> Seq<char>;

/// Relies on `str::trim`: strips leading and trailing white space; the result depends on
/// the characters alone.
#[verifier::external_body]
fn trim(s: &String) -> (r: String)
    ensures
        r@ == trimmed(s@),
        s@.len() == 0 ==> r@.len() == 0,
{
    s.trim().to_string()
}

/// Representation that the strategy of field `i` produces.
pub open spec fn field_repr(ps: Seq<PropertyView>, i: int, ptr: usize) -> Repr {
    handler_repr(handler_of(ps[i].info)->Some_0, ptr)
}

/// Indices, below `i` and in order, of the fields that have a decoding strategy.
pub open spec fn resolvable_below(ps: Seq<PropertyView>, i: int) -> Seq<int>
    decreases i,
{
    if i <= 0 {
        Seq::empty()
    } else if handler_of(ps[i - 1].info) is Some {
        resolvable_below(ps, i - 1).push(i - 1)
    } else {
        resolvable_below(ps, i - 1)
    }
}

/// Indices, in order, of the fields that have a decoding strategy.
pub open spec fn resolvable(ps: Seq<PropertyView>) -> Seq<int> {
    resolvable_below(ps, ps.len() as int)
}

/// First field at or after `i` without a decoding strategy.
pub open spec fn first_unresolvable_from(ps: Seq<PropertyView>, i: int) -> Option<int>
    decreases ps.len() - i,
{
    if i < 0 || i >= ps.len() {
        None
    } else if handler_of(ps[i].info) is None {
        Some(i)
    } else {
        first_unresolvable_from(ps, i + 1)
    }
}

/// First field at or after `i` that has a strategy but cannot be extracted with it.
pub open spec fn first_failing_from(d: Seq<u8>, ps: Seq<PropertyView>, ptr: usize, i: int) -> Option<int>
    decreases ps.len() - i,
{
    if i < 0 || i >= ps.len() {
        None
    } else if handler_of(ps[i].info) is Some && extract_err(d, ps, ptr, ps[i].name, field_repr(ps, i, ptr)) is Some {
        Some(i)
    } else {
        first_failing_from(d, ps, ptr, i + 1)
    }
}

/// Entry `e` is field `i` of `ps`, extracted with its own strategy.
pub open spec fn entry_is(
    e: (String, FieldValue),
    d: Seq<u8>,
    ps: Seq<PropertyView>,
    ptr: usize,
    i: int,
) -> bool {
    &&& e.0@ == ps[i].name
    &&& parse_outcome(d, ps, ptr, ps[i].name, field_repr(ps, i, ptr), Ok(e.1))
}

/// What rendering the fields of payload `d` gives, the field-list request having given `pr`.
pub open spec fn fields_outcome(
    d: Seq<u8>,
    pr: Result<Seq<PropertyView>, PropertyError>,
    ptr: usize,
    fail_unimplemented: bool,
    r: Result<Vec<(String, FieldValue)>, SerError>,
) -> bool {
    match pr {
        Err(e) => if fail_unimplemented {
            r is Err && r->Err_0 == SerError::Schema(e)
        } else {
            r is Ok && r->Ok_0@.len() == 0
        },
        Ok(ps) => if fail_unimplemented && first_unresolvable_from(ps, 0) is Some {
            let j = first_unresolvable_from(ps, 0)->Some_0;
            &&& r is Err
            &&& r->Err_0 is NotImplemented
            &&& r->Err_0->NotImplemented_name@ == ps[j].name
            &&& r->Err_0->NotImplemented_info == ps[j].info
        } else {
            match first_failing_from(d, ps, ptr, 0) {
                Some(j) => {
                    &&& r is Err
                    &&& r->Err_0 is Field
                    &&& r->Err_0->Field_name@ == ps[j].name
                    &&& r->Err_0->Field_error == extract_err(d, ps, ptr, ps[j].name, field_repr(ps, j, ptr))->Some_0
                },
                None => {
                    let idx = resolvable(ps);
                    &&& r is Ok
                    &&& r->Ok_0@.len() == idx.len()
                    &&& forall|k: int| 0 <= k < idx.len() ==> #[trigger] entry_is(r->Ok_0@[k], d, ps, ptr, idx[k])
                },
            }
        },
    }
}

/// Decodes every field of `record` that has a strategy, in declared order. A field without
/// strategy is left out, or fails the whole rendering when `fail_unimplemented` is set.
pub fn event_fields(record: &EventRecord, schema: &mut Schema, fail_unimplemented: bool) -> (r: Result<
    Vec<(String, FieldValue)>,
    SerError,
>)
    ensures
        properties_request(*old(schema), *final(schema), old(schema).spec_properties()),
        fields_outcome(
            record.user_data@,
            old(schema).spec_properties(),
            pointer_size_of(record.header.flags),
            fail_unimplemented,
            r,
        ),
{
    let props = match schema.try_properties() {
        Ok(p) => p,
        Err(e) => {
            if fail_unimplemented {
                return Err(SerError::Schema(e));
            } else {
                return Ok(Vec::new());
            }
        },
    };
    let ghost ps = props_view(props@);
    let ghost pr = old(schema).spec_properties();
    assert(pr == Ok::<Seq<PropertyView>, PropertyError>(ps));
    let n = props.len();
    if fail_unimplemented {
        let mut i: usize = 0;
        while i < n
            invariant
                i <= n,
                n == props@.len(),
                ps == props_view(props@),
                pr == old(schema).spec_properties(),
                pr == Ok::<Seq<PropertyView>, PropertyError>(ps),
                properties_request(*old(schema), *schema, pr),
                fail_unimplemented,
                first_unresolvable_from(ps, 0) == first_unresolvable_from(ps, i as int),
            decreases n - i,
        {
            assert(ps[i as int] == props@[i as int]@);
            if props[i].get_parser().is_none() {
                return Err(SerError::NotImplemented { name: props[i].name.clone(), info: props[i].info });
            }
            i = i + 1;
        }
    }
    let ptr = record.pointer_size();
    let parser = Parser { record, properties: props };
    let mut out: Vec<(String, FieldValue)> = Vec::new();
    let mut i: usize = 0;
    while i < n
        invariant
            i <= n,
            n == parser.properties@.len(),
            ps == props_view(parser.properties@),
            parser.record == record,
            pr == old(schema).spec_properties(),
            pr == Ok::<Seq<PropertyView>, PropertyError>(ps),
            properties_request(*old(schema), *schema, pr),
            !(fail_unimplemented && first_unresolvable_from(ps, 0) is Some),
            ptr == pointer_size_of(record.header.flags),
            first_failing_from(record.user_data@, ps, ptr, 0) == first_failing_from(record.user_data@, ps, ptr, i as int),
            out@.len() == resolvable_below(ps, i as int).len(),
            forall|k: int| 0 <= k < out@.len() ==> #[trigger] entry_is(out@[k], record.user_data@, ps, ptr, resolvable_below(ps, i as int)[k]),
        decreases n - i,
    {
        assert(ps[i as int] == parser.properties@[i as int]@);
        let ghost before = resolvable_below(ps, i as int);
        match parser.properties[i].get_parser() {
            Some(h) => {
                let want = repr_of_handler(h, ptr);
                match parser.try_parse(parser.properties[i].name.as_str(), want) {
                    Ok(v) => {
                        out.push((parser.properties[i].name.clone(), v));
                        assert(resolvable_below(ps, i as int + 1) == before.push(i as int));
                    },
                    Err(e) => {
                        return Err(SerError::Field { name: parser.properties[i].name.clone(), error: e });
                    },
                }
            },
            None => {
                assert(resolvable_below(ps, i as int + 1) == before);
            },
        }
        i = i + 1;
    }
    Ok(out)
}

/// Provider, opcode and task names of a schema, trimmed of surrounding white space.
#[derive(Clone, Debug)]
pub struct SchemaNames {
    pub provider: String,
    pub opcode: String,
    pub task: String,
}

/// The content of one event's structured rendering: the schema names and the header if
/// the options ask for them, and the decoded fields or the reason they cannot be rendered.
pub struct EventSerializer {
    pub schema: Option<SchemaNames>,
    pub header: Option<EventHeader>,
    pub event: Result<Vec<(String, FieldValue)>, SerError>,
}

impl EventSerializer {
    /// Decodes `record` with `schema` for rendering under `options`.
    pub fn new(record: &EventRecord, schema: &mut Schema, options: EventSerializerOptions) -> (r: Self)
        ensures
            match r.schema {
                Some(names) => {
                    &&& options.include_schema
                    &&& names.provider@ == trimmed(old(schema).te_info.provider_name@)
                    &&& names.opcode@ == trimmed(old(schema).te_info.opcode_name@)
                    &&& names.task@ == trimmed(old(schema).te_info.task_name@)
                },
                None => !options.include_schema,
            },
            r.header == (if options.include_header { Some(record.header) } else { None }),
            if options.include_extended_data && options.fail_unimplemented {
                &&& r.event is Err
                &&& r.event->Err_0 is ExtendedData
                &&& *final(schema) == *old(schema)
            } else {
                &&& properties_request(*old(schema), *final(schema), old(schema).spec_properties())
                &&& fields_outcome(
                    record.user_data@,
                    old(schema).spec_properties(),
                    pointer_size_of(record.header.flags),
                    options.fail_unimplemented,
                    r.event,
                )
            },
    {
        let names = if options.include_schema {
            Some(SchemaNames {
                provider: trim(&schema.te_info.provider_name),
                opcode: trim(&schema.te_info.opcode_name),
                task: trim(&schema.te_info.task_name),
            })
        } else {
            None
        };
        let header = if options.include_header { Some(record.header) } else { None };
        let event = if options.include_extended_data && options.fail_unimplemented {
            Err(SerError::ExtendedData)
        } else {
            event_fields(record, schema, options.fail_unimplemented)
        };
        EventSerializer { schema: names, header, event }
    }
}

proof fn lemma_first_unresolvable(ps: Seq<PropertyView>, j: int, i: int)
    requires
        0 <= i <= j < ps.len(),
        handler_of(ps[j].info) is None,
        forall|k: int| 0 <= k < j ==> #[trigger] handler_of(ps[k].info) is Some,
    ensures
        first_unresolvable_from(ps, i) == Some(j),
    decreases j - i,
{
    if i < j {
        lemma_first_unresolvable(ps, j, i + 1);
    }
}

proof fn lemma_no_failing(d: Seq<u8>, ps: Seq<PropertyView>, ptr: usize, i: int)
    requires
        0 <= i,
        forall|k: int|
            0 <= k < ps.len() && #[trigger] handler_of(ps[k].info) is Some ==> extract_err(
                d,
                ps,
                ptr,
                ps[k].name,
                field_repr(ps, k, ptr),
            ) is None,
    ensures
        first_failing_from(d, ps, ptr, i) is None,
    decreases ps.len() - i,
{
    if i < ps.len() {
        lemma_no_failing(d, ps, ptr, i + 1);
    }
}

/// When fields without strategy are left out and every field with one can be extracted,
/// the rendering succeeds and holds exactly one entry per field with a strategy, in order,
/// each named after its field.
pub proof fn lemma_unimplemented_left_out(
    d: Seq<u8>,
    ps: Seq<PropertyView>,
    ptr: usize,
    r: Result<Vec<(String, FieldValue)>, SerError>,
)
    requires
        forall|k: int|
            0 <= k < ps.len() && #[trigger] handler_of(ps[k].info) is Some ==> extract_err(
                d,
                ps,
                ptr,
                ps[k].name,
                field_repr(ps, k, ptr),
            ) is None,
        fields_outcome(d, Ok(ps), ptr, false, r),
    ensures
        r is Ok,
        r->Ok_0@.len() == resolvable(ps).len(),
        forall|k: int| 0 <= k < resolvable(ps).len() ==> (#[trigger] r->Ok_0@[k]).0@ == ps[resolvable(ps)[k]].name,
{
    lemma_no_failing(d, ps, ptr, 0);
    assert forall|k: int| 0 <= k < resolvable(ps).len() implies (#[trigger] r->Ok_0@[k]).0@ == ps[resolvable(ps)[k]].name by {
        assert(entry_is(r->Ok_0@[k], d, ps, ptr, resolvable(ps)[k]));
    }
}

/// When fields without strategy are errors, a field list holding one fails the rendering,
/// naming the first such field and its wire types.
pub proof fn lemma_unimplemented_fails(
    d: Seq<u8>,
    ps: Seq<PropertyView>,
    ptr: usize,
    j: int,
    r: Result<Vec<(String, FieldValue)>, SerError>,
)
    requires
        0 <= j < ps.len(),
        handler_of(ps[j].info) is None,
        forall|k: int| 0 <= k < j ==> #[trigger] handler_of(ps[k].info) is Some,
        fields_outcome(d, Ok(ps), ptr, true, r),
    ensures
        r is Err,
        r->Err_0 is NotImplemented,
        r->Err_0->NotImplemented_name@ == ps[j].name,
        r->Err_0->NotImplemented_info == ps[j].info,
{
    lemma_first_unresolvable(ps, j, 0);
}

/// The number of entries counts the fields with a strategy: a field without one adds none.
pub proof fn lemma_resolvable_count(ps: Seq<PropertyView>, i: int)
    requires
        0 <= i <= ps.len(),
    ensures
        resolvable_below(ps, i).len() <= i,
        forall|k: int| 0 <= k < resolvable_below(ps, i).len() ==> handler_of(ps[#[trigger] resolvable_below(ps, i)[k]].info) is Some,
    decreases i,
{
    if i > 0 {
        lemma_resolvable_count(ps, i - 1);
    }
}

} // verus!
