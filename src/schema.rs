//! Schema of an event kind: descriptive names, identity, and a field list parsed once.
use vstd::prelude::*;
use crate::event::Guid;
use crate::tdh_types::{parse_all, parse_properties, Property, PropertyError, PropertyView, RawProperty};

verus! {

/// Which native mechanism produced a schema.
#[derive(Clone, Copy, Debug, PartialEq, Eq, Structural)]
pub enum DecodingSource {
    DecodingSourceXMLFile,
    DecodingSourceWbem,
    DecodingSourceWPP,
    DecodingSourceTlg,
    DecodingSourceMax,
}

/// Schema data of one event kind, as the tracing subsystem hands it over.
#[derive(Clone, Debug)]
pub struct TraceEventInfo {
    pub event_id: u16,
    pub provider_guid: Guid,
    pub event_version: u8,
    pub decoding_source: DecodingSource,
    pub provider_name: String,
    pub task_name: String,
    pub opcode_name: String,
    /// The fields in declared order.
    pub properties: Vec<RawProperty>,
}

/// View of a list of field descriptors.
pub open spec fn props_view(ps: Seq<Property>) -> Seq<PropertyView> {
    ps.map_values(|p: Property| p@)
}

/// View of a parsed field list or its error.
pub open spec fn props_result_view(r: Result<Vec<Property>, PropertyError>) -> Result<
    Seq<PropertyView>,
    PropertyError,
> {
    match r {
        Ok(ps) => Ok(props_view(ps@)),
        Err(e) => Err(e),
    }
}

/// The field list a lenient request hands out: the list, or nothing if it cannot be parsed.
pub open spec fn lenient(r: Result<Seq<PropertyView>, PropertyError>) -> Seq<PropertyView> {
    match r {
        Ok(ps) => ps,
        Err(_) => Seq::empty(),
    }
}

/// A schema suitable for decoding a given kind of event.
pub struct Schema {
    pub te_info: TraceEventInfo,
    /// The field list once computed, success or failure.
    pub cached_properties: Option<Result<Vec<Property>, PropertyError>>,
}

/// Copies a list of field descriptors.
pub fn copy_properties(ps: &Vec<Property>) -> (r: Vec<Property>)
    ensures
        props_view(r@) == props_view(ps@),
{
    let mut out: Vec<Property> = Vec::new();
    let mut i: usize = 0;
    while i < ps.len()
        invariant
            i <= ps@.len(),
            props_view(out@) == props_view(ps@.subrange(0, i as int)),
        decreases ps@.len() - i,
    {
        let ghost before = out@;
        out.push(ps[i].duplicate());
        assert(props_view(out@) =~= props_view(before).push(ps@[i as int]@));
        assert(props_view(ps@.subrange(0, i + 1)) =~= props_view(ps@.subrange(0, i as int)).push(ps@[i as int]@));
        i = i + 1;
    }
    assert(ps@.subrange(0, i as int) =~= ps@);
    out
}

impl Schema {
    /// The memoized field list, if it has been computed.
    pub open spec fn cache(&self) -> Option<Result<Seq<PropertyView>, PropertyError>> {
        match self.cached_properties {
            Some(r) => Some(props_result_view(r)),
            None => None,
        }
    }

    /// The field list that a request returns: the memoized one, else the parse of the raw list.
    pub open spec fn spec_properties(&self) -> Result<Seq<PropertyView>, PropertyError> {
        match self.cache() {
            Some(c) => c,
            None => parse_all(self.te_info.properties@),
        }
    }

    pub fn new(te_info: TraceEventInfo) -> (r: Schema)
        ensures
            r.te_info == te_info,
            r.cache() == None::<Result<Seq<PropertyView>, PropertyError>>,
    {
        Schema { te_info, cached_properties: None }
    }

    /// Which native mechanism produced this schema.
    pub fn decoding_source(&self) -> (r: DecodingSource)
        ensures
            r == self.te_info.decoding_source,
    {
        self.te_info.decoding_source
    }

    pub fn provider_name(&self) -> (r: String)
        ensures
            r@ == self.te_info.provider_name@,
    {
        self.te_info.provider_name.clone()
    }

    pub fn task_name(&self) -> (r: String)
        ensures
            r@ == self.te_info.task_name@,
    {
        self.te_info.task_name.clone()
    }

    pub fn opcode_name(&self) -> (r: String)
        ensures
            r@ == self.te_info.opcode_name@,
    {
        self.te_info.opcode_name.clone()
    }

    /// The field list, or the error met while parsing it. The raw list is parsed on the
    /// first request only; the result, success or failure, is kept and returned afterwards.
    pub fn try_properties(&mut self) -> (r: Result<Vec<Property>, PropertyError>)
        ensures
            properties_request(*old(self), *final(self), props_result_view(r)),
    {
        match &self.cached_properties {
            Some(Ok(ps)) => return Ok(copy_properties(ps)),
            Some(Err(e)) => return Err(*e),
            None => {},
        }
        let parsed = parse_properties(&self.te_info.properties);
        let r = match &parsed {
            Ok(ps) => Ok(copy_properties(ps)),
            Err(e) => Err(*e),
        };
        self.cached_properties = Some(parsed);
        r
    }

    /// The field list, or an empty list when it cannot be parsed.
    pub fn properties(&mut self) -> (r: Vec<Property>)
        ensures
            properties_request(*old(self), *final(self), old(self).spec_properties()),
            props_view(r@) == lenient(old(self).spec_properties()),
    {
        match self.try_properties() {
            Ok(p) => p,
            Err(_) => Vec::new(),
        }
    }
}

/// What a request of the field list does: it returns the memoized list if there is one,
/// else the parse of the raw list, and memoizes what it returns; nothing else changes.
pub open spec fn properties_request(
    before: Schema,
    after: Schema,
    r: Result<Seq<PropertyView>, PropertyError>,
) -> bool {
    &&& r == before.spec_properties()
    &&& after.te_info == before.te_info
    &&& after.cache() == Some(r)
    &&& before.cache() is Some ==> after == before
}

/// The field list is computed at most once: after a first request, every later request
/// returns the same result and leaves the schema as it is, whatever the raw list holds.
pub proof fn lemma_properties_memoized(
    s0: Schema,
    s1: Schema,
    r1: Result<Seq<PropertyView>, PropertyError>,
    s2: Schema,
    r2: Result<Seq<PropertyView>, PropertyError>,
)
    requires
        properties_request(s0, s1, r1),
        properties_request(s1, s2, r2),
    ensures
        r2 == r1,
        s2 == s1,
{
}

/// Once memoized, the field list no longer depends on the raw list.
pub proof fn lemma_memo_ignores_raw(s: Schema, t: Schema)
    requires
        s.cache() is Some,
        t.cache() == s.cache(),
    ensures
        t.spec_properties() == s.spec_properties(),
{
}

impl PartialEq for Schema {
    /// Two schemas are equal when event id, provider and version agree.
    fn eq(&self, other: &Schema) -> (r: bool) {
        self.te_info.event_id == other.te_info.event_id && self.te_info.provider_guid
            == other.te_info.provider_guid && self.te_info.event_version
            == other.te_info.event_version
    }
}

impl vstd::std_specs::cmp::PartialEqSpecImpl for Schema {
    open spec fn obeys_eq_spec() -> bool {
        true
    }

    open spec fn eq_spec(&self, other: &Schema) -> bool {
        &&& self.te_info.event_id == other.te_info.event_id
        &&& self.te_info.provider_guid == other.te_info.provider_guid
        &&& self.te_info.event_version == other.te_info.event_version
    }
}

impl Eq for Schema {}

} // verus!
