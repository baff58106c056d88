use vstd::prelude::*;

verus! {

/// Which kinds of object a trace filter lets a ray hit.
#[derive(Clone, Copy, PartialEq, Eq, Structural, Debug)]
#[allow(non_camel_case_types)]
pub enum TraceType {
    EVERYTHING,
    WORLD_ONLY,
    ENTITIES_ONLY,
    EVERYTHING_FILTER_PROPS,
}

/// A trace filter that lets a ray hit everything but one entity.
#[derive(Clone, Copy, PartialEq, Eq, Structural, Debug)]
pub struct TraceFilterGeneric {
    /// Address of the entity the ray passes through.
    pub skip: usize,
}

impl TraceFilterGeneric {
    /// A filter that lets rays pass through the entity at address `skip`.
    pub fn new(skip: usize) -> (filter: TraceFilterGeneric)
        ensures
            filter.skip == skip,
    {
        TraceFilterGeneric { skip }
    }

    /// Whether the ray may hit the entity at address `entity`: any entity
    /// but the skipped one, whatever the contents mask.
    pub fn should_hit_entity(&self, entity: usize, contents_mask: u32) -> (hit: bool)
        ensures
            hit == (entity != self.skip),
    {
        entity != self.skip
    }

    /// The filter considers every kind of object.
    pub fn get_trace_type(&self) -> (t: TraceType)
        ensures
            t == TraceType::EVERYTHING,
    {
        TraceType::EVERYTHING
    }
}

} // verus!
