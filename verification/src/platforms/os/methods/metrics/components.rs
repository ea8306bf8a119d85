//! Temperature sensors.
use crate::metric_types::{ComponentInfo, ComponentListInfo, DEFAULT_UNKNOWN_MESSAGE};
use vstd::prelude::*;
use vstd::string::*;

verus! {

/// What the operating system reports of one sensor; temperatures are `f32`
/// bits and are absent when the sensor does not report them.
#[derive(Debug)]
pub struct ComponentReading {
    pub id: Option<String>,
    pub label: String,
    pub temperature_bits: Option<u32>,
    pub critical_bits: Option<u32>,
    pub max_bits: Option<u32>,
}

/// An absent temperature is recorded as `0.0`, whose bits are zero.
pub open spec fn bits_or_zero(b: Option<u32>) -> u32 {
    match b {
        Some(v) => v,
        None => 0,
    }
}

/// An absent identifier is recorded as unknown.
pub open spec fn id_or_unknown(id: Option<String>) -> Seq<char> {
    match id {
        Some(s) => s@,
        None => DEFAULT_UNKNOWN_MESSAGE@,
    }
}

/// The record that a sensor reading becomes.
pub open spec fn component_from_reading(c: ComponentInfo, r: ComponentReading) -> bool {
    &&& c.id@ == id_or_unknown(r.id)
    &&& c.name@ == r.label@
    &&& c.temp_bits == bits_or_zero(r.temperature_bits)
    &&& c.critical_temp_bits == bits_or_zero(r.critical_bits)
    &&& c.max_temp_bits == bits_or_zero(r.max_bits)
}

/// A sensor's record carries that sensor's own readings: its temperature,
/// its critical threshold and its maximum each land in their own field, an
/// absent one as zero.
pub proof fn lemma_sensor_record_is_its_reading(c: ComponentInfo, r: ComponentReading)
    requires
        component_from_reading(c, r),
    ensures
        r.temperature_bits matches Some(v) ==> c.temp_bits == v,
        r.temperature_bits is None ==> c.temp_bits == 0,
        r.critical_bits matches Some(v) ==> c.critical_temp_bits == v,
        r.critical_bits is None ==> c.critical_temp_bits == 0,
        r.max_bits matches Some(v) ==> c.max_temp_bits == v,
        r.max_bits is None ==> c.max_temp_bits == 0,
        c.name@ == r.label@,
{
}

fn component_info_from(r: &ComponentReading) -> (c: ComponentInfo)
    ensures
        component_from_reading(c, *r),
        r.temperature_bits matches Some(v) ==> c.temp_bits == v,
        r.temperature_bits is None ==> c.temp_bits == 0,
        r.critical_bits matches Some(v) ==> c.critical_temp_bits == v,
        r.critical_bits is None ==> c.critical_temp_bits == 0,
        r.max_bits matches Some(v) ==> c.max_temp_bits == v,
        r.max_bits is None ==> c.max_temp_bits == 0,
{
    let id = match &r.id {
        Some(s) => s.clone(),
        None => String::from_str(DEFAULT_UNKNOWN_MESSAGE),
    };
    ComponentInfo {
        id,
        name: r.label.clone(),
        temp_bits: match r.temperature_bits {
            Some(v) => v,
            None => 0,
        },
        critical_temp_bits: match r.critical_bits {
            Some(v) => v,
            None => 0,
        },
        max_temp_bits: match r.max_bits {
            Some(v) => v,
            None => 0,
        },
    }
}

/// Records the number of sensors and appends one record per sensor.
pub fn collect_components_metrics(
    components: &Vec<ComponentReading>,
    components_list_buffer: &mut ComponentListInfo,
)
    ensures
        final(components_list_buffer).count == components@.len(),
        final(components_list_buffer).is_empty == (components@.len() == 0),
        final(components_list_buffer).components@.len() == old(components_list_buffer).components@.len()
            + components@.len(),
        final(components_list_buffer).components@.subrange(
            0,
            old(components_list_buffer).components@.len() as int,
        ) == old(components_list_buffer).components@,
        forall|i: int|
            0 <= i < components@.len() ==> component_from_reading(
                #[trigger] final(components_list_buffer).components@[old(
                    components_list_buffer,
                ).components@.len() + i],
                components@[i],
            ),
        forall|i: int|
            0 <= i < components@.len() ==> {
                let c = #[trigger] final(components_list_buffer).components@[old(
                    components_list_buffer,
                ).components@.len() + i];
                let r = components@[i];
                &&& (r.temperature_bits matches Some(v) ==> c.temp_bits == v)
                &&& (r.temperature_bits is None ==> c.temp_bits == 0)
                &&& (r.critical_bits matches Some(v) ==> c.critical_temp_bits == v)
                &&& (r.critical_bits is None ==> c.critical_temp_bits == 0)
                &&& (r.max_bits matches Some(v) ==> c.max_temp_bits == v)
                &&& (r.max_bits is None ==> c.max_temp_bits == 0)
            },
{
    components_list_buffer.count = components.len();
    components_list_buffer.is_empty = components.len() == 0;
    let ghost start = components_list_buffer.components@;
    let mut i: usize = 0;
    while i < components.len()
        invariant
            0 <= i <= components@.len(),
            components_list_buffer.count == components@.len(),
            components_list_buffer.is_empty == (components@.len() == 0),
            components_list_buffer.components@.len() == start.len() + i,
            components_list_buffer.components@.subrange(0, start.len() as int) == start,
            forall|j: int|
                0 <= j < i ==> component_from_reading(
                    #[trigger] components_list_buffer.components@[start.len() + j],
                    components@[j],
                ),
        decreases components@.len() - i,
    {
        let c = component_info_from(&components[i]);
        components_list_buffer.components.push(c);
        proof {
            assert(components_list_buffer.components@.subrange(0, start.len() as int) =~= start);
        }
        i = i + 1;
    }
}

} // verus!
