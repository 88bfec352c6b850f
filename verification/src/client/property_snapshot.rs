//! The evaluation of a property, and the frozen view of one.
use vstd::prelude::*;
use crate::client::feature_snapshot::resolved;
use crate::dictionary::Dictionary;
use crate::entity::Entity;
use crate::errors::EntityEvaluationError;
use crate::errors::Error;
use crate::models::outcome_view;
use crate::models::ConfigValueView;
use crate::models::Property;
use crate::models::PropertyView;
use crate::models::Segment;
use crate::property::Property as PropertyAccess;
use crate::segment_evaluation::applicable_rule;
use crate::segment_evaluation::applies;
use crate::segment_evaluation::find_applicable_segment_rule_for_entity;
use crate::segment_evaluation::AttributesView;
use crate::segment_evaluation::SegmentsView;
use crate::value::Value;
use crate::value::ValueView;

verus! {

/// The value that a property takes for an entity, before it is typed.
///
/// Rollout percentages on the rules of a property play no part.
pub open spec fn property_raw_value(
    property: PropertyView,
    segments: SegmentsView,
    attributes: AttributesView,
) -> Result<ConfigValueView, Error> {
    match applicable_rule(segments, property.segment_rules, attributes) {
        Err(e) => Err(Error::EntityEvaluationError(e)),
        Ok(Some(i)) => Ok(resolved(property.segment_rules[i].value, property.value)),
        Ok(None) => Ok(property.value),
    }
}

/// The value that a property takes for an entity.
pub open spec fn property_value(
    property: PropertyView,
    segments: SegmentsView,
    attributes: AttributesView,
) -> Result<ValueView, Error> {
    match property_raw_value(property, segments, attributes) {
        Ok(v) => v.typed(property.kind),
        Err(e) => Err(e),
    }
}

/// A property of which no targeting rule applies takes its own value.
pub proof fn law_property_default(
    property: PropertyView,
    segments: SegmentsView,
    attributes: AttributesView,
)
    requires
        forall|i: int|
            0 <= i < property.segment_rules.len() ==> #[trigger] applies(
                segments,
                property.segment_rules[i],
                attributes,
            ) == Ok::<bool, EntityEvaluationError>(false),
    ensures
        property_value(property, segments, attributes) == property.value.typed(property.kind),
{
}

/// Evaluation is pure: asked twice about the same property, segments and
/// entity, it yields the same.
pub proof fn law_property_evaluation_is_pure(
    property: &Property,
    segments: &Dictionary<Segment>,
    attributes: &Dictionary<Value>,
    first: Result<Value, Error>,
    second: Result<Value, Error>,
)
    requires
        call_ensures(evaluate_property, (property, segments, attributes), first),
        call_ensures(evaluate_property, (property, segments, attributes), second),
    ensures
        outcome_view(first) == outcome_view(second),
{
}

/// Evaluates a property for an entity with the given attributes, against
/// the segments at hand.
pub fn evaluate_property(
    property: &Property,
    segments: &Dictionary<Segment>,
    attributes: &Dictionary<Value>,
) -> (r: Result<Value, Error>)
    ensures
        outcome_view(r) == property_value(property@, segments@, attributes@),
{
    let found = find_applicable_segment_rule_for_entity(
        segments,
        &property.segment_rules,
        attributes,
    );
    match found {
        Err(e) => Err(Error::EntityEvaluationError(e)),
        Ok(Some(i)) => {
            let rule = &property.segment_rules[i];
            assert(rule@ == property@.segment_rules[i as int]);
            if rule.value.is_default() {
                property.value.typed(property.kind)
            } else {
                rule.value.typed(property.kind)
            }
        },
        Ok(None) => property.value.typed(property.kind),
    }
}

/// A property with the segments that its rules name, copied out of a
/// catalog: what it yields does not change when the catalog does.
#[derive(Debug)]
pub struct PropertySnapshot {
    pub property: Property,
    pub segments: Dictionary<Segment>,
}

pub struct PropertySnapshotView {
    pub property: PropertyView,
    pub segments: SegmentsView,
}

impl View for PropertySnapshot {
    type V = PropertySnapshotView;

    open spec fn view(&self) -> PropertySnapshotView {
        PropertySnapshotView { property: self.property@, segments: self.segments@ }
    }
}

impl PropertySnapshotView {
    /// What the snapshot yields for an entity.
    pub open spec fn value(self, attributes: AttributesView) -> Result<ValueView, Error> {
        property_value(self.property, self.segments, attributes)
    }
}

impl PropertySnapshot {
    pub fn new(property: Property, segments: Dictionary<Segment>) -> (r: Self)
        ensures
            r@ == (PropertySnapshotView { property: property@, segments: segments@ }),
    {
        PropertySnapshot { property, segments }
    }

    /// Evaluates the property for an entity with the given attributes.
    pub fn evaluate(&self, attributes: &Dictionary<Value>) -> (r: Result<Value, Error>)
        ensures
            outcome_view(r) == self@.value(attributes@),
    {
        evaluate_property(&self.property, &self.segments, attributes)
    }
}

impl PropertyAccess for PropertySnapshot {
    fn get_name(&self) -> (r: Result<String, Error>)
        ensures
            r matches Ok(name) && name@ == self@.property.name,
    {
        Ok(self.property.name.clone())
    }

    /// Asks the entity for its attributes and evaluates the property for
    /// them.
    fn get_value<E: Entity>(&self, entity: &E) -> (r: Result<Value, Error>)
        ensures
            exists|attributes: Dictionary<Value>|
                call_ensures(E::get_attributes, (entity,), attributes) && outcome_view(r)
                    == #[trigger] self@.value(attributes@),
    {
        let attributes = entity.get_attributes();
        let r = self.evaluate(&attributes);
        assert(outcome_view(r) == self@.value(attributes@));
        r
    }

    fn get_value_into<T: TryFrom<Value, Error = Error>, E: Entity>(&self, entity: &E) -> (r: Result<
        T,
        Error,
    >)
        ensures
            exists|attributes: Dictionary<Value>, value: Result<Value, Error>|
                #![trigger self@.value(attributes@), outcome_view(value)]
                call_ensures(E::get_attributes, (entity,), attributes) && outcome_view(value)
                    == self@.value(attributes@) && match value {
                    Ok(v) => call_ensures(T::try_from, (v,), r),
                    Err(e) => r == Err::<T, Error>(e),
                },
    {
        let attributes = entity.get_attributes();
        let value = self.evaluate(&attributes);
        assert(outcome_view(value) == self@.value(attributes@));
        match value {
            Ok(v) => T::try_from(v),
            Err(e) => Err(e),
        }
    }
}

} // verus!
