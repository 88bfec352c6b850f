//! The evaluation of a feature, and the frozen view of one.
use vstd::prelude::*;
use crate::dictionary::Dictionary;
use crate::entity::Entity;
use crate::errors::Error;
use crate::errors::ProtocolViolation;
use crate::feature::Feature as FeatureAccess;
use crate::models::outcome_view;
use crate::models::ConfigValueView;
use crate::models::Feature;
use crate::models::FeatureView;
use crate::models::Segment;
use crate::models::TargetingRule;
use crate::models::TargetingRuleView;
use crate::rollout::in_rollout;
use crate::rollout::should_rollout;
use crate::segment_evaluation::applicable_rule;
use crate::segment_evaluation::applies;
use crate::segment_evaluation::decides;
use crate::segment_evaluation::find_applicable_segment_rule_for_entity;
use crate::segment_evaluation::lemma_decides_once;
use crate::segment_evaluation::AttributesView;
use crate::segment_evaluation::SegmentsView;
use crate::errors::EntityEvaluationError;
use crate::value::Value;
use crate::value::ValueView;

verus! {

/// The percentage that gates a targeting rule: none where the rule has no
/// rollout of its own, the resource's where the rule defers to it.
pub open spec fn rule_percentage(rule: TargetingRuleView, resource_percentage: u32) -> Result<
    Option<nat>,
    Error,
> {
    match rule.rollout_percentage {
        None => Ok(None),
        Some(v) => if v.is_default() {
            Ok(Some(resource_percentage as nat))
        } else {
            match v.as_u64() {
                Some(n) => Ok(Some(n as nat)),
                None => Err(Error::ProtocolError(ProtocolViolation::RolloutOutOfRange)),
            }
        },
    }
}

/// The value of a targeting rule, the sentinel replaced by the resource's
/// own value.
pub open spec fn resolved(value: ConfigValueView, own: ConfigValueView) -> ConfigValueView {
    if value.is_default() {
        own
    } else {
        value
    }
}

/// The value that a feature takes for an entity, before it is typed.
pub open spec fn feature_raw_value(
    feature: FeatureView,
    segments: SegmentsView,
    entity_id: Seq<char>,
    attributes: AttributesView,
) -> Result<ConfigValueView, Error> {
    if !feature.enabled {
        Ok(feature.disabled_value)
    } else {
        match applicable_rule(segments, feature.segment_rules, attributes) {
            Err(e) => Err(Error::EntityEvaluationError(e)),
            Ok(Some(i)) => match rule_percentage(
                feature.segment_rules[i],
                feature.rollout_percentage,
            ) {
                Err(e) => Err(e),
                Ok(Some(p)) => if in_rollout(entity_id, feature.feature_id, p) {
                    Ok(resolved(feature.segment_rules[i].value, feature.enabled_value))
                } else {
                    Ok(feature.enabled_value)
                },
                Ok(None) => Ok(resolved(feature.segment_rules[i].value, feature.enabled_value)),
            },
            Ok(None) => if in_rollout(
                entity_id,
                feature.feature_id,
                feature.rollout_percentage as nat,
            ) {
                Ok(feature.enabled_value)
            } else {
                Ok(feature.disabled_value)
            },
        }
    }
}

/// The value that a feature takes for an entity.
pub open spec fn feature_value(
    feature: FeatureView,
    segments: SegmentsView,
    entity_id: Seq<char>,
    attributes: AttributesView,
) -> Result<ValueView, Error> {
    match feature_raw_value(feature, segments, entity_id, attributes) {
        Ok(v) => v.typed(feature.kind),
        Err(e) => Err(e),
    }
}

/// A feature that is not enabled takes its disabled value, whatever its
/// rules, its rollout and the entity.
pub proof fn law_disabled_feature(
    feature: FeatureView,
    segments: SegmentsView,
    entity_id: Seq<char>,
    attributes: AttributesView,
)
    requires
        !feature.enabled,
    ensures
        feature_value(feature, segments, entity_id, attributes) == feature.disabled_value.typed(
            feature.kind,
        ),
{
}

/// An enabled feature of which no targeting rule applies takes its enabled
/// value at a rollout of 100 and its disabled value at a rollout of 0.
pub proof fn law_full_and_empty_rollout(
    feature: FeatureView,
    segments: SegmentsView,
    entity_id: Seq<char>,
    attributes: AttributesView,
)
    requires
        feature.enabled,
        forall|i: int|
            0 <= i < feature.segment_rules.len() ==> #[trigger] applies(
                segments,
                feature.segment_rules[i],
                attributes,
            ) == Ok::<bool, EntityEvaluationError>(false),
    ensures
        feature.rollout_percentage == 100 ==> feature_value(
            feature,
            segments,
            entity_id,
            attributes,
        ) == feature.enabled_value.typed(feature.kind),
        feature.rollout_percentage == 0 ==> feature_value(feature, segments, entity_id, attributes)
            == feature.disabled_value.typed(feature.kind),
{
}

/// An enabled feature takes the value of the targeting rule that applies,
/// the sentinel replaced by the enabled value, where the rule has no rollout
/// of its own or its rollout lets the entity in; it takes the enabled value
/// where the rollout of the rule keeps the entity out.
pub proof fn law_targeted_feature(
    feature: FeatureView,
    segments: SegmentsView,
    entity_id: Seq<char>,
    attributes: AttributesView,
    i: int,
)
    requires
        feature.enabled,
        decides(segments, feature.segment_rules, attributes, i),
        applies(segments, feature.segment_rules[i], attributes) == Ok::<
            bool,
            EntityEvaluationError,
        >(true),
    ensures
        match rule_percentage(feature.segment_rules[i], feature.rollout_percentage) {
            Ok(Some(p)) => feature_value(feature, segments, entity_id, attributes) == (if in_rollout(
                entity_id,
                feature.feature_id,
                p,
            ) {
                resolved(feature.segment_rules[i].value, feature.enabled_value)
            } else {
                feature.enabled_value
            }).typed(feature.kind),
            Ok(None) => feature_value(feature, segments, entity_id, attributes) == resolved(
                feature.segment_rules[i].value,
                feature.enabled_value,
            ).typed(feature.kind),
            Err(e) => feature_value(feature, segments, entity_id, attributes) == Err::<
                ValueView,
                Error,
            >(e),
        },
{
    let c = choose|c: int| decides(segments, feature.segment_rules, attributes, c);
    lemma_decides_once(segments, feature.segment_rules, attributes, i, c);
}

/// Evaluation is pure: asked twice about the same feature, segments and
/// entity, it yields the same.
pub proof fn law_feature_evaluation_is_pure(
    feature: &Feature,
    segments: &Dictionary<Segment>,
    entity_id: &str,
    attributes: &Dictionary<Value>,
    first: Result<Value, Error>,
    second: Result<Value, Error>,
)
    requires
        call_ensures(evaluate_feature, (feature, segments, entity_id, attributes), first),
        call_ensures(evaluate_feature, (feature, segments, entity_id, attributes), second),
    ensures
        outcome_view(first) == outcome_view(second),
{
}

/// Reads the rollout percentage of a targeting rule.
fn percentage_of(rule: &TargetingRule, resource_percentage: u32) -> (r: Result<Option<u64>, Error>)
    ensures
        match r {
            Ok(Some(p)) => rule_percentage(rule@, resource_percentage) == Ok::<Option<nat>, Error>(
                Some(p as nat),
            ),
            Ok(None) => rule_percentage(rule@, resource_percentage) == Ok::<Option<nat>, Error>(
                None,
            ),
            Err(e) => rule_percentage(rule@, resource_percentage) == Err::<Option<nat>, Error>(e),
        },
{
    match &rule.rollout_percentage {
        None => Ok(None),
        Some(v) => if v.is_default() {
            Ok(Some(resource_percentage as u64))
        } else {
            match v.as_u64() {
                Some(n) => Ok(Some(n)),
                None => Err(Error::ProtocolError(ProtocolViolation::RolloutOutOfRange)),
            }
        },
    }
}

/// Evaluates a feature for the entity with the given id and attributes,
/// against the segments at hand.
pub fn evaluate_feature(
    feature: &Feature,
    segments: &Dictionary<Segment>,
    entity_id: &str,
    attributes: &Dictionary<Value>,
) -> (r: Result<Value, Error>)
    ensures
        outcome_view(r) == feature_value(feature@, segments@, entity_id@, attributes@),
{
    if !feature.enabled {
        return feature.disabled_value.typed(feature.kind);
    }
    let found = find_applicable_segment_rule_for_entity(
        segments,
        &feature.segment_rules,
        attributes,
    );
    match found {
        Err(e) => Err(Error::EntityEvaluationError(e)),
        Ok(Some(i)) => {
            let rule = &feature.segment_rules[i];
            assert(rule@ == feature@.segment_rules[i as int]);
            let included = match percentage_of(rule, feature.rollout_percentage) {
                Err(e) => {
                    return Err(e);
                },
                Ok(Some(p)) => should_rollout(p, entity_id, feature.feature_id.as_str()),
                Ok(None) => true,
            };
            if included && !rule.value.is_default() {
                rule.value.typed(feature.kind)
            } else {
                feature.enabled_value.typed(feature.kind)
            }
        },
        Ok(None) => {
            if should_rollout(
                feature.rollout_percentage as u64,
                entity_id,
                feature.feature_id.as_str(),
            ) {
                feature.enabled_value.typed(feature.kind)
            } else {
                feature.disabled_value.typed(feature.kind)
            }
        },
    }
}

/// A feature with the segments that its rules name, copied out of a
/// catalog: what it yields does not change when the catalog does.
#[derive(Debug)]
pub struct FeatureSnapshot {
    pub feature: Feature,
    pub segments: Dictionary<Segment>,
}

pub struct FeatureSnapshotView {
    pub feature: FeatureView,
    pub segments: SegmentsView,
}

impl View for FeatureSnapshot {
    type V = FeatureSnapshotView;

    open spec fn view(&self) -> FeatureSnapshotView {
        FeatureSnapshotView { feature: self.feature@, segments: self.segments@ }
    }
}

impl FeatureSnapshotView {
    /// What the snapshot yields for an entity.
    pub open spec fn value(self, entity_id: Seq<char>, attributes: AttributesView) -> Result<
        ValueView,
        Error,
    > {
        feature_value(self.feature, self.segments, entity_id, attributes)
    }
}

impl FeatureSnapshot {
    pub fn new(feature: Feature, segments: Dictionary<Segment>) -> (r: Self)
        ensures
            r@ == (FeatureSnapshotView { feature: feature@, segments: segments@ }),
    {
        FeatureSnapshot { feature, segments }
    }

    /// Evaluates the feature for the entity with the given id and
    /// attributes.
    pub fn evaluate(&self, entity_id: &str, attributes: &Dictionary<Value>) -> (r: Result<
        Value,
        Error,
    >)
        ensures
            outcome_view(r) == self@.value(entity_id@, attributes@),
    {
        evaluate_feature(&self.feature, &self.segments, entity_id, attributes)
    }
}

impl FeatureAccess for FeatureSnapshot {
    fn get_name(&self) -> (r: Result<String, Error>)
        ensures
            r matches Ok(name) && name@ == self@.feature.name,
    {
        Ok(self.feature.name.clone())
    }

    fn is_enabled(&self) -> (r: Result<bool, Error>)
        ensures
            r == Ok::<bool, Error>(self@.feature.enabled),
    {
        Ok(self.feature.enabled)
    }

    /// Asks the entity for its id and its attributes and evaluates the
    /// feature for them.
    fn get_value<E: Entity>(&self, entity: &E) -> (r: Result<Value, Error>)
        ensures
            exists|id: String, attributes: Dictionary<Value>|
                call_ensures(E::get_id, (entity,), id) && call_ensures(
                    E::get_attributes,
                    (entity,),
                    attributes,
                ) && outcome_view(r) == #[trigger] self@.value(id@, attributes@),
    {
        let id = entity.get_id();
        let attributes = entity.get_attributes();
        let r = self.evaluate(id.as_str(), &attributes);
        assert(outcome_view(r) == self@.value(id@, attributes@));
        r
    }

    fn get_value_into<T: TryFrom<Value, Error = Error>, E: Entity>(&self, entity: &E) -> (r: Result<
        T,
        Error,
    >)
        ensures
            exists|id: String, attributes: Dictionary<Value>, value: Result<Value, Error>|
                #![trigger self@.value(id@, attributes@), outcome_view(value)]
                call_ensures(E::get_id, (entity,), id) && call_ensures(
                    E::get_attributes,
                    (entity,),
                    attributes,
                ) && outcome_view(value) == self@.value(id@, attributes@) && match value {
                    Ok(v) => call_ensures(T::try_from, (v,), r),
                    Err(e) => r == Err::<T, Error>(e),
                },
    {
        let id = entity.get_id();
        let attributes = entity.get_attributes();
        let value = self.evaluate(id.as_str(), &attributes);
        assert(outcome_view(value) == self@.value(id@, attributes@));
        match value {
            Ok(v) => T::try_from(v),
            Err(e) => Err(e),
        }
    }
}

} // verus!
