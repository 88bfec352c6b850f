use appconfiguration::client::feature_snapshot::{evaluate_feature, FeatureSnapshot};
use appconfiguration::client::property_snapshot::{evaluate_property, PropertySnapshot};
use appconfiguration::dictionary::Dictionary;
use appconfiguration::entity::Attributes;
use appconfiguration::errors::{EntityEvaluationError, ProtocolViolation};
use appconfiguration::models::{
    ConfigValue, Feature as FeatureModel, Operand, Property as PropertyModel, Segment,
    SegmentRule, Segments, TargetingRule, ValueKind,
};
use appconfiguration::rollout::should_rollout;
use appconfiguration::{Entity, Error, Feature, Float64, Property, Value};

struct Someone {
    id: String,
    attributes: Vec<(String, Value)>,
}

impl Entity for Someone {
    fn get_id(&self) -> String {
        self.id.clone()
    }

    fn get_attributes(&self) -> Attributes {
        let mut out = Dictionary::new();
        for (name, value) in &self.attributes {
            out.insert(name.clone(), value.clone());
        }
        out
    }
}

fn someone(id: &str, attributes: &[(&str, &str)]) -> Someone {
    Someone {
        id: id.to_string(),
        attributes: attributes
            .iter()
            .map(|(n, v)| (n.to_string(), Value::String(v.to_string())))
            .collect(),
    }
}

fn text(v: &str) -> ConfigValue {
    ConfigValue::String(v.to_string())
}

fn segment_is(id: &str, attribute: &str, value: &str) -> Segment {
    Segment {
        segment_id: id.to_string(),
        rules: vec![SegmentRule {
            attribute_name: attribute.to_string(),
            operator: "is".to_string(),
            values: vec![Operand::text_only(value)],
        }],
    }
}

fn segments(list: Vec<Segment>) -> Dictionary<Segment> {
    let mut out = Dictionary::new();
    for s in list {
        out.insert(s.segment_id.clone(), s);
    }
    out
}

fn targeting(order: u32, segment: &str, value: ConfigValue) -> TargetingRule {
    TargetingRule {
        rules: vec![Segments { segments: vec![segment.to_string()] }],
        value,
        order,
        rollout_percentage: None,
    }
}

fn feature(kind: ValueKind, enabled: ConfigValue, disabled: ConfigValue) -> FeatureModel {
    FeatureModel {
        name: "A feature".to_string(),
        feature_id: "f".to_string(),
        kind,
        enabled_value: enabled,
        disabled_value: disabled,
        segment_rules: Vec::new(),
        enabled: true,
        rollout_percentage: 100,
    }
}

fn property(kind: ValueKind, value: ConfigValue) -> PropertyModel {
    PropertyModel {
        name: "A property".to_string(),
        property_id: "p".to_string(),
        kind,
        value,
        segment_rules: Vec::new(),
    }
}

fn f1(enabled: bool) -> FeatureSnapshot {
    let mut f = feature(ValueKind::Numeric, ConfigValue::Int64(42), ConfigValue::Int64(-42));
    f.name = "F1".to_string();
    f.feature_id = "f1".to_string();
    f.enabled = enabled;
    FeatureSnapshot::new(f, Dictionary::new())
}

fn f2() -> FeatureSnapshot {
    let mut f = feature(ValueKind::String, text("basic"), text("none"));
    f.feature_id = "f2".to_string();
    f.segment_rules = vec![targeting(1, "S", text("premium"))];
    FeatureSnapshot::new(f, segments(vec![segment_is("S", "attr", "gold")]))
}

#[test]
fn an_enabled_feature_without_rules_yields_its_enabled_value() {
    for id in ["a", "b", "someone else"] {
        let entity = someone(id, &[("attr", "gold")]);
        assert!(matches!(f1(true).get_value(&entity), Ok(Value::Int64(42))));
    }
    let n: i64 = f1(true).get_value_into(&someone("a", &[])).unwrap();
    assert_eq!(n, 42);
    let n: u64 = f1(true).get_value_into(&someone("a", &[])).unwrap();
    assert_eq!(n, 42);
    let failed: Result<String, Error> = f1(true).get_value_into(&someone("a", &[]));
    assert!(matches!(failed, Err(Error::MismatchType)));
}

#[test]
fn a_disabled_feature_yields_its_disabled_value() {
    for id in ["a", "b", "someone else"] {
        let entity = someone(id, &[("attr", "gold")]);
        assert!(matches!(f1(false).get_value(&entity), Ok(Value::Int64(-42))));
    }
    let mut disabled = feature(ValueKind::String, text("on"), text("off"));
    disabled.enabled = false;
    disabled.rollout_percentage = 100;
    disabled.segment_rules = vec![targeting(1, "S", text("premium"))];
    let snapshot = FeatureSnapshot::new(disabled, segments(vec![segment_is("S", "attr", "gold")]));
    let value = snapshot.get_value(&someone("a", &[("attr", "gold")])).unwrap();
    assert!(value == Value::String("off".to_string()));
    assert!(!snapshot.is_enabled().unwrap());
    assert_eq!(snapshot.get_name().unwrap(), "A feature");
}

#[test]
fn a_targeted_entity_gets_the_value_of_the_rule() {
    let value = f2().get_value(&someone("a", &[("attr", "gold")])).unwrap();
    assert!(value == Value::String("premium".to_string()));
}

#[test]
fn an_entity_outside_the_segment_gets_the_enabled_value() {
    let value = f2().get_value(&someone("a", &[("attr", "silver")])).unwrap();
    assert!(value == Value::String("basic".to_string()));
    let value = f2().get_value(&someone("a", &[])).unwrap();
    assert!(value == Value::String("basic".to_string()));
}

#[test]
fn a_property_yields_the_value_of_the_rule_that_applies() {
    let mut p1 = property(ValueKind::Numeric, ConfigValue::Int64(7));
    p1.name = "P1".to_string();
    p1.segment_rules = vec![targeting(1, "eu", ConfigValue::Int64(11))];
    let snapshot = PropertySnapshot::new(p1, segments(vec![segment_is("eu", "region", "eu")]));
    assert!(matches!(
        snapshot.get_value(&someone("a", &[("region", "eu")])),
        Ok(Value::Int64(11))
    ));
    assert!(matches!(
        snapshot.get_value(&someone("a", &[("region", "us")])),
        Ok(Value::Int64(7))
    ));
    let n: i64 = snapshot.get_value_into(&someone("a", &[("region", "eu")])).unwrap();
    assert_eq!(n, 11);
    assert_eq!(snapshot.get_name().unwrap(), "P1");
}

#[test]
fn the_sentinel_in_a_rule_stands_for_the_enabled_value() {
    let mut f3 = feature(ValueKind::Numeric, ConfigValue::Int64(99), ConfigValue::Int64(0));
    f3.segment_rules = vec![targeting(1, "S", text("$default"))];
    let snapshot = FeatureSnapshot::new(f3, segments(vec![segment_is("S", "attr", "gold")]));
    assert!(matches!(
        snapshot.get_value(&someone("a", &[("attr", "gold")])),
        Ok(Value::Int64(99))
    ));
}

#[test]
fn the_sentinel_in_a_rule_stands_for_the_value_of_the_property() {
    let mut p = property(ValueKind::String, text("own"));
    p.segment_rules = vec![targeting(1, "S", text("$default"))];
    let snapshot = PropertySnapshot::new(p, segments(vec![segment_is("S", "attr", "gold")]));
    let value = snapshot.get_value(&someone("a", &[("attr", "gold")])).unwrap();
    assert!(value == Value::String("own".to_string()));
}

#[test]
fn the_sentinel_is_never_handed_out() {
    let f = feature(ValueKind::String, text("$default"), text("off"));
    let snapshot = FeatureSnapshot::new(f, Dictionary::new());
    assert!(matches!(snapshot.get_value(&someone("a", &[])), Err(Error::MismatchType)));
    assert!(matches!(text("$default").typed(ValueKind::String), Err(Error::MismatchType)));
    assert!(text("$default").is_default());
    assert!(!text("$Default").is_default());
    assert!(!ConfigValue::Int64(1).is_default());
}

#[test]
fn without_a_rule_that_applies_the_rollout_of_the_feature_decides() {
    let mut f = feature(ValueKind::String, text("on"), text("off"));
    f.segment_rules = vec![targeting(1, "S", text("premium"))];
    let all = segments(vec![segment_is("S", "attr", "gold")]);
    let nobody = Dictionary::new();
    for id in ["a", "b", "c", "d", "e", "f", "g", "h"] {
        f.rollout_percentage = 100;
        assert!(evaluate_feature(&f, &all, id, &nobody).unwrap() == Value::String("on".into()));
        f.rollout_percentage = 0;
        assert!(evaluate_feature(&f, &all, id, &nobody).unwrap() == Value::String("off".into()));
        f.rollout_percentage = 50;
        let expected = if should_rollout(50, id, "f") { "on" } else { "off" };
        assert!(evaluate_feature(&f, &all, id, &nobody).unwrap() == Value::String(expected.into()));
    }
}

#[test]
fn the_rollout_of_a_rule_decides_between_its_value_and_the_enabled_value() {
    let mut f = feature(ValueKind::String, text("on"), text("off"));
    f.rollout_percentage = 0;
    let all = segments(vec![segment_is("S", "attr", "gold")]);
    let mut gold = Dictionary::new();
    gold.insert("attr".to_string(), Value::String("gold".to_string()));
    for id in ["a", "b", "c", "d", "e", "f", "g", "h"] {
        let mut rule = targeting(1, "S", text("premium"));
        rule.rollout_percentage = Some(ConfigValue::Int64(100));
        f.segment_rules = vec![rule];
        assert!(evaluate_feature(&f, &all, id, &gold).unwrap() == Value::String("premium".into()));

        let mut rule = targeting(1, "S", text("premium"));
        rule.rollout_percentage = Some(ConfigValue::UInt64(0));
        f.segment_rules = vec![rule];
        assert!(evaluate_feature(&f, &all, id, &gold).unwrap() == Value::String("on".into()));

        let mut rule = targeting(1, "S", text("premium"));
        rule.rollout_percentage = Some(ConfigValue::Int64(50));
        f.segment_rules = vec![rule];
        let expected = if should_rollout(50, id, "f") { "premium" } else { "on" };
        assert!(evaluate_feature(&f, &all, id, &gold).unwrap() == Value::String(expected.into()));

        // The sentinel defers to the rollout of the feature, here 0.
        let mut rule = targeting(1, "S", text("premium"));
        rule.rollout_percentage = Some(text("$default"));
        f.segment_rules = vec![rule];
        assert!(evaluate_feature(&f, &all, id, &gold).unwrap() == Value::String("on".into()));
    }
    let mut rule = targeting(1, "S", text("premium"));
    rule.rollout_percentage = Some(text("half"));
    f.segment_rules = vec![rule];
    assert!(matches!(
        evaluate_feature(&f, &all, "a", &gold),
        Err(Error::ProtocolError(ProtocolViolation::RolloutOutOfRange))
    ));
}

#[test]
fn a_property_does_not_roll_out() {
    let mut p = property(ValueKind::Numeric, ConfigValue::Int64(7));
    let mut rule = targeting(1, "S", ConfigValue::Int64(11));
    rule.rollout_percentage = Some(ConfigValue::Int64(0));
    p.segment_rules = vec![rule];
    let all = segments(vec![segment_is("S", "attr", "gold")]);
    let mut gold = Dictionary::new();
    gold.insert("attr".to_string(), Value::String("gold".to_string()));
    for _ in 0..3 {
        assert!(matches!(evaluate_property(&p, &all, &gold), Ok(Value::Int64(11))));
    }
}

#[test]
fn a_number_takes_the_first_type_that_holds_it() {
    let numeric = |v: ConfigValue| v.typed(ValueKind::Numeric);
    assert!(matches!(numeric(ConfigValue::Int64(-1)), Ok(Value::Int64(-1))));
    assert!(matches!(numeric(ConfigValue::UInt64(5)), Ok(Value::Int64(5))));
    assert!(matches!(numeric(ConfigValue::UInt64(u64::MAX)), Ok(Value::UInt64(u64::MAX))));
    let half = Float64::from_bits(0.5f64.to_bits());
    match numeric(ConfigValue::Float64(half)) {
        Ok(Value::Float64(v)) => assert_eq!(f64::from_bits(v.to_bits()), 0.5),
        other => panic!("{other:?}"),
    }
    for v in [text("1"), ConfigValue::Boolean(true), ConfigValue::Null, ConfigValue::Composite] {
        assert!(matches!(
            numeric(v),
            Err(Error::ProtocolError(ProtocolViolation::NotANumber))
        ));
    }
}

#[test]
fn a_value_of_another_kind_is_a_mismatch() {
    assert!(matches!(ConfigValue::Boolean(true).typed(ValueKind::Boolean), Ok(Value::Boolean(true))));
    assert!(matches!(text("true").typed(ValueKind::Boolean), Err(Error::MismatchType)));
    assert!(matches!(ConfigValue::Int64(1).typed(ValueKind::Boolean), Err(Error::MismatchType)));
    assert!(text("a").typed(ValueKind::String).unwrap() == Value::String("a".to_string()));
    assert!(matches!(ConfigValue::Int64(1).typed(ValueKind::String), Err(Error::MismatchType)));
    assert!(matches!(ConfigValue::Null.typed(ValueKind::String), Err(Error::MismatchType)));
    let f = feature(ValueKind::Boolean, text("yes"), ConfigValue::Boolean(false));
    let snapshot = FeatureSnapshot::new(f, Dictionary::new());
    assert!(matches!(snapshot.get_value(&someone("a", &[])), Err(Error::MismatchType)));
}

#[test]
fn config_values_read_as_the_scalars_they_hold() {
    assert_eq!(ConfigValue::Int64(-1).as_i64(), Some(-1));
    assert_eq!(ConfigValue::Int64(-1).as_u64(), None);
    assert_eq!(ConfigValue::Int64(1).as_u64(), Some(1));
    assert_eq!(ConfigValue::UInt64(1).as_i64(), Some(1));
    assert_eq!(ConfigValue::UInt64(u64::MAX).as_i64(), None);
    assert_eq!(ConfigValue::UInt64(u64::MAX).as_u64(), Some(u64::MAX));
    assert_eq!(ConfigValue::Boolean(true).as_boolean(), Some(true));
    assert_eq!(ConfigValue::Int64(1).as_boolean(), None);
    assert_eq!(text("a").as_string(), Some("a".to_string()));
    assert_eq!(ConfigValue::Int64(1).as_string(), None);
    assert_eq!(text("1").as_i64(), None);
    let half = Float64::from_bits(0.5f64.to_bits());
    assert_eq!(ConfigValue::Float64(half).as_f64().map(|v| v.to_bits()), Some(0.5f64.to_bits()));
    assert!(ConfigValue::Float64(half).as_i64().is_none());
    assert!(ConfigValue::Int64(1).as_f64().is_none());
    assert_eq!(ValueKind::Numeric.label(), "NUMERIC");
    assert_eq!(ValueKind::Boolean.label(), "BOOLEAN");
    assert_eq!(ValueKind::String.label(), "STRING");
}

#[test]
fn an_error_of_the_segments_is_an_error_of_the_evaluation() {
    let mut f = feature(ValueKind::String, text("on"), text("off"));
    f.segment_rules = vec![targeting(1, "missing", text("premium"))];
    let snapshot = FeatureSnapshot::new(f, Dictionary::new());
    assert!(matches!(
        snapshot.get_value(&someone("a", &[])),
        Err(Error::EntityEvaluationError(EntityEvaluationError::SegmentNotFound))
    ));
    let mut p = property(ValueKind::String, text("own"));
    p.segment_rules = vec![targeting(1, "S", text("premium"))];
    let odd = Segment {
        segment_id: "S".to_string(),
        rules: vec![SegmentRule {
            attribute_name: "attr".to_string(),
            operator: "resembles".to_string(),
            values: vec![Operand::text_only("gold")],
        }],
    };
    let snapshot = PropertySnapshot::new(p, segments(vec![odd]));
    assert!(matches!(
        snapshot.get_value(&someone("a", &[("attr", "gold")])),
        Err(Error::EntityEvaluationError(EntityEvaluationError::OperatorNotImplemented))
    ));
    assert!(snapshot.get_value(&someone("a", &[])).unwrap() == Value::String("own".into()));
}

#[test]
fn evaluating_twice_yields_the_same() {
    let entity = someone("a", &[("attr", "gold")]);
    let first = f2().get_value(&entity).unwrap();
    for _ in 0..5 {
        assert!(f2().get_value(&entity).unwrap() == first);
    }
    let snapshot = f2();
    for _ in 0..5 {
        assert!(snapshot.get_value(&entity).unwrap() == first);
    }
}
