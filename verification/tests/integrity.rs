use appconfiguration::dictionary::Dictionary;
use appconfiguration::errors::{ConfigurationAccessError, ProtocolViolation};
use appconfiguration::integrity::{
    check_feature, check_property, orders_are_distinct, rollouts_are_valid, segment_ids_of,
    segments_are_there, segments_named_by,
};
use appconfiguration::models::{
    ConfigValue, Feature, Property, Segment, Segments, TargetingRule, ValueKind,
};
use appconfiguration::{Error, Value};

fn targeting(order: u32, groups: &[&[&str]]) -> TargetingRule {
    TargetingRule {
        rules: groups
            .iter()
            .map(|g| Segments { segments: g.iter().map(|s| s.to_string()).collect() })
            .collect(),
        value: ConfigValue::Boolean(true),
        order,
        rollout_percentage: None,
    }
}

fn segments(ids: &[&str]) -> Dictionary<Segment> {
    let mut out = Dictionary::new();
    for id in ids {
        out.insert(id.to_string(), Segment { segment_id: id.to_string(), rules: Vec::new() });
    }
    out
}

fn feature(rules: Vec<TargetingRule>) -> Feature {
    Feature {
        name: "F".to_string(),
        feature_id: "f".to_string(),
        kind: ValueKind::Boolean,
        enabled_value: ConfigValue::Boolean(true),
        disabled_value: ConfigValue::Boolean(false),
        segment_rules: rules,
        enabled: true,
        rollout_percentage: 50,
    }
}

fn property(rules: Vec<TargetingRule>) -> Property {
    Property {
        name: "P".to_string(),
        property_id: "p".to_string(),
        kind: ValueKind::Boolean,
        value: ConfigValue::Boolean(true),
        segment_rules: rules,
    }
}

#[test]
fn the_ids_that_rules_name_are_listed_in_order() {
    let rules = vec![
        targeting(2, &[&["a", "b"], &[], &["c"]]),
        targeting(1, &[]),
        targeting(3, &[&["a"], &["d"]]),
    ];
    assert_eq!(segment_ids_of(&rules), vec!["a", "b", "c", "a", "d"]);
    assert!(segment_ids_of(&Vec::new()).is_empty());
}

#[test]
fn the_segments_that_rules_name_are_copied_out() {
    let rules = vec![targeting(2, &[&["a", "b"]]), targeting(3, &[&["a"], &["d"]])];
    let named = segments_named_by(&rules, &segments(&["d", "c", "b", "a"])).unwrap();
    let mut keys = named.keys();
    keys.sort();
    assert_eq!(keys, vec!["a", "b", "d"]);
    assert!(matches!(
        segments_named_by(&rules, &segments(&["a", "b", "c"])),
        Err(Error::ConfigurationAccessError(ConfigurationAccessError::MissingSegments))
    ));
    assert_eq!(segments_named_by(&Vec::new(), &segments(&["a"])).unwrap().len(), 0);
    assert!(segments_are_there(&rules, &segments(&["a", "b", "d"])));
    assert!(!segments_are_there(&rules, &segments(&["a", "b"])));
    assert!(segments_are_there(&Vec::new(), &segments(&[])));
}

#[test]
fn orders_are_compared_pair_by_pair() {
    assert!(orders_are_distinct(&Vec::new()));
    assert!(orders_are_distinct(&vec![targeting(1, &[])]));
    assert!(orders_are_distinct(&vec![targeting(3, &[]), targeting(1, &[]), targeting(2, &[])]));
    assert!(!orders_are_distinct(&vec![targeting(3, &[]), targeting(1, &[]), targeting(3, &[])]));
    assert!(!orders_are_distinct(&vec![targeting(0, &[]), targeting(0, &[])]));
}

#[test]
fn a_feature_is_checked_for_orders_then_rollouts_then_segments() {
    let all = segments(&["a"]);
    assert!(check_feature(&feature(vec![targeting(1, &[&["a"]])]), &all).is_none());
    let mut f = feature(vec![targeting(1, &[&["a"]])]);
    f.rollout_percentage = 100;
    assert!(rollouts_are_valid(&f));
    f.rollout_percentage = 101;
    assert!(!rollouts_are_valid(&f));
    assert!(matches!(
        check_feature(&f, &all),
        Some(Error::ProtocolError(ProtocolViolation::RolloutOutOfRange))
    ));
    f.segment_rules.push(targeting(1, &[&["missing"]]));
    assert!(matches!(
        check_feature(&f, &all),
        Some(Error::ProtocolError(ProtocolViolation::DuplicateOrder))
    ));
    let f = feature(vec![targeting(1, &[&["a", "missing"]])]);
    assert!(matches!(
        check_feature(&f, &all),
        Some(Error::ConfigurationAccessError(ConfigurationAccessError::MissingSegments))
    ));
}

#[test]
fn a_property_is_checked_for_orders_then_segments() {
    let all = segments(&["a"]);
    assert!(check_property(&property(vec![targeting(1, &[&["a"]])]), &all).is_none());
    let mut rule = targeting(1, &[&["a"]]);
    rule.rollout_percentage = Some(ConfigValue::Int64(1000));
    assert!(check_property(&property(vec![rule]), &all).is_none());
    let p = property(vec![targeting(1, &[&["b"]]), targeting(1, &[])]);
    assert!(matches!(
        check_property(&p, &all),
        Some(Error::ProtocolError(ProtocolViolation::DuplicateOrder))
    ));
    let p = property(vec![targeting(1, &[&["b"]]), targeting(2, &[])]);
    assert!(matches!(
        check_property(&p, &all),
        Some(Error::ConfigurationAccessError(ConfigurationAccessError::MissingSegments))
    ));
}

#[test]
fn a_value_of_the_catalog_converts_by_its_kind() {
    let text = ConfigValue::String("a".to_string());
    assert!(Value::try_from((ValueKind::String, text.clone())).unwrap() == Value::String("a".into()));
    assert!(matches!(Value::try_from((ValueKind::Numeric, text.clone())), Err(Error::ProtocolError(_))));
    assert!(matches!(Value::try_from((ValueKind::Boolean, text)), Err(Error::MismatchType)));
    assert!(matches!(
        Value::try_from((ValueKind::Numeric, ConfigValue::UInt64(7))),
        Ok(Value::Int64(7))
    ));
    assert!(matches!(
        Value::try_from((ValueKind::Numeric, ConfigValue::UInt64(u64::MAX))),
        Ok(Value::UInt64(u64::MAX))
    ));
    assert!(matches!(
        Value::try_from((ValueKind::Numeric, ConfigValue::Int64(-7))),
        Ok(Value::Int64(-7))
    ));
    assert!(matches!(
        Value::try_from((ValueKind::Boolean, ConfigValue::Boolean(false))),
        Ok(Value::Boolean(false))
    ));
    let sentinel = ConfigValue::String("$default".to_string());
    assert!(matches!(Value::try_from((ValueKind::String, sentinel)), Err(Error::MismatchType)));
    for kind in [ValueKind::Numeric, ValueKind::Boolean, ValueKind::String] {
        for value in [
            ConfigValue::Null,
            ConfigValue::Composite,
            ConfigValue::Boolean(true),
            ConfigValue::Int64(3),
            ConfigValue::UInt64(u64::MAX),
            ConfigValue::String("3".to_string()),
            ConfigValue::String("$default".to_string()),
        ] {
            let by_value = Value::try_from((kind, value.clone()));
            let by_reference = value.typed(kind);
            match (by_value, by_reference) {
                (Ok(a), Ok(b)) => assert!(a == b),
                (Err(a), Err(b)) => assert_eq!(format!("{a:?}"), format!("{b:?}")),
                other => panic!("{other:?}"),
            }
        }
    }
}
