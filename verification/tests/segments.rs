use appconfiguration::dictionary::Dictionary;
use appconfiguration::errors::EntityEvaluationError;
use appconfiguration::models::{
    ConfigValue, Operand, Segment, SegmentRule, Segments, TargetingRule,
};
use appconfiguration::segment_evaluation::{
    belong_to_segment, check_operator, check_rule, find_applicable_segment_rule_for_entity,
    segment_applies_to_entity, targeting_rule_applies_to_entity,
};
use appconfiguration::{Float64, Value};

fn operand(text: &str) -> Operand {
    Operand {
        text: text.to_string(),
        number: text.parse::<f64>().ok().map(|v| Float64::from_bits(v.to_bits())),
    }
}

fn float(v: f64) -> Value {
    Value::Float64(Float64::from_bits(v.to_bits()))
}

fn text(v: &str) -> Value {
    Value::String(v.to_string())
}

fn rule(attribute: &str, operator: &str, values: &[&str]) -> SegmentRule {
    SegmentRule {
        attribute_name: attribute.to_string(),
        operator: operator.to_string(),
        values: values.iter().map(|v| operand(v)).collect(),
    }
}

fn segment(id: &str, rules: Vec<SegmentRule>) -> Segment {
    Segment { segment_id: id.to_string(), rules }
}

fn attributes(pairs: Vec<(&str, Value)>) -> Dictionary<Value> {
    let mut out = Dictionary::new();
    for (name, value) in pairs {
        out.insert(name.to_string(), value);
    }
    out
}

fn segments(list: Vec<Segment>) -> Dictionary<Segment> {
    let mut out = Dictionary::new();
    for s in list {
        out.insert(s.segment_id.clone(), s);
    }
    out
}

fn targeting(order: u32, groups: &[&[&str]]) -> TargetingRule {
    TargetingRule {
        rules: groups
            .iter()
            .map(|g| Segments { segments: g.iter().map(|s| s.to_string()).collect() })
            .collect(),
        value: ConfigValue::Int64(order as i64),
        order,
        rollout_percentage: None,
    }
}

#[test]
fn equality_on_text_is_case_sensitive() {
    assert_eq!(check_operator(&text("gold"), "is", &operand("gold")), Ok(true));
    assert_eq!(check_operator(&text("gold"), "is", &operand("Gold")), Ok(false));
    assert_eq!(check_operator(&text("gold"), "isNot", &operand("gold")), Ok(false));
    assert_eq!(check_operator(&text("gold"), "isNot", &operand("silver")), Ok(true));
    assert_eq!(check_operator(&text("42"), "is", &operand("42")), Ok(true));
    assert_eq!(check_operator(&text("42"), "is", &operand("42.0")), Ok(false));
}

#[test]
fn equality_reads_the_operand_as_the_attribute_is_typed() {
    assert_eq!(check_operator(&Value::Int64(-3), "is", &operand("-3")), Ok(true));
    assert_eq!(check_operator(&Value::Int64(3), "is", &operand("+3")), Ok(true));
    assert_eq!(check_operator(&Value::Int64(3), "is", &operand("4")), Ok(false));
    assert_eq!(check_operator(&Value::Int64(3), "isNot", &operand("4")), Ok(true));
    assert_eq!(check_operator(&Value::UInt64(3), "is", &operand("3")), Ok(true));
    assert_eq!(check_operator(&Value::Boolean(true), "is", &operand("true")), Ok(true));
    assert_eq!(check_operator(&Value::Boolean(true), "is", &operand("false")), Ok(false));
    assert_eq!(check_operator(&float(1.5), "is", &operand("1.5")), Ok(true));
    assert_eq!(check_operator(&float(0.1), "is", &operand("0.1")), Ok(true));
    assert_eq!(check_operator(&float(1.5), "is", &operand("1.50")), Ok(true));
    assert_eq!(check_operator(&float(1.5), "isNot", &operand("2")), Ok(true));
    assert_eq!(check_operator(&float(f64::NAN), "is", &operand("NaN")), Ok(false));
}

#[test]
fn an_operand_that_cannot_be_typed_is_an_error() {
    let invalid = Err(EntityEvaluationError::InvalidOperand);
    assert_eq!(check_operator(&Value::Int64(3), "is", &operand("3.0")), invalid);
    assert_eq!(check_operator(&Value::Int64(3), "isNot", &operand("x")), invalid);
    assert_eq!(check_operator(&Value::UInt64(3), "is", &operand("-3")), invalid);
    assert_eq!(check_operator(&Value::Boolean(true), "is", &operand("yes")), invalid);
    assert_eq!(check_operator(&float(1.0), "is", &operand("one")), invalid);
    assert_eq!(check_operator(&Value::Int64(3), "greaterThan", &operand("")), invalid);
    assert_eq!(check_operator(&float(3.0), "lesserThan", &Operand::text_only("4")), invalid);
}

#[test]
fn substring_operators_are_about_text() {
    assert_eq!(check_operator(&text("premium"), "contains", &operand("emi")), Ok(true));
    assert_eq!(check_operator(&text("premium"), "contains", &operand("")), Ok(true));
    assert_eq!(check_operator(&text("premium"), "contains", &operand("EMI")), Ok(false));
    assert_eq!(check_operator(&text("premium"), "startsWith", &operand("pre")), Ok(true));
    assert_eq!(check_operator(&text("premium"), "startsWith", &operand("rem")), Ok(false));
    assert_eq!(check_operator(&text("premium"), "endsWith", &operand("ium")), Ok(true));
    assert_eq!(check_operator(&text("premium"), "endsWith", &operand("pre")), Ok(false));
    let expected = Err(EntityEvaluationError::StringExpected);
    assert_eq!(check_operator(&Value::Int64(1), "contains", &operand("1")), expected);
    assert_eq!(check_operator(&Value::Boolean(true), "startsWith", &operand("t")), expected);
    assert_eq!(check_operator(&float(1.0), "endsWith", &operand("0")), expected);
}

#[test]
fn order_operators_are_about_numbers() {
    let cases: [(&str, [bool; 3]); 4] = [
        ("lesserThan", [true, false, false]),
        ("lesserThanEquals", [true, true, false]),
        ("greaterThan", [false, false, true]),
        ("greaterThanEquals", [false, true, true]),
    ];
    for (operator, expected) in cases {
        for (i, attribute) in [1i64, 2, 3].iter().enumerate() {
            assert_eq!(
                check_operator(&Value::Int64(*attribute), operator, &operand("2")),
                Ok(expected[i])
            );
            assert_eq!(
                check_operator(&Value::UInt64(*attribute as u64), operator, &operand("2")),
                Ok(expected[i])
            );
            assert_eq!(
                check_operator(&float(*attribute as f64 + 0.5), operator, &operand("2.5")),
                Ok(expected[i])
            );
        }
        assert_eq!(check_operator(&float(f64::NAN), operator, &operand("2.5")), Ok(false));
        assert_eq!(
            check_operator(&text("2"), operator, &operand("2")),
            Err(EntityEvaluationError::NumberExpected)
        );
        assert_eq!(
            check_operator(&Value::Boolean(true), operator, &operand("2")),
            Err(EntityEvaluationError::NumberExpected)
        );
    }
    assert_eq!(check_operator(&Value::Int64(-5), "lesserThan", &operand("-4")), Ok(true));
    assert_eq!(check_operator(&float(-0.0), "lesserThan", &operand("0")), Ok(false));
    assert_eq!(check_operator(&float(-1e300), "lesserThan", &operand("-inf")), Ok(false));
}

#[test]
fn an_operator_that_is_not_known_is_an_error() {
    let expected = Err(EntityEvaluationError::OperatorNotImplemented);
    assert_eq!(check_operator(&text("a"), "matches", &operand("a")), expected);
    assert_eq!(check_operator(&text("a"), "", &operand("a")), expected);
    assert_eq!(check_operator(&text("a"), "IS", &operand("a")), expected);
    assert_eq!(check_operator(&Value::Int64(1), "lessThan", &operand("1")), expected);
}

#[test]
fn a_rule_holds_where_any_operand_does() {
    let tiers = rule("tier", "is", &["gold", "platinum"]);
    assert_eq!(check_rule(&tiers, &attributes(vec![("tier", text("platinum"))])), Ok(true));
    assert_eq!(check_rule(&tiers, &attributes(vec![("tier", text("gold"))])), Ok(true));
    assert_eq!(check_rule(&tiers, &attributes(vec![("tier", text("silver"))])), Ok(false));
    assert_eq!(check_rule(&rule("tier", "is", &[]), &attributes(vec![("tier", text(""))])), Ok(false));
}

#[test]
fn a_rule_on_an_absent_attribute_does_not_hold_and_is_no_error() {
    let tiers = rule("tier", "is", &["gold"]);
    assert_eq!(check_rule(&tiers, &attributes(vec![])), Ok(false));
    assert_eq!(check_rule(&tiers, &attributes(vec![("Tier", text("gold"))])), Ok(false));
    let unknown = rule("tier", "resembles", &["gold"]);
    assert_eq!(check_rule(&unknown, &attributes(vec![("age", Value::Int64(3))])), Ok(false));
}

#[test]
fn the_first_decisive_operand_decides_a_rule() {
    let ages = rule("age", "is", &["1", "x", "2"]);
    assert_eq!(check_rule(&ages, &attributes(vec![("age", Value::Int64(1))])), Ok(true));
    assert_eq!(
        check_rule(&ages, &attributes(vec![("age", Value::Int64(2))])),
        Err(EntityEvaluationError::InvalidOperand)
    );
}

#[test]
fn a_segment_holds_where_every_rule_does() {
    let adults_in_eu = segment(
        "s",
        vec![rule("region", "is", &["eu"]), rule("age", "greaterThanEquals", &["18"])],
    );
    let both = attributes(vec![("region", text("eu")), ("age", Value::Int64(18))]);
    let young = attributes(vec![("region", text("eu")), ("age", Value::Int64(17))]);
    let elsewhere = attributes(vec![("region", text("us")), ("age", Value::Int64(40))]);
    let no_age = attributes(vec![("region", text("eu"))]);
    assert_eq!(belong_to_segment(&adults_in_eu, &both), Ok(true));
    assert_eq!(belong_to_segment(&adults_in_eu, &young), Ok(false));
    assert_eq!(belong_to_segment(&adults_in_eu, &elsewhere), Ok(false));
    assert_eq!(belong_to_segment(&adults_in_eu, &no_age), Ok(false));
    assert_eq!(belong_to_segment(&segment("empty", vec![]), &attributes(vec![])), Ok(true));
    let text_age = attributes(vec![("region", text("eu")), ("age", text("18"))]);
    assert_eq!(
        belong_to_segment(&adults_in_eu, &text_age),
        Err(EntityEvaluationError::NumberExpected)
    );
    let text_age_elsewhere = attributes(vec![("region", text("us")), ("age", text("18"))]);
    assert_eq!(belong_to_segment(&adults_in_eu, &text_age_elsewhere), Ok(false));
}

#[test]
fn a_targeting_rule_applies_where_the_entity_is_in_any_segment() {
    let all = segments(vec![
        segment("gold", vec![rule("tier", "is", &["gold"])]),
        segment("eu", vec![rule("region", "is", &["eu"])]),
    ]);
    let gold = attributes(vec![("tier", text("gold")), ("region", text("us"))]);
    let european = attributes(vec![("tier", text("basic")), ("region", text("eu"))]);
    let neither = attributes(vec![("tier", text("basic")), ("region", text("us"))]);
    let one_group = targeting(1, &[&["gold", "eu"]]);
    let two_groups = targeting(1, &[&["gold"], &["eu"]]);
    for rule in [&one_group, &two_groups] {
        assert_eq!(targeting_rule_applies_to_entity(&all, rule, &gold), Ok(true));
        assert_eq!(targeting_rule_applies_to_entity(&all, rule, &european), Ok(true));
        assert_eq!(targeting_rule_applies_to_entity(&all, rule, &neither), Ok(false));
    }
    assert_eq!(targeting_rule_applies_to_entity(&all, &targeting(1, &[]), &gold), Ok(false));
    assert_eq!(targeting_rule_applies_to_entity(&all, &targeting(1, &[&[]]), &gold), Ok(false));
    let ids = vec!["gold".to_string(), "eu".to_string()];
    assert_eq!(segment_applies_to_entity(&all, &ids, &european), Ok(true));
}

#[test]
fn a_segment_that_is_not_at_hand_is_an_error() {
    let all = segments(vec![segment("gold", vec![rule("tier", "is", &["gold"])])]);
    let gold = attributes(vec![("tier", text("gold"))]);
    let basic = attributes(vec![("tier", text("basic"))]);
    let rule = targeting(1, &[&["gold", "missing"]]);
    assert_eq!(targeting_rule_applies_to_entity(&all, &rule, &gold), Ok(true));
    assert_eq!(
        targeting_rule_applies_to_entity(&all, &rule, &basic),
        Err(EntityEvaluationError::SegmentNotFound)
    );
}

#[test]
fn targeting_rules_are_taken_by_ascending_order() {
    let all = segments(vec![
        segment("gold", vec![rule("tier", "is", &["gold"])]),
        segment("eu", vec![rule("region", "is", &["eu"])]),
        segment("all", vec![]),
    ]);
    let rules = vec![
        targeting(30, &[&["all"]]),
        targeting(10, &[&["gold"]]),
        targeting(20, &[&["eu"]]),
    ];
    let gold_eu = attributes(vec![("tier", text("gold")), ("region", text("eu"))]);
    let eu = attributes(vec![("tier", text("basic")), ("region", text("eu"))]);
    let other = attributes(vec![("tier", text("basic")), ("region", text("us"))]);
    assert_eq!(find_applicable_segment_rule_for_entity(&all, &rules, &gold_eu), Ok(Some(1)));
    assert_eq!(find_applicable_segment_rule_for_entity(&all, &rules, &eu), Ok(Some(2)));
    assert_eq!(find_applicable_segment_rule_for_entity(&all, &rules, &other), Ok(Some(0)));
    let two = vec![targeting(2, &[&["eu"]]), targeting(1, &[&["gold"]])];
    assert_eq!(find_applicable_segment_rule_for_entity(&all, &two, &other), Ok(None));
    assert_eq!(find_applicable_segment_rule_for_entity(&all, &Vec::new(), &other), Ok(None));
    let same_order = vec![targeting(1, &[&["all"]]), targeting(1, &[&["gold"]])];
    assert_eq!(find_applicable_segment_rule_for_entity(&all, &same_order, &gold_eu), Ok(Some(0)));
}

#[test]
fn an_error_stops_the_search_only_where_it_is_reached() {
    let all = segments(vec![
        segment("gold", vec![rule("tier", "is", &["gold"])]),
        segment("odd", vec![rule("tier", "resembles", &["gold"])]),
    ]);
    let gold = attributes(vec![("tier", text("gold"))]);
    let basic = attributes(vec![("tier", text("basic"))]);
    let rules = vec![targeting(2, &[&["odd"]]), targeting(1, &[&["gold"]])];
    assert_eq!(find_applicable_segment_rule_for_entity(&all, &rules, &gold), Ok(Some(1)));
    assert_eq!(
        find_applicable_segment_rule_for_entity(&all, &rules, &basic),
        Err(EntityEvaluationError::OperatorNotImplemented)
    );
}
