//! Testing segments against the attributes of an entity, and finding the
//! targeting rule that applies to it.
use vstd::prelude::*;
use crate::decimal::parse_bool;
use crate::decimal::parse_i64;
use crate::decimal::parse_u64;
use crate::decimal::text_as_bool;
use crate::decimal::text_as_i64;
use crate::decimal::text_as_u64;
use crate::dictionary::Dictionary;
use crate::errors::EntityEvaluationError;
use crate::models::targeting_rule_views;
use crate::models::texts;
use crate::models::Operand;
use crate::models::OperandView;
use crate::models::Segment;
use crate::models::SegmentRule;
use crate::models::SegmentRuleView;
use crate::models::SegmentView;
use crate::models::TargetingRule;
use crate::models::TargetingRuleView;
use crate::text::contains;
use crate::text::ends_with;
use crate::text::occurs_in;
use crate::text::starts_with;
use crate::text::str_eq;
use crate::value::Value;
use crate::value::ValueView;

verus! {

/// The outcome of a test: it holds, it does not, or it cannot be made.
pub type Verdict = Result<bool, EntityEvaluationError>;

/// The attributes of an entity, by name.
pub type AttributesView = Map<Seq<char>, ValueView>;

/// The segments at hand, by id.
pub type SegmentsView = Map<Seq<char>, SegmentView>;

/// How a number stands to another.
#[derive(Clone, Copy, Debug, PartialEq, Eq, Structural)]
pub enum Relation {
    Less,
    Equal,
    Greater,
    /// One of the two is not a number.
    Unordered,
}

/// Tests taken in order until one is decisive: the disjunction holds with
/// the first test that holds, and cannot be made with the first that cannot.
pub open spec fn any_in_order(verdicts: Seq<Verdict>) -> Verdict
    decreases verdicts.len(),
{
    if verdicts.len() == 0 {
        Ok(false)
    } else if verdicts[0] == Ok::<bool, EntityEvaluationError>(false) {
        any_in_order(verdicts.skip(1))
    } else {
        verdicts[0]
    }
}

/// Tests taken in order until one is decisive: the conjunction fails with
/// the first test that fails, and cannot be made with the first that cannot.
pub open spec fn all_in_order(verdicts: Seq<Verdict>) -> Verdict
    decreases verdicts.len(),
{
    if verdicts.len() == 0 {
        Ok(true)
    } else if verdicts[0] == Ok::<bool, EntityEvaluationError>(true) {
        all_in_order(verdicts.skip(1))
    } else {
        verdicts[0]
    }
}

/// Tests that do not hold at the front of a disjunction can be left out.
pub proof fn lemma_any_in_order_skip(verdicts: Seq<Verdict>, n: int)
    requires
        0 <= n <= verdicts.len(),
        forall|j: int| 0 <= j < n ==> verdicts[j] == Ok::<bool, EntityEvaluationError>(false),
    ensures
        any_in_order(verdicts) == any_in_order(verdicts.skip(n)),
    decreases n,
{
    if n == 0 {
        assert(verdicts.skip(0) == verdicts);
    } else {
        lemma_any_in_order_skip(verdicts, n - 1);
        assert(verdicts.skip(n - 1)[0] == verdicts[n - 1]);
        assert(verdicts.skip(n - 1).skip(1) == verdicts.skip(n));
    }
}

/// Tests that hold at the front of a conjunction can be left out.
pub proof fn lemma_all_in_order_skip(verdicts: Seq<Verdict>, n: int)
    requires
        0 <= n <= verdicts.len(),
        forall|j: int| 0 <= j < n ==> verdicts[j] == Ok::<bool, EntityEvaluationError>(true),
    ensures
        all_in_order(verdicts) == all_in_order(verdicts.skip(n)),
    decreases n,
{
    if n == 0 {
        assert(verdicts.skip(0) == verdicts);
    } else {
        lemma_all_in_order_skip(verdicts, n - 1);
        assert(verdicts.skip(n - 1)[0] == verdicts[n - 1]);
        assert(verdicts.skip(n - 1).skip(1) == verdicts.skip(n));
    }
}

/// One of the tests holds.
pub open spec fn some_holds(verdicts: Seq<Verdict>) -> bool {
    exists|i: int|
        0 <= i < verdicts.len() && verdicts[i] == Ok::<bool, EntityEvaluationError>(true)
}

/// Every test holds.
pub open spec fn each_holds(verdicts: Seq<Verdict>) -> bool {
    forall|i: int|
        0 <= i < verdicts.len() ==> verdicts[i] == Ok::<bool, EntityEvaluationError>(true)
}

/// Where every test can be made, the disjunction holds exactly where one of
/// the tests holds.
pub proof fn law_any_in_order(verdicts: Seq<Verdict>)
    requires
        forall|i: int| 0 <= i < verdicts.len() ==> verdicts[i] is Ok,
    ensures
        any_in_order(verdicts) == Ok::<bool, EntityEvaluationError>(some_holds(verdicts)),
    decreases verdicts.len(),
{
    if verdicts.len() > 0 {
        let rest = verdicts.skip(1);
        law_any_in_order(rest);
        if verdicts[0] == Ok::<bool, EntityEvaluationError>(false) {
            if some_holds(rest) {
                let i = choose|i: int|
                    0 <= i < rest.len() && rest[i] == Ok::<bool, EntityEvaluationError>(true);
                assert(verdicts[i + 1] == rest[i]);
            }
            if some_holds(verdicts) {
                let i = choose|i: int|
                    0 <= i < verdicts.len() && verdicts[i] == Ok::<bool, EntityEvaluationError>(
                        true,
                    );
                assert(rest[i - 1] == verdicts[i]);
            }
        } else {
            assert(verdicts[0] == Ok::<bool, EntityEvaluationError>(verdicts[0]->Ok_0));
        }
    }
}

/// Where every test can be made, the conjunction holds exactly where each of
/// the tests holds.
pub proof fn law_all_in_order(verdicts: Seq<Verdict>)
    requires
        forall|i: int| 0 <= i < verdicts.len() ==> verdicts[i] is Ok,
    ensures
        all_in_order(verdicts) == Ok::<bool, EntityEvaluationError>(each_holds(verdicts)),
    decreases verdicts.len(),
{
    if verdicts.len() > 0 {
        let rest = verdicts.skip(1);
        law_all_in_order(rest);
        if verdicts[0] == Ok::<bool, EntityEvaluationError>(true) {
            if each_holds(rest) {
                assert forall|i: int| 0 <= i < verdicts.len() implies verdicts[i] == Ok::<
                    bool,
                    EntityEvaluationError,
                >(true) by {
                    if i > 0 {
                        assert(rest[i - 1] == verdicts[i]);
                    }
                }
            }
            if each_holds(verdicts) {
                assert forall|i: int| 0 <= i < rest.len() implies rest[i] == Ok::<
                    bool,
                    EntityEvaluationError,
                >(true) by {
                    assert(verdicts[i + 1] == rest[i]);
                }
            }
        } else {
            assert(verdicts[0] == Ok::<bool, EntityEvaluationError>(verdicts[0]->Ok_0));
        }
    }
}

/// How the attribute stands to the operand, both taken as numbers of the
/// attribute's type.
pub open spec fn relation(attribute: ValueView, operand: OperandView) -> Result<
    Relation,
    EntityEvaluationError,
> {
    match attribute {
        ValueView::Int64(a) => match text_as_i64(operand.text) {
            Some(b) => Ok(
                if a < b {
                    Relation::Less
                } else if a == b {
                    Relation::Equal
                } else {
                    Relation::Greater
                },
            ),
            None => Err(EntityEvaluationError::InvalidOperand),
        },
        ValueView::UInt64(a) => match text_as_u64(operand.text) {
            Some(b) => Ok(
                if a < b {
                    Relation::Less
                } else if a == b {
                    Relation::Equal
                } else {
                    Relation::Greater
                },
            ),
            None => Err(EntityEvaluationError::InvalidOperand),
        },
        ValueView::Float64(a) => match operand.number {
            Some(b) => Ok(
                if a.below(b) {
                    Relation::Less
                } else if a.same_number(b) {
                    Relation::Equal
                } else if b.below(a) {
                    Relation::Greater
                } else {
                    Relation::Unordered
                },
            ),
            None => Err(EntityEvaluationError::InvalidOperand),
        },
        _ => Err(EntityEvaluationError::NumberExpected),
    }
}

/// Whether the attribute is the operand, the operand read as a value of the
/// attribute's type. Strings are compared character by character.
pub open spec fn is_operand(attribute: ValueView, operand: OperandView) -> Verdict {
    match attribute {
        ValueView::String(a) => Ok(a == operand.text),
        ValueView::Boolean(a) => match text_as_bool(operand.text) {
            Some(b) => Ok(a == b),
            None => Err(EntityEvaluationError::InvalidOperand),
        },
        _ => match relation(attribute, operand) {
            Ok(r) => Ok(r == Relation::Equal),
            Err(e) => Err(e),
        },
    }
}

/// The attribute as text, for the operators that are about text.
pub open spec fn text_of(attribute: ValueView) -> Result<Seq<char>, EntityEvaluationError> {
    match attribute {
        ValueView::String(a) => Ok(a),
        _ => Err(EntityEvaluationError::StringExpected),
    }
}

/// Whether the attribute satisfies the operator against one operand.
pub open spec fn satisfies(
    attribute: ValueView,
    operator: Seq<char>,
    operand: OperandView,
) -> Verdict {
    if operator == "is"@ {
        is_operand(attribute, operand)
    } else if operator == "isNot"@ {
        match is_operand(attribute, operand) {
            Ok(b) => Ok(!b),
            Err(e) => Err(e),
        }
    } else if operator == "contains"@ {
        match text_of(attribute) {
            Ok(a) => Ok(occurs_in(operand.text, a)),
            Err(e) => Err(e),
        }
    } else if operator == "startsWith"@ {
        match text_of(attribute) {
            Ok(a) => Ok(operand.text.is_prefix_of(a)),
            Err(e) => Err(e),
        }
    } else if operator == "endsWith"@ {
        match text_of(attribute) {
            Ok(a) => Ok(operand.text.is_suffix_of(a)),
            Err(e) => Err(e),
        }
    } else if operator == "lesserThan"@ {
        match relation(attribute, operand) {
            Ok(r) => Ok(r == Relation::Less),
            Err(e) => Err(e),
        }
    } else if operator == "lesserThanEquals"@ {
        match relation(attribute, operand) {
            Ok(r) => Ok(r == Relation::Less || r == Relation::Equal),
            Err(e) => Err(e),
        }
    } else if operator == "greaterThan"@ {
        match relation(attribute, operand) {
            Ok(r) => Ok(r == Relation::Greater),
            Err(e) => Err(e),
        }
    } else if operator == "greaterThanEquals"@ {
        match relation(attribute, operand) {
            Ok(r) => Ok(r == Relation::Greater || r == Relation::Equal),
            Err(e) => Err(e),
        }
    } else {
        Err(EntityEvaluationError::OperatorNotImplemented)
    }
}

/// The verdict of each operand of a rule, for an attribute that is there.
pub open spec fn operand_verdicts(
    attribute: ValueView,
    operator: Seq<char>,
    operands: Seq<OperandView>,
) -> Seq<Verdict> {
    operands.map_values(|o: OperandView| satisfies(attribute, operator, o))
}

/// Whether the entity satisfies a rule: its attribute is there, and any
/// operand satisfies the operator.
pub open spec fn rule_matches(rule: SegmentRuleView, attributes: AttributesView) -> Verdict {
    if attributes.contains_key(rule.attribute_name) {
        any_in_order(
            operand_verdicts(attributes[rule.attribute_name], rule.operator, rule.values),
        )
    } else {
        Ok(false)
    }
}

pub open spec fn rule_verdicts(rules: Seq<SegmentRuleView>, attributes: AttributesView) -> Seq<
    Verdict,
> {
    rules.map_values(|r: SegmentRuleView| rule_matches(r, attributes))
}

/// Whether the entity belongs to a segment: it satisfies every rule.
pub open spec fn belongs_to(segment: SegmentView, attributes: AttributesView) -> Verdict {
    all_in_order(rule_verdicts(segment.rules, attributes))
}

/// Whether the entity belongs to the segment of the given id.
pub open spec fn belongs_to_id(
    segments: SegmentsView,
    id: Seq<char>,
    attributes: AttributesView,
) -> Verdict {
    if segments.contains_key(id) {
        belongs_to(segments[id], attributes)
    } else {
        Err(EntityEvaluationError::SegmentNotFound)
    }
}

pub open spec fn id_verdicts(
    segments: SegmentsView,
    ids: Seq<Seq<char>>,
    attributes: AttributesView,
) -> Seq<Verdict> {
    ids.map_values(|id: Seq<char>| belongs_to_id(segments, id, attributes))
}

/// Whether the entity belongs to any segment of a group.
pub open spec fn belongs_to_any(
    segments: SegmentsView,
    ids: Seq<Seq<char>>,
    attributes: AttributesView,
) -> Verdict {
    any_in_order(id_verdicts(segments, ids, attributes))
}

pub open spec fn group_verdicts(
    segments: SegmentsView,
    groups: Seq<Seq<Seq<char>>>,
    attributes: AttributesView,
) -> Seq<Verdict> {
    groups.map_values(|ids: Seq<Seq<char>>| belongs_to_any(segments, ids, attributes))
}

/// Whether a targeting rule applies to the entity: the entity belongs to any
/// segment of any of its groups.
pub open spec fn applies(
    segments: SegmentsView,
    rule: TargetingRuleView,
    attributes: AttributesView,
) -> Verdict {
    any_in_order(group_verdicts(segments, rule.rules, attributes))
}

/// Rule `i` is looked at before rule `j`: its order is smaller, or the
/// orders are the same and it stands earlier in the list.
pub open spec fn goes_before(rules: Seq<TargetingRuleView>, i: int, j: int) -> bool {
    rules[i].order < rules[j].order || (rules[i].order == rules[j].order && i < j)
}

/// Where no two rules share their order, the rules are looked at by
/// ascending order, whatever their places in the list.
pub proof fn law_ascending_order(rules: Seq<TargetingRuleView>, i: int, j: int)
    requires
        0 <= i < rules.len(),
        0 <= j < rules.len(),
        forall|a: int, b: int|
            0 <= a < rules.len() && 0 <= b < rules.len() && a != b ==> (#[trigger] rules[a]).order
                != (#[trigger] rules[b]).order,
    ensures
        goes_before(rules, i, j) == (rules[i].order < rules[j].order),
{
}

/// Rule `i` decides: it applies or cannot be tested, and every rule looked
/// at before it does not apply.
pub open spec fn decides(
    segments: SegmentsView,
    rules: Seq<TargetingRuleView>,
    attributes: AttributesView,
    i: int,
) -> bool {
    &&& 0 <= i < rules.len()
    &&& applies(segments, rules[i], attributes) != Ok::<bool, EntityEvaluationError>(false)
    &&& forall|j: int|
        0 <= j < rules.len() && goes_before(rules, j, i) ==> #[trigger] applies(
            segments,
            rules[j],
            attributes,
        ) == Ok::<bool, EntityEvaluationError>(false)
}

/// The position of the rule that applies to the entity, the rules taken by
/// ascending order; `None` where no rule applies.
pub open spec fn applicable_rule(
    segments: SegmentsView,
    rules: Seq<TargetingRuleView>,
    attributes: AttributesView,
) -> Result<Option<int>, EntityEvaluationError> {
    if exists|i: int| decides(segments, rules, attributes, i) {
        let i = choose|i: int| decides(segments, rules, attributes, i);
        match applies(segments, rules[i], attributes) {
            Ok(_) => Ok(Some(i)),
            Err(e) => Err(e),
        }
    } else {
        Ok(None)
    }
}

/// At most one rule decides.
pub proof fn lemma_decides_once(
    segments: SegmentsView,
    rules: Seq<TargetingRuleView>,
    attributes: AttributesView,
    i: int,
    j: int,
)
    requires
        decides(segments, rules, attributes, i),
        decides(segments, rules, attributes, j),
    ensures
        i == j,
{
    if i != j {
        assert(goes_before(rules, i, j) || goes_before(rules, j, i));
    }
}

/// Compares a numeric attribute with an operand.
fn compare_to_operand(attribute: &Value, operand: &Operand) -> (r: Result<
    Relation,
    EntityEvaluationError,
>)
    ensures
        r == relation(attribute@, operand@),
{
    match attribute {
        Value::Int64(a) => match parse_i64(operand.text.as_str()) {
            Some(b) => Ok(
                if *a < b {
                    Relation::Less
                } else if *a == b {
                    Relation::Equal
                } else {
                    Relation::Greater
                },
            ),
            None => Err(EntityEvaluationError::InvalidOperand),
        },
        Value::UInt64(a) => match parse_u64(operand.text.as_str()) {
            Some(b) => Ok(
                if *a < b {
                    Relation::Less
                } else if *a == b {
                    Relation::Equal
                } else {
                    Relation::Greater
                },
            ),
            None => Err(EntityEvaluationError::InvalidOperand),
        },
        Value::Float64(a) => match operand.number {
            Some(b) => Ok(
                if a.is_less_than(b) {
                    Relation::Less
                } else if a.is_equal_to(b) {
                    Relation::Equal
                } else if b.is_less_than(*a) {
                    Relation::Greater
                } else {
                    Relation::Unordered
                },
            ),
            None => Err(EntityEvaluationError::InvalidOperand),
        },
        _ => Err(EntityEvaluationError::NumberExpected),
    }
}

/// Tests whether an attribute is an operand.
fn equals_operand(attribute: &Value, operand: &Operand) -> (r: Verdict)
    ensures
        r == is_operand(attribute@, operand@),
{
    match attribute {
        Value::String(a) => Ok(str_eq(a.as_str(), operand.text.as_str())),
        Value::Boolean(a) => match parse_bool(operand.text.as_str()) {
            Some(b) => Ok(*a == b),
            None => Err(EntityEvaluationError::InvalidOperand),
        },
        _ => match compare_to_operand(attribute, operand) {
            Ok(r) => Ok(r == Relation::Equal),
            Err(e) => Err(e),
        },
    }
}

/// Tests whether an attribute satisfies an operator against one operand.
///
/// The operators are `is`, `isNot`, `contains`, `startsWith`, `endsWith`,
/// `lesserThan`, `lesserThanEquals`, `greaterThan` and `greaterThanEquals`.
pub fn check_operator(attribute: &Value, operator: &str, operand: &Operand) -> (r: Verdict)
    ensures
        r == satisfies(attribute@, operator@, operand@),
{
    if str_eq(operator, "is") {
        equals_operand(attribute, operand)
    } else if str_eq(operator, "isNot") {
        match equals_operand(attribute, operand) {
            Ok(b) => Ok(!b),
            Err(e) => Err(e),
        }
    } else if str_eq(operator, "contains") {
        match attribute {
            Value::String(a) => Ok(contains(a.as_str(), operand.text.as_str())),
            _ => Err(EntityEvaluationError::StringExpected),
        }
    } else if str_eq(operator, "startsWith") {
        match attribute {
            Value::String(a) => Ok(starts_with(a.as_str(), operand.text.as_str())),
            _ => Err(EntityEvaluationError::StringExpected),
        }
    } else if str_eq(operator, "endsWith") {
        match attribute {
            Value::String(a) => Ok(ends_with(a.as_str(), operand.text.as_str())),
            _ => Err(EntityEvaluationError::StringExpected),
        }
    } else if str_eq(operator, "lesserThan") {
        match compare_to_operand(attribute, operand) {
            Ok(r) => Ok(r == Relation::Less),
            Err(e) => Err(e),
        }
    } else if str_eq(operator, "lesserThanEquals") {
        match compare_to_operand(attribute, operand) {
            Ok(r) => Ok(r == Relation::Less || r == Relation::Equal),
            Err(e) => Err(e),
        }
    } else if str_eq(operator, "greaterThan") {
        match compare_to_operand(attribute, operand) {
            Ok(r) => Ok(r == Relation::Greater),
            Err(e) => Err(e),
        }
    } else if str_eq(operator, "greaterThanEquals") {
        match compare_to_operand(attribute, operand) {
            Ok(r) => Ok(r == Relation::Greater || r == Relation::Equal),
            Err(e) => Err(e),
        }
    } else {
        Err(EntityEvaluationError::OperatorNotImplemented)
    }
}

/// Tests whether the attributes of an entity satisfy a rule of a segment.
pub fn check_rule(rule: &SegmentRule, attributes: &Dictionary<Value>) -> (r: Verdict)
    ensures
        r == rule_matches(rule@, attributes@),
{
    match attributes.get(rule.attribute_name.as_str()) {
        None => Ok(false),
        Some(attribute) => {
            let ghost verdicts = operand_verdicts(attribute@, rule@.operator, rule@.values);
            let mut i: usize = 0;
            while i < rule.values.len()
                invariant
                    i <= rule.values@.len(),
                    attributes@.contains_key(rule@.attribute_name),
                    attribute@ == attributes@[rule@.attribute_name],
                    verdicts == operand_verdicts(attribute@, rule@.operator, rule@.values),
                    forall|j: int|
                        0 <= j < i ==> verdicts[j] == Ok::<bool, EntityEvaluationError>(false),
                decreases rule.values.len() - i,
            {
                let verdict = check_operator(attribute, rule.operator.as_str(), &rule.values[i]);
                assert(verdict == verdicts[i as int]);
                match verdict {
                    Ok(false) => {},
                    _ => {
                        proof {
                            lemma_any_in_order_skip(verdicts, i as int);
                            assert(verdicts.skip(i as int)[0] == verdicts[i as int]);
                        }
                        return verdict;
                    },
                }
                i += 1;
            }
            proof {
                lemma_any_in_order_skip(verdicts, i as int);
            }
            Ok(false)
        },
    }
}

/// Tests whether an entity with the given attributes belongs to a segment.
pub fn belong_to_segment(segment: &Segment, attributes: &Dictionary<Value>) -> (r: Verdict)
    ensures
        r == belongs_to(segment@, attributes@),
{
    let ghost verdicts = rule_verdicts(segment@.rules, attributes@);
    let mut i: usize = 0;
    while i < segment.rules.len()
        invariant
            i <= segment.rules@.len(),
            verdicts == rule_verdicts(segment@.rules, attributes@),
            forall|j: int| 0 <= j < i ==> verdicts[j] == Ok::<bool, EntityEvaluationError>(true),
        decreases segment.rules.len() - i,
    {
        let verdict = check_rule(&segment.rules[i], attributes);
        assert(verdict == verdicts[i as int]);
        match verdict {
            Ok(true) => {},
            _ => {
                proof {
                    lemma_all_in_order_skip(verdicts, i as int);
                    assert(verdicts.skip(i as int)[0] == verdicts[i as int]);
                }
                return verdict;
            },
        }
        i += 1;
    }
    proof {
        lemma_all_in_order_skip(verdicts, i as int);
    }
    Ok(true)
}

/// Tests whether an entity belongs to any of the segments named.
pub fn segment_applies_to_entity(
    segments: &Dictionary<Segment>,
    segment_ids: &Vec<String>,
    attributes: &Dictionary<Value>,
) -> (r: Verdict)
    ensures
        r == belongs_to_any(segments@, texts(segment_ids@), attributes@),
{
    let ghost verdicts = id_verdicts(segments@, texts(segment_ids@), attributes@);
    let mut i: usize = 0;
    while i < segment_ids.len()
        invariant
            i <= segment_ids@.len(),
            verdicts == id_verdicts(segments@, texts(segment_ids@), attributes@),
            forall|j: int| 0 <= j < i ==> verdicts[j] == Ok::<bool, EntityEvaluationError>(false),
        decreases segment_ids.len() - i,
    {
        let verdict = match segments.get(segment_ids[i].as_str()) {
            Some(segment) => belong_to_segment(segment, attributes),
            None => Err(EntityEvaluationError::SegmentNotFound),
        };
        assert(verdict == verdicts[i as int]);
        match verdict {
            Ok(false) => {},
            _ => {
                proof {
                    lemma_any_in_order_skip(verdicts, i as int);
                    assert(verdicts.skip(i as int)[0] == verdicts[i as int]);
                }
                return verdict;
            },
        }
        i += 1;
    }
    proof {
        lemma_any_in_order_skip(verdicts, i as int);
    }
    Ok(false)
}

/// Tests whether a targeting rule applies to an entity.
pub fn targeting_rule_applies_to_entity(
    segments: &Dictionary<Segment>,
    targeting_rule: &TargetingRule,
    attributes: &Dictionary<Value>,
) -> (r: Verdict)
    ensures
        r == applies(segments@, targeting_rule@, attributes@),
{
    let ghost verdicts = group_verdicts(segments@, targeting_rule@.rules, attributes@);
    let mut i: usize = 0;
    while i < targeting_rule.rules.len()
        invariant
            i <= targeting_rule.rules@.len(),
            verdicts == group_verdicts(segments@, targeting_rule@.rules, attributes@),
            forall|j: int| 0 <= j < i ==> verdicts[j] == Ok::<bool, EntityEvaluationError>(false),
        decreases targeting_rule.rules.len() - i,
    {
        let verdict = segment_applies_to_entity(
            segments,
            &targeting_rule.rules[i].segments,
            attributes,
        );
        assert(verdict == verdicts[i as int]);
        match verdict {
            Ok(false) => {},
            _ => {
                proof {
                    lemma_any_in_order_skip(verdicts, i as int);
                    assert(verdicts.skip(i as int)[0] == verdicts[i as int]);
                }
                return verdict;
            },
        }
        i += 1;
    }
    proof {
        lemma_any_in_order_skip(verdicts, i as int);
    }
    Ok(false)
}

/// Position `j` occurs in `order`.
spec fn listed(order: Seq<usize>, j: int) -> bool {
    exists|p: int| 0 <= p < order.len() && #[trigger] order[p] == j
}

/// The positions of the rules in the order in which they are looked at.
fn ascending(rules: &Vec<TargetingRule>) -> (order: Vec<usize>)
    ensures
        order@.len() == rules@.len(),
        forall|p: int| 0 <= p < order@.len() ==> (#[trigger] order@[p]) < rules@.len(),
        forall|j: int| 0 <= j < rules@.len() ==> #[trigger] listed(order@, j),
        forall|p: int, q: int|
            0 <= p < q < order@.len() ==> goes_before(
                targeting_rule_views(rules@),
                #[trigger] order@[p] as int,
                #[trigger] order@[q] as int,
            ),
{
    let ghost views = targeting_rule_views(rules@);
    let mut order: Vec<usize> = Vec::new();
    let mut i: usize = 0;
    while i < rules.len()
        invariant
            i <= rules@.len(),
            views == targeting_rule_views(rules@),
            order@.len() == i,
            forall|p: int| 0 <= p < order@.len() ==> (#[trigger] order@[p]) < i,
            forall|j: int| 0 <= j < i ==> #[trigger] listed(order@, j),
            forall|p: int, q: int|
                0 <= p < q < order@.len() ==> goes_before(
                    views,
                    #[trigger] order@[p] as int,
                    #[trigger] order@[q] as int,
                ),
        decreases rules.len() - i,
    {
        let mut at: usize = 0;
        while at < order.len() && rules[order[at]].order <= rules[i].order
            invariant
                at <= order@.len(),
                i < rules@.len(),
                views == targeting_rule_views(rules@),
                forall|p: int| 0 <= p < order@.len() ==> (#[trigger] order@[p]) < i,
                forall|p: int|
                    0 <= p < at ==> rules@[(#[trigger] order@[p]) as int].order
                        <= rules@[i as int].order,
            decreases order.len() - at,
        {
            at += 1;
        }
        let ghost before = order@;
        order.insert(at, i);
        proof {
            let after = order@;
            assert forall|p: int| 0 <= p < after.len() implies (#[trigger] after[p]) < i + 1 by {
                if p < at {
                    assert(after[p] == before[p]);
                } else if p > at {
                    assert(after[p] == before[p - 1]);
                }
            }
            assert forall|j: int| 0 <= j < i + 1 implies #[trigger] listed(after, j) by {
                if j == i {
                    assert(after[at as int] == j);
                } else {
                    assert(listed(before, j));
                    let p = choose|p: int| 0 <= p < before.len() && #[trigger] before[p] == j;
                    if p < at {
                        assert(after[p] == j);
                    } else {
                        assert(after[p + 1] == j);
                    }
                }
            }
            assert forall|p: int, q: int| 0 <= p < q < after.len() implies goes_before(
                views,
                #[trigger] after[p] as int,
                #[trigger] after[q] as int,
            ) by {
                let a = if p < at {
                    p
                } else {
                    p - 1
                };
                let b = if q < at {
                    q
                } else {
                    q - 1
                };
                if p != at {
                    assert(after[p] == before[a]);
                }
                if q != at {
                    assert(after[q] == before[b]);
                }
                if p == at {
                    assert(before[b] < i);
                    if at < before.len() {
                        assert(views[before[at as int] as int].order > views[i as int].order);
                        if b > at {
                            assert(goes_before(views, before[at as int] as int, before[b] as int));
                        }
                    }
                } else if q == at {
                    assert(before[a] < i);
                    assert(views[before[a] as int].order <= views[i as int].order);
                }
            }
        }
        i += 1;
    }
    order
}

/// A position in a list, as a mathematical integer.
pub open spec fn position_view(r: Result<Option<usize>, EntityEvaluationError>) -> Result<
    Option<int>,
    EntityEvaluationError,
> {
    match r {
        Ok(Some(i)) => Ok(Some(i as int)),
        Ok(None) => Ok(None),
        Err(e) => Err(e),
    }
}

/// Finds the targeting rule that applies to an entity, the rules taken by
/// ascending order, and returns its position in the list.
pub fn find_applicable_segment_rule_for_entity(
    segments: &Dictionary<Segment>,
    segment_rules: &Vec<TargetingRule>,
    attributes: &Dictionary<Value>,
) -> (r: Result<Option<usize>, EntityEvaluationError>)
    ensures
        position_view(r) == applicable_rule(
            segments@,
            targeting_rule_views(segment_rules@),
            attributes@,
        ),
        r matches Ok(Some(i)) ==> i < segment_rules@.len(),
{
    let ghost views = targeting_rule_views(segment_rules@);
    let order = ascending(segment_rules);
    let mut k: usize = 0;
    while k < order.len()
        invariant
            k <= order@.len(),
            views == targeting_rule_views(segment_rules@),
            order@.len() == segment_rules@.len(),
            forall|p: int| 0 <= p < order@.len() ==> (#[trigger] order@[p]) < segment_rules@.len(),
            forall|j: int| 0 <= j < segment_rules@.len() ==> #[trigger] listed(order@, j),
            forall|p: int, q: int|
                0 <= p < q < order@.len() ==> goes_before(
                    views,
                    #[trigger] order@[p] as int,
                    #[trigger] order@[q] as int,
                ),
            forall|p: int|
                0 <= p < k ==> applies(segments@, views[(#[trigger] order@[p]) as int], attributes@)
                    == Ok::<bool, EntityEvaluationError>(false),
        decreases order.len() - k,
    {
        let i: usize = order[k];
        let verdict = targeting_rule_applies_to_entity(segments, &segment_rules[i], attributes);
        assert(verdict == applies(segments@, views[i as int], attributes@));
        match verdict {
            Ok(false) => {},
            _ => {
                proof {
                    assert forall|j: int|
                        0 <= j < views.len() && goes_before(views, j, i as int) implies #[trigger] applies(
                        segments@,
                        views[j],
                        attributes@,
                    ) == Ok::<bool, EntityEvaluationError>(false) by {
                        assert(listed(order@, j));
                        let p = choose|p: int| 0 <= p < order@.len() && #[trigger] order@[p] == j;
                        if p > k {
                            assert(goes_before(views, order@[k as int] as int, order@[p] as int));
                        }
                    }
                    assert(decides(segments@, views, attributes@, i as int));
                    let c = choose|c: int| decides(segments@, views, attributes@, c);
                    lemma_decides_once(segments@, views, attributes@, i as int, c);
                }
                return match verdict {
                    Ok(_) => Ok(Some(i)),
                    Err(e) => Err(e),
                };
            },
        }
        k += 1;
    }
    proof {
        assert forall|c: int| !decides(segments@, views, attributes@, c) by {
            if 0 <= c < views.len() {
                assert(listed(order@, c));
                let p = choose|p: int| 0 <= p < order@.len() && #[trigger] order@[p] == c;
                assert(applies(segments@, views[order@[p] as int], attributes@) == Ok::<
                    bool,
                    EntityEvaluationError,
                >(false));
            }
        }
    }
    Ok(None)
}

} // verus!
