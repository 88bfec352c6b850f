//! What a catalog asks of each feature and property: that the segments its
//! targeting rules name are there, that no two rules share their order, and
//! that rollout percentages are percentages.
use vstd::prelude::*;
use crate::dictionary::Dictionary;
use crate::errors::ConfigurationAccessError;
use crate::errors::Error;
use crate::errors::ProtocolViolation;
use crate::models::group_views;
use crate::models::targeting_rule_views;
use crate::models::texts;
use crate::models::ConfigValue;
use crate::models::ConfigValueView;
use crate::models::Feature;
use crate::models::FeatureView;
use crate::models::Property;
use crate::models::PropertyView;
use crate::models::Segment;
use crate::models::TargetingRule;
use crate::models::TargetingRuleView;
use crate::segment_evaluation::applicable_rule;
use crate::segment_evaluation::applies;
use crate::segment_evaluation::belongs_to_any;
use crate::segment_evaluation::belongs_to_id;
use crate::segment_evaluation::decides;
use crate::segment_evaluation::group_verdicts;
use crate::segment_evaluation::id_verdicts;
use crate::segment_evaluation::lemma_decides_once;
use crate::segment_evaluation::AttributesView;
use crate::segment_evaluation::SegmentsView;

verus! {

/// The segment ids of the groups of one targeting rule, in order.
pub open spec fn group_ids(groups: Seq<Seq<Seq<char>>>) -> Seq<Seq<char>>
    decreases groups.len(),
{
    if groups.len() == 0 {
        Seq::empty()
    } else {
        group_ids(groups.drop_last()) + groups.last()
    }
}

/// The segment ids that the targeting rules of a resource name, in order;
/// an id named twice is listed twice.
pub open spec fn named_ids(rules: Seq<TargetingRuleView>) -> Seq<Seq<char>>
    decreases rules.len(),
{
    if rules.len() == 0 {
        Seq::empty()
    } else {
        named_ids(rules.drop_last()) + group_ids(rules.last().rules)
    }
}

/// The set of the segment ids that the targeting rules name.
pub open spec fn named_set(rules: Seq<TargetingRuleView>) -> Set<Seq<char>> {
    named_ids(rules).to_set()
}

/// Every id of every group is among the ids of the groups.
pub proof fn lemma_group_ids_contains(groups: Seq<Seq<Seq<char>>>, g: int, k: int)
    requires
        0 <= g < groups.len(),
        0 <= k < groups[g].len(),
    ensures
        group_ids(groups).contains(groups[g][k]),
    decreases groups.len(),
{
    let front = group_ids(groups.drop_last());
    if g == groups.len() - 1 {
        assert((front + groups.last())[front.len() + k] == groups[g][k]);
    } else {
        lemma_group_ids_contains(groups.drop_last(), g, k);
        let at = choose|at: int| 0 <= at < front.len() && front[at] == groups[g][k];
        assert((front + groups.last())[at] == groups[g][k]);
    }
}

/// Every id of every rule is among the ids that the rules name.
pub proof fn lemma_named_ids_contains(rules: Seq<TargetingRuleView>, i: int, id: Seq<char>)
    requires
        0 <= i < rules.len(),
        group_ids(rules[i].rules).contains(id),
    ensures
        named_ids(rules).contains(id),
    decreases rules.len(),
{
    let front = named_ids(rules.drop_last());
    let back = group_ids(rules.last().rules);
    if i == rules.len() - 1 {
        let at = choose|at: int| 0 <= at < back.len() && back[at] == id;
        assert((front + back)[front.len() + at] == id);
    } else {
        lemma_named_ids_contains(rules.drop_last(), i, id);
        let at = choose|at: int| 0 <= at < front.len() && front[at] == id;
        assert((front + back)[at] == id);
    }
}

/// Two sets of segments hold the same for the given id.
pub open spec fn same_at(a: SegmentsView, b: SegmentsView, id: Seq<char>) -> bool {
    a.contains_key(id) == b.contains_key(id) && (a.contains_key(id) ==> a[id] == b[id])
}

/// Whether a targeting rule applies depends on the segments that it names
/// and on no others.
pub proof fn lemma_applies_reads_named(
    a: SegmentsView,
    b: SegmentsView,
    rule: TargetingRuleView,
    attributes: AttributesView,
)
    requires
        forall|id: Seq<char>| group_ids(rule.rules).contains(id) ==> same_at(a, b, id),
    ensures
        applies(a, rule, attributes) == applies(b, rule, attributes),
{
    assert(group_verdicts(a, rule.rules, attributes) =~= group_verdicts(b, rule.rules, attributes))
        by {
        assert forall|g: int| 0 <= g < rule.rules.len() implies belongs_to_any(
            a,
            rule.rules[g],
            attributes,
        ) == belongs_to_any(b, rule.rules[g], attributes) by {
            let ids = rule.rules[g];
            assert(id_verdicts(a, ids, attributes) =~= id_verdicts(b, ids, attributes)) by {
                assert forall|k: int| 0 <= k < ids.len() implies belongs_to_id(
                    a,
                    ids[k],
                    attributes,
                ) == belongs_to_id(b, ids[k], attributes) by {
                    lemma_group_ids_contains(rule.rules, g, k);
                    assert(same_at(a, b, ids[k]));
                }
            }
        }
    }
}

/// Which targeting rule applies depends on the segments that the rules name
/// and on no others.
pub proof fn lemma_applicable_rule_reads_named(
    a: SegmentsView,
    b: SegmentsView,
    rules: Seq<TargetingRuleView>,
    attributes: AttributesView,
)
    requires
        forall|id: Seq<char>| named_ids(rules).contains(id) ==> same_at(a, b, id),
    ensures
        applicable_rule(a, rules, attributes) == applicable_rule(b, rules, attributes),
{
    assert forall|i: int|
        #![trigger applies(a, rules[i], attributes)]
        #![trigger applies(b, rules[i], attributes)]
        0 <= i < rules.len() implies applies(a, rules[i], attributes) == applies(
        b,
        rules[i],
        attributes,
    ) by {
        assert forall|id: Seq<char>| group_ids(rules[i].rules).contains(id) implies same_at(
            a,
            b,
            id,
        ) by {
            lemma_named_ids_contains(rules, i, id);
        }
        lemma_applies_reads_named(a, b, rules[i], attributes);
    }
    assert forall|i: int| decides(a, rules, attributes, i) == decides(b, rules, attributes, i) by {
        if 0 <= i < rules.len() {
            assert(applies(a, rules[i], attributes) == applies(b, rules[i], attributes));
        }
    }
    if exists|i: int| decides(a, rules, attributes, i) {
        let i = choose|i: int| decides(a, rules, attributes, i);
        assert(decides(b, rules, attributes, i));
        let j = choose|j: int| decides(b, rules, attributes, j);
        lemma_decides_once(a, rules, attributes, i, j);
    }
}

/// A set of segments, cut down to the ids that the rules name, serves the
/// rules as the whole set does.
pub proof fn lemma_named_segments_suffice(
    segments: SegmentsView,
    rules: Seq<TargetingRuleView>,
    attributes: AttributesView,
)
    ensures
        applicable_rule(segments.restrict(named_set(rules)), rules, attributes) == applicable_rule(
            segments,
            rules,
            attributes,
        ),
{
    lemma_applicable_rule_reads_named(
        segments.restrict(named_set(rules)),
        segments,
        rules,
        attributes,
    );
}

/// No two targeting rules share their order.
pub open spec fn orders_distinct(rules: Seq<TargetingRuleView>) -> bool {
    forall|i: int, j: int|
        0 <= i < rules.len() && 0 <= j < rules.len() && i != j ==> (#[trigger] rules[i]).order != (
        #[trigger] rules[j]).order
}

/// A rollout percentage of a targeting rule is absent, defers to the
/// resource, or is an integer from 0 to 100.
pub open spec fn percentage_valid(percentage: Option<ConfigValueView>) -> bool {
    match percentage {
        None => true,
        Some(v) => v.is_default() || (v.as_u64() is Some && v.as_u64()->0 <= 100),
    }
}

/// The rollout percentages of a feature and of its rules are percentages.
pub open spec fn rollouts_valid(feature: FeatureView) -> bool {
    &&& feature.rollout_percentage <= 100
    &&& forall|i: int|
        0 <= i < feature.segment_rules.len() ==> percentage_valid(
            (#[trigger] feature.segment_rules[i]).rollout_percentage,
        )
}

/// Every segment that the targeting rules name is at hand.
pub open spec fn segments_resolve(rules: Seq<TargetingRuleView>, segments: SegmentsView) -> bool {
    forall|id: Seq<char>| named_ids(rules).contains(id) ==> segments.contains_key(id)
}

/// What is wrong with a feature, if anything: the first of a shared order,
/// a rollout that is no percentage, and a segment that is missing.
pub open spec fn feature_fault(feature: FeatureView, segments: SegmentsView) -> Option<Error> {
    if !orders_distinct(feature.segment_rules) {
        Some(Error::ProtocolError(ProtocolViolation::DuplicateOrder))
    } else if !rollouts_valid(feature) {
        Some(Error::ProtocolError(ProtocolViolation::RolloutOutOfRange))
    } else if !segments_resolve(feature.segment_rules, segments) {
        Some(Error::ConfigurationAccessError(ConfigurationAccessError::MissingSegments))
    } else {
        None
    }
}

/// What is wrong with a property, if anything: the first of a shared order
/// and a segment that is missing.
pub open spec fn property_fault(property: PropertyView, segments: SegmentsView) -> Option<Error> {
    if !orders_distinct(property.segment_rules) {
        Some(Error::ProtocolError(ProtocolViolation::DuplicateOrder))
    } else if !segments_resolve(property.segment_rules, segments) {
        Some(Error::ConfigurationAccessError(ConfigurationAccessError::MissingSegments))
    } else {
        None
    }
}

/// The first fault of a list, if there is any.
pub open spec fn first_fault(faults: Seq<Option<Error>>) -> Option<Error>
    decreases faults.len(),
{
    if faults.len() == 0 {
        None
    } else if faults[0] is Some {
        faults[0]
    } else {
        first_fault(faults.skip(1))
    }
}

/// Entries without a fault at the front of a list can be left out.
pub proof fn lemma_first_fault_skip(faults: Seq<Option<Error>>, n: int)
    requires
        0 <= n <= faults.len(),
        forall|j: int| 0 <= j < n ==> faults[j] is None,
    ensures
        first_fault(faults) == first_fault(faults.skip(n)),
    decreases n,
{
    if n == 0 {
        assert(faults.skip(0) == faults);
    } else {
        lemma_first_fault_skip(faults, n - 1);
        assert(faults.skip(n - 1)[0] == faults[n - 1]);
        assert(faults.skip(n - 1).skip(1) == faults.skip(n));
    }
}

/// Lists the segment ids that targeting rules name.
pub fn segment_ids_of(rules: &Vec<TargetingRule>) -> (r: Vec<String>)
    ensures
        texts(r@) == named_ids(targeting_rule_views(rules@)),
{
    let ghost views = targeting_rule_views(rules@);
    let mut out: Vec<String> = Vec::new();
    let mut i: usize = 0;
    assert(views.take(0) == Seq::<TargetingRuleView>::empty());
    assert(texts(out@) =~= named_ids(views.take(0)));
    while i < rules.len()
        invariant
            i <= rules@.len(),
            views == targeting_rule_views(rules@),
            texts(out@) == named_ids(views.take(i as int)),
        decreases rules.len() - i,
    {
        let groups = &rules[i].rules;
        let ghost done = texts(out@);
        let ghost group_seq = group_views(groups@);
        assert(views[i as int].rules == group_seq);
        let mut g: usize = 0;
        assert(group_seq.take(0) == Seq::<Seq<Seq<char>>>::empty());
        assert(texts(out@) =~= done + group_ids(group_seq.take(0)));
        while g < groups.len()
            invariant
                g <= groups@.len(),
                group_seq == group_views(groups@),
                texts(out@) == done + group_ids(group_seq.take(g as int)),
            decreases groups.len() - g,
        {
            let ids = &groups[g].segments;
            let ghost before = texts(out@);
            assert(group_seq[g as int] == texts(ids@));
            let mut k: usize = 0;
            assert(texts(out@) =~= before + texts(ids@).take(0));
            while k < ids.len()
                invariant
                    k <= ids@.len(),
                    texts(out@) == before + texts(ids@).take(k as int),
                decreases ids.len() - k,
            {
                let ghost sofar = out@;
                let id = ids[k].clone();
                out.push(id);
                assert(texts(out@) =~= texts(sofar).push(ids@[k as int]@));
                assert(texts(ids@).take(k + 1) =~= texts(ids@).take(k as int).push(
                    ids@[k as int]@,
                ));
                assert(texts(out@) =~= before + texts(ids@).take(k + 1));
                k += 1;
            }
            proof {
                assert(texts(ids@).take(k as int) == texts(ids@));
                let upto = group_seq.take(g + 1);
                assert(upto.drop_last() == group_seq.take(g as int));
                assert(upto.last() == group_seq[g as int]);
                assert(texts(out@) =~= done + group_ids(upto));
            }
            g += 1;
        }
        proof {
            assert(group_seq.take(g as int) == group_seq);
            let upto = views.take(i + 1);
            assert(upto.drop_last() == views.take(i as int));
            assert(upto.last() == views[i as int]);
        }
        i += 1;
    }
    assert(views.take(i as int) == views);
    out
}

/// Tests whether no two targeting rules share their order.
pub fn orders_are_distinct(rules: &Vec<TargetingRule>) -> (r: bool)
    ensures
        r == orders_distinct(targeting_rule_views(rules@)),
{
    let ghost views = targeting_rule_views(rules@);
    let mut i: usize = 0;
    while i < rules.len()
        invariant
            i <= rules@.len(),
            views == targeting_rule_views(rules@),
            forall|a: int, b: int|
                0 <= a < i && 0 <= b < a ==> (#[trigger] views[a]).order != (
                #[trigger] views[b]).order,
        decreases rules.len() - i,
    {
        let mut j: usize = 0;
        while j < i
            invariant
                j <= i < rules@.len(),
                views == targeting_rule_views(rules@),
                forall|b: int| 0 <= b < j ==> views[i as int].order != (#[trigger] views[b]).order,
            decreases i - j,
        {
            if rules[i].order == rules[j].order {
                assert(views[i as int].order == views[j as int].order);
                return false;
            }
            j += 1;
        }
        i += 1;
    }
    assert forall|a: int, b: int|
        0 <= a < views.len() && 0 <= b < views.len() && a != b implies (#[trigger] views[a]).order
        != (#[trigger] views[b]).order by {
        if b < a {
        } else {
            assert(views[b].order != views[a].order);
        }
    }
    true
}

/// Tests whether the rollout percentage of a targeting rule is valid.
fn percentage_is_valid(percentage: &Option<ConfigValue>) -> (r: bool)
    ensures
        r == percentage_valid(crate::models::optional_view(*percentage)),
{
    match percentage {
        None => true,
        Some(v) => {
            if v.is_default() {
                true
            } else {
                match v.as_u64() {
                    Some(n) => n <= 100,
                    None => false,
                }
            }
        },
    }
}

/// Tests whether the rollout percentages of a feature are percentages.
pub fn rollouts_are_valid(feature: &Feature) -> (r: bool)
    ensures
        r == rollouts_valid(feature@),
{
    if feature.rollout_percentage > 100 {
        return false;
    }
    let mut i: usize = 0;
    while i < feature.segment_rules.len()
        invariant
            i <= feature.segment_rules@.len(),
            feature@.rollout_percentage <= 100,
            forall|a: int|
                0 <= a < i ==> percentage_valid(
                    (#[trigger] feature@.segment_rules[a]).rollout_percentage,
                ),
        decreases feature.segment_rules.len() - i,
    {
        if !percentage_is_valid(&feature.segment_rules[i].rollout_percentage) {
            assert(!percentage_valid(feature@.segment_rules[i as int].rollout_percentage));
            return false;
        }
        i += 1;
    }
    true
}

/// Tests whether every segment that the targeting rules name is at hand.
pub fn segments_are_there(rules: &Vec<TargetingRule>, segments: &Dictionary<Segment>) -> (r: bool)
    ensures
        r == segments_resolve(targeting_rule_views(rules@), segments@),
{
    let ids = segment_ids_of(rules);
    let ghost named = named_ids(targeting_rule_views(rules@));
    let mut i: usize = 0;
    while i < ids.len()
        invariant
            i <= ids@.len(),
            texts(ids@) == named,
            named == named_ids(targeting_rule_views(rules@)),
            forall|a: int| 0 <= a < i ==> segments@.contains_key(#[trigger] named[a]),
        decreases ids.len() - i,
    {
        if !segments.contains_key(ids[i].as_str()) {
            assert(named[i as int] == ids@[i as int]@);
            assert(named.contains(named[i as int]));
            return false;
        }
        i += 1;
    }
    true
}

/// Finds what is wrong with a feature, if anything.
pub fn check_feature(feature: &Feature, segments: &Dictionary<Segment>) -> (r: Option<Error>)
    ensures
        r == feature_fault(feature@, segments@),
{
    if !orders_are_distinct(&feature.segment_rules) {
        Some(Error::ProtocolError(ProtocolViolation::DuplicateOrder))
    } else if !rollouts_are_valid(feature) {
        Some(Error::ProtocolError(ProtocolViolation::RolloutOutOfRange))
    } else if !segments_are_there(&feature.segment_rules, segments) {
        Some(Error::ConfigurationAccessError(ConfigurationAccessError::MissingSegments))
    } else {
        None
    }
}

/// Finds what is wrong with a property, if anything.
pub fn check_property(property: &Property, segments: &Dictionary<Segment>) -> (r: Option<Error>)
    ensures
        r == property_fault(property@, segments@),
{
    if !orders_are_distinct(&property.segment_rules) {
        Some(Error::ProtocolError(ProtocolViolation::DuplicateOrder))
    } else if !segments_are_there(&property.segment_rules, segments) {
        Some(Error::ConfigurationAccessError(ConfigurationAccessError::MissingSegments))
    } else {
        None
    }
}

/// Copies out of `segments` the segments that the targeting rules name.
///
/// Fails where one of them is missing.
pub fn segments_named_by(rules: &Vec<TargetingRule>, segments: &Dictionary<Segment>) -> (r: Result<
    Dictionary<Segment>,
    Error,
>)
    ensures
        match r {
            Ok(named) => segments_resolve(targeting_rule_views(rules@), segments@) && named@
                == segments@.restrict(named_set(targeting_rule_views(rules@))),
            Err(e) => !segments_resolve(targeting_rule_views(rules@), segments@) && e
                == Error::ConfigurationAccessError(ConfigurationAccessError::MissingSegments),
        },
{
    let ids = segment_ids_of(rules);
    let ghost named = named_ids(targeting_rule_views(rules@));
    let mut out: Dictionary<Segment> = Dictionary::new();
    let mut i: usize = 0;
    assert(out@ =~= segments@.restrict(named.take(0).to_set()));
    while i < ids.len()
        invariant
            i <= ids@.len(),
            texts(ids@) == named,
            named == named_ids(targeting_rule_views(rules@)),
            forall|a: int| 0 <= a < i ==> segments@.contains_key(#[trigger] named[a]),
            out@ == segments@.restrict(named.take(i as int).to_set()),
        decreases ids.len() - i,
    {
        assert(named[i as int] == ids@[i as int]@);
        match segments.get(ids[i].as_str()) {
            None => {
                assert(named.contains(named[i as int]));
                return Err(
                    Error::ConfigurationAccessError(ConfigurationAccessError::MissingSegments),
                );
            },
            Some(segment) => {
                out.insert(ids[i].clone(), segment.clone());
                proof {
                    let upto = named.take(i + 1);
                    assert(upto.drop_last() == named.take(i as int));
                    assert(upto.to_set() =~= named.take(i as int).to_set().insert(named[i as int]))
                        by {
                        assert forall|x: Seq<char>|
                            upto.to_set().contains(x) implies named.take(
                            i as int,
                        ).to_set().insert(named[i as int]).contains(x) by {
                            let at = choose|at: int| 0 <= at < upto.len() && upto[at] == x;
                            if at < i {
                                assert(named.take(i as int)[at] == x);
                            }
                        }
                        assert forall|x: Seq<char>|
                            named.take(i as int).to_set().insert(named[i as int]).contains(
                                x,
                            ) implies upto.to_set().contains(x) by {
                            if x == named[i as int] {
                                assert(upto[i as int] == x);
                            } else {
                                let at = choose|at: int|
                                    0 <= at < named.take(i as int).len() && named.take(
                                        i as int,
                                    )[at] == x;
                                assert(upto[at] == x);
                            }
                        }
                    }
                    assert(out@ =~= segments@.restrict(upto.to_set()));
                }
            },
        }
        i += 1;
    }
    proof {
        assert(named.take(i as int) == named);
        assert forall|id: Seq<char>| named.contains(id) implies segments@.contains_key(id) by {
            let at = choose|at: int| 0 <= at < named.len() && named[at] == id;
            assert(segments@.contains_key(named[at]));
        }
    }
    Ok(out)
}

} // verus!
