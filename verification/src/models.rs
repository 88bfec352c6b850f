//! The catalog as plain data: features, properties, segments and their rules.
use vstd::prelude::*;
use vstd::std_specs::convert::TryFromSpecImpl;
use crate::errors::Error;
use crate::errors::ProtocolViolation;
use crate::text::str_eq;
use crate::value::Float64;
use crate::value::Value;
use crate::value::ValueView;

verus! {

/// The type that a feature or property declares for its values.
#[derive(Clone, Copy, Debug, PartialEq, Eq, Structural)]
pub enum ValueKind {
    Numeric,
    Boolean,
    String,
}

impl ValueKind {
    pub open spec fn label_text(self) -> Seq<char> {
        match self {
            ValueKind::Numeric => "NUMERIC"@,
            ValueKind::Boolean => "BOOLEAN"@,
            ValueKind::String => "STRING"@,
        }
    }

    /// The name of the kind as the catalog document writes it.
    pub fn label(&self) -> (r: &'static str)
        ensures
            r@ == self.label_text(),
    {
        match self {
            ValueKind::Numeric => "NUMERIC",
            ValueKind::Boolean => "BOOLEAN",
            ValueKind::String => "STRING",
        }
    }
}

/// A dynamically typed scalar of the catalog document.
///
/// `Composite` stands for whatever is no scalar (a list, a record).
#[derive(Debug)]
pub enum ConfigValue {
    Null,
    Boolean(bool),
    Int64(i64),
    UInt64(u64),
    Float64(Float64),
    String(String),
    Composite,
}

/// A [`ConfigValue`] with its text as a sequence of characters.
pub enum ConfigValueView {
    Null,
    Boolean(bool),
    Int64(i64),
    UInt64(u64),
    Float64(Float64),
    String(Seq<char>),
    Composite,
}

impl View for ConfigValue {
    type V = ConfigValueView;

    open spec fn view(&self) -> ConfigValueView {
        match *self {
            ConfigValue::Null => ConfigValueView::Null,
            ConfigValue::Boolean(v) => ConfigValueView::Boolean(v),
            ConfigValue::Int64(v) => ConfigValueView::Int64(v),
            ConfigValue::UInt64(v) => ConfigValueView::UInt64(v),
            ConfigValue::Float64(v) => ConfigValueView::Float64(v),
            ConfigValue::String(v) => ConfigValueView::String(v@),
            ConfigValue::Composite => ConfigValueView::Composite,
        }
    }
}

impl Clone for ConfigValue {
    fn clone(&self) -> (r: Self)
        ensures
            r == *self,
    {
        match self {
            ConfigValue::Null => ConfigValue::Null,
            ConfigValue::Boolean(v) => ConfigValue::Boolean(*v),
            ConfigValue::Int64(v) => ConfigValue::Int64(*v),
            ConfigValue::UInt64(v) => ConfigValue::UInt64(*v),
            ConfigValue::Float64(v) => ConfigValue::Float64(*v),
            ConfigValue::String(v) => ConfigValue::String(v.clone()),
            ConfigValue::Composite => ConfigValue::Composite,
        }
    }
}

impl ConfigValueView {
    /// The value as a signed integer: an integer that fits.
    pub open spec fn as_i64(self) -> Option<i64> {
        match self {
            ConfigValueView::Int64(v) => Some(v),
            ConfigValueView::UInt64(v) => if v <= i64::MAX {
                Some(v as i64)
            } else {
                None
            },
            _ => None,
        }
    }

    /// The value as an unsigned integer: an integer that is not negative.
    pub open spec fn as_u64(self) -> Option<u64> {
        match self {
            ConfigValueView::UInt64(v) => Some(v),
            ConfigValueView::Int64(v) => if v >= 0 {
                Some(v as u64)
            } else {
                None
            },
            _ => None,
        }
    }

    /// The value as a binary64 number: one that was written as such.
    pub open spec fn as_f64(self) -> Option<Float64> {
        match self {
            ConfigValueView::Float64(v) => Some(v),
            _ => None,
        }
    }

    pub open spec fn as_boolean(self) -> Option<bool> {
        match self {
            ConfigValueView::Boolean(v) => Some(v),
            _ => None,
        }
    }

    pub open spec fn as_string(self) -> Option<Seq<char>> {
        match self {
            ConfigValueView::String(v) => Some(v),
            _ => None,
        }
    }

    /// The value is the sentinel that stands for the resource's own default.
    pub open spec fn is_default(self) -> bool {
        self == ConfigValueView::String("$default"@)
    }

    /// The value read as a value of the given kind.
    ///
    /// A number becomes the first of signed integer, unsigned integer and
    /// binary64 that holds it. The sentinel is no text: it stands for a
    /// value and is never handed out as one.
    pub open spec fn typed(self, kind: ValueKind) -> Result<ValueView, Error> {
        match kind {
            ValueKind::Numeric => if let Some(n) = self.as_i64() {
                Ok(ValueView::Int64(n))
            } else if let Some(n) = self.as_u64() {
                Ok(ValueView::UInt64(n))
            } else if let Some(n) = self.as_f64() {
                Ok(ValueView::Float64(n))
            } else {
                Err(Error::ProtocolError(ProtocolViolation::NotANumber))
            },
            ValueKind::Boolean => match self.as_boolean() {
                Some(b) => Ok(ValueView::Boolean(b)),
                None => Err(Error::MismatchType),
            },
            ValueKind::String => match self.as_string() {
                Some(s) => if self.is_default() {
                    Err(Error::MismatchType)
                } else {
                    Ok(ValueView::String(s))
                },
                None => Err(Error::MismatchType),
            },
        }
    }
}

/// The sentinel is never handed out as a value.
pub proof fn law_sentinel_is_not_handed_out(value: ConfigValueView, kind: ValueKind)
    ensures
        value.typed(kind) != Ok::<ValueView, Error>(ValueView::String("$default"@)),
{
}

/// An evaluation's outcome with the text of its value as a sequence of
/// characters.
pub open spec fn outcome_view(r: Result<Value, Error>) -> Result<ValueView, Error> {
    match r {
        Ok(v) => Ok(v@),
        Err(e) => Err(e),
    }
}

impl ConfigValue {
    pub fn as_i64(&self) -> (r: Option<i64>)
        ensures
            r == self@.as_i64(),
    {
        match self {
            ConfigValue::Int64(v) => Some(*v),
            ConfigValue::UInt64(v) => if *v <= 0x7fff_ffff_ffff_ffff {
                Some(*v as i64)
            } else {
                None
            },
            _ => None,
        }
    }

    pub fn as_u64(&self) -> (r: Option<u64>)
        ensures
            r == self@.as_u64(),
    {
        match self {
            ConfigValue::UInt64(v) => Some(*v),
            ConfigValue::Int64(v) => if *v >= 0 {
                Some(*v as u64)
            } else {
                None
            },
            _ => None,
        }
    }

    pub fn as_f64(&self) -> (r: Option<Float64>)
        ensures
            r == self@.as_f64(),
    {
        match self {
            ConfigValue::Float64(v) => Some(*v),
            _ => None,
        }
    }

    pub fn as_boolean(&self) -> (r: Option<bool>)
        ensures
            r == self@.as_boolean(),
    {
        match self {
            ConfigValue::Boolean(v) => Some(*v),
            _ => None,
        }
    }

    pub fn as_string(&self) -> (r: Option<String>)
        ensures
            r is Some == self@.as_string() is Some,
            r matches Some(s) ==> Some(s@) == self@.as_string(),
    {
        match self {
            ConfigValue::String(v) => Some(v.clone()),
            _ => None,
        }
    }

    pub fn is_default(&self) -> (r: bool)
        ensures
            r == self@.is_default(),
    {
        match self {
            ConfigValue::String(v) => str_eq(v.as_str(), "$default"),
            _ => false,
        }
    }

    /// Reads the value as a value of the given kind.
    pub fn typed(&self, kind: ValueKind) -> (r: Result<Value, Error>)
        ensures
            outcome_view(r) == self@.typed(kind),
    {
        match kind {
            ValueKind::Numeric => {
                if let Some(n) = self.as_i64() {
                    Ok(Value::Int64(n))
                } else if let Some(n) = self.as_u64() {
                    Ok(Value::UInt64(n))
                } else if let Some(n) = self.as_f64() {
                    Ok(Value::Float64(n))
                } else {
                    Err(Error::ProtocolError(ProtocolViolation::NotANumber))
                }
            },
            ValueKind::Boolean => match self.as_boolean() {
                Some(b) => Ok(Value::Boolean(b)),
                None => Err(Error::MismatchType),
            },
            ValueKind::String => match self.as_string() {
                Some(s) => if self.is_default() {
                    Err(Error::MismatchType)
                } else {
                    Ok(Value::String(s))
                },
                None => Err(Error::MismatchType),
            },
        }
    }
}

impl TryFrom<(ValueKind, ConfigValue)> for Value {
    type Error = Error;

    /// Reads a value of the catalog as a value of the given kind.
    fn try_from(value: (ValueKind, ConfigValue)) -> (r: Result<Value, Error>) {
        let (kind, value) = value;
        match kind {
            ValueKind::Numeric => match value {
                ConfigValue::Int64(n) => Ok(Value::Int64(n)),
                ConfigValue::UInt64(n) => if n <= 0x7fff_ffff_ffff_ffff {
                    Ok(Value::Int64(n as i64))
                } else {
                    Ok(Value::UInt64(n))
                },
                ConfigValue::Float64(n) => Ok(Value::Float64(n)),
                _ => Err(Error::ProtocolError(ProtocolViolation::NotANumber)),
            },
            ValueKind::Boolean => match value {
                ConfigValue::Boolean(b) => Ok(Value::Boolean(b)),
                _ => Err(Error::MismatchType),
            },
            ValueKind::String => {
                if value.is_default() {
                    return Err(Error::MismatchType);
                }
                match value {
                    ConfigValue::String(s) => Ok(Value::String(s)),
                    _ => Err(Error::MismatchType),
                }
            },
        }
    }
}

impl TryFromSpecImpl<(ValueKind, ConfigValue)> for Value {
    open spec fn obeys_try_from_spec() -> bool {
        true
    }

    /// The value that `typed` describes, the text of a string handed on as
    /// it is.
    open spec fn try_from_spec(value: (ValueKind, ConfigValue)) -> Result<Value, Error> {
        match value.1@.typed(value.0) {
            Ok(ValueView::Float64(n)) => Ok(Value::Float64(n)),
            Ok(ValueView::UInt64(n)) => Ok(Value::UInt64(n)),
            Ok(ValueView::Int64(n)) => Ok(Value::Int64(n)),
            Ok(ValueView::Boolean(b)) => Ok(Value::Boolean(b)),
            Ok(ValueView::String(_)) => match value.1 {
                ConfigValue::String(s) => Ok(Value::String(s)),
                _ => Err(Error::MismatchType),
            },
            Err(e) => Err(e),
        }
    }
}

/// The text of each string of a list.
pub open spec fn texts(strings: Seq<String>) -> Seq<Seq<char>> {
    strings.map_values(|s: String| s@)
}

/// One operand of a segment rule: the text that the document holds, and the
/// binary64 number that the text writes, where it writes one.
///
/// The library compares binary64 numbers and does not read them from text:
/// whoever decodes the document fills in `number`.
#[derive(Debug)]
pub struct Operand {
    pub text: String,
    pub number: Option<Float64>,
}

pub struct OperandView {
    pub text: Seq<char>,
    pub number: Option<Float64>,
}

impl View for Operand {
    type V = OperandView;

    open spec fn view(&self) -> OperandView {
        OperandView { text: self.text@, number: self.number }
    }
}

impl Clone for Operand {
    fn clone(&self) -> (r: Self)
        ensures
            r@ == self@,
    {
        Operand { text: self.text.clone(), number: self.number }
    }
}

impl Operand {
    /// An operand that writes no binary64 number.
    pub fn text_only(text: &str) -> (r: Operand)
        ensures
            r@ == (OperandView { text: text@, number: None }),
    {
        Operand { text: text.to_owned(), number: None }
    }
}

pub open spec fn operand_views(operands: Seq<Operand>) -> Seq<OperandView> {
    operands.map_values(|o: Operand| o@)
}

/// One predicate of a segment: an attribute, an operator and the operands of
/// which any may satisfy it.
#[derive(Debug)]
pub struct SegmentRule {
    pub attribute_name: String,
    pub operator: String,
    pub values: Vec<Operand>,
}

pub struct SegmentRuleView {
    pub attribute_name: Seq<char>,
    pub operator: Seq<char>,
    pub values: Seq<OperandView>,
}

impl View for SegmentRule {
    type V = SegmentRuleView;

    open spec fn view(&self) -> SegmentRuleView {
        SegmentRuleView {
            attribute_name: self.attribute_name@,
            operator: self.operator@,
            values: operand_views(self.values@),
        }
    }
}

impl Clone for SegmentRule {
    fn clone(&self) -> (r: Self)
        ensures
            r@ == self@,
    {
        let values = self.values.clone();
        assert(operand_views(values@) =~= operand_views(self.values@));
        SegmentRule {
            attribute_name: self.attribute_name.clone(),
            operator: self.operator.clone(),
            values,
        }
    }
}

pub open spec fn segment_rule_views(rules: Seq<SegmentRule>) -> Seq<SegmentRuleView> {
    rules.map_values(|r: SegmentRule| r@)
}

/// A named predicate over entity attributes: the conjunction of its rules.
#[derive(Debug)]
pub struct Segment {
    pub segment_id: String,
    pub rules: Vec<SegmentRule>,
}

pub struct SegmentView {
    pub segment_id: Seq<char>,
    pub rules: Seq<SegmentRuleView>,
}

impl View for Segment {
    type V = SegmentView;

    open spec fn view(&self) -> SegmentView {
        SegmentView { segment_id: self.segment_id@, rules: segment_rule_views(self.rules@) }
    }
}

impl Clone for Segment {
    fn clone(&self) -> (r: Self)
        ensures
            r@ == self@,
    {
        let rules = self.rules.clone();
        assert(segment_rule_views(rules@) =~= segment_rule_views(self.rules@));
        Segment { segment_id: self.segment_id.clone(), rules }
    }
}

/// A group of segment ids within a targeting rule.
#[derive(Debug)]
pub struct Segments {
    pub segments: Vec<String>,
}

impl View for Segments {
    type V = Seq<Seq<char>>;

    open spec fn view(&self) -> Seq<Seq<char>> {
        texts(self.segments@)
    }
}

impl Clone for Segments {
    fn clone(&self) -> (r: Self)
        ensures
            r@ == self@,
    {
        let segments = self.segments.clone();
        assert(texts(segments@) =~= texts(self.segments@));
        Segments { segments }
    }
}

pub open spec fn group_views(groups: Seq<Segments>) -> Seq<Seq<Seq<char>>> {
    groups.map_values(|g: Segments| g@)
}

/// An ordered binding of a value to the entities of some segments.
#[derive(Debug)]
pub struct TargetingRule {
    pub rules: Vec<Segments>,
    pub value: ConfigValue,
    pub order: u32,
    pub rollout_percentage: Option<ConfigValue>,
}

pub struct TargetingRuleView {
    pub rules: Seq<Seq<Seq<char>>>,
    pub value: ConfigValueView,
    pub order: u32,
    pub rollout_percentage: Option<ConfigValueView>,
}

pub open spec fn optional_view(value: Option<ConfigValue>) -> Option<ConfigValueView> {
    match value {
        Some(v) => Some(v@),
        None => None,
    }
}

impl View for TargetingRule {
    type V = TargetingRuleView;

    open spec fn view(&self) -> TargetingRuleView {
        TargetingRuleView {
            rules: group_views(self.rules@),
            value: self.value@,
            order: self.order,
            rollout_percentage: optional_view(self.rollout_percentage),
        }
    }
}

impl Clone for TargetingRule {
    fn clone(&self) -> (r: Self)
        ensures
            r@ == self@,
    {
        let rules = self.rules.clone();
        assert(group_views(rules@) =~= group_views(self.rules@));
        let rollout_percentage = match &self.rollout_percentage {
            Some(v) => Some(v.clone()),
            None => None,
        };
        TargetingRule { rules, value: self.value.clone(), order: self.order, rollout_percentage }
    }
}

pub open spec fn targeting_rule_views(rules: Seq<TargetingRule>) -> Seq<TargetingRuleView> {
    rules.map_values(|r: TargetingRule| r@)
}

/// A feature flag.
#[derive(Debug)]
pub struct Feature {
    pub name: String,
    pub feature_id: String,
    pub kind: ValueKind,
    pub enabled_value: ConfigValue,
    pub disabled_value: ConfigValue,
    pub segment_rules: Vec<TargetingRule>,
    pub enabled: bool,
    pub rollout_percentage: u32,
}

pub struct FeatureView {
    pub name: Seq<char>,
    pub feature_id: Seq<char>,
    pub kind: ValueKind,
    pub enabled_value: ConfigValueView,
    pub disabled_value: ConfigValueView,
    pub segment_rules: Seq<TargetingRuleView>,
    pub enabled: bool,
    pub rollout_percentage: u32,
}

impl View for Feature {
    type V = FeatureView;

    open spec fn view(&self) -> FeatureView {
        FeatureView {
            name: self.name@,
            feature_id: self.feature_id@,
            kind: self.kind,
            enabled_value: self.enabled_value@,
            disabled_value: self.disabled_value@,
            segment_rules: targeting_rule_views(self.segment_rules@),
            enabled: self.enabled,
            rollout_percentage: self.rollout_percentage,
        }
    }
}

impl Clone for Feature {
    fn clone(&self) -> (r: Self)
        ensures
            r@ == self@,
    {
        let segment_rules = self.segment_rules.clone();
        assert(targeting_rule_views(segment_rules@) =~= targeting_rule_views(self.segment_rules@));
        Feature {
            name: self.name.clone(),
            feature_id: self.feature_id.clone(),
            kind: self.kind,
            enabled_value: self.enabled_value.clone(),
            disabled_value: self.disabled_value.clone(),
            segment_rules,
            enabled: self.enabled,
            rollout_percentage: self.rollout_percentage,
        }
    }
}

/// A dynamic property.
#[derive(Debug)]
pub struct Property {
    pub name: String,
    pub property_id: String,
    pub kind: ValueKind,
    pub value: ConfigValue,
    pub segment_rules: Vec<TargetingRule>,
}

pub struct PropertyView {
    pub name: Seq<char>,
    pub property_id: Seq<char>,
    pub kind: ValueKind,
    pub value: ConfigValueView,
    pub segment_rules: Seq<TargetingRuleView>,
}

impl View for Property {
    type V = PropertyView;

    open spec fn view(&self) -> PropertyView {
        PropertyView {
            name: self.name@,
            property_id: self.property_id@,
            kind: self.kind,
            value: self.value@,
            segment_rules: targeting_rule_views(self.segment_rules@),
        }
    }
}

impl Clone for Property {
    fn clone(&self) -> (r: Self)
        ensures
            r@ == self@,
    {
        let segment_rules = self.segment_rules.clone();
        assert(targeting_rule_views(segment_rules@) =~= targeting_rule_views(self.segment_rules@));
        Property {
            name: self.name.clone(),
            property_id: self.property_id.clone(),
            kind: self.kind,
            value: self.value.clone(),
            segment_rules,
        }
    }
}

pub open spec fn feature_views(features: Seq<Feature>) -> Seq<FeatureView> {
    features.map_values(|f: Feature| f@)
}

pub open spec fn property_views(properties: Seq<Property>) -> Seq<PropertyView> {
    properties.map_values(|p: Property| p@)
}

pub open spec fn segment_views(segments: Seq<Segment>) -> Seq<SegmentView> {
    segments.map_values(|s: Segment| s@)
}

/// The features and properties of one environment of the document.
#[derive(Debug)]
pub struct Environment {
    pub environment_id: String,
    pub features: Vec<Feature>,
    pub properties: Vec<Property>,
}

pub struct EnvironmentView {
    pub environment_id: Seq<char>,
    pub features: Seq<FeatureView>,
    pub properties: Seq<PropertyView>,
}

impl View for Environment {
    type V = EnvironmentView;

    open spec fn view(&self) -> EnvironmentView {
        EnvironmentView {
            environment_id: self.environment_id@,
            features: feature_views(self.features@),
            properties: property_views(self.properties@),
        }
    }
}

pub open spec fn environment_views(environments: Seq<Environment>) -> Seq<EnvironmentView> {
    environments.map_values(|e: Environment| e@)
}

/// A catalog document: every environment of a collection, and the segments
/// that their targeting rules name.
#[derive(Debug)]
pub struct Configuration {
    pub environments: Vec<Environment>,
    pub segments: Vec<Segment>,
}

pub struct ConfigurationView {
    pub environments: Seq<EnvironmentView>,
    pub segments: Seq<SegmentView>,
}

impl View for Configuration {
    type V = ConfigurationView;

    open spec fn view(&self) -> ConfigurationView {
        ConfigurationView {
            environments: environment_views(self.environments@),
            segments: segment_views(self.segments@),
        }
    }
}

} // verus!
