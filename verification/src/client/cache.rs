//! The catalog that a client works on: the features and properties of its
//! environment and the segments of its collection, each by id.
use vstd::prelude::*;
use crate::client::feature_snapshot::evaluate_feature;
use crate::client::feature_snapshot::feature_value;
use crate::client::feature_snapshot::FeatureSnapshot;
use crate::client::feature_snapshot::FeatureSnapshotView;
use crate::client::property_snapshot::evaluate_property;
use crate::client::property_snapshot::property_value;
use crate::client::property_snapshot::PropertySnapshot;
use crate::client::property_snapshot::PropertySnapshotView;
use crate::dictionary::Dictionary;
use crate::errors::ConfigurationAccessError;
use crate::errors::Error;
use crate::integrity::check_feature;
use crate::integrity::check_property;
use crate::integrity::feature_fault;
use crate::integrity::first_fault;
use crate::integrity::lemma_first_fault_skip;
use crate::integrity::lemma_named_segments_suffice;
use crate::integrity::named_set;
use crate::integrity::property_fault;
use crate::integrity::segments_named_by;
use crate::integrity::segments_resolve;
use crate::models::outcome_view;
use crate::models::texts;
use crate::models::Configuration;
use crate::models::ConfigurationView;
use crate::models::Environment;
use crate::models::EnvironmentView;
use crate::models::Feature;
use crate::models::FeatureView;
use crate::models::Property;
use crate::models::PropertyView;
use crate::models::Segment;
use crate::models::SegmentView;
use crate::segment_evaluation::AttributesView;
use crate::segment_evaluation::SegmentsView;
use crate::text::str_eq;
use crate::value::Value;
use crate::value::ValueView;

verus! {

/// The features of a list by id; of two that share their id the later one.
pub open spec fn features_by_id(features: Seq<FeatureView>) -> Map<Seq<char>, FeatureView>
    decreases features.len(),
{
    if features.len() == 0 {
        Map::empty()
    } else {
        features_by_id(features.drop_last()).insert(features.last().feature_id, features.last())
    }
}

/// The properties of a list by id; of two that share their id the later
/// one.
pub open spec fn properties_by_id(properties: Seq<PropertyView>) -> Map<Seq<char>, PropertyView>
    decreases properties.len(),
{
    if properties.len() == 0 {
        Map::empty()
    } else {
        properties_by_id(properties.drop_last()).insert(
            properties.last().property_id,
            properties.last(),
        )
    }
}

/// The segments of a list by id; of two that share their id the later one.
pub open spec fn segments_by_id(segments: Seq<SegmentView>) -> SegmentsView
    decreases segments.len(),
{
    if segments.len() == 0 {
        Map::empty()
    } else {
        segments_by_id(segments.drop_last()).insert(segments.last().segment_id, segments.last())
    }
}

/// Environment `i` carries the id, and no other environment does.
pub open spec fn selects(environments: Seq<EnvironmentView>, id: Seq<char>, i: int) -> bool {
    &&& 0 <= i < environments.len()
    &&& environments[i].environment_id == id
    &&& forall|j: int|
        0 <= j < environments.len() && j != i ==> (#[trigger] environments[j]).environment_id != id
}

pub open spec fn feature_faults(features: Seq<FeatureView>, segments: SegmentsView) -> Seq<
    Option<Error>,
> {
    features.map_values(|f: FeatureView| feature_fault(f, segments))
}

pub open spec fn property_faults(properties: Seq<PropertyView>, segments: SegmentsView) -> Seq<
    Option<Error>,
> {
    properties.map_values(|p: PropertyView| property_fault(p, segments))
}

/// A catalog as a mathematical value.
pub struct CatalogView {
    pub features: Map<Seq<char>, FeatureView>,
    pub properties: Map<Seq<char>, PropertyView>,
    pub segments: SegmentsView,
}

impl CatalogView {
    /// Every segment that a targeting rule of a feature or property of the
    /// catalog names is in the catalog.
    pub open spec fn intact(self) -> bool {
        &&& forall|id: Seq<char>| #[trigger]
            self.features.contains_key(id) ==> segments_resolve(
                self.features[id].segment_rules,
                self.segments,
            )
        &&& forall|id: Seq<char>| #[trigger]
            self.properties.contains_key(id) ==> segments_resolve(
                self.properties[id].segment_rules,
                self.segments,
            )
    }

    /// Nothing is wrong with any feature or property of the catalog.
    pub open spec fn well_formed(self) -> bool {
        &&& forall|id: Seq<char>| #[trigger]
            self.features.contains_key(id) ==> feature_fault(self.features[id], self.segments)
                is None
        &&& forall|id: Seq<char>| #[trigger]
            self.properties.contains_key(id) ==> property_fault(self.properties[id], self.segments)
                is None
    }

    /// The catalog that a client holds once `replacement` was installed in
    /// the place of this one.
    pub open spec fn replaced_by(self, replacement: CatalogView) -> CatalogView {
        replacement
    }

    /// What the feature of the given id yields for an entity.
    pub open spec fn feature_value(
        self,
        feature_id: Seq<char>,
        entity_id: Seq<char>,
        attributes: AttributesView,
    ) -> Result<ValueView, Error> {
        if self.features.contains_key(feature_id) {
            feature_value(self.features[feature_id], self.segments, entity_id, attributes)
        } else {
            Err(Error::ConfigurationAccessError(ConfigurationAccessError::FeatureNotFound))
        }
    }

    /// What the property of the given id yields for an entity.
    pub open spec fn property_value(
        self,
        property_id: Seq<char>,
        attributes: AttributesView,
    ) -> Result<ValueView, Error> {
        if self.properties.contains_key(property_id) {
            property_value(self.properties[property_id], self.segments, attributes)
        } else {
            Err(Error::ConfigurationAccessError(ConfigurationAccessError::PropertyNotFound))
        }
    }

    /// The feature of the given id with the segments that its rules name.
    pub open spec fn feature_snapshot(self, feature_id: Seq<char>) -> FeatureSnapshotView {
        FeatureSnapshotView {
            feature: self.features[feature_id],
            segments: self.segments.restrict(named_set(self.features[feature_id].segment_rules)),
        }
    }

    /// The property of the given id with the segments that its rules name.
    pub open spec fn property_snapshot(self, property_id: Seq<char>) -> PropertySnapshotView {
        PropertySnapshotView {
            property: self.properties[property_id],
            segments: self.segments.restrict(
                named_set(self.properties[property_id].segment_rules),
            ),
        }
    }
}

/// The catalog that a document holds for an environment.
///
/// There is one where exactly one environment of the document carries the
/// id and nothing is wrong with any of its features and properties; the
/// features are looked at first, each list in the order of the document.
pub open spec fn catalog_of(configuration: ConfigurationView, environment_id: Seq<char>) -> Result<
    CatalogView,
    Error,
> {
    if exists|i: int| selects(configuration.environments, environment_id, i) {
        let i = choose|i: int| selects(configuration.environments, environment_id, i);
        let environment = configuration.environments[i];
        let segments = segments_by_id(configuration.segments);
        if let Some(e) = first_fault(feature_faults(environment.features, segments)) {
            Err(e)
        } else if let Some(e) = first_fault(property_faults(environment.properties, segments)) {
            Err(e)
        } else {
            Ok(
                CatalogView {
                    features: features_by_id(environment.features),
                    properties: properties_by_id(environment.properties),
                    segments,
                },
            )
        }
    } else {
        Err(Error::ConfigurationAccessError(ConfigurationAccessError::EnvironmentNotFound))
    }
}

/// A catalog in which nothing is wrong is intact.
pub proof fn lemma_well_formed_is_intact(catalog: CatalogView)
    requires
        catalog.well_formed(),
    ensures
        catalog.intact(),
{
}

/// A snapshot yields what the catalog from which it was taken yields.
pub proof fn law_snapshot_agrees_with_its_catalog(
    catalog: CatalogView,
    id: Seq<char>,
    entity_id: Seq<char>,
    attributes: AttributesView,
)
    ensures
        catalog.features.contains_key(id) ==> catalog.feature_snapshot(id).value(
            entity_id,
            attributes,
        ) == catalog.feature_value(id, entity_id, attributes),
        catalog.properties.contains_key(id) ==> catalog.property_snapshot(id).value(attributes)
            == catalog.property_value(id, attributes),
{
    if catalog.features.contains_key(id) {
        lemma_named_segments_suffice(
            catalog.segments,
            catalog.features[id].segment_rules,
            attributes,
        );
    }
    if catalog.properties.contains_key(id) {
        lemma_named_segments_suffice(
            catalog.segments,
            catalog.properties[id].segment_rules,
            attributes,
        );
    }
}

/// The catalog of one environment: features, properties and segments, each
/// by id.
///
/// A catalog is built once from a document and not changed afterwards.
/// Nothing is wrong with any feature or property that it holds.
#[derive(Debug)]
pub struct ConfigurationSnapshot {
    features: Dictionary<Feature>,
    properties: Dictionary<Property>,
    segments: Dictionary<Segment>,
}

impl View for ConfigurationSnapshot {
    type V = CatalogView;

    closed spec fn view(&self) -> CatalogView {
        CatalogView {
            features: self.features@,
            properties: self.properties@,
            segments: self.segments@,
        }
    }
}

/// The outcome of building a catalog, the catalog as a mathematical value.
pub open spec fn catalog_outcome(r: Result<ConfigurationSnapshot, Error>) -> Result<
    CatalogView,
    Error,
> {
    match r {
        Ok(c) => Ok(c@),
        Err(e) => Err(e),
    }
}

/// Finds the one environment that carries the id.
fn select_environment(environments: &Vec<Environment>, environment_id: &str) -> (r: Option<usize>)
    ensures
        match r {
            Some(i) => selects(
                crate::models::environment_views(environments@),
                environment_id@,
                i as int,
            ),
            None => forall|i: int|
                !selects(crate::models::environment_views(environments@), environment_id@, i),
        },
{
    let ghost views = crate::models::environment_views(environments@);
    let mut found: Option<usize> = None;
    let mut i: usize = 0;
    while i < environments.len()
        invariant
            i <= environments@.len(),
            views == crate::models::environment_views(environments@),
            match found {
                Some(at) => at < i && views[at as int].environment_id == environment_id@
                    && forall|j: int|
                    0 <= j < i && j != at ==> (#[trigger] views[j]).environment_id
                        != environment_id@,
                None => forall|j: int|
                    0 <= j < i ==> (#[trigger] views[j]).environment_id != environment_id@,
            },
        decreases environments.len() - i,
    {
        if str_eq(environments[i].environment_id.as_str(), environment_id) {
            assert(views[i as int].environment_id == environment_id@);
            match found {
                Some(at) => {
                    assert forall|c: int| !selects(views, environment_id@, c) by {
                        if c == at {
                            assert(views[i as int].environment_id == environment_id@);
                        } else {
                            assert(views[at as int].environment_id == environment_id@);
                        }
                    }
                    return None;
                },
                None => {
                    found = Some(i);
                },
            }
        }
        i += 1;
    }
    found
}

impl ConfigurationSnapshot {
    /// What holds of every catalog.
    #[verifier::type_invariant]
    pub closed spec fn sound(&self) -> bool {
        self@.well_formed()
    }

    /// Builds the catalog of an environment from a document.
    #[verifier::loop_isolation(false)]
    pub fn new(environment_id: &str, configuration: Configuration) -> (r: Result<Self, Error>)
        ensures
            catalog_outcome(r) == catalog_of(configuration@, environment_id@),
            r matches Ok(catalog) ==> catalog@.well_formed() && catalog@.intact(),
    {
        let ghost document = configuration@;
        let at = match select_environment(&configuration.environments, environment_id) {
            Some(at) => at,
            None => {
                return Err(
                    Error::ConfigurationAccessError(ConfigurationAccessError::EnvironmentNotFound),
                );
            },
        };
        proof {
            let c = choose|c: int| selects(document.environments, environment_id@, c);
            assert(c == at);
        }
        let environment = &configuration.environments[at];
        assert(environment@ == document.environments[at as int]);

        let mut segments: Dictionary<Segment> = Dictionary::new();
        let mut i: usize = 0;
        assert(document.segments.take(0) == Seq::<SegmentView>::empty());
        while i < configuration.segments.len()
            invariant
                i <= configuration.segments@.len(),
                document == configuration@,
                segments@ == segments_by_id(document.segments.take(i as int)),
            decreases configuration.segments.len() - i,
        {
            let segment = &configuration.segments[i];
            proof {
                let upto = document.segments.take(i + 1);
                assert(upto.drop_last() == document.segments.take(i as int));
                assert(upto.last() == segment@);
            }
            segments.insert(segment.segment_id.clone(), segment.clone());
            i += 1;
        }
        assert(document.segments.take(i as int) == document.segments);

        let ghost feature_list = environment@.features;
        let ghost faults = feature_faults(feature_list, segments@);
        let mut features: Dictionary<Feature> = Dictionary::new();
        let mut i: usize = 0;
        assert(feature_list.take(0) == Seq::<FeatureView>::empty());
        while i < environment.features.len()
            invariant
                i <= environment.features@.len(),
                feature_list == environment@.features,
                faults == feature_faults(feature_list, segments@),
                forall|j: int| 0 <= j < i ==> faults[j] is None,
                features@ == features_by_id(feature_list.take(i as int)),
                forall|id: Seq<char>| #[trigger]
                    features@.contains_key(id) ==> feature_fault(features@[id], segments@) is None,
            decreases environment.features.len() - i,
        {
            let feature = &environment.features[i];
            assert(feature@ == feature_list[i as int]);
            match check_feature(feature, &segments) {
                Some(e) => {
                    proof {
                        lemma_first_fault_skip(faults, i as int);
                        assert(faults.skip(i as int)[0] == faults[i as int]);
                    }
                    return Err(e);
                },
                None => {},
            }
            proof {
                let upto = feature_list.take(i + 1);
                assert(upto.drop_last() == feature_list.take(i as int));
                assert(upto.last() == feature@);
            }
            features.insert(feature.feature_id.clone(), feature.clone());
            i += 1;
        }
        proof {
            assert(feature_list.take(i as int) == feature_list);
            lemma_first_fault_skip(faults, i as int);
        }

        let ghost property_list = environment@.properties;
        let ghost property_fault_list = property_faults(property_list, segments@);
        let mut properties: Dictionary<Property> = Dictionary::new();
        let mut i: usize = 0;
        assert(property_list.take(0) == Seq::<PropertyView>::empty());
        while i < environment.properties.len()
            invariant
                i <= environment.properties@.len(),
                property_list == environment@.properties,
                property_fault_list == property_faults(property_list, segments@),
                forall|j: int| 0 <= j < i ==> property_fault_list[j] is None,
                properties@ == properties_by_id(property_list.take(i as int)),
                forall|id: Seq<char>| #[trigger]
                    properties@.contains_key(id) ==> property_fault(properties@[id], segments@)
                        is None,
            decreases environment.properties.len() - i,
        {
            let property = &environment.properties[i];
            assert(property@ == property_list[i as int]);
            match check_property(property, &segments) {
                Some(e) => {
                    proof {
                        lemma_first_fault_skip(property_fault_list, i as int);
                        assert(property_fault_list.skip(i as int)[0] == property_fault_list[i as int]);
                    }
                    return Err(e);
                },
                None => {},
            }
            proof {
                let upto = property_list.take(i + 1);
                assert(upto.drop_last() == property_list.take(i as int));
                assert(upto.last() == property@);
            }
            properties.insert(property.property_id.clone(), property.clone());
            i += 1;
        }
        proof {
            assert(property_list.take(i as int) == property_list);
            lemma_first_fault_skip(property_fault_list, i as int);
        }
        Ok(ConfigurationSnapshot { features, properties, segments })
    }

    /// Nothing is wrong with any feature or property of a catalog.
    pub proof fn lemma_sound(&self)
        requires
            self.sound(),
        ensures
            self@.well_formed(),
            self@.intact(),
    {
        lemma_well_formed_is_intact(self@);
    }

    /// Looks a feature up by its id.
    pub fn get_feature(&self, feature_id: &str) -> (r: Result<&Feature, Error>)
        ensures
            match r {
                Ok(feature) => self@.features.contains_key(feature_id@) && feature@
                    == self@.features[feature_id@],
                Err(e) => !self@.features.contains_key(feature_id@) && e
                    == Error::ConfigurationAccessError(ConfigurationAccessError::FeatureNotFound),
            },
    {
        match self.features.get(feature_id) {
            Some(feature) => Ok(feature),
            None => Err(Error::ConfigurationAccessError(ConfigurationAccessError::FeatureNotFound)),
        }
    }

    /// Looks a property up by its id.
    pub fn get_property(&self, property_id: &str) -> (r: Result<&Property, Error>)
        ensures
            match r {
                Ok(property) => self@.properties.contains_key(property_id@) && property@
                    == self@.properties[property_id@],
                Err(e) => !self@.properties.contains_key(property_id@) && e
                    == Error::ConfigurationAccessError(ConfigurationAccessError::PropertyNotFound),
            },
    {
        match self.properties.get(property_id) {
            Some(property) => Ok(property),
            None => Err(
                Error::ConfigurationAccessError(ConfigurationAccessError::PropertyNotFound),
            ),
        }
    }

    /// Lists the ids of the features, each once.
    pub fn feature_ids(&self) -> (r: Vec<String>)
        ensures
            texts(r@).no_duplicates(),
            texts(r@).to_set() == self@.features.dom(),
    {
        self.features.keys()
    }

    /// Lists the ids of the properties, each once.
    pub fn property_ids(&self) -> (r: Vec<String>)
        ensures
            texts(r@).no_duplicates(),
            texts(r@).to_set() == self@.properties.dom(),
    {
        self.properties.keys()
    }

    /// Copies a feature and the segments that its rules name out of the
    /// catalog.
    pub fn feature_snapshot(&self, feature_id: &str) -> (r: Result<FeatureSnapshot, Error>)
        ensures
            self@.well_formed(),
            match r {
                Ok(snapshot) => self@.features.contains_key(feature_id@) && snapshot@
                    == self@.feature_snapshot(feature_id@),
                Err(e) => !self@.features.contains_key(feature_id@) && e
                    == Error::ConfigurationAccessError(ConfigurationAccessError::FeatureNotFound),
            },
    {
        proof {
            use_type_invariant(self);
        }
        let feature = match self.get_feature(feature_id) {
            Ok(feature) => feature,
            Err(e) => {
                return Err(e);
            },
        };
        assert(feature_fault(self@.features[feature_id@], self@.segments) is None);
        match segments_named_by(&feature.segment_rules, &self.segments) {
            Ok(segments) => Ok(FeatureSnapshot::new(feature.clone(), segments)),
            Err(e) => Err(e),
        }
    }

    /// Copies a property and the segments that its rules name out of the
    /// catalog.
    pub fn property_snapshot(&self, property_id: &str) -> (r: Result<PropertySnapshot, Error>)
        ensures
            self@.well_formed(),
            match r {
                Ok(snapshot) => self@.properties.contains_key(property_id@) && snapshot@
                    == self@.property_snapshot(property_id@),
                Err(e) => !self@.properties.contains_key(property_id@) && e
                    == Error::ConfigurationAccessError(ConfigurationAccessError::PropertyNotFound),
            },
    {
        proof {
            use_type_invariant(self);
        }
        let property = match self.get_property(property_id) {
            Ok(property) => property,
            Err(e) => {
                return Err(e);
            },
        };
        assert(property_fault(self@.properties[property_id@], self@.segments) is None);
        match segments_named_by(&property.segment_rules, &self.segments) {
            Ok(segments) => Ok(PropertySnapshot::new(property.clone(), segments)),
            Err(e) => Err(e),
        }
    }

    /// Evaluates the feature of the given id for the entity with the given
    /// id and attributes.
    pub fn evaluate_feature(
        &self,
        feature_id: &str,
        entity_id: &str,
        attributes: &Dictionary<Value>,
    ) -> (r: Result<Value, Error>)
        ensures
            outcome_view(r) == self@.feature_value(feature_id@, entity_id@, attributes@),
    {
        match self.get_feature(feature_id) {
            Ok(feature) => evaluate_feature(feature, &self.segments, entity_id, attributes),
            Err(e) => Err(e),
        }
    }

    /// Evaluates the property of the given id for an entity with the given
    /// attributes.
    pub fn evaluate_property(&self, property_id: &str, attributes: &Dictionary<Value>) -> (r:
        Result<Value, Error>)
        ensures
            outcome_view(r) == self@.property_value(property_id@, attributes@),
    {
        match self.get_property(property_id) {
            Ok(property) => evaluate_property(property, &self.segments, attributes),
            Err(e) => Err(e),
        }
    }
}

} // verus!
