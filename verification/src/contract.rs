//! The contract of a CTN type: which OBJECT fields it reads, which STATE
//! fields it checks and with which operations, how state fields map to
//! collected data fields, how data is collected, and which behaviors it
//! accepts.

use vstd::prelude::*;
use crate::criteria::Operation;
use crate::text::{chars_eq, chars_of};

verus! {

/// The declared type of a field.
#[derive(Clone, Copy, PartialEq, Eq, Structural, Debug)]
pub enum DataType {
    String,
    Int,
    Boolean,
    Binary,
    RecordData,
    Version,
    EvrString,
}

/// An OBJECT field the CTN type reads.
#[derive(Debug)]
pub struct ObjectFieldSpec {
    pub name: String,
    pub data_type: DataType,
    pub description: String,
    pub example_values: Vec<String>,
    pub validation_notes: Option<String>,
}

/// A STATE field the CTN type checks.
#[derive(Debug)]
pub struct StateFieldSpec {
    pub name: String,
    pub data_type: DataType,
    pub allowed_operations: Vec<Operation>,
    pub description: String,
    pub example_values: Vec<String>,
    pub validation_notes: Option<String>,
}

/// Required and optional OBJECT fields.
#[derive(Debug)]
pub struct ObjectRequirements {
    pub required_fields: Vec<ObjectFieldSpec>,
    pub optional_fields: Vec<ObjectFieldSpec>,
}

/// Required and optional STATE fields.
#[derive(Debug)]
pub struct StateRequirements {
    pub required_fields: Vec<StateFieldSpec>,
    pub optional_fields: Vec<StateFieldSpec>,
}

/// A map from names to names; a later insertion under a name replaces an
/// earlier one when looked up.
#[derive(Debug)]
pub struct StringMap {
    pub entries: Vec<(String, String)>,
}

/// How OBJECT fields reach the collector and which data fields it yields.
#[derive(Debug)]
pub struct CollectionMappings {
    pub object_to_collection: StringMap,
    pub required_data_fields: Vec<String>,
    pub optional_data_fields: Vec<String>,
}

/// Which collected data field each STATE field is checked against.
#[derive(Debug)]
pub struct ValidationMappings {
    pub state_to_data: StringMap,
}

/// The field mappings of a contract.
#[derive(Debug)]
pub struct FieldMappings {
    pub collection_mappings: CollectionMappings,
    pub validation_mappings: ValidationMappings,
}

/// What kind of collection a CTN type performs.
#[derive(Clone, Copy, PartialEq, Eq, Structural, Debug)]
pub enum CollectionMode {
    Metadata,
    Content,
    Status,
}

/// Expected cost of a collection.
#[derive(Clone, Copy, PartialEq, Eq, Structural, Debug)]
pub struct PerformanceHints {
    pub expected_collection_time_ms: Option<u64>,
    pub memory_usage_mb: Option<u64>,
    pub network_intensive: bool,
    pub cpu_intensive: bool,
    pub requires_elevated_privileges: bool,
}

/// How data for the CTN type is collected.
#[derive(Debug)]
pub struct CollectionStrategy {
    pub collector_type: String,
    pub collection_mode: CollectionMode,
    pub required_capabilities: Vec<String>,
    pub performance_hints: PerformanceHints,
}

/// Kind of a behavior.
#[derive(Clone, Copy, PartialEq, Eq, Structural, Debug)]
pub enum BehaviorType {
    Flag,
    Parameter,
}

/// A parameter of a behavior.
#[derive(Debug)]
pub struct BehaviorParameter {
    pub name: String,
    pub data_type: DataType,
    pub required: bool,
    pub default_value: Option<String>,
    pub description: String,
}

/// A behavior a CTN type accepts.
#[derive(Debug)]
pub struct SupportedBehavior {
    pub name: String,
    pub behavior_type: BehaviorType,
    pub parameters: Vec<BehaviorParameter>,
    pub description: String,
    pub example: String,
}

/// The contract of a CTN type.
#[derive(Debug)]
pub struct CtnContract {
    pub ctn_type: String,
    pub object_requirements: ObjectRequirements,
    pub state_requirements: StateRequirements,
    pub field_mappings: FieldMappings,
    pub collection_strategy: CollectionStrategy,
    pub supported_behaviors: Vec<SupportedBehavior>,
}

/// Name and type of OBJECT fields.
pub open spec fn object_field_view(fs: Seq<ObjectFieldSpec>) -> Seq<(Seq<char>, DataType)> {
    fs.map_values(|f: ObjectFieldSpec| (f.name@, f.data_type))
}

/// Name, type and allowed operations of STATE fields.
pub open spec fn state_field_view(fs: Seq<StateFieldSpec>) -> Seq<
    (Seq<char>, DataType, Seq<Operation>),
> {
    fs.map_values(|f: StateFieldSpec| (f.name@, f.data_type, f.allowed_operations@))
}

/// A list of (key, value) string pairs as character sequences.
pub open spec fn pairs_view(ps: Seq<(String, String)>) -> Seq<(Seq<char>, Seq<char>)> {
    ps.map_values(|p: (String, String)| (p.0@, p.1@))
}

/// A list of strings as character sequences.
pub open spec fn names_view(ns: Seq<String>) -> Seq<Seq<char>> {
    ns.map_values(|n: String| n@)
}

/// The value of the last pair whose key is `k` (later insertions replace
/// earlier ones, as in a map).
pub open spec fn pair_lookup(ps: Seq<(Seq<char>, Seq<char>)>, k: Seq<char>) -> Option<Seq<char>>
    decreases ps.len(),
{
    if ps.len() == 0 {
        None
    } else if ps.last().0 == k {
        Some(ps.last().1)
    } else {
        pair_lookup(ps.drop_last(), k)
    }
}

/// The data field a STATE field is checked against: its mapping, or the
/// field's own name when it has none.
pub open spec fn mapped_data_name(ps: Seq<(Seq<char>, Seq<char>)>, k: Seq<char>) -> Seq<char> {
    match pair_lookup(ps, k) {
        Some(v) => v,
        None => k,
    }
}

/// Name, default and requiredness of a behavior's parameters.
pub open spec fn parameter_view(ps: Seq<BehaviorParameter>) -> Seq<
    (Seq<char>, DataType, bool, Option<Seq<char>>),
> {
    ps.map_values(
        |p: BehaviorParameter|
            (
                p.name@,
                p.data_type,
                p.required,
                match p.default_value {
                    Some(d) => Some(d@),
                    None => None,
                },
            ),
    )
}

/// Name and type of behaviors.
pub open spec fn behavior_view(bs: Seq<SupportedBehavior>) -> Seq<(Seq<char>, BehaviorType)> {
    bs.map_values(|b: SupportedBehavior| (b.name@, b.behavior_type))
}

/// The STATE-to-data mapping of a contract.
pub open spec fn state_to_data(c: CtnContract) -> Seq<(Seq<char>, Seq<char>)> {
    pairs_view(c.field_mappings.validation_mappings.state_to_data.entries@)
}

/// Looks a key up in (key, value) pairs; the last pair with the key wins.
pub fn lookup_pair(ps: &Vec<(String, String)>, k: &str) -> (res: Option<String>)
    ensures
        match pair_lookup(pairs_view(ps@), k@) {
            Some(v) => res matches Some(r) && r@ == v,
            None => res is None,
        },
{
    let kc = chars_of(k);
    let mut i = ps.len();
    assert(pairs_view(ps@).take(i as int) =~= pairs_view(ps@));
    while i > 0
        invariant
            i <= ps@.len(),
            kc@ == k@,
            pair_lookup(pairs_view(ps@), k@) == pair_lookup(pairs_view(ps@).take(i as int), k@),
        decreases i,
    {
        let ghost pv = pairs_view(ps@).take(i as int);
        assert(pv.drop_last() =~= pairs_view(ps@).take(i - 1));
        if chars_eq(&chars_of(ps[i - 1].0.as_str()), &kc) {
            return Some(ps[i - 1].1.clone());
        }
        i = i - 1;
    }
    None
}

impl CtnContract {
    /// An empty contract for `ctn_type`.
    pub fn new(ctn_type: String) -> (res: Self)
        ensures
            res.ctn_type == ctn_type,
            res.object_requirements.required_fields@.len() == 0,
            res.object_requirements.optional_fields@.len() == 0,
            res.state_requirements.required_fields@.len() == 0,
            res.state_requirements.optional_fields@.len() == 0,
            res.field_mappings.collection_mappings.object_to_collection.entries@.len() == 0,
            res.field_mappings.collection_mappings.required_data_fields@.len() == 0,
            res.field_mappings.collection_mappings.optional_data_fields@.len() == 0,
            res.field_mappings.validation_mappings.state_to_data.entries@.len() == 0,
            res.collection_strategy.collector_type@.len() == 0,
            res.collection_strategy.required_capabilities@.len() == 0,
            res.supported_behaviors@.len() == 0,
    {
        CtnContract {
            ctn_type,
            object_requirements: ObjectRequirements {
                required_fields: Vec::new(),
                optional_fields: Vec::new(),
            },
            state_requirements: StateRequirements {
                required_fields: Vec::new(),
                optional_fields: Vec::new(),
            },
            field_mappings: FieldMappings {
                collection_mappings: CollectionMappings {
                    object_to_collection: StringMap { entries: Vec::new() },
                    required_data_fields: Vec::new(),
                    optional_data_fields: Vec::new(),
                },
                validation_mappings: ValidationMappings {
                    state_to_data: StringMap { entries: Vec::new() },
                },
            },
            collection_strategy: CollectionStrategy {
                collector_type: String::new(),
                collection_mode: CollectionMode::Metadata,
                required_capabilities: Vec::new(),
                performance_hints: PerformanceHints {
                    expected_collection_time_ms: None,
                    memory_usage_mb: None,
                    network_intensive: false,
                    cpu_intensive: false,
                    requires_elevated_privileges: false,
                },
            },
            supported_behaviors: Vec::new(),
        }
    }

    /// The data field that STATE field `state_field` is checked against.
    pub fn data_field_for(&self, state_field: &str) -> (res: String)
        ensures
            res@ == mapped_data_name(state_to_data(*self), state_field@),
    {
        match self.field_mappings.validation_mappings.state_to_data.get(state_field) {
            Some(v) => v,
            None => state_field.to_string(),
        }
    }
}

impl StringMap {
    /// Maps `key` to `value`.
    pub fn insert(&mut self, key: String, value: String)
        ensures
            pairs_view(final(self).entries@) == pairs_view(old(self).entries@).push(
                (key@, value@),
            ),
    {
        let ghost before = pairs_view(self.entries@);
        let ghost kv = (key@, value@);
        self.entries.push((key, value));
        assert(pairs_view(self.entries@) =~= before.push(kv));
    }

    /// The value mapped to `key`.
    pub fn get(&self, key: &str) -> (res: Option<String>)
        ensures
            match pair_lookup(pairs_view(self.entries@), key@) {
                Some(v) => res matches Some(r) && r@ == v,
                None => res is None,
            },
    {
        lookup_pair(&self.entries, key)
    }
}

impl ObjectRequirements {
    /// Adds a required OBJECT field.
    pub fn add_required_field(&mut self, field: ObjectFieldSpec)
        ensures
            object_field_view(final(self).required_fields@) == object_field_view(
                old(self).required_fields@,
            ).push((field.name@, field.data_type)),
            object_field_view(final(self).optional_fields@) == object_field_view(
                old(self).optional_fields@,
            ),
    {
        let ghost before = object_field_view(self.required_fields@);
        let ghost fv = (field.name@, field.data_type);
        self.required_fields.push(field);
        assert(object_field_view(self.required_fields@) =~= before.push(fv));
    }

    /// Adds an optional OBJECT field.
    pub fn add_optional_field(&mut self, field: ObjectFieldSpec)
        ensures
            object_field_view(final(self).optional_fields@) == object_field_view(
                old(self).optional_fields@,
            ).push((field.name@, field.data_type)),
            object_field_view(final(self).required_fields@) == object_field_view(
                old(self).required_fields@,
            ),
    {
        let ghost before = object_field_view(self.optional_fields@);
        let ghost fv = (field.name@, field.data_type);
        self.optional_fields.push(field);
        assert(object_field_view(self.optional_fields@) =~= before.push(fv));
    }
}

impl StateRequirements {
    /// Adds a required STATE field.
    pub fn add_required_field(&mut self, field: StateFieldSpec)
        ensures
            state_field_view(final(self).required_fields@) == state_field_view(
                old(self).required_fields@,
            ).push((field.name@, field.data_type, field.allowed_operations@)),
            state_field_view(final(self).optional_fields@) == state_field_view(
                old(self).optional_fields@,
            ),
    {
        let ghost before = state_field_view(self.required_fields@);
        let ghost fv = (field.name@, field.data_type, field.allowed_operations@);
        self.required_fields.push(field);
        assert(state_field_view(self.required_fields@) =~= before.push(fv));
    }

    /// Adds an optional STATE field.
    pub fn add_optional_field(&mut self, field: StateFieldSpec)
        ensures
            state_field_view(final(self).optional_fields@) == state_field_view(
                old(self).optional_fields@,
            ).push((field.name@, field.data_type, field.allowed_operations@)),
            state_field_view(final(self).required_fields@) == state_field_view(
                old(self).required_fields@,
            ),
    {
        let ghost before = state_field_view(self.optional_fields@);
        let ghost fv = (field.name@, field.data_type, field.allowed_operations@);
        self.optional_fields.push(field);
        assert(state_field_view(self.optional_fields@) =~= before.push(fv));
    }
}

impl CtnContract {
    /// Adds a behavior.
    pub fn add_supported_behavior(&mut self, behavior: SupportedBehavior)
        ensures
            final(self).ctn_type == old(self).ctn_type,
            final(self).object_requirements == old(self).object_requirements,
            final(self).state_requirements == old(self).state_requirements,
            final(self).field_mappings == old(self).field_mappings,
            final(self).collection_strategy == old(self).collection_strategy,
            final(self).supported_behaviors@ == old(self).supported_behaviors@.push(behavior),
    {
        self.supported_behaviors.push(behavior);
    }
}

} // verus!
