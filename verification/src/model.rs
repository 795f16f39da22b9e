//! The values that collectors read from policy objects and the data they
//! hand to executors.
//!
//! A policy OBJECT is a list of named fields; a collector turns it into
//! `CollectedData`: named values plus a record of how they were obtained.

use vstd::prelude::*;
use crate::text::{append_chars, chars_eq, chars_of, string_from_chars};
use crate::numfmt::{decimal, radix_string_exec};

verus! {

/// A resolved field value.
#[derive(Debug)]
pub enum ResolvedValue {
    String(String),
    Integer(i64),
    Boolean(bool),
    Version(String),
}

/// What a resolved value holds, as a mathematical value.
pub enum ValueView {
    Str(Seq<char>),
    Int(int),
    Bool(bool),
    Ver(Seq<char>),
}

impl View for ResolvedValue {
    type V = ValueView;

    open spec fn view(&self) -> ValueView {
        match self {
            ResolvedValue::String(s) => ValueView::Str(s@),
            ResolvedValue::Integer(i) => ValueView::Int(*i as int),
            ResolvedValue::Boolean(b) => ValueView::Bool(*b),
            ResolvedValue::Version(s) => ValueView::Ver(s@),
        }
    }
}

impl ResolvedValue {
    /// A copy of the value.
    pub fn copy_value(&self) -> (res: ResolvedValue)
        ensures
            res@ == self@,
    {
        match self {
            ResolvedValue::String(s) => ResolvedValue::String(s.clone()),
            ResolvedValue::Integer(i) => ResolvedValue::Integer(*i),
            ResolvedValue::Boolean(b) => ResolvedValue::Boolean(*b),
            ResolvedValue::Version(s) => ResolvedValue::Version(s.clone()),
        }
    }
}

/// One `name value` field of a policy OBJECT.
#[derive(Debug)]
pub struct ObjectField {
    pub name: String,
    pub value: ResolvedValue,
}

/// A policy OBJECT, its variables resolved.
#[derive(Debug)]
pub struct ExecutableObject {
    pub identifier: String,
    pub fields: Vec<ObjectField>,
}

/// The (name, value) pairs of an object's fields.
pub open spec fn object_fields(o: ExecutableObject) -> Seq<(Seq<char>, ValueView)> {
    o.fields@.map_values(|f: ObjectField| (f.name@, f.value@))
}

/// How data was collected.
#[derive(Clone, Copy, PartialEq, Eq, Structural, Debug)]
pub enum CollectionMethodType {
    Command,
    RegistryQuery,
    SocketInspection,
    WmiQuery,
    Computed,
}

/// Provenance of collected data: what was run, on what, with which inputs.
#[derive(Debug)]
pub struct CollectionMethod {
    pub method_type: CollectionMethodType,
    pub description: String,
    pub target: Option<String>,
    pub command: Option<String>,
    pub inputs: Vec<(String, String)>,
}

/// A collection method as a mathematical value.
pub struct MethodView {
    pub method_type: CollectionMethodType,
    pub description: Seq<char>,
    pub target: Option<Seq<char>>,
    pub command: Option<Seq<char>>,
    pub inputs: Seq<(Seq<char>, Seq<char>)>,
}

/// The view of a collection method.
pub open spec fn method_view(m: CollectionMethod) -> MethodView {
    MethodView {
        method_type: m.method_type,
        description: m.description@,
        target: match m.target {
            Some(t) => Some(t@),
            None => None,
        },
        command: match m.command {
            Some(c) => Some(c@),
            None => None,
        },
        inputs: m.inputs@.map_values(|p: (String, String)| (p.0@, p.1@)),
    }
}

/// Whether collected data records method `m`.
pub open spec fn has_method(d: CollectedData, m: MethodView) -> bool {
    d.method matches Some(x) && method_view(x) == m
}

/// Data a collector gathered for one object.
#[derive(Debug)]
pub struct CollectedData {
    pub object_id: String,
    pub ctn_type: String,
    pub collector_id: String,
    pub fields: Vec<(String, ResolvedValue)>,
    pub method: Option<CollectionMethod>,
}

/// The (name, value) pairs of collected data, in the order they were added.
pub open spec fn data_fields(d: CollectedData) -> Seq<(Seq<char>, ValueView)> {
    d.fields@.map_values(|p: (String, ResolvedValue)| (p.0@, p.1@))
}

/// The value last recorded under `name` among `fs`.
pub open spec fn lookup(fs: Seq<(Seq<char>, ValueView)>, name: Seq<char>) -> Option<ValueView>
    decreases fs.len(),
{
    if fs.len() == 0 {
        None
    } else if fs.last().0 == name {
        Some(fs.last().1)
    } else {
        lookup(fs.drop_last(), name)
    }
}

impl CollectedData {
    /// Data for `object_id` with no fields yet.
    pub fn new(object_id: String, ctn_type: String, collector_id: String) -> (res: Self)
        ensures
            res.object_id == object_id,
            res.ctn_type == ctn_type,
            res.collector_id == collector_id,
            res.fields@.len() == 0,
            res.method is None,
    {
        CollectedData { object_id, ctn_type, collector_id, fields: Vec::new(), method: None }
    }

    /// Records `value` under `name`; a later value for a name replaces an
    /// earlier one when looked up.
    pub fn add_field(&mut self, name: String, value: ResolvedValue)
        ensures
            final(self).object_id == old(self).object_id,
            final(self).ctn_type == old(self).ctn_type,
            final(self).collector_id == old(self).collector_id,
            final(self).method == old(self).method,
            data_fields(*final(self)) == data_fields(*old(self)).push((name@, value@)),
    {
        let ghost before = data_fields(*self);
        let ghost entry = (name@, value@);
        self.fields.push((name, value));
        assert(data_fields(*self) =~= before.push(entry));
    }

    /// Records how the data was collected.
    pub fn set_method(&mut self, method: CollectionMethod)
        ensures
            final(self).object_id == old(self).object_id,
            final(self).ctn_type == old(self).ctn_type,
            final(self).collector_id == old(self).collector_id,
            final(self).fields == old(self).fields,
            final(self).method == Some(method),
    {
        self.method = Some(method);
    }

    /// The value last recorded under `name`.
    pub fn get_field(&self, name: &str) -> (res: Option<&ResolvedValue>)
        ensures
            match lookup(data_fields(*self), name@) {
                Some(v) => res is Some && res.unwrap()@ == v,
                None => res is None,
            },
    {
        let n = chars_of(name);
        let mut i = self.fields.len();
        assert(data_fields(*self).take(i as int) =~= data_fields(*self));
        while i > 0
            invariant
                i <= self.fields@.len(),
                n@ == name@,
                lookup(data_fields(*self), name@) == lookup(
                    data_fields(*self).take(i as int),
                    name@,
                ),
            decreases i,
        {
            let ghost fs = data_fields(*self).take(i as int);
            assert(fs.drop_last() =~= data_fields(*self).take(i - 1));
            assert(fs.last() == (self.fields@[i - 1].0@, self.fields@[i - 1].1@));
            if chars_eq(&chars_of(self.fields[i - 1].0.as_str()), &n) {
                return Some(&self.fields[i - 1].1);
            }
            i = i - 1;
        }
        None
    }

    /// Whether a value is recorded under `name`.
    pub fn has_field(&self, name: &str) -> (res: bool)
        ensures
            res == lookup(data_fields(*self), name@) is Some,
    {
        self.get_field(name).is_some()
    }
}

/// Errors of collection.
#[derive(Debug)]
pub enum CollectionError {
    /// The OBJECT lacks a field or has one of the wrong kind
    InvalidObjectConfiguration { object_id: String, reason: String },
    /// Collection ran and failed
    CollectionFailed { object_id: String, reason: String },
    /// The system refused access
    AccessDenied { object_id: String, reason: String },
    /// The CTN contract does not fit the collector
    CtnContractValidation { reason: String },
    /// The collector does not handle the CTN type
    UnsupportedCtnType { ctn_type: String, collector_id: String },
}

/// What a system command printed and how it exited.
#[derive(Debug)]
pub struct CommandOutput {
    pub exit_code: i32,
    pub stdout: String,
    pub stderr: String,
}

/// `n` in decimal with a leading `-` when negative, as `i64`'s `Display`
/// writes it.
pub open spec fn signed_decimal(n: int) -> Seq<char> {
    if n < 0 {
        "-"@ + decimal((-n) as nat)
    } else {
        decimal(n as nat)
    }
}

/// `n.to_string()` for a signed integer.
pub fn i64_to_decimal(n: i64) -> (res: Vec<char>)
    ensures
        res@ == signed_decimal(n as int),
{
    if n < 0 {
        let mag: u64 = if n == i64::MIN {
            9223372036854775808u64
        } else {
            (-n) as u64
        };
        let mut v = chars_of("-");
        append_chars(&mut v, &radix_string_exec(mag, 10, true));
        v
    } else {
        radix_string_exec(n as u64, 10, true)
    }
}

/// Concatenation of string pieces.
pub fn concat(parts: &[&str]) -> (res: String)
    ensures
        res@ == concat_spec(parts@),
{
    let mut v: Vec<char> = Vec::new();
    let mut i: usize = 0;
    while i < parts.len()
        invariant
            i <= parts@.len(),
            v@ == concat_spec(parts@.take(i as int)),
        decreases parts.len() - i,
    {
        assert(parts@.take(i + 1).drop_last() =~= parts@.take(i as int));
        append_chars(&mut v, &chars_of(parts[i]));
        i = i + 1;
    }
    assert(parts@.take(parts@.len() as int) =~= parts@);
    string_from_chars(&v)
}

/// The pieces, one after another.
pub open spec fn concat_spec(parts: Seq<&str>) -> Seq<char>
    decreases parts.len(),
{
    if parts.len() == 0 {
        Seq::empty()
    } else {
        concat_spec(parts.drop_last()) + parts.last()@
    }
}

/// Two pieces, one after another.
pub fn concat2(a: &str, b: &str) -> (res: String)
    ensures
        res@ == a@ + b@,
{
    let mut v = chars_of(a);
    append_chars(&mut v, &chars_of(b));
    string_from_chars(&v)
}

/// Three pieces, one after another.
pub fn concat3(a: &str, b: &str, c: &str) -> (res: String)
    ensures
        res@ == a@ + b@ + c@,
{
    let mut v = chars_of(a);
    append_chars(&mut v, &chars_of(b));
    append_chars(&mut v, &chars_of(c));
    string_from_chars(&v)
}


/// In fields with pairwise different names, looking a name up finds the
/// field of that name, and a name no field has finds nothing.
pub proof fn lemma_lookup_unique(fs: Seq<(Seq<char>, ValueView)>, name: Seq<char>)
    requires
        forall|i: int, j: int| 0 <= i < j < fs.len() ==> #[trigger] fs[i].0 != #[trigger] fs[j].0,
    ensures
        forall|i: int| 0 <= i < fs.len() && #[trigger] fs[i].0 == name ==> lookup(fs, name) == Some(fs[i].1),
        (forall|i: int| 0 <= i < fs.len() ==> #[trigger] fs[i].0 != name) ==> lookup(fs, name) is None,
    decreases fs.len(),
{
    if fs.len() > 0 {
        let d = fs.drop_last();
        assert forall|i: int, j: int| 0 <= i < j < d.len() implies #[trigger] d[i].0 != #[trigger] d[j].0 by {
            assert(d[i] == fs[i] && d[j] == fs[j]);
        }
        lemma_lookup_unique(d, name);
        assert forall|i: int| 0 <= i < fs.len() && #[trigger] fs[i].0 == name implies lookup(fs, name) == Some(fs[i].1) by {
            if i < fs.len() - 1 {
                assert(d[i] == fs[i]);
                assert(fs[i].0 != fs[fs.len() - 1].0);
            }
        }
        if forall|i: int| 0 <= i < fs.len() ==> #[trigger] fs[i].0 != name {
            assert(fs[fs.len() - 1].0 != name);
            assert forall|i: int| 0 <= i < d.len() implies #[trigger] d[i].0 != name by {
                assert(d[i] == fs[i]);
            }
        }
    }
}

} // verus!
