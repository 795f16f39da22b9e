//! Computed values: nothing is read from the system; the data only records
//! how it was obtained.

use vstd::prelude::*;
use crate::collectors::{check_ctn_type, incompatible_reason, BehaviorHints};
use crate::contract::CtnContract;
use crate::model::{
    data_fields, has_method, MethodView, CollectedData, CollectionError, CollectionMethod, CollectionMethodType,
    ExecutableObject, ValueView,
};

verus! {

/// Collector for computed values.
#[derive(Debug)]
pub struct ComputedValuesCollector {
    id: String,
}

impl ComputedValuesCollector {
    /// The collector's id.
    pub closed spec fn id_view(&self) -> Seq<char> {
        self.id@
    }

    /// A collector with id `computed_values_collector`.
    pub fn new() -> (res: Self)
        ensures
            res.id_view() == "computed_values_collector"@,
    {
        ComputedValuesCollector { id: "computed_values_collector".to_string() }
    }

    /// The collector's id.
    pub fn collector_id(&self) -> (res: &str)
        ensures
            res@ == self.id_view(),
    {
        self.id.as_str()
    }

    /// The CTN types the collector serves.
    pub fn supported_ctn_types(&self) -> (res: Vec<String>)
        ensures
            res@.len() == 1,
            res@[0]@ == "computed_values"@,
    {
        let mut v = Vec::new();
        v.push("computed_values".to_string());
        v
    }

    /// There is nothing to batch.
    pub fn supports_batch_collection(&self) -> (res: bool)
        ensures
            !res,
    {
        false
    }

    /// Accepts only the computed_values contract.
    pub fn validate_ctn_compatibility(&self, contract: &CtnContract) -> (res: Result<
        (),
        CollectionError,
    >)
        ensures
            res is Ok <==> contract.ctn_type@ == "computed_values"@,
            res matches Err(e) ==> e matches CollectionError::CtnContractValidation { reason }
                && reason@ == incompatible_reason("computed_values"@, contract.ctn_type@),
    {
        check_ctn_type(&contract.ctn_type, "computed_values")
    }

    /// Data with no fields, recording a computed collection.
    pub fn collect_for_ctn_with_hints(
        &self,
        object: &ExecutableObject,
        _contract: &CtnContract,
        _hints: &BehaviorHints,
    ) -> (res: Result<CollectedData, CollectionError>)
        ensures
            res matches Ok(d) && {
                &&& d.object_id@ == object.identifier@
                &&& d.ctn_type@ == "computed_values"@
                &&& d.collector_id@ == self.id_view()
                &&& has_method(
                    d,
                    MethodView {
                        method_type: CollectionMethodType::Computed,
                        description: "Computed value - no actual system collection performed"@,
                        target: None,
                        command: None,
                        inputs: Seq::empty(),
                    },
                )
                &&& data_fields(d).len() == 0
            },
    {
        let mut data = CollectedData::new(
            object.identifier.clone(),
            "computed_values".to_string(),
            self.id.clone(),
        );
        let method = CollectionMethod {
            method_type: CollectionMethodType::Computed,
            description: "Computed value - no actual system collection performed".to_string(),
            target: None,
            command: None,
            inputs: Vec::new(),
        };
        data.set_method(method);
        assert(data.method.unwrap().inputs@.map_values(|p: (String, String)| (p.0@, p.1@))
            =~= Seq::<(Seq<char>, Seq<char>)>::empty());
        assert(data_fields(data) =~= Seq::<(Seq<char>, ValueView)>::empty());
        Ok(data)
    }
}

} // verus!
