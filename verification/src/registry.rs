//! The strategies a scanner knows: for each CTN type, the collector that
//! gathers its data and the contract its executor checks against.

use vstd::prelude::*;
use crate::contract::CtnContract;
use crate::contracts::{
    create_computed_values_contract, create_file_content_contract, create_file_metadata_contract,
    create_json_record_contract, create_k8s_resource_contract, create_registry_contract,
    create_registry_subkeys_contract, create_service_contract, create_tcp_listener_contract,
};
use crate::output::OutputError;
use crate::text::{chars_eq, chars_of};

verus! {

/// The collector of a strategy.
#[derive(Clone, Copy, PartialEq, Eq, Structural, Debug)]
pub enum CollectorKind {
    FileSystem,
    ComputedValues,
    TcpListener,
    K8sResource,
    Registry,
    RegistrySubkeys,
    Service,
}

/// A registered strategy: a CTN type, its collector and its contract.
#[derive(Debug)]
pub struct CtnStrategy {
    pub collector: CollectorKind,
    pub contract: CtnContract,
}

/// Why a strategy could not be registered.
#[derive(Debug)]
pub enum StrategyError {
    /// A strategy for this CTN type is already registered
    DuplicateCtnType(String),
}

impl StrategyError {
    /// The error as a message.
    pub fn message(&self) -> (res: String)
        ensures
            res@ == match self {
                StrategyError::DuplicateCtnType(t) => "CTN type already registered: "@ + t@,
            },
    {
        proof {
            reveal_strlit("");
        }
        match self {
            StrategyError::DuplicateCtnType(t) => crate::model::concat3(
                "CTN type already registered: ",
                t.as_str(),
                "",
            ),
        }
    }
}

/// The strategies of a scanner, one per CTN type.
#[derive(Debug)]
pub struct CtnStrategyRegistry {
    strategies: Vec<CtnStrategy>,
}

/// The CTN types and collectors of strategies, in registration order.
pub open spec fn strategy_view(s: Seq<CtnStrategy>) -> Seq<(Seq<char>, CollectorKind)> {
    s.map_values(|x: CtnStrategy| (x.contract.ctn_type@, x.collector))
}

impl CtnStrategyRegistry {
    /// The registered CTN types and collectors.
    pub closed spec fn view_strategies(&self) -> Seq<(Seq<char>, CollectorKind)> {
        strategy_view(self.strategies@)
    }

    /// A registry without strategies.
    pub fn new() -> (res: Self)
        ensures
            res.view_strategies().len() == 0,
    {
        CtnStrategyRegistry { strategies: Vec::new() }
    }

    /// Whether a strategy for `ctn_type` is registered.
    pub fn has_ctn_type(&self, ctn_type: &str) -> (res: bool)
        ensures
            res == exists|i: int|
                0 <= i < self.view_strategies().len() && (#[trigger] self.view_strategies()[i]).0
                    == ctn_type@,
    {
        let t = chars_of(ctn_type);
        let mut i: usize = 0;
        while i < self.strategies.len()
            invariant
                i <= self.strategies@.len(),
                t@ == ctn_type@,
                forall|j: int|
                    0 <= j < i ==> (#[trigger] strategy_view(self.strategies@)[j]).0 != ctn_type@,
            decreases self.strategies.len() - i,
        {
            if chars_eq(&chars_of(self.strategies[i].contract.ctn_type.as_str()), &t) {
                assert(self.view_strategies()[i as int].0 == ctn_type@);
                return true;
            }
            i = i + 1;
        }
        false
    }

    /// Registers a strategy; a CTN type can be registered once.
    pub fn register_ctn_strategy(&mut self, collector: CollectorKind, contract: CtnContract) -> (res:
        Result<(), StrategyError>)
        ensures
            (exists|i: int|
                0 <= i < old(self).view_strategies().len() && (#[trigger] old(
                    self,
                ).view_strategies()[i]).0 == contract.ctn_type@) ==> (res matches Err(
                StrategyError::DuplicateCtnType(t),
            ) && t@ == contract.ctn_type@ && final(self).view_strategies() == old(
                self,
            ).view_strategies()),
            !(exists|i: int|
                0 <= i < old(self).view_strategies().len() && (#[trigger] old(
                    self,
                ).view_strategies()[i]).0 == contract.ctn_type@) ==> (res is Ok
                && final(self).view_strategies() == old(self).view_strategies().push(
                (contract.ctn_type@, collector),
            )),
    {
        if self.has_ctn_type(contract.ctn_type.as_str()) {
            return Err(StrategyError::DuplicateCtnType(contract.ctn_type.clone()));
        }
        let ghost before = strategy_view(self.strategies@);
        let ghost entry = (contract.ctn_type@, collector);
        self.strategies.push(CtnStrategy { collector, contract });
        assert(strategy_view(self.strategies@) =~= before.push(entry));
        Ok(())
    }
}

/// The strategies of the scanner, in registration order.
pub open spec fn scanner_strategies() -> Seq<(Seq<char>, CollectorKind)> {
    seq![
        ("file_metadata"@, CollectorKind::FileSystem),
        ("file_content"@, CollectorKind::FileSystem),
        ("computed_values"@, CollectorKind::ComputedValues),
        ("json_record"@, CollectorKind::FileSystem),
        ("tcp_listener"@, CollectorKind::TcpListener),
        ("k8s_resource"@, CollectorKind::K8sResource),
        ("registry"@, CollectorKind::Registry),
        ("registry_subkeys"@, CollectorKind::RegistrySubkeys),
        ("service"@, CollectorKind::Service),
    ]
}

/// The CTN types of the scanner's strategies are all different: no two
/// share both their length and their first character.
proof fn lemma_scanner_types_distinct()
    ensures
        forall|i: int, j: int|
            0 <= i < j < scanner_strategies().len() ==> #[trigger] scanner_strategies()[i].0
                != #[trigger] scanner_strategies()[j].0,
{
    reveal_strlit("file_metadata");
    reveal_strlit("file_content");
    reveal_strlit("computed_values");
    reveal_strlit("json_record");
    reveal_strlit("tcp_listener");
    reveal_strlit("k8s_resource");
    reveal_strlit("registry");
    reveal_strlit("registry_subkeys");
    reveal_strlit("service");
    let ss = scanner_strategies();
    assert forall|i: int, j: int| 0 <= i < j < ss.len() implies #[trigger] ss[i].0 != #[trigger] ss[j].0 by {
        assert(ss[i].0.len() != ss[j].0.len() || ss[i].0[0] != ss[j].0[0]);
    }
}

/// After the first `k` strategies are registered, the next one's CTN type
/// is new.
proof fn lemma_next_type_new(r: CtnStrategyRegistry, k: int)
    requires
        0 <= k < scanner_strategies().len(),
        r.view_strategies() == scanner_strategies().take(k),
    ensures
        forall|i: int|
            0 <= i < r.view_strategies().len() ==> #[trigger] r.view_strategies()[i].0
                != scanner_strategies()[k].0,
{
    lemma_scanner_types_distinct();
    assert forall|i: int| 0 <= i < r.view_strategies().len() implies #[trigger] r.view_strategies()[i].0
        != scanner_strategies()[k].0 by {
        assert(r.view_strategies()[i] == scanner_strategies()[i]);
    }
}

/// The registry of the scanner: file metadata, file content, computed
/// values, JSON records, TCP listeners, Kubernetes resources, registry
/// values and subkeys, and services.
#[verifier::rlimit(50)]
pub fn create_scanner_registry() -> (res: Result<CtnStrategyRegistry, StrategyError>)
    ensures
        res matches Ok(r) && r.view_strategies() == scanner_strategies(),
{
    proof {
        reveal_strlit("file_metadata");
        reveal_strlit("file_content");
        reveal_strlit("computed_values");
        reveal_strlit("json_record");
        reveal_strlit("tcp_listener");
        reveal_strlit("k8s_resource");
        reveal_strlit("registry");
        reveal_strlit("registry_subkeys");
        reveal_strlit("service");
    }
    let mut registry = CtnStrategyRegistry::new();
    assert(registry.view_strategies() =~= scanner_strategies().take(0));
    proof { lemma_next_type_new(registry, 0); }
    registry.register_ctn_strategy(CollectorKind::FileSystem, create_file_metadata_contract())?;
    assert(registry.view_strategies() =~= scanner_strategies().take(1));
    proof { lemma_next_type_new(registry, 1); }
    registry.register_ctn_strategy(CollectorKind::FileSystem, create_file_content_contract())?;
    assert(registry.view_strategies() =~= scanner_strategies().take(2));
    proof { lemma_next_type_new(registry, 2); }
    registry.register_ctn_strategy(CollectorKind::ComputedValues, create_computed_values_contract())?;
    assert(registry.view_strategies() =~= scanner_strategies().take(3));
    proof { lemma_next_type_new(registry, 3); }
    registry.register_ctn_strategy(CollectorKind::FileSystem, create_json_record_contract())?;
    assert(registry.view_strategies() =~= scanner_strategies().take(4));
    proof { lemma_next_type_new(registry, 4); }
    registry.register_ctn_strategy(CollectorKind::TcpListener, create_tcp_listener_contract())?;
    assert(registry.view_strategies() =~= scanner_strategies().take(5));
    proof { lemma_next_type_new(registry, 5); }
    registry.register_ctn_strategy(CollectorKind::K8sResource, create_k8s_resource_contract())?;
    assert(registry.view_strategies() =~= scanner_strategies().take(6));
    proof { lemma_next_type_new(registry, 6); }
    registry.register_ctn_strategy(CollectorKind::Registry, create_registry_contract())?;
    assert(registry.view_strategies() =~= scanner_strategies().take(7));
    proof { lemma_next_type_new(registry, 7); }
    registry.register_ctn_strategy(CollectorKind::RegistrySubkeys, create_registry_subkeys_contract())?;
    assert(registry.view_strategies() =~= scanner_strategies().take(8));
    proof { lemma_next_type_new(registry, 8); }
    registry.register_ctn_strategy(CollectorKind::Service, create_service_contract())?;
    assert(registry.view_strategies() =~= scanner_strategies());
    Ok(registry)
}

/// Why a scan run failed.
#[derive(Debug)]
pub enum ScanError {
    /// The registry could not be created
    Registry(StrategyError),
    /// The output could not be built
    Output(OutputError),
    /// The output could not be written: the path and the reason
    WriteFile(String, String),
}

/// The registry for a scan run, its failure turned into a scan error.
pub fn create_registry() -> (res: Result<CtnStrategyRegistry, ScanError>)
    ensures
        res matches Ok(r) && r.view_strategies() == scanner_strategies(),
{
    match create_scanner_registry() {
        Ok(r) => Ok(r),
        Err(e) => Err(ScanError::Registry(e)),
    }
}

impl ScanError {
    /// The error as a message.
    pub fn message(&self) -> (res: String)
        ensures
            res@ == match self {
                ScanError::Registry(e) => "Registry creation failed: "@ + match e {
                    StrategyError::DuplicateCtnType(t) => "CTN type already registered: "@ + t@,
                },
                ScanError::Output(e) => "Output generation failed: "@ + match e {
                    OutputError::Build(m) => "Failed to build output: "@ + m@,
                    OutputError::Serialization(m) => "Failed to serialize output: "@ + m@,
                },
                ScanError::WriteFile(p, e) => "Failed to write "@ + p@ + ": "@ + e@,
            },
    {
        proof {
            reveal_strlit("");
        }
        match self {
            ScanError::Registry(e) => {
                let m = e.message();
                crate::model::concat3("Registry creation failed: ", m.as_str(), "")
            },
            ScanError::Output(e) => {
                let m = e.message();
                crate::model::concat3("Output generation failed: ", m.as_str(), "")
            },
            ScanError::WriteFile(p, e) => {
                let head = crate::model::concat3("Failed to write ", p.as_str(), ": ");
                crate::model::concat3(head.as_str(), e.as_str(), "")
            },
        }
    }
}

} // verus!
