//! Capability registry: the fixed, ordered set of host permission surfaces
//! that the bootstrap enables before the presentation loop starts.

use vstd::prelude::*;

verus! {

/// The number of capability modules in the registry.
pub const CAPABILITY_COUNT: usize = 6;

/// One host permission surface kind.
#[derive(Clone, Copy, PartialEq, Eq, Structural, Debug)]
pub enum CapabilityKind {
    /// Access to the local filesystem.
    Filesystem,
    /// Outbound network access.
    Network,
    /// Process and shell invocation.
    ProcessShell,
    /// Operating-system metadata queries.
    OsInfo,
    /// User notifications.
    Notifications,
    /// Update checking.
    UpdateCheck,
}

/// An enabled capability: its identity and its initialization outcome.
#[derive(Clone, Copy, PartialEq, Eq, Structural, Debug)]
pub struct Capability {
    /// Which permission surface this handle stands for.
    pub kind: CapabilityKind,
    /// Whether initialization succeeded. At this layer initialization is
    /// treated as infallible, so an initialized capability is always ready.
    pub ready: bool,
}

/// The fixed order in which the capability modules are registered.
/// The order is insertion order and carries no further meaning, except
/// that later entries may assume earlier ones succeeded.
pub open spec fn spec_registry_order() -> Seq<CapabilityKind> {
    seq![
        CapabilityKind::Filesystem,
        CapabilityKind::Network,
        CapabilityKind::ProcessShell,
        CapabilityKind::OsInfo,
        CapabilityKind::Notifications,
        CapabilityKind::UpdateCheck,
    ]
}

/// The registry after initialization: every module of the fixed order,
/// each one ready.
pub open spec fn spec_initialized_registry() -> Seq<Capability> {
    spec_registry_order().map(|i: int, k: CapabilityKind| Capability { kind: k, ready: true })
}

impl CapabilityKind {
    /// Enables this permission surface. Infallible at this layer: the
    /// returned handle is always ready.
    pub fn init(self) -> (capability: Capability)
        ensures
            capability == (Capability { kind: self, ready: true }),
    {
        Capability { kind: self, ready: true }
    }

    /// The printable identity of this capability kind.
    pub fn name(self) -> (name: &'static str)
        ensures
            name@ == self.spec_name(),
    {
        match self {
            CapabilityKind::Filesystem => "filesystem",
            CapabilityKind::Network => "network",
            CapabilityKind::ProcessShell => "process-shell",
            CapabilityKind::OsInfo => "os-info",
            CapabilityKind::Notifications => "notifications",
            CapabilityKind::UpdateCheck => "update-check",
        }
    }

    /// The printable identity of this capability kind.
    pub open spec fn spec_name(self) -> Seq<char> {
        match self {
            CapabilityKind::Filesystem => "filesystem"@,
            CapabilityKind::Network => "network"@,
            CapabilityKind::ProcessShell => "process-shell"@,
            CapabilityKind::OsInfo => "os-info"@,
            CapabilityKind::Notifications => "notifications"@,
            CapabilityKind::UpdateCheck => "update-check"@,
        }
    }
}

/// The registration table: the capability kinds in their fixed order.
pub fn registry_kinds() -> (kinds: Vec<CapabilityKind>)
    ensures
        kinds@ == spec_registry_order(),
{
    let mut kinds: Vec<CapabilityKind> = Vec::new();
    kinds.push(CapabilityKind::Filesystem);
    kinds.push(CapabilityKind::Network);
    kinds.push(CapabilityKind::ProcessShell);
    kinds.push(CapabilityKind::OsInfo);
    kinds.push(CapabilityKind::Notifications);
    kinds.push(CapabilityKind::UpdateCheck);
    proof {
        assert(kinds@ =~= spec_registry_order());
    }
    kinds
}

/// Initializes every capability module of the registry, in the fixed order.
///
/// The result always holds exactly the fixed module set: one ready
/// capability per registered kind, in registration order. No module's
/// initialization depends on another's result.
pub fn initialize_all() -> (capabilities: Vec<Capability>)
    ensures
        capabilities@ == spec_initialized_registry(),
        capabilities@.len() == CAPABILITY_COUNT,
{
    let kinds = registry_kinds();
    let mut capabilities: Vec<Capability> = Vec::new();
    let mut i: usize = 0;
    while i < kinds.len()
        invariant
            i <= kinds.len(),
            kinds@ == spec_registry_order(),
            capabilities@ =~= spec_initialized_registry().subrange(0, i as int),
        decreases kinds@.len() - i,
    {
        capabilities.push(kinds[i].init());
        i = i + 1;
    }
    proof {
        assert(capabilities@ =~= spec_initialized_registry());
    }
    capabilities
}

/// Initialization is idempotent per process: every run of the registry
/// yields the same result, of the fixed module count, in the fixed order.
pub proof fn lemma_initialize_all_idempotent(first: Seq<Capability>, second: Seq<Capability>)
    requires
        first == spec_initialized_registry(),
        second == spec_initialized_registry(),
    ensures
        first == second,
        first.len() == CAPABILITY_COUNT,
        forall|i: int|
            0 <= i < first.len() ==> first[i] == (Capability {
                kind: spec_registry_order()[i],
                ready: true,
            }),
{
}

} // verus!
