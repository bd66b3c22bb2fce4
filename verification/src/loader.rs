//! ABI negotiation for dynamically loaded backend plugins.
//!
//! Opening a shared library and probing its symbols is platform work that the
//! host shell performs; what it finds is reported here as a [`SymbolScan`]:
//! the packed version word (if the mandatory version symbol was present) and
//! one presence flag per named entry point. [`negotiate`] turns a scan into a
//! verified capability table or a typed load failure, so that a missing
//! optional symbol becomes "unsupported" at the contract layer rather than a
//! load-time hole.

use vstd::prelude::*;

use crate::errors::EmuError;
use crate::version::RuntimeAPIVersion;

verus! {

/// The fixed entry-point names a runtime plugin must export.
#[derive(Debug, Clone, Copy, PartialEq, Eq, Structural)]
pub enum RequiredSymbol {
    Init,
    ShotStart,
    ShotEnd,
    GetNextOperations,
    Qalloc,
    Qfree,
    LocalBarrier,
    GlobalBarrier,
    RxyGate,
    RzzGate,
    RzGate,
    TwinRxyGate,
    RppGate,
    Tk2Gate,
    Measure,
    MeasureLeaked,
    Reset,
    ForceResult,
    GetBoolResult,
    GetU64Result,
    SetBoolResult,
    SetU64Result,
    IncrementFutureRefcount,
    DecrementFutureRefcount,
}

/// Why a plugin could not be loaded.
#[derive(Debug, Clone, Copy, PartialEq, Eq, Structural)]
pub enum LoadError {
    /// The shared library itself could not be opened.
    LibraryOpenFailed,
    /// The mandatory version symbol is absent: the plugin predates versioning
    /// and is always rejected.
    MissingVersionSymbol,
    /// The version word decodes to a version the host does not accept.
    IncompatibleVersion(RuntimeAPIVersion),
    /// A mandatory entry point is absent.
    MissingRequiredSymbol(RequiredSymbol),
    /// A mandatory simulator entry point is absent.
    MissingSimulatorSymbol(RequiredSimulatorSymbol),
}

/// What probing a runtime plugin's symbols found: the packed version word if
/// the version symbol was present, presence of each mandatory entry point,
/// and presence of each optional entry point.
#[derive(Debug, Clone, Copy, PartialEq, Eq, Structural)]
pub struct SymbolScan {
    /// The value returned by the version entry point, or `None` if that
    /// symbol was absent.
    pub version_word: Option<u64>,
    pub has_init: bool,
    pub has_shot_start: bool,
    pub has_shot_end: bool,
    pub has_get_next_operations: bool,
    pub has_qalloc: bool,
    pub has_qfree: bool,
    pub has_local_barrier: bool,
    pub has_global_barrier: bool,
    pub has_rxy_gate: bool,
    pub has_rzz_gate: bool,
    pub has_rz_gate: bool,
    pub has_twin_rxy_gate: bool,
    pub has_rpp_gate: bool,
    pub has_tk2_gate: bool,
    pub has_measure: bool,
    pub has_measure_leaked: bool,
    pub has_reset: bool,
    pub has_force_result: bool,
    pub has_get_bool_result: bool,
    pub has_get_u64_result: bool,
    pub has_set_bool_result: bool,
    pub has_set_u64_result: bool,
    pub has_increment_future_refcount: bool,
    pub has_decrement_future_refcount: bool,
    /// Optional: cleanup entry point.
    pub has_exit: bool,
    /// Optional: metric enumeration entry point.
    pub has_get_metrics: bool,
    /// Optional: custom-call entry point.
    pub has_custom_call: bool,
}

impl SymbolScan {
    /// Whether every mandatory entry point was found.
    pub open spec fn all_required_present(self) -> bool {
        self.has_init && self.has_shot_start && self.has_shot_end && self.has_get_next_operations
            && self.has_qalloc && self.has_qfree && self.has_local_barrier
            && self.has_global_barrier && self.has_rxy_gate && self.has_rzz_gate && self.has_rz_gate
            && self.has_twin_rxy_gate && self.has_rpp_gate && self.has_tk2_gate && self.has_measure
            && self.has_measure_leaked && self.has_reset && self.has_force_result
            && self.has_get_bool_result && self.has_get_u64_result && self.has_set_bool_result
            && self.has_set_u64_result && self.has_increment_future_refcount
            && self.has_decrement_future_refcount
    }
}

/// The capability table built at load time: the accepted version, and the
/// presence of each optional entry point. A missing optional capability is
/// reported as unsupported when it is called, never as a load failure.
#[derive(Debug, Clone, Copy, PartialEq, Eq, Structural)]
pub struct CapabilityTable {
    pub version: RuntimeAPIVersion,
    pub has_exit: bool,
    pub has_get_metrics: bool,
    pub has_custom_call: bool,
}

/// Negotiate a scanned plugin: require the version symbol, gate the decoded
/// version, then require every mandatory entry point; optional entry points
/// are recorded as present or absent.
pub fn negotiate(scan: &SymbolScan) -> (r: Result<CapabilityTable, LoadError>)
    ensures
        scan.version_word is None <==> r == Err::<CapabilityTable, LoadError>(
            LoadError::MissingVersionSymbol,
        ),
        (scan.version_word matches Some(w) && !RuntimeAPIVersion::decode_spec(w).compatible_spec()) <==> (r matches Err(e) && e is IncompatibleVersion),
        (scan.version_word matches Some(w) && RuntimeAPIVersion::decode_spec(w).compatible_spec()
            && !scan.all_required_present()) <==> (r matches Err(e) && e is MissingRequiredSymbol),
        r matches Ok(t) ==> {
            &&& scan.version_word matches Some(w) && t.version == RuntimeAPIVersion::decode_spec(w)
            &&& t.version.compatible_spec()
            &&& scan.all_required_present()
            &&& t.has_exit == scan.has_exit
            &&& t.has_get_metrics == scan.has_get_metrics
            &&& t.has_custom_call == scan.has_custom_call
        },
        r is Ok <==> (scan.version_word matches Some(w) && RuntimeAPIVersion::decode_spec(w).compatible_spec() && scan.all_required_present()),
{
    let word = match scan.version_word {
        Some(w) => w,
        None => {
            return Err(LoadError::MissingVersionSymbol);
        },
    };
    let version = RuntimeAPIVersion::from_word(word);
    version.validate()?;
    match first_missing_required(scan) {
        Some(sym) => Err(LoadError::MissingRequiredSymbol(sym)),
        None => Ok(
            CapabilityTable {
                version,
                has_exit: scan.has_exit,
                has_get_metrics: scan.has_get_metrics,
                has_custom_call: scan.has_custom_call,
            },
        ),
    }
}

/// The first mandatory entry point that the scan did not find, in the fixed
/// resolution order, or `None` when all are present.
pub fn first_missing_required(scan: &SymbolScan) -> (r: Option<RequiredSymbol>)
    ensures
        r is None <==> scan.all_required_present(),
{
    if !scan.has_init {
        Some(RequiredSymbol::Init)
    } else if !scan.has_shot_start {
        Some(RequiredSymbol::ShotStart)
    } else if !scan.has_shot_end {
        Some(RequiredSymbol::ShotEnd)
    } else if !scan.has_get_next_operations {
        Some(RequiredSymbol::GetNextOperations)
    } else if !scan.has_qalloc {
        Some(RequiredSymbol::Qalloc)
    } else if !scan.has_qfree {
        Some(RequiredSymbol::Qfree)
    } else if !scan.has_local_barrier {
        Some(RequiredSymbol::LocalBarrier)
    } else if !scan.has_global_barrier {
        Some(RequiredSymbol::GlobalBarrier)
    } else if !scan.has_rxy_gate {
        Some(RequiredSymbol::RxyGate)
    } else if !scan.has_rzz_gate {
        Some(RequiredSymbol::RzzGate)
    } else if !scan.has_rz_gate {
        Some(RequiredSymbol::RzGate)
    } else if !scan.has_twin_rxy_gate {
        Some(RequiredSymbol::TwinRxyGate)
    } else if !scan.has_rpp_gate {
        Some(RequiredSymbol::RppGate)
    } else if !scan.has_tk2_gate {
        Some(RequiredSymbol::Tk2Gate)
    } else if !scan.has_measure {
        Some(RequiredSymbol::Measure)
    } else if !scan.has_measure_leaked {
        Some(RequiredSymbol::MeasureLeaked)
    } else if !scan.has_reset {
        Some(RequiredSymbol::Reset)
    } else if !scan.has_force_result {
        Some(RequiredSymbol::ForceResult)
    } else if !scan.has_get_bool_result {
        Some(RequiredSymbol::GetBoolResult)
    } else if !scan.has_get_u64_result {
        Some(RequiredSymbol::GetU64Result)
    } else if !scan.has_set_bool_result {
        Some(RequiredSymbol::SetBoolResult)
    } else if !scan.has_set_u64_result {
        Some(RequiredSymbol::SetU64Result)
    } else if !scan.has_increment_future_refcount {
        Some(RequiredSymbol::IncrementFutureRefcount)
    } else if !scan.has_decrement_future_refcount {
        Some(RequiredSymbol::DecrementFutureRefcount)
    } else {
        None
    }
}

/// The entry points a simulator plugin must export; the gates, postselection
/// and state dumping are optional capabilities, reported as unsupported when
/// called rather than failing the load.
#[derive(Debug, Clone, Copy, PartialEq, Eq, Structural)]
pub enum RequiredSimulatorSymbol {
    Init,
    ShotStart,
    ShotEnd,
    Measure,
    Reset,
}

/// What probing a simulator plugin's symbols found.
#[derive(Debug, Clone, Copy, PartialEq, Eq, Structural)]
pub struct SimulatorSymbolScan {
    /// The value returned by the version entry point, or `None` if that
    /// symbol was absent.
    pub version_word: Option<u64>,
    pub has_init: bool,
    pub has_shot_start: bool,
    pub has_shot_end: bool,
    pub has_measure: bool,
    pub has_reset: bool,
    /// Optional capabilities.
    pub has_exit: bool,
    pub has_get_metrics: bool,
    pub has_rxy: bool,
    pub has_rz: bool,
    pub has_rzz: bool,
    pub has_tk2: bool,
    pub has_twin_rxy: bool,
    pub has_rpp: bool,
    pub has_postselect: bool,
    pub has_dump_state: bool,
}

impl SimulatorSymbolScan {
    /// Whether every mandatory entry point was found.
    pub open spec fn all_required_present(self) -> bool {
        self.has_init && self.has_shot_start && self.has_shot_end && self.has_measure
            && self.has_reset
    }
}

/// The capability table of a loaded simulator plugin.
#[derive(Debug, Clone, Copy, PartialEq, Eq, Structural)]
pub struct SimulatorCapabilityTable {
    pub version: RuntimeAPIVersion,
    pub has_exit: bool,
    pub has_get_metrics: bool,
    pub has_rxy: bool,
    pub has_rz: bool,
    pub has_rzz: bool,
    pub has_tk2: bool,
    pub has_twin_rxy: bool,
    pub has_rpp: bool,
    pub has_postselect: bool,
    pub has_dump_state: bool,
}

/// Negotiate a scanned simulator plugin: require the version symbol, gate
/// the decoded version, then require every mandatory entry point; optional
/// entry points are recorded as present or absent.
pub fn negotiate_simulator(scan: &SimulatorSymbolScan) -> (r: Result<
    SimulatorCapabilityTable,
    LoadError,
>)
    ensures
        scan.version_word is None <==> r == Err::<SimulatorCapabilityTable, LoadError>(
            LoadError::MissingVersionSymbol,
        ),
        (scan.version_word matches Some(w)
            && !RuntimeAPIVersion::decode_spec(w).compatible_spec()) <==> (r matches Err(e) && e
            is IncompatibleVersion),
        r matches Ok(t) ==> {
            &&& scan.version_word matches Some(w) && t.version == RuntimeAPIVersion::decode_spec(w)
            &&& t.version.compatible_spec()
            &&& scan.all_required_present()
            &&& t.has_exit == scan.has_exit
            &&& t.has_get_metrics == scan.has_get_metrics
            &&& t.has_rxy == scan.has_rxy
            &&& t.has_rz == scan.has_rz
            &&& t.has_rzz == scan.has_rzz
            &&& t.has_tk2 == scan.has_tk2
            &&& t.has_twin_rxy == scan.has_twin_rxy
            &&& t.has_rpp == scan.has_rpp
            &&& t.has_postselect == scan.has_postselect
            &&& t.has_dump_state == scan.has_dump_state
        },
        r is Ok <==> (scan.version_word matches Some(w) && RuntimeAPIVersion::decode_spec(
            w,
        ).compatible_spec() && scan.all_required_present()),
{
    let word = match scan.version_word {
        Some(w) => w,
        None => {
            return Err(LoadError::MissingVersionSymbol);
        },
    };
    let version = RuntimeAPIVersion::from_word(word);
    version.validate()?;
    match first_missing_simulator_symbol(scan) {
        Some(sym) => Err(LoadError::MissingSimulatorSymbol(sym)),
        None => Ok(
            SimulatorCapabilityTable {
                version,
                has_exit: scan.has_exit,
                has_get_metrics: scan.has_get_metrics,
                has_rxy: scan.has_rxy,
                has_rz: scan.has_rz,
                has_rzz: scan.has_rzz,
                has_tk2: scan.has_tk2,
                has_twin_rxy: scan.has_twin_rxy,
                has_rpp: scan.has_rpp,
                has_postselect: scan.has_postselect,
                has_dump_state: scan.has_dump_state,
            },
        ),
    }
}

/// The first mandatory simulator entry point that the scan did not find, or
/// `None` when all are present.
pub fn first_missing_simulator_symbol(scan: &SimulatorSymbolScan) -> (r: Option<
    RequiredSimulatorSymbol,
>)
    ensures
        r is None <==> scan.all_required_present(),
{
    if !scan.has_init {
        Some(RequiredSimulatorSymbol::Init)
    } else if !scan.has_shot_start {
        Some(RequiredSimulatorSymbol::ShotStart)
    } else if !scan.has_shot_end {
        Some(RequiredSimulatorSymbol::ShotEnd)
    } else if !scan.has_measure {
        Some(RequiredSimulatorSymbol::Measure)
    } else if !scan.has_reset {
        Some(RequiredSimulatorSymbol::Reset)
    } else {
        None
    }
}

/// Decode a foreign call's status word: zero is success and anything else is
/// a typed plugin failure — distinct from a panic, which never produces a
/// status at all.
pub fn decode_status(code: i32) -> (r: Result<(), EmuError>)
    ensures
        r is Ok <==> code == 0,
        code != 0 ==> r == Err::<(), EmuError>(EmuError::PluginFailed),
{
    if code == 0 {
        Ok(())
    } else {
        Err(EmuError::PluginFailed)
    }
}

/// Decode a foreign measurement's status word: zero and one are the two
/// outcomes; anything else is a typed plugin failure.
pub fn decode_measure_status(code: i32) -> (r: Result<bool, EmuError>)
    ensures
        code == 0 ==> r == Ok::<bool, EmuError>(false),
        code == 1 ==> r == Ok::<bool, EmuError>(true),
        (code != 0 && code != 1) ==> r == Err::<bool, EmuError>(EmuError::PluginFailed),
{
    if code == 0 {
        Ok(false)
    } else if code == 1 {
        Ok(true)
    } else {
        Err(EmuError::PluginFailed)
    }
}

} // verus!
