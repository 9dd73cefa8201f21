//! The compiler's description of the `x86_64-unknown-vespera` target.
use vstd::prelude::*;

verus! {

/// Processor architectures.
#[derive(Debug, Clone, Copy, PartialEq, Eq, Structural)]
pub enum Arch {
    X86_64,
}

/// Operating systems.
#[derive(Debug, Clone, Copy, PartialEq, Eq, Structural)]
pub enum Os {
    Vespera,
}

/// Target environments.
#[derive(Debug, Clone, Copy, PartialEq, Eq, Structural)]
pub enum Env {
    Unspecified,
}

/// Whether the linker is driven through a C compiler.
#[derive(Debug, Clone, Copy, PartialEq, Eq, Structural)]
pub enum Cc {
    Yes,
    No,
}

/// Whether the linker is LLD.
#[derive(Debug, Clone, Copy, PartialEq, Eq, Structural)]
pub enum Lld {
    Yes,
    No,
}

/// Linker flavors.
#[derive(Debug, Clone, Copy, PartialEq, Eq, Structural)]
pub enum LinkerFlavor {
    Gnu(Cc, Lld),
}

/// How stack probes are emitted.
#[derive(Debug, Clone, Copy, PartialEq, Eq, Structural)]
pub enum StackProbeType {
    Inline,
}

/// Thread-local storage models.
#[derive(Debug, Clone, Copy, PartialEq, Eq, Structural)]
pub enum TlsModel {
    InitialExec,
}

/// Relocation models.
#[derive(Debug, Clone, Copy, PartialEq, Eq, Structural)]
pub enum RelocModel {
    Pic,
}

/// What a panic does.
#[derive(Debug, Clone, Copy, PartialEq, Eq, Structural)]
pub enum PanicStrategy {
    Abort,
}

/// Facts about a target shown in the compiler's documentation.
#[derive(Debug)]
pub struct TargetMetadata {
    pub description: Option<String>,
    pub tier: Option<u64>,
    pub host_tools: Option<bool>,
    pub std: Option<bool>,
}

/// The options of a target that differ from the defaults.
#[derive(Debug)]
pub struct TargetOptions {
    pub os: Os,
    pub env: Env,
    pub linker_flavor: LinkerFlavor,
    pub linker: Option<String>,
    pub vendor: String,
    pub max_atomic_width: Option<u64>,
    pub stack_probes: StackProbeType,
    pub has_thread_local: bool,
    pub tls_model: TlsModel,
    pub position_independent_executables: bool,
    pub static_position_independent_executables: bool,
    pub relocation_model: RelocModel,
    pub panic_strategy: PanicStrategy,
}

/// A compilation target.
#[derive(Debug)]
pub struct Target {
    pub llvm_target: String,
    pub metadata: TargetMetadata,
    pub pointer_width: u32,
    pub arch: Arch,
    pub data_layout: String,
    pub options: TargetOptions,
}

/// The `x86_64-unknown-vespera` target: VesperaOS user space on x86-64,
/// a 64-bit tier-3 target with the standard library but no host tools,
/// linked by `rust-lld` as a position-independent executable, with
/// inline stack probes, initial-exec thread-local storage, 64-bit atomics
/// and aborting panics.
pub fn target() -> (t: Target)
    ensures
        t.llvm_target@ == "x86_64-unknown-vespera"@,
        t.metadata.description matches Some(d) && d@ == "VesperaOS userspace (x86_64)"@,
        t.metadata.tier == Some(3u64),
        t.metadata.host_tools == Some(false),
        t.metadata.std == Some(true),
        t.pointer_width == 64,
        t.arch == Arch::X86_64,
        t.data_layout@
            == "e-m:e-p270:32:32-p271:32:32-p272:64:64-i64:64-i128:128-f80:128-n8:16:32:64-S128"@,
        t.options.os == Os::Vespera,
        t.options.env == Env::Unspecified,
        t.options.linker_flavor == LinkerFlavor::Gnu(Cc::No, Lld::Yes),
        t.options.linker matches Some(l) && l@ == "rust-lld"@,
        t.options.vendor@ == "unknown"@,
        t.options.max_atomic_width == Some(64u64),
        t.options.stack_probes == StackProbeType::Inline,
        t.options.has_thread_local,
        t.options.tls_model == TlsModel::InitialExec,
        t.options.position_independent_executables,
        t.options.static_position_independent_executables,
        t.options.relocation_model == RelocModel::Pic,
        t.options.panic_strategy == PanicStrategy::Abort,
{
    Target {
        llvm_target: "x86_64-unknown-vespera".to_owned(),
        metadata: TargetMetadata {
            description: Some("VesperaOS userspace (x86_64)".to_owned()),
            tier: Some(3),
            host_tools: Some(false),
            std: Some(true),
        },
        pointer_width: 64,
        arch: Arch::X86_64,
        data_layout: "e-m:e-p270:32:32-p271:32:32-p272:64:64-i64:64-i128:128-f80:128-n8:16:32:64-S128".to_owned(),
        options: TargetOptions {
            os: Os::Vespera,
            env: Env::Unspecified,
            linker_flavor: LinkerFlavor::Gnu(Cc::No, Lld::Yes),
            linker: Some("rust-lld".to_owned()),
            vendor: "unknown".to_owned(),
            max_atomic_width: Some(64),
            stack_probes: StackProbeType::Inline,
            has_thread_local: true,
            tls_model: TlsModel::InitialExec,
            position_independent_executables: true,
            static_position_independent_executables: true,
            relocation_model: RelocModel::Pic,
            panic_strategy: PanicStrategy::Abort,
        },
    }
}

} // verus!
