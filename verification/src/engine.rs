//! Engine configuration: compilation settings, NaN canonicalisation for
//! deterministic execution, the metering middleware that enforces the
//! per-call operation budget, and the memory tunables.

use crate::host_error::HostError;
use crate::module::ModuleCache;
use crate::DEFAULT_METERING_LIMIT;
use vstd::prelude::*;
use wasmer::sys::CompilerConfig;
use wasmer::sys::NativeEngineExt;

verus! {

/// Configuration for the execution engine.
#[derive(Clone, Debug)]
pub struct EngineConfig {
    /// Maximum operations before the metering trap.
    pub metering_limit: u64,
    /// Enable NaN canonicalisation for determinism.
    pub canonicalize_nans: bool,
    /// Optional cache directory path.
    pub cache_path: Option<String>,
    /// Static memory bound in pages, for constrained hosts.
    pub static_memory_bound: u32,
}

impl Default for EngineConfig {
    /// The default configuration: a 100-billion-operation budget, NaN
    /// canonicalisation on, no cache directory, and a 0x4000-page static
    /// memory bound.
    fn default() -> (r: EngineConfig)
        ensures
            r.metering_limit == DEFAULT_METERING_LIMIT,
            r.canonicalize_nans == true,
            r.cache_path is None,
            r.static_memory_bound == 0x4000,
    {
        EngineConfig {
            metering_limit: DEFAULT_METERING_LIMIT,
            canonicalize_nans: true,
            cache_path: None,
            static_memory_bound: 0x4000,
        }
    }
}

/// The compiled-code engine of the WASM runtime, opaque to the logic here.
#[verifier::external_type_specification]
#[verifier::external_body]
pub struct ExEngine(wasmer::Engine);

/// Relies on wasmer's Cranelift compiler configuration, its
/// `canonicalize_nans` and `push_middleware` settings, the Metering
/// middleware of wasmer-middlewares charging `op_cost` per operator, and
/// `Engine::from` plus `NativeEngineExt::set_tunables` with guard pages of
/// 0x1_0000 bytes: builds the engine those settings describe.
#[verifier::external_body]
fn build_engine(metering_limit: u64, canonicalize_nans: bool, static_memory_bound: u32, op_cost:
    u64) -> wasmer::Engine {
    let metering = std::sync::Arc::new(
        wasmer_middlewares::Metering::new(metering_limit, move |_| op_cost),
    );
    let mut compiler = wasmer::sys::Cranelift::default();
    if canonicalize_nans {
        compiler.canonicalize_nans(true);
    }
    compiler.push_middleware(metering);
    let mut engine = wasmer::Engine::from(compiler);
    engine.set_tunables(wasmer::sys::BaseTunables {
        static_memory_bound: static_memory_bound.into(),
        static_memory_offset_guard_size: 0x1_0000,
        dynamic_memory_offset_guard_size: 0x1_0000,
    });
    engine
}

/// Relies on wasmer's `Module::new`: compiles WASM bytes with the engine;
/// the error is rendered as text.
#[verifier::external_body]
pub(crate) fn compile_module(engine: &wasmer::Engine, wasm: &[u8]) -> Result<wasmer::Module,
    String> {
    match wasmer::Module::new(engine, wasm) {
        Ok(module) => Ok(module),
        Err(e) => Err(format!("{}", e)),
    }
}

/// The WASM execution engine: the compiler stack the configuration
/// describes, the configuration itself, and the module cache.
pub struct WasmEngine {
    inner: wasmer::Engine,
    config: EngineConfig,
    cache: ModuleCache,
}

impl WasmEngine {
    /// The configuration the engine was built with.
    pub closed spec fn spec_config(&self) -> EngineConfig {
        self.config
    }

    /// The engine's module cache.
    pub closed spec fn spec_cache(&self) -> ModuleCache {
        self.cache
    }

    /// Create a new engine: a compiler with the configured NaN
    /// canonicalisation, a metering middleware charging a uniform weight of
    /// 1 per operation with the configured budget, the configured memory
    /// tunables, and an empty module cache.
    pub fn new(config: EngineConfig) -> (r: Result<WasmEngine, HostError>)
        ensures
            r matches Ok(engine) && engine.spec_config() == config
                && engine.spec_cache().spec_keys() == Seq::<Seq<u8>>::empty()
                && engine.spec_cache().wf(),
    {
        let inner = build_engine(
            config.metering_limit,
            config.canonicalize_nans,
            config.static_memory_bound,
            1,
        );
        let cache_path = match &config.cache_path {
            Some(p) => Some(p.clone()),
            None => None,
        };
        let cache = ModuleCache::new(cache_path);
        Ok(WasmEngine { inner, config, cache })
    }

    /// Compile WASM bytes into a module; a failure is a compilation error
    /// carrying the compiler's message.
    pub fn compile(&self, wasm: &[u8]) -> (r: Result<wasmer::Module, HostError>)
        ensures
            r matches Err(e) ==> e matches HostError::Compilation(_),
    {
        match compile_module(&self.inner, wasm) {
            Ok(module) => Ok(module),
            Err(msg) => Err(HostError::Compilation(msg)),
        }
    }

    /// Compile with caching under a 32-byte key: a hit returns the cached
    /// module, a miss compiles and stores it.
    pub fn compile_cached(&mut self, key: [u8; 32], wasm: &[u8]) -> (r: Result<
        std::sync::Arc<wasmer::Module>,
        HostError,
    >)
        requires
            old(self).spec_cache().wf(),
        ensures
            final(self).spec_config() == old(self).spec_config(),
            final(self).spec_cache().wf(),
            old(self).spec_cache().spec_contains(key@) ==> final(self).spec_cache() == old(
                self,
            ).spec_cache() && (r matches Ok(m) && m == old(self).spec_cache().spec_module_for(
                key@,
            )),
            r matches Ok(m) ==> final(self).spec_cache().spec_contains(key@) && final(self).spec_cache().spec_module_for(key@) == m,
            r matches Err(e) ==> e matches HostError::Compilation(_) && final(self).spec_cache().spec_keys() == old(self).spec_cache().spec_keys()
                && final(self).spec_cache().spec_modules() == old(self).spec_cache().spec_modules(),
    {
        self.cache.get(key, wasm)
    }

    /// Get a reference to the inner engine.
    pub fn inner(&self) -> &wasmer::Engine {
        &self.inner
    }

    /// Get the configuration.
    pub fn config(&self) -> (r: &EngineConfig)
        ensures
            r == self.spec_config(),
    {
        &self.config
    }

    /// Clear the module cache.
    pub fn clear_cache(&mut self)
        ensures
            final(self).spec_config() == old(self).spec_config(),
            final(self).spec_cache().spec_keys() == Seq::<Seq<u8>>::empty(),
            final(self).spec_cache().wf(),
    {
        self.cache.clear()
    }
}

} // verus!
