//! The sandboxed execution engine: a wasm program exposing a step function
//! and a growable linear memory that holds the produced pixel bytes.
//!
//! Everything the engine computes is opaque: the wrappers below state only
//! what wasmer's own documentation promises, and the driver re-checks sizes
//! and treats every step outcome as possible.

use vstd::prelude::*;

use wasmer::sys::NativeEngineExt;

use crate::errors::TickError;

verus! {

/// The engine's fixed growth granularity: memory grows in whole 64 KiB
/// pages.
pub const PAGE_BYTES: u64 = 65536;

#[verifier::external_type_specification]
#[verifier::external_body]
pub struct ExStore(wasmer::Store);

#[verifier::external_type_specification]
#[verifier::external_body]
pub struct ExModule(wasmer::Module);

#[verifier::external_type_specification]
#[verifier::external_body]
pub struct ExInstance(wasmer::Instance);

#[verifier::external_type_specification]
#[verifier::external_body]
pub struct ExMemory(wasmer::Memory);

#[verifier::external_type_specification]
#[verifier::external_body]
pub struct ExFunction(wasmer::Function);

/// Relies on wasmer::Store::new over a default engine whose tunables are
/// wasmer's BaseTunables with a zero static-memory bound and small offset
/// guards, so every linear memory is allocated dynamically: the default
/// tunables reserve gigabytes of address space per memory, which a
/// memory-limited host refuses.
#[verifier::external_body]
fn store_default() -> wasmer::Store {
    let mut engine = wasmer::Engine::default();
    engine.set_tunables(wasmer::sys::BaseTunables {
        static_memory_bound: wasmer::Pages(0),
        static_memory_offset_guard_size: 0x1000,
        dynamic_memory_offset_guard_size: 0x1000,
    });
    wasmer::Store::new(engine)
}

/// Relies on wasmer::Module::new: compiles a program given in text or
/// binary form; fails when the program is unreadable or unparseable.
#[verifier::external_body]
fn module_new(store: &wasmer::Store, code: &str) -> (r: Result<wasmer::Module, TickError>)
    ensures
        (match r {
            Ok(_) => true,
            Err(e) => e == TickError::EngineFault,
        }),
{
    wasmer::Module::new(store, code).map_err(|_e| TickError::EngineFault)
}

/// Relies on wasmer::Instance::new with an empty import set: instantiates
/// the module, running its start section; fails on link or start errors.
#[verifier::external_body]
fn instance_new(store: &mut wasmer::Store, module: &wasmer::Module) -> (r: Result<
    wasmer::Instance,
    TickError,
>)
    ensures
        (match r {
            Ok(_) => true,
            Err(e) => e == TickError::EngineFault,
        }),
{
    let imports = wasmer::Imports::new();
    wasmer::Instance::new(store, module, &imports).map_err(|_e| TickError::EngineFault)
}

/// Relies on wasmer::Exports::get_memory: looks up an exported linear
/// memory by name; fails when no such export exists or it is not a memory.
#[verifier::external_body]
fn exported_memory(instance: &wasmer::Instance, name: &str) -> (r: Result<
    wasmer::Memory,
    TickError,
>)
    ensures
        (match r {
            Ok(_) => true,
            Err(e) => e == TickError::EngineFault,
        }),
{
    match instance.exports.get_memory(name) {
        Ok(m) => Ok(m.clone()),
        Err(_e) => Err(TickError::EngineFault),
    }
}

/// Relies on wasmer::Exports::get_function: looks up an exported function
/// by name; fails when no such export exists or it is not a function.
#[verifier::external_body]
fn exported_function(instance: &wasmer::Instance, name: &str) -> (r: Result<
    wasmer::Function,
    TickError,
>)
    ensures
        (match r {
            Ok(_) => true,
            Err(e) => e == TickError::EngineFault,
        }),
{
    match instance.exports.get_function(name) {
        Ok(f) => Ok(f.clone()),
        Err(_e) => Err(TickError::EngineFault),
    }
}

/// Relies on wasmer::Function::call with no arguments: runs the function
/// synchronously and fails when it traps.
#[verifier::external_body]
fn call_no_args(f: &wasmer::Function, store: &mut wasmer::Store) -> (r: Result<(), TickError>)
    ensures
        (match r {
            Ok(_) => true,
            Err(e) => e == TickError::EngineFault,
        }),
{
    match f.call(store, &[]) {
        Ok(_vals) => Ok(()),
        Err(_e) => Err(TickError::EngineFault),
    }
}

/// Relies on wasmer::MemoryView::data_size on a fresh view: the current
/// byte length of the memory, which only growth can change.
#[verifier::external_body]
fn memory_data_size(mem: &wasmer::Memory, store: &wasmer::Store) -> u64 {
    mem.view(store).data_size()
}

/// Relies on wasmer::Memory::grow: adds `pages` whole pages to the memory,
/// or fails, e.g. past the addressable limit, without shrinking it.
#[verifier::external_body]
fn memory_grow(mem: &wasmer::Memory, store: &mut wasmer::Store, pages: u32) -> (r: Result<
    (),
    TickError,
>)
    ensures
        (match r {
            Ok(_) => true,
            Err(e) => e == TickError::MemoryFault,
        }),
{
    match mem.grow(store, pages) {
        Ok(_prev) => Ok(()),
        Err(_e) => Err(TickError::MemoryFault),
    }
}

/// Relies on wasmer::MemoryView::read on a fresh view: on success the whole
/// buffer is filled with the memory bytes at `offset` onwards; on an
/// out-of-bounds range it fails instead.  Reading never resizes the buffer.
#[verifier::external_body]
fn memory_read(mem: &wasmer::Memory, store: &wasmer::Store, offset: u64, buf: &mut Vec<u8>) -> (r:
    Result<(), TickError>)
    ensures
        final(buf)@.len() == old(buf)@.len(),
        (match r {
            Ok(_) => true,
            Err(e) => e == TickError::ViewFault,
        }),
{
    match mem.view(store).read(offset, buf.as_mut_slice()) {
        Ok(()) => Ok(()),
        Err(_e) => Err(TickError::ViewFault),
    }
}

/// A loaded program: its store, the exported step function, and the
/// exported pixel memory.
pub struct Engine {
    store: wasmer::Store,
    memory: wasmer::Memory,
    step_fn: wasmer::Function,
}

impl Engine {
    /// Compiles and instantiates a program and binds its exports: the
    /// linear memory named `memory_export` and the step function named
    /// `step_export`.  Every failure here is fatal at startup.
    pub fn load(code: &str, memory_export: &str, step_export: &str) -> (r: Result<
        Engine,
        TickError,
    >)
        ensures
            (match r {
                Ok(_) => true,
                Err(e) => e == TickError::EngineFault,
            }),
    {
        let mut store = store_default();
        let module = match module_new(&store, code) {
            Ok(m) => m,
            Err(e) => {
                return Err(e);
            },
        };
        let instance = match instance_new(&mut store, &module) {
            Ok(i) => i,
            Err(e) => {
                return Err(e);
            },
        };
        let memory = match exported_memory(&instance, memory_export) {
            Ok(m) => m,
            Err(e) => {
                return Err(e);
            },
        };
        let step_fn = match exported_function(&instance, step_export) {
            Ok(f) => f,
            Err(e) => {
                return Err(e);
            },
        };
        Ok(Engine { store, memory, step_fn })
    }

    /// Runs one synchronous step of the program; `EngineFault` on a trap.
    pub fn step(&mut self) -> (r: Result<(), TickError>)
        ensures
            (match r {
                Ok(_) => true,
                Err(e) => e == TickError::EngineFault,
            }),
    {
        call_no_args(&self.step_fn, &mut self.store)
    }

    /// The current byte length of the exported memory.
    pub fn data_size(&self) -> u64 {
        memory_data_size(&self.memory, &self.store)
    }

    /// Requests `pages` whole pages of growth on the exported memory.
    pub fn grow(&mut self, pages: u32) -> (r: Result<(), TickError>)
        ensures
            (match r {
                Ok(_) => true,
                Err(e) => e == TickError::MemoryFault,
            }),
    {
        memory_grow(&self.memory, &mut self.store, pages)
    }

    /// Reads memory bytes starting at `offset` into `buf`, filling it
    /// entirely on success and never resizing it.
    pub fn read_into(&self, offset: u64, buf: &mut Vec<u8>) -> (r: Result<(), TickError>)
        ensures
            final(buf)@.len() == old(buf)@.len(),
            (match r {
                Ok(_) => true,
                Err(e) => e == TickError::ViewFault,
            }),
    {
        memory_read(&self.memory, &self.store, offset, buf)
    }
}

} // verus!
