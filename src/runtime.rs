//! The WebAssembly runtime (wasmtime, with WASI preview 1), as the host logic
//! sees it: opaque handles, the stores they belong to, and the bytes of each
//! linear memory.
use vstd::prelude::*;
use wasmtime::{Config, Engine, Func, Instance, Linker, Memory, MemoryAccessError, Module, Store, Val};
use wasmtime_wasi::p1::WasiP1Ctx;
use wasmtime_wasi::WasiCtxBuilder;
use crate::linear::spliced;

verus! {

#[verifier::external_type_specification]
#[verifier::external_body]
#[verifier::reject_recursive_types(T)]
pub struct ExStore<T: 'static>(Store<T>);

#[verifier::external_type_specification]
#[verifier::external_body]
pub struct ExInstance(Instance);

#[verifier::external_type_specification]
#[verifier::external_body]
pub struct ExMemory(Memory);

#[verifier::external_type_specification]
#[verifier::external_body]
pub struct ExFunc(Func);

#[verifier::external_type_specification]
#[verifier::external_body]
pub struct ExModule(Module);

#[verifier::external_type_specification]
#[verifier::external_body]
pub struct ExWasmError(wasmtime::Error);

#[verifier::external_type_specification]
#[verifier::external_body]
pub struct ExMemoryAccessError(MemoryAccessError);

#[verifier::external_type_specification]
#[verifier::external_body]
pub struct ExWasiP1Ctx(WasiP1Ctx);

/// The identity of a store; every handle records the store it belongs to.
pub uninterp spec fn store_id(s: Store<WasiP1Ctx>) -> int;

/// The store that an instance belongs to.
pub uninterp spec fn instance_store(i: Instance) -> int;

/// The store that a memory belongs to.
pub uninterp spec fn memory_store(m: Memory) -> int;

/// The store that a function belongs to.
pub uninterp spec fn func_store(f: Func) -> int;

/// The bytes that a linear memory holds in a store.
pub uninterp spec fn memory_bytes(s: Store<WasiP1Ctx>, m: Memory) -> Seq<u8>;

/// The memory that an instance exports under a name, if it exports one.
pub uninterp spec fn memory_export(i: Instance, name: Seq<char>) -> Option<Memory>;

/// The function that an instance exports under a name, if it exports one.
pub uninterp spec fn func_export(i: Instance, name: Seq<char>) -> Option<Func>;

/// Relies on `Config::consume_fuel`, `memory_reservation`, `memory_guard_size`,
/// `memory_reservation_for_growth`, `Engine::new`, `WasiCtxBuilder` (`new`,
/// `inherit_stdout`, `inherit_stderr`, `build_p1`), `Store::new` and
/// `Store::set_fuel`: a fresh store on a fresh engine whose WASI context gives
/// the guest the host's standard output and error and an empty standard input,
/// and nothing else. Every guest run in it ends: once `fuel` instructions are
/// spent the guest traps. Linear memories reserve address space as they
/// grow instead of up front, as wasmtime does by default on 32-bit hosts.
#[verifier::external_body]
pub(crate) fn new_store(fuel: u64) -> (r: Result<Store<WasiP1Ctx>, wasmtime::Error>) {
    let mut config = Config::new();
    config
        .consume_fuel(true)
        .memory_reservation(1 << 24)
        .memory_guard_size(1 << 16)
        .memory_reservation_for_growth(1 << 24);
    let engine = Engine::new(&config)?;
    let ctx = WasiCtxBuilder::new().inherit_stdout().inherit_stderr().build_p1();
    let mut store = Store::new(&engine, ctx);
    store.set_fuel(fuel)?;
    Ok(store)
}

/// Relies on `Module::new`: parses, validates and compiles a guest binary for
/// the store's engine, or fails.
#[verifier::external_body]
pub(crate) fn compile(store: &Store<WasiP1Ctx>, wasm: &[u8]) -> (r: Result<Module, wasmtime::Error>) {
    Module::new(store.engine(), wasm)
}

/// Relies on `Linker::new`, `wasmtime_wasi::p1::add_to_linker_sync` and
/// `Linker::instantiate`: links the WASI preview 1 imports on the store's own
/// engine and instantiates the module in the store; a start section that runs
/// out of fuel fails it. An instance that comes
/// back belongs to the store, and the store stays the same store.
#[verifier::external_body]
pub(crate) fn link_instance(store: &mut Store<WasiP1Ctx>, module: &Module) -> (r: Result<
    Instance,
    wasmtime::Error,
>)
    ensures
        store_id(*final(store)) == store_id(*old(store)),
        r matches Ok(i) ==> instance_store(i) == store_id(*final(store)),
{
    let mut linker: Linker<WasiP1Ctx> = Linker::new(store.engine());
    wasmtime_wasi::p1::add_to_linker_sync(&mut linker, |cx: &mut WasiP1Ctx| cx)?;
    linker.instantiate(&mut *store, module)
}

/// Relies on `Instance::get_memory`: the memory exported under `name`, which
/// belongs to the instance's store. A lookup changes no memory.
#[verifier::external_body]
pub(crate) fn get_memory(store: &mut Store<WasiP1Ctx>, instance: Instance, name: &str) -> (r:
    Option<Memory>)
    requires
        instance_store(instance) == store_id(*old(store)),
    ensures
        store_id(*final(store)) == store_id(*old(store)),
        r == memory_export(instance, name@),
        r matches Some(m) ==> memory_store(m) == store_id(*final(store)),
        forall|m: Memory| #[trigger]
            memory_bytes(*final(store), m) == memory_bytes(*old(store), m),
{
    instance.get_memory(&mut *store, name)
}

/// Relies on `Instance::get_func`: the function exported under `name`, which
/// belongs to the instance's store. A lookup changes no memory.
#[verifier::external_body]
pub(crate) fn get_func(store: &mut Store<WasiP1Ctx>, instance: Instance, name: &str) -> (r:
    Option<Func>)
    requires
        instance_store(instance) == store_id(*old(store)),
    ensures
        store_id(*final(store)) == store_id(*old(store)),
        r == func_export(instance, name@),
        r matches Some(f) ==> func_store(f) == store_id(*final(store)),
        forall|m: Memory| #[trigger]
            memory_bytes(*final(store), m) == memory_bytes(*old(store), m),
{
    instance.get_func(&mut *store, name)
}

/// Relies on `Func::ty` and `Func::call`: calls a guest function with `i32`
/// arguments and hands back each result as `Val::i32` reads it (`None` for a
/// value of another type). A trap, or arguments that do not fit the function's
/// type, come back as the error, and so does running out of fuel, so the
/// call always returns. The guest may change any of its memory.
#[verifier::external_body]
pub(crate) fn call_i32(store: &mut Store<WasiP1Ctx>, func: Func, args: &Vec<i32>) -> (r: Result<
    Vec<Option<i32>>,
    wasmtime::Error,
>)
    requires
        func_store(func) == store_id(*old(store)),
    ensures
        store_id(*final(store)) == store_id(*old(store)),
{
    let params: Vec<Val> = args.iter().map(|a| Val::I32(*a)).collect();
    let mut results: Vec<Val> = vec![Val::I32(0); func.ty(&*store).results().len()];
    func.call(&mut *store, &params, &mut results)?;
    Ok(results.iter().map(|v| v.i32()).collect())
}

/// Relies on `Memory::write`: copies `bytes` into the memory at `offset` when
/// the whole range lies inside it, and otherwise writes nothing and fails.
#[verifier::external_body]
pub(crate) fn write_memory(
    store: &mut Store<WasiP1Ctx>,
    memory: Memory,
    offset: usize,
    bytes: &[u8],
) -> (r: Result<(), MemoryAccessError>)
    requires
        memory_store(memory) == store_id(*old(store)),
    ensures
        store_id(*final(store)) == store_id(*old(store)),
        r is Ok <==> offset + bytes@.len() <= memory_bytes(*old(store), memory).len(),
        r is Ok ==> memory_bytes(*final(store), memory) == spliced(
            memory_bytes(*old(store), memory),
            offset as int,
            bytes@,
        ),
        forall|m: Memory|
            r is Err ==> #[trigger] memory_bytes(*final(store), m) == memory_bytes(*old(store), m),
{
    memory.write(&mut *store, offset, bytes)
}

/// Relies on `Memory::data_size`: the number of bytes the memory holds.
#[verifier::external_body]
pub(crate) fn memory_size(store: &Store<WasiP1Ctx>, memory: Memory) -> (r: usize)
    requires
        memory_store(memory) == store_id(*store),
    ensures
        r == memory_bytes(*store, memory).len(),
{
    memory.data_size(store)
}

/// Relies on `Memory::read`: fills a buffer of `len` bytes from the memory at
/// `offset`, which succeeds when the whole range lies inside the memory.
#[verifier::external_body]
pub(crate) fn read_memory(store: &Store<WasiP1Ctx>, memory: Memory, offset: usize, len: usize) -> (r:
    Result<Vec<u8>, MemoryAccessError>)
    requires
        memory_store(memory) == store_id(*store),
        offset + len <= memory_bytes(*store, memory).len(),
    ensures
        r is Ok,
        r matches Ok(v) ==> v@ == memory_bytes(*store, memory).subrange(
            offset as int,
            offset + len,
        ),
{
    let mut buf: Vec<u8> = vec![0u8; len];
    memory.read(store, offset, &mut buf)?;
    Ok(buf)
}

} // verus!
