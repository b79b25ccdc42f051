//! The host's side of the guest protocol: loading an instance, copying buffers
//! into its memory through its allocator, calling its entry point, and the
//! whole flow of one prediction.
use vstd::prelude::*;
use wasmtime::{Instance, Store};
use wasmtime_wasi::p1::WasiP1Ctx;
use crate::abi::{
    alloc_offset, decode_alloc_offset, decode_single_i32, guest_length, length_arg, single_i32,
    Export, HostError, ALLOC_FN, INFER_FN, MEMORY,
};
use crate::labels::{get_label, in_label_range, label_at};
use crate::linear::{disjoint, in_bounds, lemma_copy_read_back, lemma_disjoint_copies_kept, spliced, window};
use crate::runtime::{
    call_i32, compile, func_export, get_func, get_memory, instance_store, link_instance,
    memory_bytes, memory_export, memory_size, new_store, read_memory, store_id, write_memory,
};

verus! {

/// The instructions a guest may run in one instance, start code, allocator
/// and entry point together; a guest that would run longer traps instead.
pub const FUEL_BUDGET: u64 = 1u64 << 40;

/// A live guest: one instance together with the store that owns it. Offsets
/// into its memory mean nothing to any other `GuestInstance`.
pub struct GuestInstance {
    store: Store<WasiP1Ctx>,
    instance: Instance,
}

impl GuestInstance {
    /// The instance belongs to the store held beside it.
    pub closed spec fn wf(&self) -> bool {
        instance_store(self.instance) == store_id(self.store)
    }

    /// Whether the guest exports its allocator.
    pub closed spec fn exports_alloc(&self) -> bool {
        func_export(self.instance, ALLOC_FN@) is Some
    }

    /// Whether the guest exports its inference entry point.
    pub closed spec fn exports_infer(&self) -> bool {
        func_export(self.instance, INFER_FN@) is Some
    }

    /// The bytes of the guest's exported linear memory, if it exports one.
    pub closed spec fn contents(&self) -> Option<Seq<u8>> {
        match memory_export(self.instance, MEMORY@) {
            Some(m) => Some(memory_bytes(self.store, m)),
            None => None,
        }
    }
}

/// Whether two states of a guest have the same exports.
pub open spec fn same_exports(a: GuestInstance, b: GuestInstance) -> bool {
    &&& (a.contents() is Some) == (b.contents() is Some)
    &&& a.exports_alloc() == b.exports_alloc()
    &&& a.exports_infer() == b.exports_infer()
}

/// What copying `bytes` to `offset` does: the outcome, and the memory after it.
pub open spec fn copy_outcome(contents: Option<Seq<u8>>, offset: int, bytes: Seq<u8>) -> (
    Result<(), HostError>,
    Option<Seq<u8>>,
) {
    match contents {
        None => (Err(HostError::MissingExport(Export::Memory)), contents),
        Some(m) => if in_bounds(m.len(), offset, bytes.len()) {
            (Ok(()), Some(spliced(m, offset, bytes)))
        } else {
            (Err(HostError::OutOfBounds), contents)
        },
    }
}

/// What placing `bytes` where an allocator call with `results` points does:
/// the offset or the error, and the memory after it.
pub open spec fn place_outcome(contents: Option<Seq<u8>>, results: Seq<Option<i32>>, bytes: Seq<u8>) -> (
    Result<u32, HostError>,
    Option<Seq<u8>>,
) {
    match alloc_offset(results) {
        Err(e) => (Err(e), contents),
        Ok(off) => match copy_outcome(contents, off as int, bytes) {
            (Ok(_), after) => (Ok(off), after),
            (Err(e), after) => (Err(e), after),
        },
    }
}

/// The prediction for the results of an entry-point call: the label of the
/// single `i32` it returned.
pub open spec fn prediction_of(results: Seq<Option<i32>>, labels: Seq<String>) -> Result<
    String,
    HostError,
> {
    match single_i32(results) {
        Ok(class) => label_at(labels, class as int),
        Err(e) => Err(e),
    }
}

/// Whether `bytes` lie in the memory `contents` at `offset`.
pub open spec fn holds_at(contents: Option<Seq<u8>>, offset: int, bytes: Seq<u8>) -> bool {
    &&& contents is Some
    &&& in_bounds(contents->Some_0.len(), offset, bytes.len())
    &&& window(contents->Some_0, offset, bytes.len()) == bytes
}

/// What reading `len` bytes at `offset` from the memory `contents` gives.
pub open spec fn read_outcome(contents: Option<Seq<u8>>, offset: int, len: nat) -> Result<
    Seq<u8>,
    HostError,
> {
    match contents {
        None => Err(HostError::MissingExport(Export::Memory)),
        Some(m) => if in_bounds(m.len(), offset, len) {
            Ok(window(m, offset, len))
        } else {
            Err(HostError::OutOfBounds)
        },
    }
}

/// Bytes that a copy placed at an offset read back unchanged from that offset.
pub proof fn lemma_write_read_round_trip(contents: Option<Seq<u8>>, offset: int, bytes: Seq<u8>)
    requires
        holds_at(contents, offset, bytes),
    ensures
        read_outcome(contents, offset, bytes.len()) == Ok::<Seq<u8>, HostError>(bytes),
{
}

/// Compiles a guest binary and instantiates it in a fresh store that grants
/// the guest the standard output and error streams only, and `fuel`
/// instructions in all; a guest run that would exceed them traps. Every call
/// gives a new, independent instance on which no guest code but its start
/// section has run.
pub fn create_instance_with_fuel(wasm: &[u8], fuel: u64) -> (r: Result<GuestInstance, HostError>)
    ensures
        r matches Ok(g) ==> g.wf(),
        r matches Err(e) ==> e == HostError::Load || e == HostError::Link,
{
    let mut store = match new_store(fuel) {
        Ok(s) => s,
        Err(_) => return Err(HostError::Load),
    };
    let module = match compile(&store, wasm) {
        Ok(m) => m,
        Err(_) => return Err(HostError::Load),
    };
    match link_instance(&mut store, &module) {
        Ok(instance) => Ok(GuestInstance { store, instance }),
        Err(_) => Err(HostError::Link),
    }
}

/// A fresh instance of a guest binary with `FUEL_BUDGET` instructions to run.
pub fn create_instance(wasm: &[u8]) -> (r: Result<GuestInstance, HostError>)
    ensures
        r matches Ok(g) ==> g.wf(),
        r matches Err(e) ==> e == HostError::Load || e == HostError::Link,
{
    create_instance_with_fuel(wasm, FUEL_BUDGET)
}

/// Copies `bytes` into the guest's linear memory at `offset`, when the whole
/// range lies inside it; otherwise nothing is written.
pub fn copy_into_guest(bytes: &Vec<u8>, guest: &mut GuestInstance, offset: u32) -> (r: Result<
    (),
    HostError,
>)
    requires
        old(guest).wf(),
    ensures
        final(guest).wf(),
        same_exports(*final(guest), *old(guest)),
        (r, final(guest).contents()) == copy_outcome(old(guest).contents(), offset as int, bytes@),
{
    let memory = match get_memory(&mut guest.store, guest.instance, MEMORY) {
        Some(m) => m,
        None => return Err(HostError::MissingExport(Export::Memory)),
    };
    match write_memory(&mut guest.store, memory, offset as usize, bytes.as_slice()) {
        Ok(()) => Ok(()),
        Err(_) => Err(HostError::OutOfBounds),
    }
}

/// Copies `bytes` to the offset that the results of an allocator call denote.
pub fn place_allocated(bytes: &Vec<u8>, guest: &mut GuestInstance, results: &Vec<Option<i32>>) -> (r:
    Result<u32, HostError>)
    requires
        old(guest).wf(),
    ensures
        final(guest).wf(),
        same_exports(*final(guest), *old(guest)),
        (r, final(guest).contents()) == place_outcome(old(guest).contents(), results@, bytes@),
{
    let offset = match decode_alloc_offset(results) {
        Ok(o) => o,
        Err(e) => return Err(e),
    };
    match copy_into_guest(bytes, guest, offset) {
        Ok(()) => Ok(offset),
        Err(e) => Err(e),
    }
}

/// Calls the guest's allocator for `len` bytes and hands back its results.
fn call_alloc(guest: &mut GuestInstance, len: i32) -> (r: Result<Vec<Option<i32>>, HostError>)
    requires
        old(guest).wf(),
    ensures
        final(guest).wf(),
        same_exports(*final(guest), *old(guest)),
        !old(guest).exports_alloc() <==> r == Err::<Vec<Option<i32>>, HostError>(
            HostError::MissingExport(Export::Alloc),
        ),
        !old(guest).exports_alloc() ==> final(guest).contents() == old(guest).contents(),
        r matches Err(e) ==> e == HostError::MissingExport(Export::Alloc) || e
            == HostError::Allocation,
{
    let alloc = match get_func(&mut guest.store, guest.instance, ALLOC_FN) {
        Some(f) => f,
        None => return Err(HostError::MissingExport(Export::Alloc)),
    };
    let args: Vec<i32> = vec![len];
    match call_i32(&mut guest.store, alloc, &args) {
        Ok(v) => Ok(v),
        Err(_) => Err(HostError::Allocation),
    }
}

/// Copies `bytes` into the guest's linear memory: resolves the `memory` and
/// `alloc` exports, asks the guest's allocator for `bytes.len()` bytes, and
/// copies the buffer to the offset it returns, which is handed back.
///
/// The allocator is trusted to have reserved the range; the copy itself is
/// bounds-checked, so a range outside the memory is reported, not written,
/// and it changes no byte outside the range.
pub fn write_guest_memory(bytes: &Vec<u8>, guest: &mut GuestInstance) -> (r: Result<
    u32,
    HostError,
>)
    requires
        old(guest).wf(),
    ensures
        final(guest).wf(),
        same_exports(*final(guest), *old(guest)),
        old(guest).contents() is None <==> r == Err::<u32, HostError>(
            HostError::MissingExport(Export::Memory),
        ),
        old(guest).contents() is Some && !old(guest).exports_alloc() <==> r == Err::<
            u32,
            HostError,
        >(HostError::MissingExport(Export::Alloc)),
        old(guest).contents() is Some && old(guest).exports_alloc() && length_arg(bytes@.len())
            is None <==> r == Err::<u32, HostError>(HostError::BufferTooLarge),
        r matches Err(HostError::MissingExport(_)) || r == Err::<u32, HostError>(
            HostError::BufferTooLarge,
        ) ==> final(guest).contents() == old(guest).contents(),
        r matches Ok(_) || r == Err::<u32, HostError>(HostError::Protocol) || r == Err::<
            u32,
            HostError,
        >(HostError::OutOfBounds) ==> exists|left: Seq<u8>, results: Seq<Option<i32>>|
            place_outcome(Some(left), results, bytes@) == (r, final(guest).contents()),
        r matches Ok(off) ==> holds_at(final(guest).contents(), off as int, bytes@),
        r matches Err(e) ==> e == HostError::MissingExport(Export::Memory) || e
            == HostError::MissingExport(Export::Alloc) || e == HostError::BufferTooLarge || e
            == HostError::Allocation || e == HostError::Protocol || e == HostError::OutOfBounds,
{
    let memory = get_memory(&mut guest.store, guest.instance, MEMORY);
    if memory.is_none() {
        return Err(HostError::MissingExport(Export::Memory));
    }
    let alloc = get_func(&mut guest.store, guest.instance, ALLOC_FN);
    if alloc.is_none() {
        return Err(HostError::MissingExport(Export::Alloc));
    }
    let len = match guest_length(bytes.len()) {
        Some(n) => n,
        None => return Err(HostError::BufferTooLarge),
    };
    let results = call_alloc(guest, len)?;
    let ghost left = guest.contents()->Some_0;
    let r = place_allocated(bytes, guest, &results);
    proof {
        if let Ok(off) = r {
            lemma_copy_read_back(left, off as int, bytes@);
        }
    }
    r
}

/// Reads `len` bytes at `offset` from the guest's linear memory.
pub fn read_guest_memory(guest: &mut GuestInstance, offset: u32, len: usize) -> (r: Result<
    Vec<u8>,
    HostError,
>)
    requires
        old(guest).wf(),
    ensures
        final(guest).wf(),
        same_exports(*final(guest), *old(guest)),
        final(guest).contents() == old(guest).contents(),
        match r {
            Ok(v) => read_outcome(old(guest).contents(), offset as int, len as nat) == Ok::<
                Seq<u8>,
                HostError,
            >(v@),
            Err(e) => read_outcome(old(guest).contents(), offset as int, len as nat) == Err::<
                Seq<u8>,
                HostError,
            >(e),
        },
{
    let memory = match get_memory(&mut guest.store, guest.instance, MEMORY) {
        Some(m) => m,
        None => return Err(HostError::MissingExport(Export::Memory)),
    };
    let size = memory_size(&guest.store, memory);
    if offset as usize > size || len > size - offset as usize {
        return Err(HostError::OutOfBounds);
    }
    match read_memory(&guest.store, memory, offset as usize, len) {
        Ok(v) => Ok(v),
        Err(_) => Err(HostError::OutOfBounds),
    }
}

/// The arguments of the entry point, in the order the interface fixes, each
/// passed as the 32-bit pattern of its value.
pub fn infer_args(model_offset: u32, model_len: u32, image_offset: u32, image_len: u32) -> (r: Vec<
    i32,
>)
    ensures
        r@ == seq![
            model_offset as i32,
            model_len as i32,
            image_offset as i32,
            image_len as i32,
        ],
{
    vec![model_offset as i32, model_len as i32, image_offset as i32, image_len as i32]
}

/// Calls the guest's entry point on two buffers already in its memory and
/// returns the class index it computes. The call blocks until the guest
/// returns, traps or runs out of fuel.
pub fn infer(
    guest: &mut GuestInstance,
    model_offset: u32,
    model_len: u32,
    image_offset: u32,
    image_len: u32,
) -> (r: Result<i32, HostError>)
    requires
        old(guest).wf(),
    ensures
        final(guest).wf(),
        same_exports(*final(guest), *old(guest)),
        !old(guest).exports_infer() <==> r == Err::<i32, HostError>(
            HostError::MissingExport(Export::Infer),
        ),
        !old(guest).exports_infer() ==> final(guest).contents() == old(guest).contents(),
        r != Err::<i32, HostError>(HostError::GuestTrap) && old(guest).exports_infer() ==> exists|
            results: Seq<Option<i32>>,
        | r == single_i32(results),
        r matches Err(e) ==> e == HostError::MissingExport(Export::Infer) || e
            == HostError::GuestTrap || e == HostError::Arity || e == HostError::ResultType,
{
    let func = match get_func(&mut guest.store, guest.instance, INFER_FN) {
        Some(f) => f,
        None => return Err(HostError::MissingExport(Export::Infer)),
    };
    let args = infer_args(model_offset, model_len, image_offset, image_len);
    let results = match call_i32(&mut guest.store, func, &args) {
        Ok(v) => v,
        Err(_) => return Err(HostError::GuestTrap),
    };
    decode_single_i32(&results)
}

/// Places the model and then the image in the guest's memory: both blocks are
/// allocated first, must not overlap, and are then copied, so that neither
/// copy can disturb the other.
pub fn write_model_and_image(model: &Vec<u8>, image: &Vec<u8>, guest: &mut GuestInstance) -> (r:
    Result<(u32, u32), HostError>)
    requires
        old(guest).wf(),
    ensures
        final(guest).wf(),
        same_exports(*final(guest), *old(guest)),
        old(guest).contents() is None <==> r == Err::<(u32, u32), HostError>(
            HostError::MissingExport(Export::Memory),
        ),
        old(guest).contents() is Some && !old(guest).exports_alloc() <==> r == Err::<
            (u32, u32),
            HostError,
        >(HostError::MissingExport(Export::Alloc)),
        old(guest).contents() is Some && old(guest).exports_alloc() && (length_arg(
            model@.len(),
        ) is None || length_arg(image@.len()) is None) <==> r == Err::<(u32, u32), HostError>(
            HostError::BufferTooLarge,
        ),
        r matches Err(HostError::MissingExport(_)) || r == Err::<(u32, u32), HostError>(
            HostError::BufferTooLarge,
        ) ==> final(guest).contents() == old(guest).contents(),
        r matches Ok((mo, io)) ==> {
            &&& disjoint(mo as int, model@.len(), io as int, image@.len())
            &&& holds_at(final(guest).contents(), mo as int, model@)
            &&& holds_at(final(guest).contents(), io as int, image@)
            &&& exists|left: Seq<u8>|
                final(guest).contents() == Some(
                    spliced(spliced(left, mo as int, model@), io as int, image@),
                )
        },
        r matches Err(e) ==> e == HostError::MissingExport(Export::Memory) || e
            == HostError::MissingExport(Export::Alloc) || e == HostError::BufferTooLarge || e
            == HostError::Allocation || e == HostError::Protocol || e == HostError::OutOfBounds,
{
    let memory = get_memory(&mut guest.store, guest.instance, MEMORY);
    if memory.is_none() {
        return Err(HostError::MissingExport(Export::Memory));
    }
    let alloc = get_func(&mut guest.store, guest.instance, ALLOC_FN);
    if alloc.is_none() {
        return Err(HostError::MissingExport(Export::Alloc));
    }
    let model_len = match guest_length(model.len()) {
        Some(n) => n,
        None => return Err(HostError::BufferTooLarge),
    };
    let image_len = match guest_length(image.len()) {
        Some(n) => n,
        None => return Err(HostError::BufferTooLarge),
    };
    let model_results = call_alloc(guest, model_len)?;
    let model_offset = decode_alloc_offset(&model_results)?;
    let image_results = call_alloc(guest, image_len)?;
    let image_offset = decode_alloc_offset(&image_results)?;
    if !(model_offset as u64 + model.len() as u64 <= image_offset as u64 || image_offset as u64
        + image.len() as u64 <= model_offset as u64) {
        return Err(HostError::Protocol);
    }
    let ghost left = guest.contents()->Some_0;
    copy_into_guest(model, guest, model_offset)?;
    copy_into_guest(image, guest, image_offset)?;
    proof {
        let mo = model_offset as int;
        let io = image_offset as int;
        lemma_copy_read_back(left, mo, model@);
        let placed = spliced(left, mo, model@);
        lemma_copy_read_back(placed, io, image@);
        lemma_disjoint_copies_kept(left, mo, model@, io, image@);
        assert(guest.contents() == Some(spliced(placed, io, image@)));
        assert(holds_at(guest.contents(), mo, model@));
        assert(holds_at(guest.contents(), io, image@));
    }
    Ok((model_offset, image_offset))
}

/// Whether a prediction on a guest in state `g` fails at the exports: the
/// memory, the allocator and the entry point are resolved in that order
/// before anything is copied.
pub open spec fn export_failure(g: GuestInstance) -> Option<HostError> {
    if g.contents() is None {
        Some(HostError::MissingExport(Export::Memory))
    } else if !g.exports_alloc() {
        Some(HostError::MissingExport(Export::Alloc))
    } else if !g.exports_infer() {
        Some(HostError::MissingExport(Export::Infer))
    } else {
        None
    }
}

/// Runs one prediction on a live guest: checks the three exports, places the
/// model and the image, calls the entry point on them and returns the label
/// of the class it gives.
pub fn run_prediction(
    guest: &mut GuestInstance,
    model: &Vec<u8>,
    image: &Vec<u8>,
    labels: &Vec<String>,
) -> (r: Result<String, HostError>)
    requires
        old(guest).wf(),
    ensures
        final(guest).wf(),
        export_failure(*old(guest)) matches Some(e) ==> r == Err::<String, HostError>(e)
            && final(guest).contents() == old(guest).contents(),
        export_failure(*old(guest)) is None ==> !(r matches Err(HostError::MissingExport(_))),
        export_failure(*old(guest)) is None && (length_arg(model@.len()) is None || length_arg(
            image@.len(),
        ) is None) <==> r == Err::<String, HostError>(HostError::BufferTooLarge),
        r matches Ok(_) || r == Err::<String, HostError>(HostError::Arity) || r == Err::<
            String,
            HostError,
        >(HostError::ResultType) || r == Err::<String, HostError>(HostError::LabelOutOfRange)
            ==> exists|results: Seq<Option<i32>>| r == prediction_of(results, labels@),
        r matches Ok(s) ==> exists|c: int| #[trigger]
            in_label_range(c, labels@.len()) && s == labels@[c - 1],
        r matches Err(e) ==> e != HostError::Load && e != HostError::Link,
{
    if get_memory(&mut guest.store, guest.instance, MEMORY).is_none() {
        return Err(HostError::MissingExport(Export::Memory));
    }
    if get_func(&mut guest.store, guest.instance, ALLOC_FN).is_none() {
        return Err(HostError::MissingExport(Export::Alloc));
    }
    if get_func(&mut guest.store, guest.instance, INFER_FN).is_none() {
        return Err(HostError::MissingExport(Export::Infer));
    }
    let (model_offset, image_offset) = write_model_and_image(model, image, guest)?;
    let outcome = infer(
        guest,
        model_offset,
        model.len() as u32,
        image_offset,
        image.len() as u32,
    );
    let ghost results = choose|res: Seq<Option<i32>>| outcome == single_i32(res);
    let class = match outcome {
        Ok(c) => c,
        Err(e) => {
            proof {
                if e == HostError::Arity || e == HostError::ResultType {
                    assert(prediction_of(results, labels@) == Err::<String, HostError>(e));
                }
            }
            return Err(e);
        },
    };
    let r = get_label(labels, class);
    assert(r == prediction_of(results, labels@));
    r
}

/// One prediction: a fresh instance of the guest, the model and the image
/// placed in it, one inference, and the label of the class it returns. The
/// instance is dropped at the end; it never serves another request.
pub fn get_prediction(wasm: &[u8], model: &Vec<u8>, image: &Vec<u8>, labels: &Vec<String>) -> (r:
    Result<String, HostError>)
    ensures
        r matches Ok(_) || r == Err::<String, HostError>(HostError::Arity) || r == Err::<
            String,
            HostError,
        >(HostError::ResultType) || r == Err::<String, HostError>(HostError::LabelOutOfRange)
            ==> exists|results: Seq<Option<i32>>| r == prediction_of(results, labels@),
        r matches Ok(s) ==> exists|c: int| #[trigger]
            in_label_range(c, labels@.len()) && s == labels@[c - 1],
        length_arg(model@.len()) is None || length_arg(image@.len()) is None ==> r is Err,
{
    let mut guest = create_instance(wasm)?;
    run_prediction(&mut guest, model, image, labels)
}

} // verus!
