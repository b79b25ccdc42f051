use mobilenet_host::abi::{decode_alloc_offset, decode_single_i32, guest_length, Export, HostError};
use mobilenet_host::host::{
    copy_into_guest, infer_args, place_allocated, run_prediction, write_model_and_image,
    create_instance, create_instance_with_fuel, get_prediction, infer, read_guest_memory, write_guest_memory,
};
use mobilenet_host::labels::get_label;

/// A guest with a bump allocator starting at 1024 whose entry point returns `class`.
fn stub_guest(class: i32) -> String {
    format!(
        r#"(module
  (memory (export "memory") 1)
  (global $next (mut i32) (i32.const 1024))
  (func (export "alloc") (param $len i32) (result i32)
    (local $p i32)
    global.get $next
    local.set $p
    global.get $next
    local.get $len
    i32.add
    global.set $next
    local.get $p)
  (func (export "infer_from_ptrs") (param i32 i32 i32 i32) (result i32)
    i32.const {})
  (func (export "_start")))"#,
        class
    )
}

fn labels() -> Vec<String> {
    vec!["cat".to_string(), "dog".to_string(), "bird".to_string()]
}

#[test]
fn write_then_read_round_trip() {
    let wasm = stub_guest(1);
    let mut guest = create_instance(wasm.as_bytes()).unwrap();
    let bytes: Vec<u8> = (0u8..200).collect();
    let off = write_guest_memory(&bytes, &mut guest).unwrap();
    assert_eq!(off, 1024);
    assert_eq!(read_guest_memory(&mut guest, off, bytes.len()).unwrap(), bytes);
}

#[test]
fn model_and_image_not_aliased() {
    let wasm = stub_guest(1);
    let mut guest = create_instance(wasm.as_bytes()).unwrap();
    let model = vec![7u8; 300];
    let image = vec![9u8; 150];
    let m = write_guest_memory(&model, &mut guest).unwrap();
    let i = write_guest_memory(&image, &mut guest).unwrap();
    assert_eq!(m, 1024);
    assert_eq!(i, 1324);
    assert_eq!(read_guest_memory(&mut guest, m, model.len()).unwrap(), model);
    assert_eq!(read_guest_memory(&mut guest, i, image.len()).unwrap(), image);
}

#[test]
fn infer_after_two_writes_gives_line_number() {
    let wasm = stub_guest(3);
    let mut guest = create_instance(wasm.as_bytes()).unwrap();
    let model = vec![1u8, 2, 3];
    let image = vec![4u8, 5];
    let m = write_guest_memory(&model, &mut guest).unwrap();
    let i = write_guest_memory(&image, &mut guest).unwrap();
    let class = infer(&mut guest, m, 3, i, 2).unwrap();
    assert_eq!(class, 3);
    assert_eq!(get_label(&labels(), class), Ok("bird".to_string()));
    assert_eq!(get_label(&labels(), 4), Err(HostError::LabelOutOfRange));
}

#[test]
fn instances_do_not_share_memory() {
    let wasm = stub_guest(1);
    let mut a = create_instance(wasm.as_bytes()).unwrap();
    let mut b = create_instance(wasm.as_bytes()).unwrap();
    let off = write_guest_memory(&vec![0xAB; 16], &mut a).unwrap();
    assert_eq!(read_guest_memory(&mut b, off, 16).unwrap(), vec![0u8; 16]);
    let off_b = write_guest_memory(&vec![0xCD; 16], &mut b).unwrap();
    assert_eq!(off_b, off);
    assert_eq!(read_guest_memory(&mut a, off, 16).unwrap(), vec![0xAB; 16]);
}

#[test]
fn missing_memory_export() {
    let wasm = r#"(module
  (func (export "alloc") (param i32) (result i32) i32.const 0)
  (func (export "infer_from_ptrs") (param i32 i32 i32 i32) (result i32) i32.const 1))"#;
    let mut guest = create_instance(wasm.as_bytes()).unwrap();
    assert_eq!(
        write_guest_memory(&vec![1, 2, 3], &mut guest),
        Err(HostError::MissingExport(Export::Memory))
    );
}

#[test]
fn missing_alloc_export_writes_nothing() {
    let wasm = r#"(module
  (memory (export "memory") 1)
  (func (export "infer_from_ptrs") (param i32 i32 i32 i32) (result i32) i32.const 1))"#;
    let mut guest = create_instance(wasm.as_bytes()).unwrap();
    assert_eq!(
        write_guest_memory(&vec![5; 64], &mut guest),
        Err(HostError::MissingExport(Export::Alloc))
    );
    assert_eq!(read_guest_memory(&mut guest, 0, 65536).unwrap(), vec![0u8; 65536]);
}

#[test]
fn missing_infer_export() {
    let wasm = r#"(module
  (memory (export "memory") 1)
  (global $next (mut i32) (i32.const 16))
  (func (export "alloc") (param $len i32) (result i32)
    (local $p i32)
    global.get $next
    local.set $p
    global.get $next
    local.get $len
    i32.add
    global.set $next
    local.get $p))"#;
    let mut guest = create_instance(wasm.as_bytes()).unwrap();
    assert_eq!(infer(&mut guest, 0, 0, 0, 0), Err(HostError::MissingExport(Export::Infer)));
    let r = get_prediction(wasm.as_bytes(), &vec![1], &vec![2], &labels());
    assert_eq!(r, Err(HostError::MissingExport(Export::Infer)));
}

#[test]
fn end_to_end_returns_dog() {
    let wasm = stub_guest(2);
    let r = get_prediction(wasm.as_bytes(), &vec![1u8; 40], &vec![2u8; 30], &labels());
    assert_eq!(r, Ok("dog".to_string()));
}

#[test]
fn end_to_end_out_of_range_fails() {
    let wasm = stub_guest(4);
    let r = get_prediction(wasm.as_bytes(), &vec![1u8; 40], &vec![2u8; 30], &labels());
    assert_eq!(r, Err(HostError::LabelOutOfRange));
}

#[test]
fn many_requests_keep_their_own_results() {
    let names: Vec<String> = (1..=50).map(|i| format!("label{}", i)).collect();
    for i in 1..=50 {
        let wasm = stub_guest(i);
        let r = get_prediction(wasm.as_bytes(), &vec![i as u8; 10], &vec![1u8; 5], &names);
        assert_eq!(r, Ok(format!("label{}", i)));
    }
}

#[test]
fn malformed_binary_is_load_error() {
    assert!(matches!(create_instance(&[0u8, 1, 2, 3]), Err(HostError::Load)));
}

#[test]
fn unknown_import_is_link_error() {
    let wasm = r#"(module (import "env" "missing" (func)))"#;
    assert!(matches!(create_instance(wasm.as_bytes()), Err(HostError::Link)));
}

#[test]
fn guest_trap_is_reported() {
    let wasm = r#"(module
  (memory (export "memory") 1)
  (global $next (mut i32) (i32.const 16))
  (func (export "alloc") (param $len i32) (result i32)
    (local $p i32)
    global.get $next
    local.set $p
    global.get $next
    local.get $len
    i32.add
    global.set $next
    local.get $p)
  (func (export "infer_from_ptrs") (param i32 i32 i32 i32) (result i32) unreachable))"#;
    let mut guest = create_instance_with_fuel(wasm.as_bytes(), 1_000_000).unwrap();
    let r = run_prediction(&mut guest, &vec![1], &vec![2], &labels());
    assert_eq!(r, Err(HostError::GuestTrap));
}

#[test]
fn allocator_out_of_memory_range_is_reported() {
    let wasm = r#"(module
  (memory (export "memory") 1)
  (func (export "alloc") (param i32) (result i32) i32.const 65530))"#;
    let mut guest = create_instance(wasm.as_bytes()).unwrap();
    assert_eq!(write_guest_memory(&vec![1u8; 10], &mut guest), Err(HostError::OutOfBounds));
    assert_eq!(read_guest_memory(&mut guest, 65530, 6).unwrap(), vec![0u8; 6]);
}

#[test]
fn allocator_with_wrong_shape_is_protocol_error() {
    let negative = r#"(module
  (memory (export "memory") 1)
  (func (export "alloc") (param i32) (result i32) i32.const -8))"#;
    let mut guest = create_instance(negative.as_bytes()).unwrap();
    assert_eq!(write_guest_memory(&vec![1u8; 4], &mut guest), Err(HostError::Protocol));
    let two = r#"(module
  (memory (export "memory") 1)
  (func (export "alloc") (param i32) (result i32 i32) i32.const 8 i32.const 8))"#;
    let mut guest = create_instance(two.as_bytes()).unwrap();
    assert_eq!(write_guest_memory(&vec![1u8; 4], &mut guest), Err(HostError::Protocol));
}

#[test]
fn allocator_trap_is_allocation_error() {
    let wasm = r#"(module
  (memory (export "memory") 1)
  (func (export "alloc") (param i32) (result i32) unreachable))"#;
    let mut guest = create_instance(wasm.as_bytes()).unwrap();
    assert_eq!(write_guest_memory(&vec![1u8; 4], &mut guest), Err(HostError::Allocation));
}

#[test]
fn entry_point_with_wrong_results() {
    let none = r#"(module
  (memory (export "memory") 1)
  (global $next (mut i32) (i32.const 16))
  (func (export "alloc") (param $len i32) (result i32)
    (local $p i32)
    global.get $next
    local.set $p
    global.get $next
    local.get $len
    i32.add
    global.set $next
    local.get $p)
  (func (export "infer_from_ptrs") (param i32 i32 i32 i32)))"#;
    let r = get_prediction(none.as_bytes(), &vec![1], &vec![2], &labels());
    assert_eq!(r, Err(HostError::Arity));
    let wide = r#"(module
  (memory (export "memory") 1)
  (global $next (mut i32) (i32.const 16))
  (func (export "alloc") (param $len i32) (result i32)
    (local $p i32)
    global.get $next
    local.set $p
    global.get $next
    local.get $len
    i32.add
    global.set $next
    local.get $p)
  (func (export "infer_from_ptrs") (param i32 i32 i32 i32) (result i64) i64.const 2))"#;
    let r = get_prediction(wide.as_bytes(), &vec![1], &vec![2], &labels());
    assert_eq!(r, Err(HostError::ResultType));
}

#[test]
fn decoding_results() {
    assert_eq!(decode_single_i32(&vec![Some(5)]), Ok(5));
    assert_eq!(decode_single_i32(&vec![]), Err(HostError::Arity));
    assert_eq!(decode_single_i32(&vec![Some(1), Some(2)]), Err(HostError::Arity));
    assert_eq!(decode_single_i32(&vec![None]), Err(HostError::ResultType));
    assert_eq!(decode_alloc_offset(&vec![Some(4096)]), Ok(4096));
    assert_eq!(decode_alloc_offset(&vec![Some(-1)]), Err(HostError::Protocol));
    assert_eq!(decode_alloc_offset(&vec![None]), Err(HostError::Protocol));
    assert_eq!(guest_length(10), Some(10));
    assert_eq!(guest_length(i32::MAX as usize), Some(i32::MAX));
    assert_eq!(guest_length(i32::MAX as usize + 1), None);
}

#[test]
fn label_lookup_is_one_based() {
    assert_eq!(get_label(&labels(), 1), Ok("cat".to_string()));
    assert_eq!(get_label(&labels(), 2), Ok("dog".to_string()));
    assert_eq!(get_label(&labels(), 0), Err(HostError::LabelOutOfRange));
    assert_eq!(get_label(&labels(), -3), Err(HostError::LabelOutOfRange));
    assert_eq!(get_label(&vec![], 1), Err(HostError::LabelOutOfRange));
}

#[test]
fn entry_point_missing_is_reported_before_any_copy() {
    let wasm = r#"(module
  (memory (export "memory") 1)
  (global $next (mut i32) (i32.const 1024))
  (func (export "alloc") (param $len i32) (result i32)
    (local $p i32)
    global.get $next
    local.set $p
    global.get $next
    local.get $len
    i32.add
    global.set $next
    local.get $p))"#;
    let mut guest = create_instance(wasm.as_bytes()).unwrap();
    let r = run_prediction(&mut guest, &vec![7u8; 32], &vec![9u8; 16], &labels());
    assert_eq!(r, Err(HostError::MissingExport(Export::Infer)));
    assert_eq!(read_guest_memory(&mut guest, 1024, 48).unwrap(), vec![0u8; 48]);
}

#[test]
fn model_and_image_both_placed() {
    let wasm = stub_guest(1);
    let mut guest = create_instance(wasm.as_bytes()).unwrap();
    let model = vec![3u8; 100];
    let image = vec![4u8; 50];
    let (m, i) = write_model_and_image(&model, &image, &mut guest).unwrap();
    assert_eq!((m, i), (1024, 1124));
    assert_eq!(read_guest_memory(&mut guest, m, 100).unwrap(), model);
    assert_eq!(read_guest_memory(&mut guest, i, 50).unwrap(), image);
}

#[test]
fn overlapping_allocations_are_protocol_error() {
    let wasm = r#"(module
  (memory (export "memory") 1)
  (func (export "alloc") (param i32) (result i32) i32.const 64)
  (func (export "infer_from_ptrs") (param i32 i32 i32 i32) (result i32) i32.const 1))"#;
    let mut guest = create_instance(wasm.as_bytes()).unwrap();
    let r = write_model_and_image(&vec![1u8; 8], &vec![2u8; 8], &mut guest);
    assert_eq!(r, Err(HostError::Protocol));
    assert_eq!(read_guest_memory(&mut guest, 64, 8).unwrap(), vec![0u8; 8]);
}

#[test]
fn copy_into_guest_checks_bounds() {
    let wasm = stub_guest(1);
    let mut guest = create_instance(wasm.as_bytes()).unwrap();
    assert_eq!(copy_into_guest(&vec![1u8, 2, 3], &mut guest, 10), Ok(()));
    assert_eq!(read_guest_memory(&mut guest, 9, 5).unwrap(), vec![0u8, 1, 2, 3, 0]);
    assert_eq!(copy_into_guest(&vec![1u8, 2, 3], &mut guest, 65534), Err(HostError::OutOfBounds));
    assert_eq!(read_guest_memory(&mut guest, 65534, 2).unwrap(), vec![0u8, 0]);
}

#[test]
fn place_allocated_follows_allocator_results() {
    let wasm = stub_guest(1);
    let mut guest = create_instance(wasm.as_bytes()).unwrap();
    assert_eq!(place_allocated(&vec![5u8; 4], &mut guest, &vec![Some(200)]), Ok(200));
    assert_eq!(read_guest_memory(&mut guest, 200, 4).unwrap(), vec![5u8; 4]);
    assert_eq!(place_allocated(&vec![5u8; 4], &mut guest, &vec![Some(-2)]), Err(HostError::Protocol));
    assert_eq!(place_allocated(&vec![5u8; 4], &mut guest, &vec![]), Err(HostError::Protocol));
    assert_eq!(
        place_allocated(&vec![5u8; 4], &mut guest, &vec![Some(65533)]),
        Err(HostError::OutOfBounds)
    );
}

#[test]
fn entry_point_arguments_in_interface_order() {
    assert_eq!(infer_args(1024, 300, 1324, 150), vec![1024, 300, 1324, 150]);
    assert_eq!(infer_args(u32::MAX, 0, 0, 1), vec![-1, 0, 0, 1]);
}

#[test]
fn entry_point_sees_the_placed_buffers() {
    // The entry point returns the first model byte plus the image length.
    let wasm = r#"(module
  (memory (export "memory") 1)
  (global $next (mut i32) (i32.const 1024))
  (func (export "alloc") (param $len i32) (result i32)
    (local $p i32)
    global.get $next
    local.set $p
    global.get $next
    local.get $len
    i32.add
    global.set $next
    local.get $p)
  (func (export "infer_from_ptrs") (param $mo i32) (param $ml i32) (param $io i32) (param $il i32) (result i32)
    local.get $mo
    i32.load8_u
    local.get $il
    i32.add))"#;
    let names: Vec<String> = (1..=10).map(|i| format!("n{}", i)).collect();
    let r = get_prediction(wasm.as_bytes(), &vec![3u8; 20], &vec![0u8; 4], &names);
    assert_eq!(r, Ok("n7".to_string()));
}

#[test]
fn endless_guest_runs_out_of_fuel() {
    let wasm = r#"(module
  (memory (export "memory") 1)
  (global $next (mut i32) (i32.const 16))
  (func (export "alloc") (param $len i32) (result i32)
    (local $p i32)
    global.get $next
    local.set $p
    global.get $next
    local.get $len
    i32.add
    global.set $next
    local.get $p)
  (func (export "infer_from_ptrs") (param i32 i32 i32 i32) (result i32)
    (loop $l (br $l))
    i32.const 1))"#;
    let mut guest = create_instance_with_fuel(wasm.as_bytes(), 1_000_000).unwrap();
    let r = run_prediction(&mut guest, &vec![1], &vec![2], &labels());
    assert_eq!(r, Err(HostError::GuestTrap));
}
