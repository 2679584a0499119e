use wtensor::bytes::encode_words;
use wtensor::device::{Buffer, Command, Device, Pipeline, Startup, Usage};
use wtensor::grid::Grid;
use wtensor::readback::MapSignal;
use wtensor::shape::F32;
use wtensor::tensor::{Tensor, Tensor2D};
use wtensor::Error;

fn ready() -> Device {
    let mut device = Device::new();
    device.take_commands();
    device
}

#[test]
fn fresh_device_compiles_three_kernels() {
    let mut device = Device::new();
    assert_eq!(device.buffer_count(), 0);
    assert_eq!(
        device.take_commands(),
        vec![
            Command::CreatePipeline { pipeline: Pipeline::Matmul },
            Command::CreatePipeline { pipeline: Pipeline::Add },
            Command::CreatePipeline { pipeline: Pipeline::Fill },
        ]
    );
    assert_eq!(device.take_commands(), vec![]);
}

#[test]
fn kernels_have_their_entry_points_and_slots() {
    assert_eq!(Pipeline::Matmul.entry_point(), "gemm");
    assert_eq!(Pipeline::Add.entry_point(), "add");
    assert_eq!(Pipeline::Fill.entry_point(), "fill");
    assert_eq!(Pipeline::Matmul.slots(), 4);
    assert_eq!(Pipeline::Add.slots(), 3);
    assert_eq!(Pipeline::Fill.slots(), 2);
}

#[test]
fn missing_adapter_is_an_error() {
    assert_eq!(
        Device::new_with_instance(Startup::NoAdapter).err(),
        Some(Error::NoAdapter)
    );
}

#[test]
fn refused_device_is_an_error() {
    assert_eq!(
        Device::new_with_instance(Startup::DeviceRefused).err(),
        Some(Error::RequestDevice)
    );
}

#[test]
fn granted_device_is_set_up() {
    let mut device = Device::new_with_instance(Startup::Ready).unwrap();
    assert_eq!(device.take_commands().len(), 3);
}

#[test]
fn storage_buffer_is_sized_by_the_kind() {
    let mut device = ready();
    let a = device.storage_buffer::<F32>(6, false);
    let b = device.storage_buffer::<F32>(0, true);
    assert_eq!(a, Buffer { id: 0, bytes: 24, usage: Usage::Storage });
    assert_eq!(b, Buffer { id: 1, bytes: 0, usage: Usage::Storage });
    assert_eq!(device.buffer_count(), 2);
    assert_eq!(
        device.take_commands(),
        vec![
            Command::CreateBuffer { buffer: 0, bytes: 24, usage: Usage::Storage, mapped: false },
            Command::CreateBuffer { buffer: 1, bytes: 0, usage: Usage::Storage, mapped: true },
        ]
    );
}

#[test]
fn transfer_buffer_is_never_mapped_at_creation() {
    let mut device = ready();
    let t = device.transfer_buffer::<F32>(5);
    assert_eq!(t, Buffer { id: 0, bytes: 20, usage: Usage::Transfer });
    assert_eq!(
        device.take_commands(),
        vec![Command::CreateBuffer { buffer: 0, bytes: 20, usage: Usage::Transfer, mapped: false }]
    );
}

#[test]
fn init_buffer_holds_its_contents() {
    let mut device = ready();
    let b = device.init_buffer(vec![1, 2, 3, 4, 5, 6, 7, 8]);
    assert_eq!(b, Buffer { id: 0, bytes: 8, usage: Usage::Storage });
    assert_eq!(
        device.take_commands(),
        vec![Command::CreateBufferInit { buffer: 0, contents: vec![1, 2, 3, 4, 5, 6, 7, 8] }]
    );
}

#[test]
fn bind_group_numbers_the_slots_in_order() {
    let device = ready();
    let group = device.create_bind_group(Pipeline::Add, &[7, 3, 9]).unwrap();
    assert_eq!(group.pipeline, Pipeline::Add);
    assert_eq!(group.entries, vec![(0, 7), (1, 3), (2, 9)]);
    let group = device.create_bind_group(Pipeline::Matmul, &[4, 4, 5, 6]).unwrap();
    assert_eq!(group.entries, vec![(0, 4), (1, 4), (2, 5), (3, 6)]);
}

#[test]
fn bind_group_refuses_a_wrong_count() {
    let device = ready();
    assert!(matches!(
        device.create_bind_group(Pipeline::Add, &[7, 3]),
        Err(Error::InternalError(_))
    ));
    assert!(matches!(
        device.create_bind_group(Pipeline::Fill, &[7, 3, 9]),
        Err(Error::InternalError(_))
    ));
    assert!(matches!(
        device.create_bind_group(Pipeline::Matmul, &[]),
        Err(Error::InternalError(_))
    ));
}

#[test]
fn dispatch_is_recorded_with_its_bindings() {
    let mut device = ready();
    let group = device.create_bind_group(Pipeline::Fill, &[2, 5]).unwrap();
    device.dispatch(group, Grid { x: 1024, y: 3, z: 1 });
    assert_eq!(
        device.take_commands(),
        vec![Command::Dispatch {
            pipeline: Pipeline::Fill,
            bindings: vec![(0, 2), (1, 5)],
            grid: Grid { x: 1024, y: 3, z: 1 },
        }]
    );
}

#[test]
fn new_tensor_is_created_then_filled() {
    let mut device = ready();
    let t = Tensor2D::<F32>::new(&mut device, 3, 5, 1.5f32.to_bits());
    assert_eq!(t.shape, (3, 5));
    assert_eq!(t.data, Buffer { id: 0, bytes: 60, usage: Usage::Storage });
    assert_eq!(
        device.take_commands(),
        vec![
            Command::CreateBuffer { buffer: 0, bytes: 60, usage: Usage::Storage, mapped: false },
            Command::CreateBufferInit { buffer: 1, contents: 1.5f32.to_ne_bytes().to_vec() },
            Command::Dispatch {
                pipeline: Pipeline::Fill,
                bindings: vec![(0, 0), (1, 1)],
                grid: Grid { x: 1024, y: 1, z: 1 },
            },
            Command::Release { buffer: 1 },
        ]
    );
}

#[test]
fn fill_leaves_the_tensor_as_it_is() {
    let mut device = ready();
    let mut t = Tensor2D::<F32>::new(&mut device, 300, 300, 0);
    device.take_commands();
    t.fill(&mut device, 7);
    assert_eq!(t.shape, (300, 300));
    assert_eq!(t.data, Buffer { id: 0, bytes: 360_000, usage: Usage::Storage });
    assert_eq!(
        device.take_commands(),
        vec![
            Command::CreateBufferInit { buffer: 2, contents: encode_words(&[7]) },
            Command::Dispatch {
                pipeline: Pipeline::Fill,
                bindings: vec![(0, 0), (1, 2)],
                grid: Grid { x: 1024, y: 2, z: 1 },
            },
            Command::Release { buffer: 2 },
        ]
    );
}

#[test]
fn matmul_has_the_outer_shape() {
    let mut device = ready();
    let a = Tensor2D::<F32>::new(&mut device, 2, 3, 0);
    let b = Tensor2D::<F32>::new(&mut device, 3, 4, 0);
    device.take_commands();
    let c = a.matmul(&b, &mut device).unwrap();
    assert_eq!(c.shape, (2, 4));
    assert_eq!(c.data, Buffer { id: 4, bytes: 32, usage: Usage::Storage });
    assert_eq!(
        device.take_commands(),
        vec![
            Command::CreateBuffer { buffer: 4, bytes: 32, usage: Usage::Storage, mapped: false },
            Command::CreateBufferInit { buffer: 5, contents: encode_words(&[2, 3, 4]) },
            Command::Dispatch {
                pipeline: Pipeline::Matmul,
                bindings: vec![(0, 0), (1, 2), (2, 4), (3, 5)],
                grid: Grid { x: 2, y: 4, z: 1 },
            },
            Command::Release { buffer: 5 },
        ]
    );
}

#[test]
fn matmul_refuses_unequal_inner_extents() {
    let mut device = ready();
    let a = Tensor2D::<F32>::new(&mut device, 2, 3, 0);
    let b = Tensor2D::<F32>::new(&mut device, 4, 5, 0);
    device.take_commands();
    let before = device.buffer_count();
    assert_eq!(
        a.matmul(&b, &mut device).unwrap_err(),
        Error::DimensionMismatchBinaryOp { op: "gemm", lhs: vec![2, 3], rhs: vec![4, 5] }
    );
    assert_eq!(device.take_commands(), vec![]);
    assert_eq!(device.buffer_count(), before);
}

#[test]
fn matmul_refuses_extents_beyond_a_kernel_parameter() {
    if usize::BITS == 64 {
        let mut device = ready();
        let wide = u32::MAX as usize + 1;
        let a: Tensor2D<F32> = Tensor {
            shape: (wide, 0),
            data: Buffer { id: 0, bytes: 0, usage: Usage::Storage },
            phantom: std::marker::PhantomData,
        };
        let b: Tensor2D<F32> = Tensor {
            shape: (0, 1),
            data: Buffer { id: 1, bytes: 0, usage: Usage::Storage },
            phantom: std::marker::PhantomData,
        };
        assert!(matches!(a.matmul(&b, &mut device), Err(Error::InternalError(_))));
        assert_eq!(device.take_commands(), vec![]);
    }
}

#[test]
fn add_keeps_the_shape() {
    let mut device = ready();
    let a = Tensor2D::<F32>::new(&mut device, 2, 3, 0);
    let b = Tensor2D::<F32>::new(&mut device, 2, 3, 0);
    device.take_commands();
    let c = a.add(&b, &mut device).unwrap();
    assert_eq!(c.shape, (2, 3));
    assert_eq!(c.data, Buffer { id: 4, bytes: 24, usage: Usage::Storage });
    assert_eq!(
        device.take_commands(),
        vec![
            Command::CreateBuffer { buffer: 4, bytes: 24, usage: Usage::Storage, mapped: false },
            Command::Dispatch {
                pipeline: Pipeline::Add,
                bindings: vec![(0, 0), (1, 2), (2, 4)],
                grid: Grid { x: 1024, y: 1, z: 1 },
            },
        ]
    );
}

#[test]
fn add_refuses_unequal_shapes() {
    let mut device = ready();
    let a = Tensor2D::<F32>::new(&mut device, 2, 3, 0);
    let b = Tensor2D::<F32>::new(&mut device, 3, 2, 0);
    device.take_commands();
    assert_eq!(
        a.add(&b, &mut device).unwrap_err(),
        Error::DimensionMismatchBinaryOp { op: "add", lhs: vec![2, 3], rhs: vec![3, 2] }
    );
    assert_eq!(device.take_commands(), vec![]);
}

#[test]
fn clone_copies_every_byte_on_the_device() {
    let mut device = ready();
    let a = Tensor2D::<F32>::new(&mut device, 2, 3, 0);
    device.take_commands();
    let b = a.clone(&mut device);
    assert_eq!(b.shape, (2, 3));
    assert_eq!(b.data, Buffer { id: 2, bytes: 24, usage: Usage::Storage });
    assert_eq!(
        device.take_commands(),
        vec![
            Command::CreateBuffer { buffer: 2, bytes: 24, usage: Usage::Storage, mapped: false },
            Command::CopyBuffer { src: 0, dst: 2, bytes: 24 },
        ]
    );
}

#[test]
fn readback_copies_maps_and_waits() {
    let mut device = ready();
    let a = Tensor2D::<F32>::new(&mut device, 2, 3, 0);
    device.take_commands();
    let pending = a.to_vec(&mut device);
    assert_eq!(pending.buffer(), Buffer { id: 2, bytes: 24, usage: Usage::Transfer });
    assert_eq!(
        device.take_commands(),
        vec![
            Command::CreateBuffer { buffer: 2, bytes: 24, usage: Usage::Transfer, mapped: false },
            Command::CopyBuffer { src: 0, dst: 2, bytes: 24 },
            Command::MapRead { buffer: 2 },
            Command::Wait,
        ]
    );
}

#[test]
fn dropped_signal_is_an_error() {
    let mut device = ready();
    let a = Tensor2D::<F32>::new(&mut device, 2, 3, 0);
    let pending = a.to_vec(&mut device);
    device.take_commands();
    assert_eq!(pending.signal(&mut device, None).unwrap_err(), Error::ReceiverReturnedNone);
    assert_eq!(device.take_commands(), vec![Command::Release { buffer: 2 }]);
}

#[test]
fn rejected_mapping_is_an_error() {
    let mut device = ready();
    let a = Tensor2D::<F32>::new(&mut device, 2, 3, 0);
    let pending = a.to_vec(&mut device);
    device.take_commands();
    assert_eq!(
        pending.signal(&mut device, Some(MapSignal::Failed)).unwrap_err(),
        Error::BufferAsync
    );
    assert_eq!(device.take_commands(), vec![Command::Release { buffer: 2 }]);
}

#[test]
fn mapped_bytes_are_decoded_then_released() {
    let mut device = ready();
    let a = Tensor2D::<F32>::new(&mut device, 1, 2, 0);
    let pending = a.to_vec(&mut device);
    device.take_commands();
    let range = pending.signal(&mut device, Some(MapSignal::Mapped)).unwrap();
    assert_eq!(device.take_commands(), vec![]);
    assert_eq!(range.buffer(), Buffer { id: 2, bytes: 8, usage: Usage::Transfer });
    let mut bytes = 2.5f32.to_ne_bytes().to_vec();
    bytes.extend_from_slice(&(-1.0f32).to_ne_bytes());
    let words = range.decode(&mut device, &bytes).unwrap();
    assert_eq!(words, vec![2.5f32.to_bits(), (-1.0f32).to_bits()]);
    assert_eq!(
        device.take_commands(),
        vec![Command::Unmap { buffer: 2 }, Command::Release { buffer: 2 }]
    );
}

#[test]
fn bytes_of_another_length_are_refused() {
    let mut device = ready();
    let a = Tensor2D::<F32>::new(&mut device, 1, 2, 0);
    let pending = a.to_vec(&mut device);
    let range = pending.signal(&mut device, Some(MapSignal::Mapped)).unwrap();
    device.take_commands();
    assert!(matches!(
        range.decode(&mut device, &[0u8; 4]),
        Err(Error::InternalError(_))
    ));
    assert_eq!(
        device.take_commands(),
        vec![Command::Unmap { buffer: 2 }, Command::Release { buffer: 2 }]
    );
}

#[test]
fn add_refuses_sizes_that_overflow() {
    let mut device = ready();
    let a: Tensor2D<F32> = Tensor {
        shape: (usize::MAX, 2),
        data: Buffer { id: 0, bytes: 0, usage: Usage::Storage },
        phantom: std::marker::PhantomData,
    };
    let b: Tensor2D<F32> = Tensor {
        shape: (usize::MAX, 2),
        data: Buffer { id: 1, bytes: 0, usage: Usage::Storage },
        phantom: std::marker::PhantomData,
    };
    assert!(matches!(a.add(&b, &mut device), Err(Error::InternalError(_))));
    assert_eq!(device.take_commands(), vec![]);
    assert_eq!(device.buffer_count(), 0);
}

#[test]
fn matmul_of_empty_inner_extent_is_allowed() {
    let mut device = ready();
    let a = Tensor2D::<F32>::new(&mut device, 2, 0, 0);
    let b = Tensor2D::<F32>::new(&mut device, 0, 3, 0);
    let c = a.matmul(&b, &mut device).unwrap();
    assert_eq!(c.shape, (2, 3));
    assert_eq!(c.data.bytes, 24);
}
