use std::collections::HashMap;

use storm::device::opencl::{
    bind_args, check_geometry, CLBuffer, CLDevice, CLProgram, DriverEvent, DriverRequest,
};
use storm::device::{
    Buffer, Command, Device, DeviceError, DeviceState, KernelArg, PendingCopy, Program,
};
use storm::dtype::{Dtype, DtypeKind};
use storm::ops::{BinaryOp, LazyOp};

fn device_on(accelerator: usize, context: usize) -> CLDevice {
    let mut device = CLDevice::new();
    device.advance(DriverEvent::Devices(vec![accelerator, 9])).unwrap();
    device.advance(DriverEvent::ContextCreated { context }).unwrap();
    device.advance(DriverEvent::QueueCreated).unwrap();
    device
}

fn ready_device() -> CLDevice {
    device_on(7, 0x7000)
}

fn float() -> Dtype {
    Dtype::new(DtypeKind::Float)
}

fn floats_to_bytes(values: &[f32]) -> Vec<u8> {
    let mut bytes = Vec::new();
    for value in values {
        bytes.extend_from_slice(&value.to_le_bytes());
    }
    bytes
}

fn bytes_to_floats(bytes: &[u8]) -> Vec<f32> {
    bytes
        .chunks(4)
        .map(|chunk| f32::from_le_bytes([chunk[0], chunk[1], chunk[2], chunk[3]]))
        .collect()
}

/// A stand-in for the driver: performs the queued commands in order on host
/// memory, adds elementwise where a kernel is launched, and reports every
/// command as successful. What the reads deliver is returned, oldest first.
fn perform_all(
    device: &mut CLDevice,
    pending: &mut PendingCopy,
    memory: &mut HashMap<usize, Vec<u8>>,
) -> Vec<Vec<u8>> {
    let mut delivered = Vec::new();
    loop {
        match device.next_command() {
            None => break,
            Some(Command::CreateBuffer { buffer, bytes }) => {
                memory.insert(*buffer, vec![0xAA; *bytes]);
            }
            Some(Command::ReleaseBuffer { buffer }) => {
                memory.remove(buffer);
            }
            Some(Command::BuildProgram { .. }) => {}
            Some(Command::WriteBuffer { buffer, bytes, data }) => {
                memory.insert(*buffer, data[..*bytes].to_vec());
            }
            Some(Command::ReadBuffer { buffer, bytes }) => {
                delivered.push(memory[buffer][..*bytes].to_vec());
            }
            Some(Command::Launch { args, global_size, .. }) => {
                let handles: Vec<usize> = args
                    .iter()
                    .map(|arg| match arg {
                        KernelArg::Buffer(handle) => *handle,
                        KernelArg::Scalar(_) => panic!("the add kernel takes buffers only"),
                    })
                    .collect();
                let a = bytes_to_floats(&memory[&handles[1]]);
                let b = bytes_to_floats(&memory[&handles[2]]);
                let sum: Vec<f32> = (0..global_size[0]).map(|i| a[i] + b[i]).collect();
                memory.insert(handles[0], floats_to_bytes(&sum));
            }
            Some(Command::Finish) => {}
        }
        assert_eq!(device.complete(pending, Ok(())), Ok(()));
    }
    delivered
}

#[test]
fn bring_up_selects_the_first_accelerator() {
    let mut device = CLDevice::new();
    assert_eq!(device.state(), DeviceState::Uninitialized);
    assert_eq!(device.request(), DriverRequest::EnumerateDevices);
    assert_eq!(device.advance(DriverEvent::Devices(vec![7, 9])), Ok(()));
    assert_eq!(device.state(), DeviceState::DeviceSelected);
    assert_eq!(device.device_id(), 7);
    assert_eq!(device.request(), DriverRequest::CreateContext { device: 7 });
    assert_eq!(device.advance(DriverEvent::ContextCreated { context: 0x51 }), Ok(()));
    assert_eq!(device.state(), DeviceState::ContextCreated);
    assert_eq!(device.context(), 0x51);
    assert_eq!(device.request(), DriverRequest::CreateQueue { device: 7 });
    assert_eq!(device.advance(DriverEvent::QueueCreated), Ok(()));
    assert_eq!(device.state(), DeviceState::QueueReady);
    assert!(device.is_ready());
    assert_eq!(device.request(), DriverRequest::Nothing);
}

#[test]
fn bring_up_without_an_accelerator_is_an_initialization_error() {
    let mut device = CLDevice::new();
    assert_eq!(
        device.advance(DriverEvent::Devices(vec![])),
        Err(DeviceError::Initialization)
    );
    assert_eq!(device.state(), DeviceState::Uninitialized);
}

#[test]
fn bring_up_rejects_answers_out_of_order() {
    let mut device = CLDevice::new();
    assert_eq!(
        device.advance(DriverEvent::ContextCreated { context: 5 }),
        Err(DeviceError::Initialization)
    );
    assert_eq!(
        device.advance(DriverEvent::QueueCreated),
        Err(DeviceError::Initialization)
    );
    assert_eq!(device.state(), DeviceState::Uninitialized);
    device.advance(DriverEvent::Devices(vec![3])).unwrap();
    assert_eq!(
        device.advance(DriverEvent::QueueCreated),
        Err(DeviceError::Initialization)
    );
    assert_eq!(device.advance(DriverEvent::Failed), Err(DeviceError::Initialization));
    assert_eq!(device.state(), DeviceState::DeviceSelected);
    assert_eq!(device.device_id(), 3);
}

#[test]
fn a_ready_device_never_regresses() {
    let mut device = ready_device();
    for event in [
        DriverEvent::Devices(vec![1]),
        DriverEvent::ContextCreated { context: 1 },
        DriverEvent::QueueCreated,
        DriverEvent::Failed,
    ] {
        assert_eq!(device.advance(event), Err(DeviceError::Initialization));
        assert_eq!(device.state(), DeviceState::QueueReady);
        assert_eq!(device.device_id(), 7);
        assert_eq!(device.context(), 0x7000);
    }
}

#[test]
fn a_device_that_is_not_ready_takes_no_work() {
    let mut ready = ready_device();
    let buffer = ready.allocate(4, float()).unwrap();
    let program = ready.build("k", "source").unwrap();

    let mut device = CLDevice::new();
    let mut pending = PendingCopy::new();
    assert_eq!(device.allocate(4, float()), Err(DeviceError::Initialization));
    assert_eq!(device.build("k", "source"), Err(DeviceError::Initialization));
    assert_eq!(device.dealloc(&buffer), Err(DeviceError::Initialization));
    assert_eq!(device.copyout(&buffer, &[0u8; 16]), Err(DeviceError::Initialization));
    assert_eq!(
        device.copyin(vec![0u8; 16], &buffer),
        Err(DeviceError::Initialization)
    );
    assert_eq!(buffer.to_cpu(&mut device), Err(DeviceError::Initialization));
    assert_eq!(
        program.run(&mut device, &[buffer], &[4], None, &[], &[]),
        Err(DeviceError::Initialization)
    );
    device.synchronize();
    assert_eq!(device.queued(), 0);
    assert!(pending.is_empty());
}

#[test]
fn allocation_size_is_count_times_width() {
    let kinds = [
        (DtypeKind::Bool, 1),
        (DtypeKind::Int8, 1),
        (DtypeKind::UInt8, 1),
        (DtypeKind::Int16, 2),
        (DtypeKind::UInt16, 2),
        (DtypeKind::Half, 2),
        (DtypeKind::Int32, 4),
        (DtypeKind::UInt32, 4),
        (DtypeKind::Float, 4),
        (DtypeKind::Int64, 8),
        (DtypeKind::UInt64, 8),
        (DtypeKind::Double, 8),
    ];
    let mut device = ready_device();
    for (kind, width) in kinds {
        for count in [0usize, 1, 4, 1000] {
            let dtype = Dtype::new(kind);
            assert_eq!(dtype.size(), width);
            assert_eq!(dtype.kind(), kind);
            let buffer = device.allocate(count, dtype).unwrap();
            assert_eq!(buffer.size(), count * width);
            assert_eq!(buffer.dtype(), dtype);
            assert!(device.holds(&buffer));
        }
    }
}

#[test]
fn allocation_gives_out_fresh_handles_and_enqueues_the_creation() {
    let mut device = ready_device();
    let first = device.allocate(4, float()).unwrap();
    let second = device.allocate(2, Dtype::new(DtypeKind::Double)).unwrap();
    assert_eq!(first.ptr(), 0);
    assert_eq!(second.ptr(), 1);
    assert_eq!(device.queued(), 2);
    assert_eq!(
        device.next_command(),
        Some(&Command::CreateBuffer { buffer: 0, bytes: 16 })
    );
}

#[test]
fn allocation_that_overflows_is_an_enqueue_error() {
    let mut device = ready_device();
    assert_eq!(
        device.allocate(usize::MAX, Dtype::new(DtypeKind::Double)),
        Err(DeviceError::Enqueue)
    );
    assert_eq!(
        device.allocate(usize::MAX / 4 + 1, float()),
        Err(DeviceError::Enqueue)
    );
    assert_eq!(device.queued(), 0);
    let exact = device.allocate(usize::MAX / 4, float()).unwrap();
    assert_eq!(exact.size(), (usize::MAX / 4) * 4);
    assert!(device.allocate(usize::MAX, Dtype::new(DtypeKind::UInt8)).is_ok());
}

#[test]
fn a_buffer_is_released_exactly_once() {
    let mut device = ready_device();
    let buffer = device.allocate(4, float()).unwrap();
    assert_eq!(device.dealloc(&buffer), Ok(()));
    assert!(!device.holds(&buffer));
    assert_eq!(device.queued(), 2);
    assert_eq!(device.dealloc(&buffer), Err(DeviceError::Enqueue));
    assert_eq!(device.queued(), 2);
}

#[test]
fn a_buffer_of_another_device_is_refused() {
    let mut first = device_on(7, 0x7000);
    let mut second = device_on(9, 0x9000);
    let own = first.allocate(4, float()).unwrap();
    let mut foreign = second.allocate(4, float()).unwrap();
    assert_eq!(own.ptr(), foreign.ptr());
    assert_eq!(own.size(), foreign.size());
    assert_eq!(own.dtype(), foreign.dtype());
    assert_ne!(own, foreign);
    let program = first.build("k", "source").unwrap();
    let queued = first.queued();

    assert!(first.holds(&own));
    assert!(!first.holds(&foreign));
    assert!(!second.holds(&own));
    assert!(!first.holds_every(&[own, foreign]));
    assert_eq!(first.dealloc(&foreign), Err(DeviceError::Enqueue));
    assert_eq!(first.copyin(vec![0; 16], &foreign), Err(DeviceError::Transfer));
    assert_eq!(first.copyout(&foreign, &[0u8; 16]), Err(DeviceError::Transfer));
    assert_eq!(foreign.to_cpu(&mut first), Err(DeviceError::Transfer));
    assert_eq!(foreign.from_cpu(&mut first, vec![0; 16]), Err(DeviceError::Transfer));
    assert_eq!(
        program.run(&mut first, &[own, foreign], &[4], None, &[], &[]),
        Err(DeviceError::Enqueue)
    );
    assert_eq!(first.queued(), queued);
    assert!(first.holds(&own));

    assert_eq!(first.dealloc(&own), Ok(()));
    assert!(second.holds(&foreign));
    assert_eq!(second.dealloc(&foreign), Ok(()));
}

#[test]
fn two_devices_on_one_accelerator_are_told_apart_by_their_contexts() {
    let mut first = device_on(7, 0x7000);
    let mut second = device_on(7, 0x7100);
    assert_eq!(first.device_id(), second.device_id());
    let own = first.allocate(4, float()).unwrap();
    let foreign = second.allocate(4, float()).unwrap();
    let built = first.build("k", "source").unwrap();
    let other = second.build("k", "source").unwrap();
    assert_eq!(built.id(), other.id());
    assert!(first.runs(&built));
    assert!(!first.runs(&other));
    assert!(!first.holds(&foreign));
    assert_eq!(
        other.run(&mut first, &[own], &[4], None, &[], &[]),
        Err(DeviceError::Enqueue)
    );
    assert_eq!(first.dealloc(&foreign), Err(DeviceError::Enqueue));
    assert_eq!(built.run(&mut first, &[own], &[4], None, &[], &[]), Ok(()));
}

#[test]
fn copyin_enqueues_the_upload_and_an_accepted_upload_is_staged() {
    let mut device = ready_device();
    let mut pending = PendingCopy::new();
    let buffer = device.allocate(2, float()).unwrap();
    device.complete(&mut pending, Ok(())).unwrap();
    assert_eq!(device.copyin(vec![1, 2, 3, 4, 5, 6, 7, 8], &buffer), Ok(()));
    assert!(pending.is_empty());
    assert_eq!(
        device.next_command(),
        Some(&Command::WriteBuffer {
            buffer: buffer.ptr(),
            bytes: 8,
            data: vec![1, 2, 3, 4, 5, 6, 7, 8],
        })
    );
    assert_eq!(device.complete(&mut pending, Ok(())), Ok(()));
    assert_eq!(pending.len(), 1);
    assert_eq!(pending.get(0), &vec![1, 2, 3, 4, 5, 6, 7, 8]);
    assert_eq!(device.queued(), 0);
}

#[test]
fn a_rejected_upload_is_not_staged() {
    let mut device = ready_device();
    let mut pending = PendingCopy::new();
    let buffer = device.allocate(1, float()).unwrap();
    device.complete(&mut pending, Ok(())).unwrap();
    device.copyin(vec![1; 4], &buffer).unwrap();
    device.complete(&mut pending, Ok(())).unwrap();
    assert_eq!(pending.len(), 1);

    device.copyin(vec![2; 4], &buffer).unwrap();
    assert_eq!(
        device.complete(&mut pending, Err(String::from("CL_OUT_OF_RESOURCES"))),
        Err(DeviceError::Transfer)
    );
    assert_eq!(pending.len(), 1);
    assert_eq!(pending.get(0), &vec![1; 4]);
    assert_eq!(device.queued(), 0);
    assert!(device.holds(&buffer));
}

#[test]
fn an_upload_performed_by_the_driver_fills_the_buffer() {
    let mut device = ready_device();
    let mut pending = PendingCopy::new();
    let buffer = device.allocate(2, float()).unwrap();
    device.copyin(vec![1, 2, 3, 4, 5, 6, 7, 8], &buffer).unwrap();
    let mut memory = HashMap::new();
    perform_all(&mut device, &mut pending, &mut memory);
    assert_eq!(memory[&buffer.ptr()], vec![1, 2, 3, 4, 5, 6, 7, 8]);
    assert_eq!(pending.len(), 1);
}

#[test]
fn copyin_of_too_few_bytes_is_a_transfer_error() {
    let mut device = ready_device();
    let mut pending = PendingCopy::new();
    let buffer = device.allocate(2, float()).unwrap();
    assert_eq!(
        device.copyin(vec![1, 2, 3], &buffer),
        Err(DeviceError::Transfer)
    );
    assert!(pending.is_empty());
    assert_eq!(device.queued(), 1);
}

#[test]
fn copyin_of_more_bytes_uploads_the_first_ones() {
    let mut device = ready_device();
    let mut pending = PendingCopy::new();
    let buffer = device.allocate(2, Dtype::new(DtypeKind::UInt8)).unwrap();
    assert_eq!(device.copyin(vec![9, 8, 7, 6], &buffer), Ok(()));
    let mut memory = HashMap::new();
    perform_all(&mut device, &mut pending, &mut memory);
    assert_eq!(memory[&buffer.ptr()], vec![9, 8]);
}

#[test]
fn copyin_into_a_released_buffer_is_a_transfer_error() {
    let mut device = ready_device();
    let mut pending = PendingCopy::new();
    let mut buffer = device.allocate(1, float()).unwrap();
    device.dealloc(&buffer).unwrap();
    assert_eq!(
        device.copyin(vec![0; 4], &buffer),
        Err(DeviceError::Transfer)
    );
    assert_eq!(
        buffer.from_cpu(&mut device, vec![0; 4]),
        Err(DeviceError::Transfer)
    );
    assert_eq!(buffer.to_cpu(&mut device), Err(DeviceError::Transfer));
    assert!(pending.is_empty());
}

#[test]
fn copyout_needs_room_for_the_whole_buffer() {
    let mut device = ready_device();
    let buffer = device.allocate(2, float()).unwrap();
    assert_eq!(device.copyout(&buffer, &[0u8; 7]), Err(DeviceError::Transfer));
    assert_eq!(device.queued(), 1);
    assert_eq!(device.copyout(&buffer, &[0u8; 8]), Ok(()));
    assert_eq!(device.copyout(&buffer, &[0u8; 9]), Ok(()));
    assert_eq!(device.queued(), 3);
}

#[test]
fn to_cpu_enqueues_a_read_and_a_barrier() {
    let mut device = ready_device();
    let mut pending = PendingCopy::new();
    let buffer = device.allocate(2, float()).unwrap();
    let mut memory = HashMap::new();
    perform_all(&mut device, &mut pending, &mut memory);
    let host = buffer.to_cpu(&mut device).unwrap();
    assert_eq!(host, vec![0u8; 8]);
    assert_eq!(device.queued(), 2);
    assert_eq!(
        device.next_command(),
        Some(&Command::ReadBuffer { buffer: buffer.ptr(), bytes: 8 })
    );
    device.complete(&mut pending, Ok(())).unwrap();
    assert_eq!(device.next_command(), Some(&Command::Finish));
}

#[test]
fn round_trip_returns_the_bytes_unchanged() {
    let mut device = ready_device();
    let mut pending = PendingCopy::new();
    let mut memory = HashMap::new();
    let mut buffer = device.allocate(3, Dtype::new(DtypeKind::Int16)).unwrap();
    let bytes = vec![10, 20, 30, 40, 50, 60];
    buffer.from_cpu(&mut device, bytes.clone()).unwrap();
    device.synchronize();
    buffer.to_cpu(&mut device).unwrap();
    let delivered = perform_all(&mut device, &mut pending, &mut memory);
    assert_eq!(delivered, vec![bytes]);
    assert!(pending.is_empty());
}

#[test]
fn local_size_that_does_not_divide_is_rejected_without_a_launch() {
    let mut device = ready_device();
    let buffer = device.allocate(10, float()).unwrap();
    let program = device.build("k", "source").unwrap();
    let queued = device.queued();
    assert_eq!(
        program.run(&mut device, &[buffer], &[10], Some(&[3]), &[], &[]),
        Err(DeviceError::Enqueue)
    );
    assert_eq!(device.queued(), queued);
    assert_eq!(
        program.run(&mut device, &[buffer], &[10], Some(&[5]), &[], &[]),
        Ok(())
    );
    assert_eq!(device.queued(), queued + 1);
}

#[test]
fn launch_geometry_has_one_to_three_dimensions() {
    assert!(!check_geometry(&[], None));
    assert!(check_geometry(&[4], None));
    assert!(check_geometry(&[4, 2], None));
    assert!(check_geometry(&[4, 2, 8], None));
    assert!(!check_geometry(&[4, 2, 8, 1], None));
    assert!(check_geometry(&[4, 6, 8], Some(&[2, 3, 8])));
    assert!(!check_geometry(&[4, 6, 8], Some(&[2, 3])));
    assert!(!check_geometry(&[4, 6, 8], Some(&[2, 4, 8])));
    assert!(!check_geometry(&[4, 6], Some(&[0, 3])));
    assert!(check_geometry(&[0], Some(&[7])));
    assert!(!check_geometry(&[], Some(&[])));
}

#[test]
fn run_binds_buffers_first_and_scalars_after() {
    let mut device = ready_device();
    let mut pending = PendingCopy::new();
    let a = device.allocate(4, float()).unwrap();
    let b = device.allocate(4, float()).unwrap();
    let program = device.build("k", "source").unwrap();
    while device.queued() > 0 {
        device.complete(&mut pending, Ok(())).unwrap();
    }
    assert_eq!(
        program.run(
            &mut device,
            &[b, a],
            &[4, 2],
            Some(&[2, 1]),
            &[-3, 12],
            &[String::from("reserved")]
        ),
        Ok(())
    );
    assert_eq!(
        device.next_command(),
        Some(&Command::Launch {
            program: program.id(),
            args: vec![
                KernelArg::Buffer(b.ptr()),
                KernelArg::Buffer(a.ptr()),
                KernelArg::Scalar(-3),
                KernelArg::Scalar(12),
            ],
            global_size: vec![4, 2],
            local_size: Some(vec![2, 1]),
        })
    );
    assert_eq!(
        bind_args(&[a], &[5]),
        vec![KernelArg::Buffer(a.ptr()), KernelArg::Scalar(5)]
    );
}

#[test]
fn run_rejects_buffers_and_programs_the_device_does_not_have() {
    let mut device = ready_device();
    let mut other = device_on(8, 0x8000);
    let buffer = device.allocate(4, float()).unwrap();
    let released = device.allocate(4, float()).unwrap();
    device.dealloc(&released).unwrap();
    let program = device.build("k", "source").unwrap();
    let foreign = other.build("k", "source").unwrap();
    let queued = device.queued();
    assert_eq!(
        program.run(&mut device, &[buffer, released], &[4], None, &[], &[]),
        Err(DeviceError::Enqueue)
    );
    assert_eq!(
        foreign.run(&mut device, &[buffer], &[4], None, &[], &[]),
        Err(DeviceError::Enqueue)
    );
    assert!(!device.runs(&foreign));
    assert!(device.runs(&program));
    assert_eq!(device.queued(), queued);
}

#[test]
fn a_rejected_build_is_a_compile_error_with_the_diagnostic() {
    let mut device = ready_device();
    let mut pending = PendingCopy::new();
    let buffer = device.allocate(4, float()).unwrap();
    device.complete(&mut pending, Ok(())).unwrap();
    let program = device.build("broken", "not a kernel").unwrap();
    assert_eq!(program.name(), "broken");
    assert_eq!(
        device.next_command(),
        Some(&Command::BuildProgram {
            program: program.id(),
            name: String::from("broken"),
            source: String::from("not a kernel"),
        })
    );
    let diagnostic = "<kernel>:1:1: error: unknown type name 'not'\n";
    assert_eq!(
        device.complete(&mut pending, Err(String::from(diagnostic))),
        Err(DeviceError::Compile(String::from(diagnostic)))
    );
    assert!(!device.runs(&program));
    assert_eq!(
        program.run(&mut device, &[buffer], &[4], None, &[], &[]),
        Err(DeviceError::Enqueue)
    );
}

#[test]
fn rejections_are_reported_by_the_kind_of_the_command() {
    let mut device = ready_device();
    let mut pending = PendingCopy::new();
    let buffer = device.allocate(1, float()).unwrap();
    let kept = device.allocate(1, float()).unwrap();
    assert_eq!(
        device.complete(&mut pending, Err(String::from("CL_MEM_OBJECT_ALLOCATION_FAILURE"))),
        Err(DeviceError::Enqueue)
    );
    assert!(!device.holds(&buffer));
    assert_eq!(device.complete(&mut pending, Ok(())), Ok(()));
    assert!(device.holds(&kept));

    let program = device.build("k", "source").unwrap();
    device.complete(&mut pending, Ok(())).unwrap();
    device.copyin(vec![0; 4], &kept).unwrap();
    assert_eq!(
        device.complete(&mut pending, Err(String::from("CL_OUT_OF_RESOURCES"))),
        Err(DeviceError::Transfer)
    );
    assert!(pending.is_empty());
    device.copyin(vec![0; 4], &kept).unwrap();
    device.complete(&mut pending, Ok(())).unwrap();
    device.copyout(&kept, &[0u8; 4]).unwrap();
    assert_eq!(
        device.complete(&mut pending, Err(String::from("CL_OUT_OF_RESOURCES"))),
        Err(DeviceError::Transfer)
    );
    program.run(&mut device, &[kept], &[1], None, &[], &[]).unwrap();
    assert_eq!(
        device.complete(&mut pending, Err(String::from("CL_INVALID_KERNEL_ARGS"))),
        Err(DeviceError::Enqueue)
    );
    device.synchronize();
    assert_eq!(
        device.complete(&mut pending, Err(String::from("CL_INVALID_COMMAND_QUEUE"))),
        Err(DeviceError::Enqueue)
    );
    assert_eq!(pending.len(), 1);
    device.dealloc(&kept).unwrap();
    assert_eq!(
        device.complete(&mut pending, Err(String::from("CL_INVALID_MEM_OBJECT"))),
        Err(DeviceError::Enqueue)
    );
    assert_eq!(device.queued(), 0);
    assert_eq!(device.complete(&mut pending, Err(String::from("late"))), Ok(()));
    assert_eq!(device.complete(&mut pending, Ok(())), Ok(()));
}

#[test]
fn three_uploads_and_a_barrier_leave_the_table_empty() {
    let mut device = ready_device();
    let mut pending = PendingCopy::new();
    let mut memory = HashMap::new();
    let buffers: Vec<CLBuffer> = (0..3).map(|_| device.allocate(1, float()).unwrap()).collect();
    for (i, buffer) in buffers.iter().enumerate() {
        device.copyin(vec![i as u8; 4], buffer).unwrap();
    }
    perform_all(&mut device, &mut pending, &mut memory);
    assert_eq!(pending.len(), 3);
    for i in 0..3 {
        assert_eq!(pending.get(i), &vec![i as u8; 4]);
    }
    device.synchronize();
    perform_all(&mut device, &mut pending, &mut memory);
    assert!(pending.is_empty());
    assert_eq!(pending.len(), 0);
    assert_eq!(device.queued(), 0);
    for (i, buffer) in buffers.iter().enumerate() {
        assert_eq!(memory[&buffer.ptr()], vec![i as u8; 4]);
    }
}

#[test]
fn an_upload_behind_a_barrier_keeps_its_bytes_until_it_is_in_flight() {
    let mut device = ready_device();
    let mut pending = PendingCopy::new();
    let buffer = device.allocate(1, float()).unwrap();
    device.complete(&mut pending, Ok(())).unwrap();
    device.copyin(vec![1; 4], &buffer).unwrap();
    device.synchronize();
    device.copyin(vec![2; 4], &buffer).unwrap();
    assert_eq!(
        device.next_command(),
        Some(&Command::WriteBuffer { buffer: 0, bytes: 4, data: vec![1; 4] })
    );
    device.complete(&mut pending, Ok(())).unwrap();
    assert_eq!(pending.len(), 1);
    assert_eq!(device.next_command(), Some(&Command::Finish));
    device.complete(&mut pending, Ok(())).unwrap();
    assert!(pending.is_empty());
    assert_eq!(
        device.next_command(),
        Some(&Command::WriteBuffer { buffer: 0, bytes: 4, data: vec![2; 4] })
    );
    device.complete(&mut pending, Ok(())).unwrap();
    assert_eq!(pending.len(), 1);
    assert_eq!(pending.get(0), &vec![2; 4]);
    device.synchronize();
    device.complete(&mut pending, Ok(())).unwrap();
    assert!(pending.is_empty());
}

#[test]
fn a_failed_barrier_keeps_the_uploads_in_flight() {
    let mut device = ready_device();
    let mut pending = PendingCopy::new();
    let buffer = device.allocate(1, float()).unwrap();
    device.complete(&mut pending, Ok(())).unwrap();
    device.copyin(vec![1; 4], &buffer).unwrap();
    device.complete(&mut pending, Ok(())).unwrap();
    device.synchronize();
    assert_eq!(
        device.complete(&mut pending, Err(String::from("CL_INVALID_COMMAND_QUEUE"))),
        Err(DeviceError::Enqueue)
    );
    assert_eq!(pending.len(), 1);
}

#[test]
fn a_read_after_an_upload_and_a_launch_sees_the_upload() {
    let mut device = ready_device();
    let mut pending = PendingCopy::new();
    let mut memory = HashMap::new();
    let out = device.allocate(2, float()).unwrap();
    let a = device.allocate(2, float()).unwrap();
    let b = device.allocate(2, float()).unwrap();
    let program = device.build("add", "source").unwrap();
    device.copyin(floats_to_bytes(&[1.0, 1.0]), &a).unwrap();
    device.copyin(floats_to_bytes(&[2.0, 2.0]), &b).unwrap();
    perform_all(&mut device, &mut pending, &mut memory);

    device.copyin(floats_to_bytes(&[5.0, 6.0]), &a).unwrap();
    program.run(&mut device, &[out, a, b], &[2], None, &[], &[]).unwrap();
    out.to_cpu(&mut device).unwrap();
    let delivered = perform_all(&mut device, &mut pending, &mut memory);
    assert_eq!(bytes_to_floats(&delivered[0]), vec![7.0, 8.0]);
}

#[test]
fn elementwise_add_end_to_end() {
    let mut device = ready_device();
    let mut pending = PendingCopy::new();
    let mut memory = HashMap::new();

    let out = device.allocate(4, float()).unwrap();
    let mut a = device.allocate(4, float()).unwrap();
    let mut b = device.allocate(4, float()).unwrap();
    a.from_cpu(&mut device, floats_to_bytes(&[1.0, 2.0, 3.0, 4.0])).unwrap();
    b.from_cpu(&mut device, floats_to_bytes(&[10.0, 20.0, 30.0, 40.0])).unwrap();

    let graph = LazyOp::Binary {
        op: BinaryOp::Add,
        lhs: Box::new(LazyOp::Load { buffer: 1 }),
        rhs: Box::new(LazyOp::Load { buffer: 2 }),
    };
    let lin = device.get_lin(graph);
    let (name, source) = device.render(lin);
    let program: CLProgram = device.build(&name, &source).unwrap();
    assert_eq!(program.run(&mut device, &[out, a, b], &[4], None, &[], &[]), Ok(()));
    let host = out.to_cpu(&mut device).unwrap();
    assert_eq!(host.len(), 16);

    let delivered = perform_all(&mut device, &mut pending, &mut memory);
    assert_eq!(delivered.len(), 1);
    assert_eq!(bytes_to_floats(&delivered[0]), vec![11.0, 22.0, 33.0, 44.0]);
    assert!(pending.is_empty());
}

#[test]
fn pending_copy_keeps_uploads_in_order() {
    let mut pending = PendingCopy::default();
    assert!(pending.is_empty());
    assert_eq!(pending.push(vec![1]), 0);
    assert_eq!(pending.push(vec![2, 2]), 1);
    assert_eq!(pending.push(vec![]), 2);
    assert_eq!(pending.len(), 3);
    assert!(!pending.is_empty());
    assert_eq!(pending.get(0), &vec![1]);
    assert_eq!(pending.get(1), &vec![2, 2]);
    assert_eq!(pending.get(2), &Vec::<u8>::new());
    pending.clear();
    assert!(pending.is_empty());
    assert_eq!(pending.push(vec![3]), 0);
}
