//! What the commands of a device mean when they are performed in the order
//! of the queue, and the laws that follow for uploads, launches and reads.
//!
//! Device memory is a map from buffer handles to bytes. The effect of a
//! launch is not known here: it is a parameter of every law.

use super::{uploads, CommandView, DeviceView};
use vstd::prelude::*;

verus! {

/// Device memory after one command, performed on `memory`.
///
/// An upload replaces the whole buffer by the first bytes of its source, a
/// launch does what `kernels` says it does, and no other command changes
/// what buffers hold.
pub open spec fn step(
    memory: Map<usize, Seq<u8>>,
    command: CommandView,
    kernels: spec_fn(CommandView, Map<usize, Seq<u8>>) -> Map<usize, Seq<u8>>,
) -> Map<usize, Seq<u8>> {
    match command {
        CommandView::WriteBuffer { buffer, bytes, data } => memory.insert(
            buffer,
            data.take(bytes as int),
        ),
        CommandView::Launch { .. } => kernels(command, memory),
        _ => memory,
    }
}

/// Device memory after every command of `queue`, oldest first.
pub open spec fn performed(
    memory: Map<usize, Seq<u8>>,
    queue: Seq<CommandView>,
    kernels: spec_fn(CommandView, Map<usize, Seq<u8>>) -> Map<usize, Seq<u8>>,
) -> Map<usize, Seq<u8>>
    decreases queue.len(),
{
    if queue.len() == 0 {
        memory
    } else {
        step(performed(memory, queue.drop_last(), kernels), queue.last(), kernels)
    }
}

/// The bytes that the read at position `at` of `queue` delivers to the
/// host: what its buffer holds once every older command was performed.
pub open spec fn delivered(
    memory: Map<usize, Seq<u8>>,
    queue: Seq<CommandView>,
    kernels: spec_fn(CommandView, Map<usize, Seq<u8>>) -> Map<usize, Seq<u8>>,
    at: int,
) -> Seq<u8> {
    match queue[at] {
        CommandView::ReadBuffer { buffer, bytes } => performed(memory, queue.take(at), kernels)[buffer].take(
            bytes as int,
        ),
        _ => Seq::empty(),
    }
}

/// The device and the pending-copy table after every queued command ended
/// successfully, oldest first.
pub open spec fn drained(device: DeviceView, staged: Seq<Seq<u8>>) -> (DeviceView, Seq<Seq<u8>>)
    decreases device.queue.len(),
{
    if device.queue.len() == 0 {
        (device, staged)
    } else {
        drained(device.completed(true), device.staged_after(staged, true))
    }
}

/// Performing a queue and then one more command is performing the longer
/// queue.
pub proof fn lemma_performed_push(
    memory: Map<usize, Seq<u8>>,
    queue: Seq<CommandView>,
    command: CommandView,
    kernels: spec_fn(CommandView, Map<usize, Seq<u8>>) -> Map<usize, Seq<u8>>,
)
    ensures
        performed(memory, queue.push(command), kernels) == step(
            performed(memory, queue, kernels),
            command,
            kernels,
        ),
{
    assert(queue.push(command).drop_last() =~= queue);
}

/// Round trip: after an upload of `data` into a buffer of as many bytes, a
/// barrier, and a read of the buffer followed by a barrier, the read
/// delivers `data` unchanged, whatever the queue held before and whatever
/// launches do.
pub proof fn lemma_round_trip(
    memory: Map<usize, Seq<u8>>,
    kernels: spec_fn(CommandView, Map<usize, Seq<u8>>) -> Map<usize, Seq<u8>>,
    before: DeviceView,
    owner: usize,
    buffer: usize,
    bytes: usize,
    data: Seq<u8>,
    uploaded: DeviceView,
    after: DeviceView,
)
    requires
        data.len() == bytes,
        uploads(before, data, owner, buffer, bytes, uploaded, Ok(())),
        after == uploaded.enqueue(CommandView::Finish).enqueue(
            CommandView::ReadBuffer { buffer, bytes },
        ).enqueue(CommandView::Finish),
    ensures
        after.queue.len() == before.queue.len() + 4,
        after.queue[before.queue.len() as int + 2] == (CommandView::ReadBuffer { buffer, bytes }),
        delivered(memory, after.queue, kernels, before.queue.len() as int + 2) == data,
{
    let write = CommandView::WriteBuffer { buffer, bytes, data };
    let n = before.queue.len() as int;
    let upto = after.queue.take(n + 2);
    assert(upto =~= before.queue.push(write).push(CommandView::Finish));
    lemma_performed_push(memory, before.queue.push(write), CommandView::Finish, kernels);
    lemma_performed_push(memory, before.queue, write, kernels);
    assert(data.take(bytes as int) =~= data);
}

/// Ordering: where an upload into `buffer`, a launch and a read of `out`
/// are enqueued in this order, the read delivers what the launch made of
/// memory in which `buffer` holds the uploaded bytes. What `buffer` held
/// before the upload plays no part.
pub proof fn lemma_read_sees_upload(
    memory: Map<usize, Seq<u8>>,
    kernels: spec_fn(CommandView, Map<usize, Seq<u8>>) -> Map<usize, Seq<u8>>,
    before: DeviceView,
    owner: usize,
    buffer: usize,
    bytes: usize,
    data: Seq<u8>,
    uploaded: DeviceView,
    launch: CommandView,
    out: usize,
    out_bytes: usize,
    after: DeviceView,
)
    requires
        uploads(before, data, owner, buffer, bytes, uploaded, Ok(())),
        launch is Launch,
        after == uploaded.enqueue(launch).enqueue(
            CommandView::ReadBuffer { buffer: out, bytes: out_bytes },
        ).enqueue(CommandView::Finish),
    ensures
        delivered(memory, after.queue, kernels, before.queue.len() as int + 2) == kernels(
            launch,
            performed(memory, before.queue, kernels).insert(buffer, data.take(bytes as int)),
        )[out].take(out_bytes as int),
{
    let write = CommandView::WriteBuffer { buffer, bytes, data };
    let n = before.queue.len() as int;
    assert(after.queue[n + 2] == (CommandView::ReadBuffer { buffer: out, bytes: out_bytes }));
    assert(after.queue.take(n + 2) =~= before.queue.push(write).push(launch));
    lemma_performed_push(memory, before.queue.push(write), launch, kernels);
    lemma_performed_push(memory, before.queue, write, kernels);
}

/// No stale read: on a device with nothing queued, the bytes that a read
/// delivers after an upload into `buffer` and a launch are the same
/// whatever `buffer` held before the upload.
pub proof fn lemma_no_stale_read(
    memory: Map<usize, Seq<u8>>,
    stale: Seq<u8>,
    kernels: spec_fn(CommandView, Map<usize, Seq<u8>>) -> Map<usize, Seq<u8>>,
    before: DeviceView,
    owner: usize,
    buffer: usize,
    bytes: usize,
    data: Seq<u8>,
    uploaded: DeviceView,
    launch: CommandView,
    out: usize,
    out_bytes: usize,
    after: DeviceView,
)
    requires
        before.queue.len() == 0,
        uploads(before, data, owner, buffer, bytes, uploaded, Ok(())),
        launch is Launch,
        after == uploaded.enqueue(launch).enqueue(
            CommandView::ReadBuffer { buffer: out, bytes: out_bytes },
        ).enqueue(CommandView::Finish),
    ensures
        delivered(memory.insert(buffer, stale), after.queue, kernels, 2) == delivered(
            memory,
            after.queue,
            kernels,
            2,
        ),
{
    lemma_read_sees_upload(
        memory,
        kernels,
        before,
        owner,
        buffer,
        bytes,
        data,
        uploaded,
        launch,
        out,
        out_bytes,
        after,
    );
    lemma_read_sees_upload(
        memory.insert(buffer, stale),
        kernels,
        before,
        owner,
        buffer,
        bytes,
        data,
        uploaded,
        launch,
        out,
        out_bytes,
        after,
    );
    assert(memory.insert(buffer, stale).insert(buffer, data.take(bytes as int)) =~= memory.insert(
        buffer,
        data.take(bytes as int),
    ));
}

/// An upload in flight has its entry: once the driver has accepted the
/// upload, its source is the last entry of the pending-copy table.
pub proof fn lemma_accepted_upload_is_staged(
    before: DeviceView,
    staged: Seq<Seq<u8>>,
    data: Seq<u8>,
    owner: usize,
    buffer: usize,
    bytes: usize,
    uploaded: DeviceView,
)
    requires
        before.queue.len() == 0,
        uploads(before, data, owner, buffer, bytes, uploaded, Ok(())),
    ensures
        uploaded.staged_after(staged, true) == staged.push(data),
        uploaded.completed(true) == before,
{
    assert(uploaded.queue.skip(1) =~= before.queue);
}

/// A rejected upload leaves no trace: once the driver has rejected the
/// upload, the pending-copy table and the device are as they were before
/// the upload was asked for.
pub proof fn lemma_rejected_upload_is_not_staged(
    before: DeviceView,
    staged: Seq<Seq<u8>>,
    data: Seq<u8>,
    owner: usize,
    buffer: usize,
    bytes: usize,
    uploaded: DeviceView,
)
    requires
        before.queue.len() == 0,
        uploads(before, data, owner, buffer, bytes, uploaded, Ok(())),
    ensures
        uploaded.staged_after(staged, false) == staged,
        uploaded.completed(false) == before,
{
    assert(uploaded.queue.skip(1) =~= before.queue);
}

/// Staging lifecycle: where the youngest queued command is a barrier, the
/// pending-copy table is empty and the queue is empty once every queued
/// command has ended successfully, however many uploads stand before the
/// barrier and whatever the table held.
pub proof fn lemma_barrier_releases_staging(device: DeviceView, staged: Seq<Seq<u8>>)
    requires
        device.queue.len() > 0,
        device.queue.last() is Finish,
    ensures
        drained(device, staged).1 == Seq::<Seq<u8>>::empty(),
        drained(device, staged).0.queue.len() == 0,
    decreases device.queue.len(),
{
    let next = device.completed(true);
    let kept = device.staged_after(staged, true);
    if device.queue.len() == 1 {
        assert(device.queue.skip(1).len() == 0);
        assert(drained(next, kept) == (next, kept));
    } else {
        assert(next.queue.last() == device.queue.last());
        lemma_barrier_releases_staging(next, kept);
    }
}

/// A buffer of another device is refused: a device holds no buffer that
/// carries another context than its own, whatever its handle and size.
pub proof fn lemma_foreign_buffer_is_not_held(
    device: DeviceView,
    owner: usize,
    buffer: usize,
    bytes: usize,
)
    requires
        owner != device.context,
    ensures
        !device.holds(owner, buffer, bytes),
        forall|program: usize| !device.runs(owner, program),
{
}

} // verus!
