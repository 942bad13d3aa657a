//! The device capability set: errors, the commands a device enqueues, the
//! table of staged uploads, and the traits a backend implements.

use crate::codegen::linearizer::{kernel_name, lowered, Linearizer, LinearizerOptions, UOp};
use crate::dtype::Dtype;
use crate::ops::LazyOp;
use crate::renderer::cstyle::{cstyle_source, uops_to_cstyle, Renderer};
use vstd::prelude::*;

pub mod opencl;
pub mod order;

verus! {

/// Why a device operation failed.
#[derive(Debug, PartialEq, Eq)]
pub enum DeviceError {
    /// No compatible accelerator was found, or the driver refused to bring
    /// the device up.
    Initialization,
    /// The driver rejected kernel source. Carries the driver's diagnostic,
    /// unchanged.
    Compile(String),
    /// A launch or an allocation with invalid parameters.
    Enqueue,
    /// A copy between host and device that was rejected.
    Transfer,
}

/// One argument bound to a kernel at launch.
#[derive(Debug, Clone, Copy, PartialEq, Eq, Structural)]
pub enum KernelArg {
    /// A device buffer, by its handle.
    Buffer(usize),
    /// A scalar integer.
    Scalar(isize),
}

/// One operation on a device's in-order queue.
#[derive(Debug, PartialEq, Eq)]
pub enum Command {
    /// Create the device memory behind a buffer handle.
    CreateBuffer { buffer: usize, bytes: usize },
    /// Release the device memory behind a buffer handle.
    ReleaseBuffer { buffer: usize },
    /// Compile `source` and look up the entry point `name` in it.
    BuildProgram { program: usize, name: String, source: String },
    /// Copy the first `bytes` bytes of `data` into the buffer, without
    /// blocking. The command keeps the source bytes until it ends.
    WriteBuffer { buffer: usize, bytes: usize, data: Vec<u8> },
    /// Copy the buffer's `bytes` bytes into host memory.
    ReadBuffer { buffer: usize, bytes: usize },
    /// Launch a kernel over an index space of one to three dimensions.
    Launch {
        program: usize,
        args: Vec<KernelArg>,
        global_size: Vec<usize>,
        local_size: Option<Vec<usize>>,
    },
    /// Wait until every earlier command has completed.
    Finish,
}

/// The mathematical content of a [`Command`].
pub enum CommandView {
    CreateBuffer { buffer: usize, bytes: usize },
    ReleaseBuffer { buffer: usize },
    BuildProgram { program: usize, name: Seq<char>, source: Seq<char> },
    WriteBuffer { buffer: usize, bytes: usize, data: Seq<u8> },
    ReadBuffer { buffer: usize, bytes: usize },
    Launch {
        program: usize,
        args: Seq<KernelArg>,
        global_size: Seq<usize>,
        local_size: Option<Seq<usize>>,
    },
    Finish,
}

impl View for Command {
    type V = CommandView;

    open spec fn view(&self) -> CommandView {
        match *self {
            Command::CreateBuffer { buffer, bytes } => CommandView::CreateBuffer { buffer, bytes },
            Command::ReleaseBuffer { buffer } => CommandView::ReleaseBuffer { buffer },
            Command::BuildProgram { program, name, source } => CommandView::BuildProgram {
                program,
                name: name@,
                source: source@,
            },
            Command::WriteBuffer { buffer, bytes, data } => CommandView::WriteBuffer {
                buffer,
                bytes,
                data: data@,
            },
            Command::ReadBuffer { buffer, bytes } => CommandView::ReadBuffer { buffer, bytes },
            Command::Launch { program, args, global_size, local_size } => CommandView::Launch {
                program,
                args: args@,
                global_size: global_size@,
                local_size: match local_size {
                    Some(sizes) => Some(sizes@),
                    None => None,
                },
            },
            Command::Finish => CommandView::Finish,
        }
    }
}

/// The contents of a queue of commands, oldest first.
pub open spec fn commands_view(queue: Seq<Command>) -> Seq<CommandView> {
    Seq::new(queue.len(), |i: int| queue[i]@)
}

/// How far a backend has come in bringing its accelerator up.
#[derive(Debug, Clone, Copy, PartialEq, Eq, Structural)]
pub enum DeviceState {
    Uninitialized,
    DeviceSelected,
    ContextCreated,
    QueueReady,
}

/// What a device knows of one buffer handle it has given out.
#[derive(Debug, Clone, Copy, PartialEq, Eq, Structural)]
pub struct Slot {
    /// The size of the buffer in bytes.
    pub bytes: usize,
    /// Whether the buffer has not been released yet.
    pub live: bool,
}

/// The mathematical content of a device: its lifecycle state, the
/// accelerator it selected, the context the driver created for it, the
/// buffers and programs it has given out, indexed by handle, and the
/// commands that were enqueued and have not completed yet, oldest first.
///
/// The context is the identity of the device: the buffers and programs a
/// device gives out carry it, and a device takes none that carry another.
pub struct DeviceView {
    pub state: DeviceState,
    pub device_id: usize,
    pub context: usize,
    pub buffers: Seq<Slot>,
    pub programs: Seq<bool>,
    pub queue: Seq<CommandView>,
}

/// No operation on a device changes how far the device has been brought
/// up: enqueueing, giving out or releasing a buffer, giving out a program
/// and the end of a command all leave the lifecycle state, the selected
/// accelerator and the context as they were.
pub proof fn lemma_work_keeps_the_state(
    device: DeviceView,
    command: CommandView,
    buffer: usize,
    bytes: usize,
    name: Seq<char>,
    source: Seq<char>,
    ok: bool,
)
    ensures
        device.enqueue(command).state == device.state,
        device.allocated(bytes).state == device.state,
        device.released(buffer).state == device.state,
        device.built(name, source).state == device.state,
        device.completed(ok).state == device.state,
        device.enqueue(command).device_id == device.device_id,
        device.allocated(bytes).device_id == device.device_id,
        device.released(buffer).device_id == device.device_id,
        device.built(name, source).device_id == device.device_id,
        device.completed(ok).device_id == device.device_id,
        device.enqueue(command).context == device.context,
        device.allocated(bytes).context == device.context,
        device.released(buffer).context == device.context,
        device.built(name, source).context == device.context,
        device.completed(ok).context == device.context,
{
}

/// Whether a launch geometry is acceptable: one to three dimensions, and a
/// local size, where one is given, of as many dimensions, none of them zero,
/// each dividing the global size of its dimension.
pub open spec fn valid_launch(global_size: Seq<usize>, local_size: Option<Seq<usize>>) -> bool {
    &&& 1 <= global_size.len() <= 3
    &&& local_size matches Some(local) ==> {
        &&& local.len() == global_size.len()
        &&& forall|d: int|
            0 <= d < local.len() ==> #[trigger] local[d] != 0 && (global_size[d] as int) % (
            local[d] as int) == 0
    }
}

/// The bytes a fresh host destination of `len` bytes holds: all zero.
pub open spec fn zeroed(len: nat) -> Seq<u8> {
    Seq::new(len, |i: int| 0u8)
}

/// Whether `error` is the error that a driver's rejection of `command` with
/// the text `diagnostic` is reported as: a rejected build is a compile error
/// that carries the diagnostic unchanged, a rejected copy is a transfer
/// error, and every other rejection is an enqueue error.
pub open spec fn reports_rejection(
    error: DeviceError,
    command: CommandView,
    diagnostic: Seq<char>,
) -> bool {
    match command {
        CommandView::BuildProgram { .. } => error matches DeviceError::Compile(text) && text@
            == diagnostic,
        CommandView::WriteBuffer { .. } | CommandView::ReadBuffer { .. } => error
            is Transfer,
        _ => error is Enqueue,
    }
}

impl DeviceView {
    /// Whether the device has reached the state in which it takes work.
    pub open spec fn ready(self) -> bool {
        self.state == DeviceState::QueueReady
    }

    /// Whether a buffer that carries the context `owner`, the handle
    /// `buffer` and the size `bytes` is one that this device gave out and
    /// has not released.
    pub open spec fn holds(self, owner: usize, buffer: usize, bytes: usize) -> bool {
        &&& owner == self.context
        &&& buffer < self.buffers.len()
        &&& self.buffers[buffer as int].live
        &&& self.buffers[buffer as int].bytes == bytes
    }

    /// Whether a program that carries the context `owner` and the handle
    /// `program` is one that this device built and that the driver has not
    /// rejected.
    pub open spec fn runs(self, owner: usize, program: usize) -> bool {
        &&& owner == self.context
        &&& program < self.programs.len()
        &&& self.programs[program as int]
    }

    /// The device with one more command at the back of its queue.
    pub open spec fn enqueue(self, command: CommandView) -> DeviceView {
        DeviceView { queue: self.queue.push(command), ..self }
    }

    /// The device after it gave out a buffer of `bytes` bytes.
    pub open spec fn allocated(self, bytes: usize) -> DeviceView {
        DeviceView {
            buffers: self.buffers.push(Slot { bytes, live: true }),
            ..self.enqueue(
                CommandView::CreateBuffer { buffer: self.buffers.len() as usize, bytes },
            )
        }
    }

    /// The device after it released the buffer `buffer`.
    pub open spec fn released(self, buffer: usize) -> DeviceView {
        DeviceView {
            buffers: self.buffers.update(
                buffer as int,
                Slot { live: false, ..self.buffers[buffer as int] },
            ),
            ..self.enqueue(CommandView::ReleaseBuffer { buffer })
        }
    }

    /// The device after it gave out a program for `source`.
    pub open spec fn built(self, name: Seq<char>, source: Seq<char>) -> DeviceView {
        DeviceView {
            programs: self.programs.push(true),
            ..self.enqueue(
                CommandView::BuildProgram {
                    program: self.programs.len() as usize,
                    name,
                    source,
                },
            )
        }
    }

    /// The device after the driver rejected `command`: a buffer that could
    /// not be created is not live, and a program that could not be built
    /// cannot be run.
    pub open spec fn without(self, command: CommandView) -> DeviceView {
        match command {
            CommandView::CreateBuffer { buffer, .. } if buffer < self.buffers.len() => DeviceView {
                buffers: self.buffers.update(
                    buffer as int,
                    Slot { live: false, ..self.buffers[buffer as int] },
                ),
                ..self
            },
            CommandView::BuildProgram { program, .. } if program < self.programs.len() => DeviceView {
                programs: self.programs.update(program as int, false),
                ..self
            },
            _ => self,
        }
    }

    /// The device after its oldest command ended, successfully or not.
    pub open spec fn completed(self, ok: bool) -> DeviceView {
        if self.queue.len() == 0 {
            self
        } else {
            let rest = DeviceView { queue: self.queue.skip(1), ..self };
            if ok {
                rest
            } else {
                rest.without(self.queue[0])
            }
        }
    }

    /// The pending-copy table after the oldest command ended.
    ///
    /// An upload that the driver accepted is in flight: its source bytes
    /// become the last entry of the table. A barrier that ended
    /// successfully confirms that every upload in flight has been
    /// consumed: the table is emptied. Nothing else touches the table; in
    /// particular a rejected upload leaves it as it was.
    pub open spec fn staged_after(self, staged: Seq<Seq<u8>>, ok: bool) -> Seq<Seq<u8>> {
        if self.queue.len() == 0 || !ok {
            staged
        } else {
            match self.queue[0] {
                CommandView::WriteBuffer { data, .. } => staged.push(data),
                CommandView::Finish => Seq::empty(),
                _ => staged,
            }
        }
    }
}

/// Host byte buffers of uploads that are in flight, one per upload, in the
/// order the driver accepted them.
///
/// An entry is made when the driver has accepted the upload, and kept until
/// the device confirms that the transfer reading from it has completed.
#[derive(Debug)]
pub struct PendingCopy(Vec<Vec<u8>>);

impl Default for PendingCopy {
    /// An empty table.
    fn default() -> (table: PendingCopy)
        ensures
            table@ == Seq::<Seq<u8>>::empty(),
    {
        PendingCopy::new()
    }
}

impl View for PendingCopy {
    type V = Seq<Seq<u8>>;

    closed spec fn view(&self) -> Seq<Seq<u8>> {
        Seq::new(self.0@.len(), |i: int| self.0@[i]@)
    }
}

impl PendingCopy {
    /// An empty table.
    pub fn new() -> (table: PendingCopy)
        ensures
            table@ == Seq::<Seq<u8>>::empty(),
    {
        PendingCopy(Vec::new())
    }

    /// The number of staged uploads.
    pub fn len(&self) -> (n: usize)
        ensures
            n == self@.len(),
    {
        self.0.len()
    }

    /// Whether no upload is staged.
    pub fn is_empty(&self) -> (empty: bool)
        ensures
            empty <==> self@.len() == 0,
    {
        self.0.len() == 0
    }

    /// Stages the bytes of one upload and returns the index they are kept at.
    pub fn push(&mut self, bytes: Vec<u8>) -> (index: usize)
        ensures
            final(self)@ == old(self)@.push(bytes@),
            index == old(self)@.len(),
    {
        let index = self.0.len();
        self.0.push(bytes);
        assert(self@ =~= old(self)@.push(bytes@));
        index
    }

    /// The bytes staged at `index`.
    pub fn get(&self, index: usize) -> (bytes: &Vec<u8>)
        requires
            index < self@.len(),
        ensures
            bytes@ == self@[index as int],
    {
        &self.0[index]
    }

    /// Releases every staged upload.
    pub fn clear(&mut self)
        ensures
            final(self)@ == Seq::<Seq<u8>>::empty(),
    {
        self.0.clear();
        assert(self@ =~= Seq::<Seq<u8>>::empty());
    }
}

/// The launch geometry a caller may leave out, as a sequence where it is
/// given.
pub open spec fn sizes_view(sizes: Option<&[usize]>) -> Option<Seq<usize>> {
    match sizes {
        Some(sizes) => Some(sizes@),
        None => None,
    }
}

/// The arguments a launch binds: every buffer, in the order supplied, and
/// after them every scalar, in the order supplied.
pub open spec fn launch_args<B: Buffer>(bufs: Seq<B>, args: Seq<isize>) -> Seq<KernelArg> {
    Seq::new(bufs.len(), |i: int| KernelArg::Buffer(bufs[i].handle())) + Seq::new(
        args.len(),
        |i: int| KernelArg::Scalar(args[i]),
    )
}

/// Whether `device` holds every buffer of `bufs`.
pub open spec fn holds_all<B: Buffer>(device: DeviceView, bufs: Seq<B>) -> bool {
    forall|i: int|
        0 <= i < bufs.len() ==> device.holds(
            (#[trigger] bufs[i]).owner(),
            bufs[i].handle(),
            bufs[i].bytes(),
        )
}

/// A handle to a contiguous region of accelerator memory.
pub trait Buffer: Sized {
    /// The device this buffer's memory lives on.
    type Dev;

    /// The state of a device of that kind.
    spec fn device_view(device: &Self::Dev) -> DeviceView;

    /// The context of the device that gave the buffer out.
    spec fn owner(&self) -> usize;

    /// The handle the owning device knows the memory by.
    spec fn handle(&self) -> usize;

    /// The type of the elements.
    spec fn element_type(&self) -> Dtype;

    /// The number of elements.
    spec fn elements(&self) -> usize;

    /// The size in bytes.
    spec fn bytes(&self) -> usize;

    /// The handle the owning device knows the memory by.
    fn ptr(&self) -> (handle: usize)
        ensures
            handle == self.handle(),
    ;

    /// The type of the elements.
    fn dtype(&self) -> (dtype: Dtype)
        ensures
            dtype == self.element_type(),
    ;

    /// The size in bytes: the number of elements times the width of one.
    fn size(&self) -> (bytes: usize)
        ensures
            bytes == self.bytes(),
            bytes == self.elements() * self.element_type().byte_size(),
    ;

    /// Enqueues a read of the whole buffer followed by a barrier, and
    /// returns the zero-filled host destination that the read will fill.
    ///
    /// Because the read and the barrier go to the back of the in-order
    /// queue, the bytes delivered reflect every write enqueued before.
    /// Fails with `Initialization` on a device that is not ready, and with
    /// `Transfer` where the device does not hold the buffer, as when
    /// another device gave it out; nothing is enqueued then.
    fn to_cpu(&self, device: &mut Self::Dev) -> (out: Result<Vec<u8>, DeviceError>)
        ensures
            match out {
                Ok(host) => {
                    &&& Self::device_view(old(device)).ready()
                    &&& Self::device_view(old(device)).holds(
                        self.owner(),
                        self.handle(),
                        self.bytes(),
                    )
                    &&& host@ == zeroed(self.bytes() as nat)
                    &&& Self::device_view(final(device)) == Self::device_view(old(device)).enqueue(
                        CommandView::ReadBuffer { buffer: self.handle(), bytes: self.bytes() },
                    ).enqueue(CommandView::Finish)
                },
                Err(error) => {
                    &&& Self::device_view(final(device)) == Self::device_view(old(device))
                    &&& if Self::device_view(old(device)).ready() {
                        error is Transfer && !Self::device_view(old(device)).holds(
                        self.owner(),
                        self.handle(),
                        self.bytes(),
                    )
                    } else {
                        error is Initialization
                    }
                },
            },
    ;

    /// Enqueues an upload of `data` into the buffer without blocking. The
    /// command keeps `data` until it ends.
    ///
    /// Fails with `Initialization` on a device that is not ready, and with
    /// `Transfer` where the device does not hold the buffer or `data` is
    /// shorter than the buffer; nothing is enqueued then.
    fn from_cpu(&mut self, device: &mut Self::Dev, data: Vec<u8>) -> (out: Result<(), DeviceError>)
        ensures
            final(self).owner() == old(self).owner(),
            final(self).handle() == old(self).handle(),
            final(self).bytes() == old(self).bytes(),
            final(self).elements() == old(self).elements(),
            final(self).element_type() == old(self).element_type(),
            uploads(
                Self::device_view(old(device)),
                data@,
                old(self).owner(),
                old(self).handle(),
                old(self).bytes(),
                Self::device_view(final(device)),
                out,
            ),
    ;
}

/// What an upload of `data` into the buffer of the context `owner`, the
/// handle `buffer` and the size `bytes` does to a device, and what it
/// returns.
pub open spec fn uploads(
    before: DeviceView,
    data: Seq<u8>,
    owner: usize,
    buffer: usize,
    bytes: usize,
    after: DeviceView,
    out: Result<(), DeviceError>,
) -> bool {
    match out {
        Ok(()) => {
            &&& before.ready()
            &&& before.holds(owner, buffer, bytes)
            &&& bytes <= data.len()
            &&& after == before.enqueue(CommandView::WriteBuffer { buffer, bytes, data })
        },
        Err(error) => {
            &&& after == before
            &&& if before.ready() {
                error is Transfer && !(before.holds(owner, buffer, bytes) && bytes <= data.len())
            } else {
                error is Initialization
            }
        },
    }
}

/// A compiled, launchable kernel bound to one device.
pub trait Program: Sized {
    /// The device the kernel was built for.
    type Dev: Device;

    /// The handle the owning device knows the program by.
    spec fn handle(&self) -> usize;

    /// The context of the device that built the program.
    spec fn owner(&self) -> usize;

    /// Enqueues one launch of the kernel and does not block.
    ///
    /// The kernel's arguments are the buffers, in the order supplied, and
    /// after them the scalars of `args`, in the order supplied. `extra` is
    /// reserved and not used.
    ///
    /// Fails with `Initialization` on a device that is not ready, and with
    /// `Enqueue` where the program is not one that `device` can run, where
    /// `device` does not hold one of the buffers, as when another device
    /// gave it out, or where the geometry is not a valid launch. Nothing is enqueued then: there is no partial
    /// launch.
    fn run(
        &self,
        device: &mut Self::Dev,
        bufs: &[<Self::Dev as Device>::Buf],
        global_size: &[usize],
        local_size: Option<&[usize]>,
        args: &[isize],
        extra: &[String],
    ) -> (out: Result<(), DeviceError>)
        ensures
            match out {
                Ok(()) => {
                    &&& old(device)@.ready()
                    &&& old(device)@.runs(self.owner(), self.handle())
                    &&& holds_all(old(device)@, bufs@)
                    &&& valid_launch(global_size@, sizes_view(local_size))
                    &&& final(device)@ == old(device)@.enqueue(
                        CommandView::Launch {
                            program: self.handle(),
                            args: launch_args(bufs@, args@),
                            global_size: global_size@,
                            local_size: sizes_view(local_size),
                        },
                    )
                },
                Err(error) => {
                    &&& final(device)@ == old(device)@
                    &&& if old(device)@.ready() {
                        &&& error is Enqueue
                        &&& !{
                            &&& old(device)@.runs(self.owner(), self.handle())
                            &&& holds_all(old(device)@, bufs@)
                            &&& valid_launch(global_size@, sizes_view(local_size))
                        }
                    } else {
                        error is Initialization
                    }
                },
            },
    ;
}

/// The capability set of an accelerator: allocate buffers, build programs,
/// move bytes between host and device, and wait for outstanding work.
///
/// Every operation that reaches the accelerator is an enqueue: it goes to
/// the back of the device's one in-order queue and does not block.
pub trait Device: Sized + View<V = DeviceView> {
    /// The buffers this device gives out.
    type Buf: Buffer;

    /// The programs this device builds.
    type Prog;

    /// The rendering configuration of this device.
    type Rend: Renderer;

    /// The handle this device knows a program of its own by.
    spec fn program_handle(program: &Self::Prog) -> usize;

    /// The context of the device that built a program.
    spec fn program_owner(program: &Self::Prog) -> usize;

    /// Gives out a buffer of `size` elements of type `dtype`, which is
    /// `size` times the width of `dtype` in bytes.
    ///
    /// Fails with `Initialization` on a device that is not ready, and with
    /// `Enqueue` where the size in bytes does not fit the address space.
    /// Whether the accelerator has the memory is known when the command
    /// ends.
    fn allocate(&mut self, size: usize, dtype: Dtype) -> (out: Result<Self::Buf, DeviceError>)
        ensures
            match out {
                Ok(buffer) => {
                    &&& old(self)@.ready()
                    &&& size * dtype.byte_size() <= usize::MAX
                    &&& buffer.owner() == old(self)@.context
                    &&& buffer.handle() == old(self)@.buffers.len()
                    &&& buffer.elements() == size
                    &&& buffer.element_type() == dtype
                    &&& buffer.bytes() == size * dtype.byte_size()
                    &&& final(self)@ == old(self)@.allocated(buffer.bytes())
                },
                Err(error) => {
                    &&& final(self)@ == old(self)@
                    &&& if old(self)@.ready() {
                        error is Enqueue && size * dtype.byte_size() > usize::MAX
                    } else {
                        error is Initialization
                    }
                },
            },
    ;

    /// Releases a buffer that this device holds.
    ///
    /// Fails with `Initialization` on a device that is not ready, and with
    /// `Enqueue` where the device does not hold the buffer: a buffer is
    /// released once, and only by the device that gave it out.
    fn dealloc(&mut self, src: &Self::Buf) -> (out: Result<(), DeviceError>)
        ensures
            match out {
                Ok(()) => {
                    &&& old(self)@.ready()
                    &&& old(self)@.holds(src.owner(), src.handle(), src.bytes())
                    &&& final(self)@ == old(self)@.released(src.handle())
                },
                Err(error) => {
                    &&& final(self)@ == old(self)@
                    &&& if old(self)@.ready() {
                        error is Enqueue && !old(self)@.holds(src.owner(), src.handle(), src.bytes())
                    } else {
                        error is Initialization
                    }
                },
            },
    ;

    /// Enqueues the compilation of `program` under the entry point `name`
    /// and gives out the program.
    ///
    /// Fails with `Initialization` on a device that is not ready. Whether
    /// the driver accepts the source is known when the command ends.
    fn build(&mut self, name: &str, program: &str) -> (out: Result<Self::Prog, DeviceError>)
        ensures
            match out {
                Ok(built) => {
                    &&& old(self)@.ready()
                    &&& Self::program_handle(&built) == old(self)@.programs.len()
                    &&& Self::program_owner(&built) == old(self)@.context
                    &&& final(self)@ == old(self)@.built(name@, program@)
                },
                Err(error) => {
                    &&& final(self)@ == old(self)@
                    &&& !old(self)@.ready()
                    &&& error is Initialization
                },
            },
    ;

    /// Enqueues a read of the whole of `src` into the caller's `dst`.
    ///
    /// Fails with `Initialization` on a device that is not ready, and with
    /// `Transfer` where the device does not hold `src` or `dst` is shorter
    /// than `src`; nothing is enqueued then.
    fn copyout(&mut self, src: &Self::Buf, dst: &[u8]) -> (out: Result<(), DeviceError>)
        ensures
            match out {
                Ok(()) => {
                    &&& old(self)@.ready()
                    &&& old(self)@.holds(src.owner(), src.handle(), src.bytes())
                    &&& src.bytes() <= dst@.len()
                    &&& final(self)@ == old(self)@.enqueue(
                        CommandView::ReadBuffer { buffer: src.handle(), bytes: src.bytes() },
                    )
                },
                Err(error) => {
                    &&& final(self)@ == old(self)@
                    &&& if old(self)@.ready() {
                        error is Transfer && !(old(self)@.holds(src.owner(), src.handle(), src.bytes())
                            && src.bytes() <= dst@.len())
                    } else {
                        error is Initialization
                    }
                },
            },
    ;

    /// Enqueues an upload of the first bytes of `src` into the whole of
    /// `dst`. The command keeps `src` until it ends; `src` enters the
    /// pending-copy table when the driver has accepted the upload.
    ///
    /// Fails with `Initialization` on a device that is not ready, and with
    /// `Transfer` where the device does not hold `dst` or `src` is shorter
    /// than `dst`; nothing is enqueued then.
    fn copyin(&mut self, src: Vec<u8>, dst: &Self::Buf) -> (out: Result<(), DeviceError>)
        ensures
            uploads(old(self)@, src@, dst.owner(), dst.handle(), dst.bytes(), final(self)@, out),
    ;

    /// The options this device's kernels are compiled under.
    spec fn codegen_options(&self) -> LinearizerOptions;

    /// The rendering configuration of this device.
    spec fn rendering(&self) -> &Self::Rend;

    /// The options this device's kernels are compiled under.
    fn linearizer_opts(&self) -> (opts: LinearizerOptions)
        ensures
            opts == self.codegen_options(),
    ;

    /// The device's dialect and its lowering overrides.
    fn renderer(&self) -> (renderer: &Self::Rend)
        ensures
            renderer == self.rendering(),
    ;

    /// Starts the compilation of an operation graph under this device's
    /// options. Nothing is lowered yet.
    fn get_lin(&self, ast: LazyOp) -> (lin: Linearizer)
        ensures
            lin.graph() == ast,
            lin.options() == self.codegen_options(),
            lin.micro_ops() == Seq::<UOp>::empty(),
            lin.spec_name() == kernel_name(ast),
    {
        Linearizer::new(ast, Some(self.linearizer_opts()))
    }

    /// Lowers the graph of `lin`, unless that has been done, and renders
    /// the kernel in this device's dialect. Returns the kernel's name and
    /// its source text.
    fn render(&self, lin: Linearizer) -> (out: (String, String))
        ensures
            out.0@ == kernel_name(lin.graph()),
            out.1@ == cstyle_source(
                self.rendering(),
                kernel_name(lin.graph()),
                lowered(lin.graph(), lin.options()),
            ),
    {
        let mut lin = lin;
        lin.linearize();
        let source = uops_to_cstyle(self.renderer(), lin.name(), lin.uops());
        (lin.into_name(), source)
    }

    /// Enqueues a barrier: a command that ends when every command enqueued
    /// before it has completed. On a device that is not ready there is
    /// nothing to wait for, and nothing is enqueued.
    fn synchronize(&mut self)
        ensures
            final(self)@ == if old(self)@.ready() {
                old(self)@.enqueue(CommandView::Finish)
            } else {
                old(self)@
            },
    ;
}

} // verus!
