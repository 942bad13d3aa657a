//! The OpenCL-style backend: a device with one in-order queue, its buffers
//! and its programs.
//!
//! The backend decides and records; it never calls the driver. Bringing the
//! device up, and every command it enqueues, is carried out by an adapter
//! that asks [`CLDevice::request`] and [`CLDevice::next_command`] what to do
//! and reports back through [`CLDevice::advance`] and [`CLDevice::complete`].

use super::{
    commands_view, holds_all, launch_args, reports_rejection, sizes_view, uploads, valid_launch,
    zeroed, Buffer, Command, CommandView, Device, DeviceError, DeviceState, DeviceView, KernelArg,
    PendingCopy, Program, Slot,
};
use crate::codegen::linearizer::LinearizerOptions;
use crate::dtype::Dtype;
use crate::ops::Op;
use crate::renderer::cstyle::{texts, LanguageOpts, LanguageOptsView, Renderer};
use crate::text::{decimal, decimal_string};
use vstd::prelude::*;
use vstd::slice::slice_to_vec;
use vstd::string::*;

verus! {

/// What the adapter reports while the device is brought up.
#[derive(Debug, PartialEq, Eq)]
pub enum DriverEvent {
    /// The ids of the accelerators of the required class, in the driver's
    /// order.
    Devices(Vec<usize>),
    /// A context was created on the selected accelerator. `context` is the
    /// driver's handle of it, which no other context in the process has.
    ContextCreated { context: usize },
    /// The in-order command queue was created.
    QueueCreated,
    /// The driver refused the last request.
    Failed,
}

/// What the adapter is to ask of the driver next while the device is
/// brought up.
#[derive(Debug, Clone, Copy, PartialEq, Eq, Structural)]
pub enum DriverRequest {
    /// List the accelerators of the required class.
    EnumerateDevices,
    /// Create a context on the accelerator `device`.
    CreateContext { device: usize },
    /// Create the in-order command queue of the accelerator `device`.
    CreateQueue { device: usize },
    /// Nothing: the device is ready.
    Nothing,
}

/// The request that brings a device in the state `device` one step further.
pub open spec fn requested(device: DeviceView) -> DriverRequest {
    match device.state {
        DeviceState::Uninitialized => DriverRequest::EnumerateDevices,
        DeviceState::DeviceSelected => DriverRequest::CreateContext { device: device.device_id },
        DeviceState::ContextCreated => DriverRequest::CreateQueue { device: device.device_id },
        DeviceState::QueueReady => DriverRequest::Nothing,
    }
}

/// The device after the driver answered its request with `event`, where the
/// answer lets it go on: the first accelerator listed is selected, then the
/// context and then the queue are created, in that order, and the device
/// takes the handle of its context as its identity. Any other answer
/// leaves no successor.
pub open spec fn after_event(device: DeviceView, event: DriverEvent) -> Option<DeviceView> {
    match (device.state, event) {
        (DeviceState::Uninitialized, DriverEvent::Devices(ids)) => if ids@.len() > 0 {
            Some(DeviceView { state: DeviceState::DeviceSelected, device_id: ids@[0], ..device })
        } else {
            None
        },
        (DeviceState::DeviceSelected, DriverEvent::ContextCreated { context }) => Some(
            DeviceView { state: DeviceState::ContextCreated, context, ..device },
        ),
        (DeviceState::ContextCreated, DriverEvent::QueueCreated) => Some(
            DeviceView { state: DeviceState::QueueReady, ..device },
        ),
        _ => None,
    }
}

/// How many steps of bringing a device up lie behind a state.
pub open spec fn progress(state: DeviceState) -> nat {
    match state {
        DeviceState::Uninitialized => 0,
        DeviceState::DeviceSelected => 1,
        DeviceState::ContextCreated => 2,
        DeviceState::QueueReady => 3,
    }
}

/// An event takes a device exactly one step forward or leaves it where it
/// is, and a device that is ready stays ready whatever is reported.
pub proof fn lemma_device_never_regresses(device: DeviceView, event: DriverEvent)
    ensures
        after_event(device, event) matches Some(next) ==> progress(next.state) == progress(
            device.state,
        ) + 1,
        device.ready() ==> after_event(device, event) is None,
{
}

/// A buffer of an OpenCL-style device.
#[derive(Debug, Clone, Copy, PartialEq, Eq)]
pub struct CLBuffer {
    owner: usize,
    ptr: usize,
    size: usize,
    count: usize,
    dtype: Dtype,
}

impl CLBuffer {
    #[verifier::type_invariant]
    spec fn sized_by_elements(self) -> bool {
        self.size == self.count * self.dtype.byte_size()
    }
}

/// A kernel built for an OpenCL-style device.
#[derive(Debug, PartialEq, Eq)]
pub struct CLProgram {
    name: String,
    program: usize,
    owner: usize,
}

impl CLProgram {
    /// The entry point the program was built under.
    pub closed spec fn spec_name(&self) -> Seq<char> {
        self.name@
    }

    /// The handle the owning device knows the program by.
    pub closed spec fn spec_id(&self) -> usize {
        self.program
    }

    /// The context of the device that built the program.
    pub closed spec fn spec_owner(&self) -> usize {
        self.owner
    }

    /// The entry point the program was built under.
    pub fn name(&self) -> (name: &str)
        ensures
            name@ == self.spec_name(),
    {
        self.name.as_str()
    }

    /// The handle the owning device knows the program by.
    pub fn id(&self) -> (handle: usize)
        ensures
            handle == self.spec_id(),
    {
        self.program
    }
}

/// The accessors of an id in the three dimensions: `name`, and the
/// dimension in round brackets.
pub open spec fn id_accessors(name: Seq<char>) -> Seq<Seq<char>> {
    Seq::new(3, |dim: int| name + "("@ + decimal(dim as nat) + ")"@)
}

/// The OpenCL dialect.
pub open spec fn opencl_language() -> LanguageOptsView {
    LanguageOptsView {
        kernel_prefix: "__kernel "@,
        buffer_prefix: "__global "@,
        smem_align: "__attribute__ ((aligned (16))) "@,
        smem_prefix: "__local "@,
        arg_int_prefix: "const int"@,
        half_prekernel: Some("#pragma OPENCL EXTENSION cl_khr_fp16 : enable"@),
        barrier: "barrier(CLK_LOCAL_MEM_FENCE);"@,
        float4: Some("(float4)"@),
        gid: id_accessors("get_group_id"@),
        lid: id_accessors("get_local_id"@),
        uses_vload: true,
    }
}

/// Writes the accessors of an id in the three dimensions.
fn accessors(name: &str) -> (ids: Vec<String>)
    ensures
        texts(ids@) == id_accessors(name@),
{
    let mut ids: Vec<String> = Vec::new();
    let mut dim: usize = 0;
    while dim < 3
        invariant
            dim <= 3,
            ids@.len() == dim,
            forall|d: int|
                0 <= d < dim ==> (#[trigger] ids@[d])@ == name@ + "("@ + decimal(d as nat) + ")"@,
        decreases 3 - dim,
    {
        let digits = decimal_string(dim as u64);
        ids.push(String::from_str(name).concat("(").concat(digits.as_str()).concat(")"));
        dim += 1;
    }
    assert(texts(ids@) =~= id_accessors(name@));
    ids
}

/// The rendering configuration of the OpenCL backend.
#[derive(Debug)]
pub struct CLRenderer {
    opts: LanguageOpts,
}

impl CLRenderer {
    #[verifier::type_invariant]
    spec fn speaks_opencl(self) -> bool {
        self.opts@ == opencl_language()
    }
}

impl Default for CLRenderer {
    /// The renderer of the OpenCL dialect.
    fn default() -> (renderer: CLRenderer)
        ensures
            renderer.language() == opencl_language(),
    {
        CLRenderer {
            opts: LanguageOpts {
                kernel_prefix: String::from_str("__kernel "),
                buffer_prefix: String::from_str("__global "),
                smem_align: String::from_str("__attribute__ ((aligned (16))) "),
                smem_prefix: String::from_str("__local "),
                arg_int_prefix: String::from_str("const int"),
                half_prekernel: Some(
                    String::from_str("#pragma OPENCL EXTENSION cl_khr_fp16 : enable"),
                ),
                barrier: String::from_str("barrier(CLK_LOCAL_MEM_FENCE);"),
                float4: Some(String::from_str("(float4)")),
                gid: accessors("get_group_id"),
                lid: accessors("get_local_id"),
                uses_vload: true,
            },
        }
    }
}

impl Op for CLRenderer {
    /// The native fused multiply-add: `mad(a, b, c)`.
    open spec fn mulacc_text(&self, a: Seq<char>, b: Seq<char>, c: Seq<char>) -> Seq<char> {
        "mad("@ + a + ", "@ + b + ", "@ + c + ")"@
    }

    fn mulacc(&self, a: &str, b: &str, c: &str) -> (text: String) {
        String::from_str("mad(").concat(a).concat(", ").concat(b).concat(", ").concat(c).concat(")")
    }
}

impl Renderer for CLRenderer {
    closed spec fn language(&self) -> LanguageOptsView {
        self.opts@
    }

    fn lang_opts(&self) -> (opts: &LanguageOpts)
        ensures
            opts@ == opencl_language(),
    {
        proof {
            use_type_invariant(self);
        }
        &self.opts
    }
}

/// An accelerator with one in-order command queue.
#[derive(Debug)]
pub struct CLDevice {
    state: DeviceState,
    device_id: usize,
    context: usize,
    buffers: Vec<Slot>,
    programs: Vec<bool>,
    queue: Vec<Command>,
    renderer: CLRenderer,
}

impl View for CLDevice {
    type V = DeviceView;

    closed spec fn view(&self) -> DeviceView {
        DeviceView {
            state: self.state,
            device_id: self.device_id,
            context: self.context,
            buffers: self.buffers@,
            programs: self.programs@,
            queue: commands_view(self.queue@),
        }
    }
}

/// Appending a command to a queue appends its content to the queue's
/// content.
proof fn lemma_commands_push(queue: Seq<Command>, command: Command)
    ensures
        commands_view(queue.push(command)) == commands_view(queue).push(command@),
{
    assert(commands_view(queue.push(command)) =~= commands_view(queue).push(command@));
}

/// Removing the oldest command of a queue removes the first entry of the
/// queue's content.
proof fn lemma_commands_pop(queue: Seq<Command>)
    requires
        queue.len() > 0,
    ensures
        commands_view(queue.remove(0)) == commands_view(queue).skip(1),
{
    assert(commands_view(queue.remove(0)) =~= commands_view(queue).skip(1));
}

impl CLDevice {
    /// A device on which nothing has been selected or created yet.
    pub fn new() -> (device: CLDevice)
        ensures
            device@ == (DeviceView {
                state: DeviceState::Uninitialized,
                device_id: 0,
                context: 0,
                buffers: Seq::empty(),
                programs: Seq::empty(),
                queue: Seq::empty(),
            }),
    {
        let device = CLDevice {
            state: DeviceState::Uninitialized,
            device_id: 0,
            context: 0,
            buffers: Vec::new(),
            programs: Vec::new(),
            queue: Vec::new(),
            renderer: CLRenderer::default(),
        };
        assert(device@.queue =~= Seq::empty());
        device
    }

    /// What to ask of the driver to bring the device one step further.
    pub fn request(&self) -> (request: DriverRequest)
        ensures
            request == requested(self@),
    {
        match self.state {
            DeviceState::Uninitialized => DriverRequest::EnumerateDevices,
            DeviceState::DeviceSelected => DriverRequest::CreateContext { device: self.device_id },
            DeviceState::ContextCreated => DriverRequest::CreateQueue { device: self.device_id },
            DeviceState::QueueReady => DriverRequest::Nothing,
        }
    }

    /// Takes the driver's answer to the last request.
    ///
    /// The device goes one step forward where the answer is the one its
    /// state waits for: the list of accelerators, of which the first is
    /// selected, then the context, whose handle the device takes as its
    /// identity, then the queue. Every other answer, an empty list among
    /// them, fails with `Initialization` and leaves the device as it was.
    pub fn advance(&mut self, event: DriverEvent) -> (out: Result<(), DeviceError>)
        ensures
            match after_event(old(self)@, event) {
                Some(next) => out is Ok && final(self)@ == next,
                None => out matches Err(error) && error is Initialization && final(self)@
                    == old(self)@,
            },
    {
        match (self.state, event) {
            (DeviceState::Uninitialized, DriverEvent::Devices(ids)) => {
                if ids.len() > 0 {
                    self.device_id = ids[0];
                    self.state = DeviceState::DeviceSelected;
                    Ok(())
                } else {
                    Err(DeviceError::Initialization)
                }
            },
            (DeviceState::DeviceSelected, DriverEvent::ContextCreated { context }) => {
                self.context = context;
                self.state = DeviceState::ContextCreated;
                Ok(())
            },
            (DeviceState::ContextCreated, DriverEvent::QueueCreated) => {
                self.state = DeviceState::QueueReady;
                Ok(())
            },
            _ => Err(DeviceError::Initialization),
        }
    }

    /// How far the device has been brought up.
    pub fn state(&self) -> (state: DeviceState)
        ensures
            state == self@.state,
    {
        self.state
    }

    /// The id of the selected accelerator.
    pub fn device_id(&self) -> (id: usize)
        ensures
            id == self@.device_id,
    {
        self.device_id
    }

    /// The driver's handle of the device's context: the identity that the
    /// device's buffers and programs carry.
    pub fn context(&self) -> (context: usize)
        ensures
            context == self@.context,
    {
        self.context
    }

    /// Whether the device takes work.
    pub fn is_ready(&self) -> (ready: bool)
        ensures
            ready == self@.ready(),
    {
        match self.state {
            DeviceState::QueueReady => true,
            _ => false,
        }
    }

    /// Whether the device holds the buffer: the buffer carries the
    /// device's context, the device gave out its handle with this size, and
    /// has not released it.
    pub fn holds(&self, buffer: &CLBuffer) -> (held: bool)
        ensures
            held == self@.holds(buffer.owner(), buffer.handle(), buffer.bytes()),
    {
        self.holds_slot(buffer.owner, buffer.ptr, buffer.size)
    }

    /// Whether the device can run the program: the program carries the
    /// device's context, the device built it, and the driver has not
    /// rejected it.
    pub fn runs(&self, program: &CLProgram) -> (usable: bool)
        ensures
            usable == self@.runs(program.spec_owner(), program.spec_id()),
    {
        program.owner == self.context && program.program < self.programs.len()
            && self.programs[program.program]
    }

    /// The number of commands that were enqueued and have not ended.
    pub fn queued(&self) -> (n: usize)
        ensures
            n == self@.queue.len(),
    {
        self.queue.len()
    }

    /// The oldest command that has not ended: the one the adapter is to
    /// perform next.
    pub fn next_command(&self) -> (next: Option<&Command>)
        ensures
            match next {
                Some(command) => self@.queue.len() > 0 && command@ == self@.queue[0],
                None => self@.queue.len() == 0,
            },
    {
        if self.queue.len() > 0 {
            Some(&self.queue[0])
        } else {
            None
        }
    }
}

impl Buffer for CLBuffer {
    type Dev = CLDevice;

    open spec fn device_view(device: &CLDevice) -> DeviceView {
        device@
    }

    closed spec fn owner(&self) -> usize {
        self.owner
    }

    closed spec fn handle(&self) -> usize {
        self.ptr
    }

    closed spec fn element_type(&self) -> Dtype {
        self.dtype
    }

    closed spec fn elements(&self) -> usize {
        self.count
    }

    closed spec fn bytes(&self) -> usize {
        self.size
    }

    fn ptr(&self) -> (handle: usize) {
        self.ptr
    }

    fn dtype(&self) -> (dtype: Dtype) {
        self.dtype
    }

    fn size(&self) -> (bytes: usize) {
        proof {
            use_type_invariant(self);
        }
        self.size
    }

    fn to_cpu(&self, device: &mut CLDevice) -> (out: Result<Vec<u8>, DeviceError>) {
        let host = vec![0u8; self.size];
        match device.read(self.owner, self.ptr, self.size, host.len()) {
            Ok(()) => {
                device.barrier();
                assert(host@ =~= zeroed(self.size as nat));
                Ok(host)
            },
            Err(error) => Err(error),
        }
    }

    fn from_cpu(&mut self, device: &mut CLDevice, data: Vec<u8>) -> (out: Result<(), DeviceError>) {
        device.write(data, self.owner, self.ptr, self.size)
    }
}

impl Program for CLProgram {
    type Dev = CLDevice;

    open spec fn handle(&self) -> usize {
        self.spec_id()
    }

    open spec fn owner(&self) -> usize {
        self.spec_owner()
    }

    fn run(
        &self,
        device: &mut CLDevice,
        bufs: &[CLBuffer],
        global_size: &[usize],
        local_size: Option<&[usize]>,
        args: &[isize],
        extra: &[String],
    ) -> (out: Result<(), DeviceError>) {
        if !device.is_ready() {
            return Err(DeviceError::Initialization);
        }
        if !(device.runs(self) && device.holds_every(bufs) && check_geometry(
            global_size,
            local_size,
        )) {
            return Err(DeviceError::Enqueue);
        }
        let local = match local_size {
            Some(sizes) => Some(slice_to_vec(sizes)),
            None => None,
        };
        let command = Command::Launch {
            program: self.program,
            args: bind_args(bufs, args),
            global_size: slice_to_vec(global_size),
            local_size: local,
        };
        device.enqueue(command);
        Ok(())
    }
}

/// Decides whether a launch geometry is acceptable.
pub fn check_geometry(global_size: &[usize], local_size: Option<&[usize]>) -> (ok: bool)
    ensures
        ok == valid_launch(global_size@, sizes_view(local_size)),
{
    if global_size.len() < 1 || global_size.len() > 3 {
        return false;
    }
    match local_size {
        None => true,
        Some(local) => {
            if local.len() != global_size.len() {
                return false;
            }
            let mut d: usize = 0;
            while d < local.len()
                invariant
                    d <= local.len(),
                    local.len() == global_size.len(),
                    1 <= global_size.len() <= 3,
                    sizes_view(local_size) == Some(local@),
                    forall|k: int|
                        0 <= k < d ==> #[trigger] local@[k] != 0 && (global_size@[k] as int) % (
                        local@[k] as int) == 0,
                decreases local.len() - d,
            {
                if local[d] == 0 || global_size[d] % local[d] != 0 {
                    assert(!(local@[d as int] != 0 && (global_size@[d as int] as int) % (
                    local@[d as int] as int) == 0));
                    return false;
                }
                d += 1;
            }
            true
        },
    }
}

/// Lists the arguments of a launch: the buffers first, then the scalars.
pub fn bind_args(bufs: &[CLBuffer], args: &[isize]) -> (bound: Vec<KernelArg>)
    ensures
        bound@ == launch_args(bufs@, args@),
{
    let mut bound: Vec<KernelArg> = Vec::new();
    let mut i: usize = 0;
    while i < bufs.len()
        invariant
            i <= bufs.len(),
            bound@ == Seq::new(i as nat, |k: int| KernelArg::Buffer(bufs@[k].handle())),
        decreases bufs.len() - i,
    {
        bound.push(KernelArg::Buffer(bufs[i].ptr));
        assert(bound@ =~= Seq::new((i + 1) as nat, |k: int| KernelArg::Buffer(bufs@[k].handle())));
        i += 1;
    }
    let mut j: usize = 0;
    while j < args.len()
        invariant
            j <= args.len(),
            bound@ == Seq::new(bufs@.len(), |k: int| KernelArg::Buffer(bufs@[k].handle()))
                + Seq::new(j as nat, |k: int| KernelArg::Scalar(args@[k])),
        decreases args.len() - j,
    {
        bound.push(KernelArg::Scalar(args[j]));
        assert(bound@ =~= Seq::new(bufs@.len(), |k: int| KernelArg::Buffer(bufs@[k].handle()))
            + Seq::new((j + 1) as nat, |k: int| KernelArg::Scalar(args@[k])));
        j += 1;
    }
    bound
}

impl CLDevice {
    /// Whether the device holds every buffer of `bufs`.
    pub fn holds_every(&self, bufs: &[CLBuffer]) -> (held: bool)
        ensures
            held == holds_all(self@, bufs@),
    {
        let mut i: usize = 0;
        while i < bufs.len()
            invariant
                i <= bufs.len(),
                forall|k: int|
                    0 <= k < i ==> self@.holds(
                        (#[trigger] bufs@[k]).owner(),
                        bufs@[k].handle(),
                        bufs@[k].bytes(),
                    ),
            decreases bufs.len() - i,
        {
            if !self.holds(&bufs[i]) {
                return false;
            }
            i += 1;
        }
        true
    }

    /// Puts a command at the back of the queue.
    fn enqueue(&mut self, command: Command)
        ensures
            final(self)@ == old(self)@.enqueue(command@),
    {
        proof {
            lemma_commands_push(self.queue@, command);
        }
        self.queue.push(command);
    }

    /// Whether a buffer of the context `owner`, the handle `buffer` and
    /// the size `bytes` is a live buffer of this device.
    fn holds_slot(&self, owner: usize, buffer: usize, bytes: usize) -> (held: bool)
        ensures
            held == self@.holds(owner, buffer, bytes),
    {
        owner == self.context && buffer < self.buffers.len() && self.buffers[buffer].live
            && self.buffers[buffer].bytes == bytes
    }

    /// Enqueues a read of the buffer of the context `owner`, the handle
    /// `buffer` and the size `bytes` into a host destination with room for
    /// `room` bytes.
    fn read(&mut self, owner: usize, buffer: usize, bytes: usize, room: usize) -> (out: Result<
        (),
        DeviceError,
    >)
        ensures
            match out {
                Ok(()) => {
                    &&& old(self)@.ready()
                    &&& old(self)@.holds(owner, buffer, bytes)
                    &&& bytes <= room
                    &&& final(self)@ == old(self)@.enqueue(
                        CommandView::ReadBuffer { buffer, bytes },
                    )
                },
                Err(error) => {
                    &&& final(self)@ == old(self)@
                    &&& if old(self)@.ready() {
                        error is Transfer && !(old(self)@.holds(owner, buffer, bytes) && bytes
                            <= room)
                    } else {
                        error is Initialization
                    }
                },
            },
    {
        if !self.is_ready() {
            return Err(DeviceError::Initialization);
        }
        if !(self.holds_slot(owner, buffer, bytes) && bytes <= room) {
            return Err(DeviceError::Transfer);
        }
        self.enqueue(Command::ReadBuffer { buffer, bytes });
        Ok(())
    }

    /// Enqueues an upload of the first `bytes` bytes of `src` into the
    /// buffer of the context `owner`, the handle `buffer` and the size
    /// `bytes`.
    fn write(&mut self, src: Vec<u8>, owner: usize, buffer: usize, bytes: usize) -> (out: Result<
        (),
        DeviceError,
    >)
        ensures
            uploads(old(self)@, src@, owner, buffer, bytes, final(self)@, out),
    {
        if !self.is_ready() {
            return Err(DeviceError::Initialization);
        }
        if !(self.holds_slot(owner, buffer, bytes) && bytes <= src.len()) {
            return Err(DeviceError::Transfer);
        }
        self.enqueue(Command::WriteBuffer { buffer, bytes, data: src });
        Ok(())
    }

    /// Enqueues a barrier where the device is ready.
    fn barrier(&mut self)
        ensures
            final(self)@ == if old(self)@.ready() {
                old(self)@.enqueue(CommandView::Finish)
            } else {
                old(self)@
            },
    {
        if self.is_ready() {
            self.enqueue(Command::Finish);
        }
    }

    /// Takes the outcome of the oldest command, which the adapter has just
    /// performed, and removes the command from the queue.
    ///
    /// A command that the driver rejected, with the text in `outcome`, is
    /// reported as the error of its kind: a compile error that carries the
    /// text unchanged for a build, a transfer error for a copy, an enqueue
    /// error for anything else. A buffer whose creation was rejected is no
    /// longer held, and a program whose build was rejected cannot be run.
    ///
    /// The pending-copy table holds the uploads in flight. An upload that
    /// the driver accepted enters it: the source bytes move from the
    /// command to the end of the table. An upload that the driver rejected
    /// does not: the table is as it was before the upload was asked for. A
    /// barrier that ended successfully confirms that every upload in flight
    /// was consumed: the table is emptied. No other command, and no other
    /// rejection, touches the table.
    ///
    /// With an empty queue there is nothing to take an outcome of: nothing
    /// changes and the result is `Ok`.
    pub fn complete(&mut self, pending: &mut PendingCopy, outcome: Result<(), String>) -> (out:
        Result<(), DeviceError>)
        ensures
            final(self)@ == old(self)@.completed(outcome is Ok),
            final(pending)@ == old(self)@.staged_after(old(pending)@, outcome is Ok),
            match outcome {
                Ok(()) => out is Ok,
                Err(diagnostic) => if old(self)@.queue.len() == 0 {
                    out is Ok
                } else {
                    out matches Err(error) && reports_rejection(
                        error,
                        old(self)@.queue[0],
                        diagnostic@,
                    )
                },
            },
    {
        if self.queue.len() == 0 {
            return Ok(());
        }
        proof {
            lemma_commands_pop(self.queue@);
        }
        let command = self.queue.remove(0);
        match outcome {
            Ok(()) => {
                match command {
                    Command::WriteBuffer { buffer, bytes, data } => {
                        pending.push(data);
                    },
                    Command::Finish => {
                        pending.clear();
                    },
                    _ => {},
                }
                Ok(())
            },
            Err(diagnostic) => {
                match command {
                    Command::CreateBuffer { buffer, bytes } => {
                        if buffer < self.buffers.len() {
                            let slot = self.buffers[buffer];
                            self.buffers.set(buffer, Slot { live: false, bytes: slot.bytes });
                        }
                        Err(DeviceError::Enqueue)
                    },
                    Command::BuildProgram { program, name, source } => {
                        if program < self.programs.len() {
                            self.programs.set(program, false);
                        }
                        Err(DeviceError::Compile(diagnostic))
                    },
                    Command::WriteBuffer { .. } => Err(DeviceError::Transfer),
                    Command::ReadBuffer { .. } => Err(DeviceError::Transfer),
                    _ => Err(DeviceError::Enqueue),
                }
            },
        }
    }

}

impl Device for CLDevice {
    type Buf = CLBuffer;

    type Prog = CLProgram;

    type Rend = CLRenderer;

    open spec fn codegen_options(&self) -> LinearizerOptions {
        LinearizerOptions {
            supports_float4: true,
            local_size: 16,
            dtype: crate::dtype::DtypeKind::Float,
        }
    }

    closed spec fn rendering(&self) -> &CLRenderer {
        &self.renderer
    }

    fn linearizer_opts(&self) -> (opts: LinearizerOptions) {
        LinearizerOptions::default()
    }

    fn renderer(&self) -> (renderer: &CLRenderer)
        ensures
            renderer.language() == opencl_language(),
    {
        let renderer = &self.renderer;
        let opts = renderer.lang_opts();
        renderer
    }

    open spec fn program_handle(program: &CLProgram) -> usize {
        program.spec_id()
    }

    open spec fn program_owner(program: &CLProgram) -> usize {
        program.spec_owner()
    }

    fn allocate(&mut self, size: usize, dtype: Dtype) -> (out: Result<CLBuffer, DeviceError>) {
        if !self.is_ready() {
            return Err(DeviceError::Initialization);
        }
        match size.checked_mul(dtype.size()) {
            None => Err(DeviceError::Enqueue),
            Some(bytes) => {
                let handle = self.buffers.len();
                self.buffers.push(Slot { bytes, live: true });
                self.enqueue(Command::CreateBuffer { buffer: handle, bytes });
                Ok(CLBuffer { owner: self.context, ptr: handle, size: bytes, count: size, dtype })
            },
        }
    }

    fn dealloc(&mut self, src: &CLBuffer) -> (out: Result<(), DeviceError>) {
        if !self.is_ready() {
            return Err(DeviceError::Initialization);
        }
        if !self.holds_slot(src.owner, src.ptr, src.size) {
            return Err(DeviceError::Enqueue);
        }
        self.buffers.set(src.ptr, Slot { bytes: src.size, live: false });
        self.enqueue(Command::ReleaseBuffer { buffer: src.ptr });
        Ok(())
    }

    fn build(&mut self, name: &str, program: &str) -> (out: Result<CLProgram, DeviceError>)
        ensures
            out matches Ok(built) ==> built.spec_name() == name@,
    {
        if !self.is_ready() {
            return Err(DeviceError::Initialization);
        }
        let handle = self.programs.len();
        self.programs.push(true);
        self.enqueue(
            Command::BuildProgram {
                program: handle,
                name: name.to_owned(),
                source: program.to_owned(),
            },
        );
        Ok(CLProgram { name: name.to_owned(), program: handle, owner: self.context })
    }

    fn copyout(&mut self, src: &CLBuffer, dst: &[u8]) -> (out: Result<(), DeviceError>) {
        self.read(src.owner, src.ptr, src.size, dst.len())
    }

    fn copyin(&mut self, src: Vec<u8>, dst: &CLBuffer) -> (out: Result<(), DeviceError>) {
        self.write(src, dst.owner, dst.ptr, dst.size)
    }

    fn synchronize(&mut self) {
        self.barrier()
    }
}

} // verus!
