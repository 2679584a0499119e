use crate::error::Error;
use crate::grid::Grid;
use crate::shape::Kind;
use vstd::prelude::*;

verus! {

/// The three kernels of the device.
#[derive(Debug, Clone, Copy, PartialEq, Eq, Structural)]
pub enum Pipeline {
    Matmul,
    Add,
    Fill,
}

impl Pipeline {
    /// Number of resource slots that the kernel declares.
    pub open spec fn slot_count(self) -> nat {
        match self {
            Pipeline::Matmul => 4,
            Pipeline::Add => 3,
            Pipeline::Fill => 2,
        }
    }

    /// Name of the kernel's entry point.
    pub open spec fn entry_name(self) -> Seq<char> {
        match self {
            Pipeline::Matmul => "gemm"@,
            Pipeline::Add => "add"@,
            Pipeline::Fill => "fill"@,
        }
    }

    /// Number of resource slots that the kernel declares.
    pub fn slots(self) -> (r: usize)
        ensures
            r == self.slot_count(),
    {
        match self {
            Pipeline::Matmul => 4,
            Pipeline::Add => 3,
            Pipeline::Fill => 2,
        }
    }

    /// Name of the kernel's entry point, also used to mark its dispatches.
    pub fn entry_point(self) -> (r: &'static str)
        ensures
            r@ == self.entry_name(),
    {
        match self {
            Pipeline::Matmul => "gemm",
            Pipeline::Add => "add",
            Pipeline::Fill => "fill",
        }
    }
}

/// What a buffer may be used for.
#[derive(Debug, Clone, Copy, PartialEq, Eq, Structural)]
pub enum Usage {
    /// Read and written by kernels, and copied from and to.
    Storage,
    /// Mapped for host reads, and copied to.
    Transfer,
}

/// A region of device memory: its number on the device, its length in
/// bytes and its usage class.
#[derive(Debug, Clone, Copy, PartialEq, Eq, Structural)]
pub struct Buffer {
    pub id: usize,
    pub bytes: u64,
    pub usage: Usage,
}

/// One request to the graphics backend.
#[derive(Debug, PartialEq, Eq)]
pub enum Command {
    /// Compile the kernel and keep its pipeline.
    CreatePipeline { pipeline: Pipeline },
    /// Allocate a buffer of `bytes` bytes under the number `buffer`.
    CreateBuffer { buffer: usize, bytes: u64, usage: Usage, mapped: bool },
    /// Allocate a storage buffer that holds `contents`.
    CreateBufferInit { buffer: usize, contents: Vec<u8> },
    /// Run the kernel once over `grid`, with each listed buffer bound to the
    /// slot beside it, and submit.
    Dispatch { pipeline: Pipeline, bindings: Vec<(u32, usize)>, grid: Grid },
    /// Copy the first `bytes` bytes of `src` to the start of `dst`, and
    /// submit.
    CopyBuffer { src: usize, dst: usize, bytes: u64 },
    /// Ask for the whole buffer to be mapped for host reads.
    MapRead { buffer: usize },
    /// Drive the device until its pending work is done.
    Wait,
    /// Give the mapping of the buffer up.
    Unmap { buffer: usize },
    /// Let go of the buffer.
    Release { buffer: usize },
}

/// A request as a mathematical value.
pub ghost enum Op {
    CreatePipeline { pipeline: Pipeline },
    CreateBuffer { buffer: usize, bytes: u64, usage: Usage, mapped: bool },
    CreateBufferInit { buffer: usize, contents: Seq<u8> },
    Dispatch { pipeline: Pipeline, bindings: Seq<(u32, usize)>, grid: Grid },
    CopyBuffer { src: usize, dst: usize, bytes: u64 },
    MapRead { buffer: usize },
    Wait,
    Unmap { buffer: usize },
    Release { buffer: usize },
}

impl View for Command {
    type V = Op;

    open spec fn view(&self) -> Op {
        match self {
            Command::CreatePipeline { pipeline } => Op::CreatePipeline { pipeline: *pipeline },
            Command::CreateBuffer { buffer, bytes, usage, mapped } => Op::CreateBuffer {
                buffer: *buffer,
                bytes: *bytes,
                usage: *usage,
                mapped: *mapped,
            },
            Command::CreateBufferInit { buffer, contents } => Op::CreateBufferInit {
                buffer: *buffer,
                contents: contents@,
            },
            Command::Dispatch { pipeline, bindings, grid } => Op::Dispatch {
                pipeline: *pipeline,
                bindings: bindings@,
                grid: *grid,
            },
            Command::CopyBuffer { src, dst, bytes } => Op::CopyBuffer {
                src: *src,
                dst: *dst,
                bytes: *bytes,
            },
            Command::MapRead { buffer } => Op::MapRead { buffer: *buffer },
            Command::Wait => Op::Wait,
            Command::Unmap { buffer } => Op::Unmap { buffer: *buffer },
            Command::Release { buffer } => Op::Release { buffer: *buffer },
        }
    }
}

/// The views of a list of commands, in order.
pub open spec fn ops_of(commands: Seq<Command>) -> Seq<Op> {
    Seq::new(commands.len(), |i: int| commands[i]@)
}

/// Slot `i` is bound to buffer `i` of `buffers`, for each of them.
pub open spec fn bindings_of(buffers: Seq<usize>) -> Seq<(u32, usize)> {
    Seq::new(buffers.len(), |i: int| (i as u32, buffers[i]))
}

/// An ordered list of buffers bound to the slots of one pipeline.
#[derive(Debug, PartialEq, Eq)]
pub struct BindGroup {
    pub pipeline: Pipeline,
    pub entries: Vec<(u32, usize)>,
}

/// How the search for a device ended.
#[derive(Debug, Clone, Copy, PartialEq, Eq, Structural)]
pub enum Startup {
    /// The host offers no adapter.
    NoAdapter,
    /// An adapter was found, and it refused the device or its queue.
    DeviceRefused,
    /// Device and queue are there.
    Ready,
}

/// The requests that set a fresh device up: its three kernels.
pub open spec fn startup_ops() -> Seq<Op> {
    seq![
        Op::CreatePipeline { pipeline: Pipeline::Matmul },
        Op::CreatePipeline { pipeline: Pipeline::Add },
        Op::CreatePipeline { pipeline: Pipeline::Fill },
    ]
}

/// One compute device: the buffers created on it so far, and the requests
/// that its driver has not taken yet, oldest first.
#[derive(Debug)]
pub struct Device {
    buffers: Vec<Buffer>,
    pending: Vec<Command>,
}

impl Device {
    /// The requests not taken yet, oldest first.
    pub closed spec fn log(&self) -> Seq<Op> {
        ops_of(self.pending@)
    }

    /// Every buffer created so far, in the order of creation.
    pub closed spec fn table(&self) -> Seq<Buffer> {
        self.buffers@
    }

    /// Each buffer's number is its place in the table, so no two buffers
    /// share a number.
    pub open spec fn wf(&self) -> bool {
        forall|i: int| 0 <= i < self.table().len() ==> (#[trigger] self.table()[i]).id == i
    }

    /// A device whose adapter and queue are at hand: its first requests
    /// compile the three kernels.
    pub fn new() -> (r: Device)
        ensures
            r.wf(),
            r.table() == Seq::<Buffer>::empty(),
            r.log() == startup_ops(),
    {
        let mut pending: Vec<Command> = Vec::new();
        pending.push(Command::CreatePipeline { pipeline: Pipeline::Matmul });
        pending.push(Command::CreatePipeline { pipeline: Pipeline::Add });
        pending.push(Command::CreatePipeline { pipeline: Pipeline::Fill });
        let r = Device { buffers: Vec::new(), pending };
        assert(r.log() =~= startup_ops());
        r
    }

    /// The device for the outcome of the search on an instance of the
    /// backend, or the error that the outcome stands for.
    pub fn new_with_instance(outcome: Startup) -> (r: Result<Device, Error>)
        ensures
            outcome == Startup::NoAdapter ==> r == Err::<Device, Error>(Error::NoAdapter),
            outcome == Startup::DeviceRefused ==> r == Err::<Device, Error>(Error::RequestDevice),
            outcome == Startup::Ready ==> r.is_ok() && r.unwrap().wf() && r.unwrap().table()
                == Seq::<Buffer>::empty() && r.unwrap().log() == startup_ops(),
    {
        match outcome {
            Startup::NoAdapter => Err(Error::NoAdapter),
            Startup::DeviceRefused => Err(Error::RequestDevice),
            Startup::Ready => Ok(Device::new()),
        }
    }

    /// Adds one request at the end.
    pub(crate) fn record(&mut self, command: Command)
        ensures
            final(self).log() == old(self).log().push(command@),
            final(self).table() == old(self).table(),
    {
        self.pending.push(command);
        assert(self.log() =~= old(self).log().push(command@));
    }

    /// Enters a buffer of `bytes` bytes into the table and gives its handle.
    fn enter(&mut self, bytes: u64, usage: Usage) -> (r: Buffer)
        ensures
            r == (Buffer { id: old(self).table().len() as usize, bytes, usage }),
            r.id == old(self).table().len(),
            final(self).table() == old(self).table().push(r),
            final(self).log() == old(self).log(),
            old(self).wf() ==> final(self).wf(),
    {
        let r = Buffer { id: self.buffers.len(), bytes, usage };
        self.buffers.push(r);
        r
    }

    /// A buffer for `size` elements of kind `K` that kernels read and write
    /// and that can be copied from and to.
    pub fn storage_buffer<K: Kind>(&mut self, size: usize, mapped_at_creation: bool) -> (r: Buffer)
        requires
            size * K::byte_size() <= usize::MAX,
        ensures
            r == (Buffer {
                id: old(self).table().len() as usize,
                bytes: (size * K::byte_size()) as u64,
                usage: Usage::Storage,
            }),
            r.id == old(self).table().len(),
            final(self).table() == old(self).table().push(r),
            final(self).log() == old(self).log().push(
                Op::CreateBuffer {
                    buffer: r.id,
                    bytes: r.bytes,
                    usage: Usage::Storage,
                    mapped: mapped_at_creation,
                },
            ),
            old(self).wf() ==> final(self).wf(),
    {
        let bytes: usize = size * K::size_of();
        let r = self.enter(bytes as u64, Usage::Storage);
        self.record(
            Command::CreateBuffer {
                buffer: r.id,
                bytes: r.bytes,
                usage: Usage::Storage,
                mapped: mapped_at_creation,
            },
        );
        r
    }

    /// A buffer for `size` elements of kind `K` that the host can map for
    /// reading and that can only be copied to.
    pub fn transfer_buffer<K: Kind>(&mut self, size: usize) -> (r: Buffer)
        requires
            size * K::byte_size() <= usize::MAX,
        ensures
            r == (Buffer {
                id: old(self).table().len() as usize,
                bytes: (size * K::byte_size()) as u64,
                usage: Usage::Transfer,
            }),
            r.id == old(self).table().len(),
            final(self).table() == old(self).table().push(r),
            final(self).log() == old(self).log().push(
                Op::CreateBuffer {
                    buffer: r.id,
                    bytes: r.bytes,
                    usage: Usage::Transfer,
                    mapped: false,
                },
            ),
            old(self).wf() ==> final(self).wf(),
    {
        let bytes: usize = size * K::size_of();
        let r = self.enter(bytes as u64, Usage::Transfer);
        self.record(
            Command::CreateBuffer {
                buffer: r.id,
                bytes: r.bytes,
                usage: Usage::Transfer,
                mapped: false,
            },
        );
        r
    }

    /// A storage buffer that holds `contents` from the start.
    pub fn init_buffer(&mut self, contents: Vec<u8>) -> (r: Buffer)
        ensures
            r == (Buffer {
                id: old(self).table().len() as usize,
                bytes: contents@.len() as u64,
                usage: Usage::Storage,
            }),
            r.id == old(self).table().len(),
            final(self).table() == old(self).table().push(r),
            final(self).log() == old(self).log().push(
                Op::CreateBufferInit { buffer: r.id, contents: contents@ },
            ),
            old(self).wf() ==> final(self).wf(),
    {
        let r = self.enter(contents.len() as u64, Usage::Storage);
        self.record(Command::CreateBufferInit { buffer: r.id, contents });
        r
    }

    /// Binds `buffers`, in order, to the slots 0, 1, 2, ... of `pl`. Fails
    /// with an internal error, if and only if the number of buffers is not
    /// the number of slots that the pipeline declares.
    pub fn create_bind_group(&self, pl: Pipeline, buffers: &[usize]) -> (r: Result<
        BindGroup,
        Error,
    >)
        ensures
            r.is_ok() <==> buffers@.len() == pl.slot_count(),
            r.is_ok() ==> r.unwrap().pipeline == pl && r.unwrap().entries@ == bindings_of(
                buffers@,
            ),
            r.is_err() ==> r.unwrap_err().is_internal(),
    {
        if buffers.len() != pl.slots() {
            return Err(
                Error::InternalError("buffer count does not match the pipeline's slots".to_string()),
            );
        }
        let mut entries: Vec<(u32, usize)> = Vec::new();
        let mut i: usize = 0;
        while i < buffers.len()
            invariant
                i <= buffers@.len() <= 4,
                entries@.len() == i,
                forall|j: int| 0 <= j < i ==> entries@[j] == (j as u32, buffers@[j]),
            decreases buffers@.len() - i,
        {
            entries.push((i as u32, buffers[i]));
            i = i + 1;
        }
        assert(entries@ =~= bindings_of(buffers@));
        Ok(BindGroup { pipeline: pl, entries })
    }

    /// Runs the pipeline of `group` once over `grid` and submits.
    pub fn dispatch(&mut self, group: BindGroup, grid: Grid)
        ensures
            final(self).log() == old(self).log().push(
                Op::Dispatch { pipeline: group.pipeline, bindings: group.entries@, grid },
            ),
            final(self).table() == old(self).table(),
    {
        self.record(
            Command::Dispatch { pipeline: group.pipeline, bindings: group.entries, grid },
        );
    }

    /// Hands the pending requests to the driver, oldest first, and leaves
    /// none behind.
    pub fn take_commands(&mut self) -> (r: Vec<Command>)
        ensures
            ops_of(r@) == old(self).log(),
            final(self).log() == Seq::<Op>::empty(),
            final(self).table() == old(self).table(),
    {
        let mut taken: Vec<Command> = Vec::new();
        std::mem::swap(&mut self.pending, &mut taken);
        assert(self.log() =~= Seq::<Op>::empty());
        taken
    }

    /// Number of buffers created so far.
    pub fn buffer_count(&self) -> (r: usize)
        ensures
            r == self.table().len(),
    {
        self.buffers.len()
    }
}

} // verus!
