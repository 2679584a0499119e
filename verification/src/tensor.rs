use crate::bytes::{encode_words, host_bytes};
use crate::device::{bindings_of, Buffer, Command, Device, Op, Pipeline, Usage};
use crate::error::Error;
use crate::grid::{grid_rows, linear_grid, linear_grid_of, matmul_grid_of, Grid};
use crate::readback::Readback;
use crate::shape::{product, product_of_pair, Kind, Shape, D2, F32};
use std::marker::PhantomData;
use vstd::prelude::*;

verus! {

/// A tensor on a compute device: a shape, an element kind and the storage
/// buffer that the tensor owns.
#[derive(Debug)]
pub struct Tensor<S: Shape, K: Kind> {
    pub shape: S,
    pub data: Buffer,
    pub phantom: PhantomData<K>,
}

/// A tensor of rows and columns.
pub type Tensor2D<K> = Tensor<D2, K>;

/// Whether a storage buffer for `shape` with elements of kind `K` can be
/// sized without overflow.
pub open spec fn storage_fits<S: Shape, K: Kind>(shape: S) -> bool {
    &&& product(shape.extents()) <= usize::MAX
    &&& product(shape.extents()) * K::byte_size() <= usize::MAX
}

/// Whether a matrix product of `(m, k)` by `(k, n)` can be asked of the
/// device: each extent fits a kernel parameter, and the output can be sized.
pub open spec fn matmul_fits(m: usize, k: usize, n: usize) -> bool {
    &&& m <= u32::MAX
    &&& k <= u32::MAX
    &&& n <= u32::MAX
    &&& m * n * 4 <= usize::MAX
}

/// Whether an elementwise kernel over `(m, n)` can be asked of the device:
/// the buffers can be sized and the rows of the grid fit a dispatch
/// dimension.
pub open spec fn elementwise_fits(m: usize, n: usize) -> bool {
    &&& m * n * 4 <= usize::MAX
    &&& grid_rows((m * n) as nat) <= u32::MAX
}

/// The requests of a fill of `target` with the word `v`: the value goes to
/// a buffer of its own, `scratch`, and the fill kernel runs over
/// `[target, scratch]`.
pub open spec fn fill_ops(target: usize, scratch: usize, v: u32, elements: nat) -> Seq<Op> {
    seq![
        Op::CreateBufferInit { buffer: scratch, contents: host_bytes(seq![v]) },
        Op::Dispatch {
            pipeline: Pipeline::Fill,
            bindings: bindings_of(seq![target, scratch]),
            grid: linear_grid_of(elements),
        },
        Op::Release { buffer: scratch },
    ]
}

/// The requests of a matrix product of `(m, k)` by `(k, n)`: the output
/// buffer `out` is created, the extents go to a buffer of their own,
/// `scratch`, and the kernel runs over `[lhs, rhs, out, scratch]` with one
/// workgroup per output element.
pub open spec fn matmul_ops(
    lhs: usize,
    rhs: usize,
    out: usize,
    scratch: usize,
    m: usize,
    k: usize,
    n: usize,
) -> Seq<Op> {
    seq![
        Op::CreateBuffer {
            buffer: out,
            bytes: (m * n * 4) as u64,
            usage: Usage::Storage,
            mapped: false,
        },
        Op::CreateBufferInit {
            buffer: scratch,
            contents: host_bytes(seq![m as u32, k as u32, n as u32]),
        },
        Op::Dispatch {
            pipeline: Pipeline::Matmul,
            bindings: bindings_of(seq![lhs, rhs, out, scratch]),
            grid: matmul_grid_of(m as nat, n as nat),
        },
        Op::Release { buffer: scratch },
    ]
}

/// The requests of an elementwise sum over `elements` elements: the output
/// buffer `out` is created, and the kernel runs over `[lhs, rhs, out]`.
pub open spec fn add_ops(lhs: usize, rhs: usize, out: usize, elements: nat) -> Seq<Op> {
    seq![
        Op::CreateBuffer {
            buffer: out,
            bytes: (4 * elements) as u64,
            usage: Usage::Storage,
            mapped: false,
        },
        Op::Dispatch {
            pipeline: Pipeline::Add,
            bindings: bindings_of(seq![lhs, rhs, out]),
            grid: linear_grid_of(elements),
        },
    ]
}

/// The request that creates `buffer`.
pub open spec fn create_op(buffer: Buffer, mapped: bool) -> Op {
    Op::CreateBuffer { buffer: buffer.id, bytes: buffer.bytes, usage: buffer.usage, mapped }
}

/// The requests of a new tensor of `elements` elements in the buffer
/// `target`, each set to the word `v`: the buffer is created, then filled.
pub open spec fn new_ops(target: usize, scratch: usize, v: u32, elements: nat) -> Seq<Op> {
    seq![
        Op::CreateBuffer {
            buffer: target,
            bytes: (4 * elements) as u64,
            usage: Usage::Storage,
            mapped: false,
        },
    ] + fill_ops(target, scratch, v, elements)
}

/// The requests of a clone of `src` into the buffer `dst`: the buffer is
/// created, then every byte of `src` is copied to it.
pub open spec fn clone_ops(src: Buffer, dst: usize) -> Seq<Op> {
    seq![
        Op::CreateBuffer { buffer: dst, bytes: src.bytes, usage: Usage::Storage, mapped: false },
        Op::CopyBuffer { src: src.id, dst, bytes: src.bytes },
    ]
}

/// The requests of a host read of `src` through the buffer `staging`: the
/// buffer is created, every byte of `src` is copied to it, its mapping is
/// requested, and the device is driven.
pub open spec fn to_vec_ops(src: Buffer, staging: usize) -> Seq<Op> {
    seq![
        Op::CreateBuffer { buffer: staging, bytes: src.bytes, usage: Usage::Transfer, mapped: false },
        Op::CopyBuffer { src: src.id, dst: staging, bytes: src.bytes },
        Op::MapRead { buffer: staging },
        Op::Wait,
    ]
}

impl<S: Shape, K: Kind> Tensor<S, K> {
    /// Number of elements.
    pub open spec fn element_count(&self) -> nat {
        product(self.shape.extents())
    }

    /// The storage buffer is as long as the elements need, and that length
    /// was computed without overflow.
    pub open spec fn wf(&self) -> bool {
        &&& storage_fits::<S, K>(self.shape)
        &&& self.data.bytes == self.element_count() * K::byte_size()
        &&& self.data.usage == Usage::Storage
    }

    /// A tensor of the given shape whose elements are not set.
    pub fn new_uninitialized(device: &mut Device, shape: S, mapped_at_creation: bool) -> (r: Self)
        requires
            storage_fits::<S, K>(shape),
        ensures
            r.shape == shape,
            r.wf(),
            r.data.id == old(device).table().len(),
            final(device).table() == old(device).table().push(r.data),
            final(device).log() == old(device).log().push(create_op(r.data, mapped_at_creation)),
            old(device).wf() ==> final(device).wf(),
    {
        let data = device.storage_buffer::<K>(shape.num_elements(), mapped_at_creation);
        Tensor { shape, data, phantom: PhantomData }
    }

    /// A second tensor of the same shape, filled by a copy on the device of
    /// exactly the bytes of this one.
    pub fn clone(&self, device: &mut Device) -> (r: Self)
        requires
            self.wf(),
        ensures
            r.shape == self.shape,
            r.wf(),
            r.data.id == old(device).table().len(),
            r.data.bytes == self.data.bytes,
            final(device).table() == old(device).table().push(r.data),
            final(device).log() == old(device).log() + clone_ops(self.data, r.data.id),
            old(device).wf() ==> final(device).wf(),
    {
        let output = Self::new_uninitialized(device, self.shape.duplicate(), false);
        let bytes: usize = self.shape.num_elements() * K::size_of();
        device.record(
            Command::CopyBuffer { src: self.data.id, dst: output.data.id, bytes: bytes as u64 },
        );
        assert(device.log() =~= old(device).log() + clone_ops(self.data, output.data.id));
        output
    }

    /// Asks for the elements on the host: a transfer buffer of the tensor's
    /// byte length is created, the storage is copied to it, its mapping is
    /// requested and the device is driven. The elements themselves come
    /// from the [`Readback`], once the completion signal is in.
    pub fn to_vec(&self, device: &mut Device) -> (r: Readback)
        requires
            self.wf(),
        ensures
            r.staging() == (Buffer {
                id: old(device).table().len() as usize,
                bytes: self.data.bytes,
                usage: Usage::Transfer,
            }),
            r.staging().id == old(device).table().len(),
            final(device).table() == old(device).table().push(r.staging()),
            final(device).log() == old(device).log() + to_vec_ops(self.data, r.staging().id),
            old(device).wf() ==> final(device).wf(),
    {
        let size = self.shape.num_elements();
        let staging = device.transfer_buffer::<K>(size);
        let bytes: usize = size * K::size_of();
        device.record(
            Command::CopyBuffer { src: self.data.id, dst: staging.id, bytes: bytes as u64 },
        );
        device.record(Command::MapRead { buffer: staging.id });
        device.record(Command::Wait);
        assert(device.log() =~= old(device).log() + to_vec_ops(self.data, staging.id));
        Readback::start(staging)
    }
}

/// The slots of a kernel over the listed buffers, in order.
fn bind(device: &Device, pl: Pipeline, buffers: Vec<usize>) -> (r: crate::device::BindGroup)
    requires
        buffers@.len() == pl.slot_count(),
    ensures
        r.pipeline == pl,
        r.entries@ == bindings_of(buffers@),
{
    device.create_bind_group(pl, buffers.as_slice()).unwrap()
}

impl Tensor<D2, F32> {
    /// A tensor of `width` by `height` elements, each set to the word `v`.
    pub fn new(device: &mut Device, width: usize, height: usize, v: u32) -> (r: Self)
        requires
            elementwise_fits(width, height),
        ensures
            r.shape == (width, height),
            r.wf(),
            r.data.id == old(device).table().len(),
            r.data.bytes == width * height * 4,
            final(device).table().len() == old(device).table().len() + 2,
            final(device).table().subrange(0, old(device).table().len() as int) == old(
                device,
            ).table(),
            final(device).table()[old(device).table().len() as int] == r.data,
            final(device).log() == old(device).log() + new_ops(
                r.data.id,
                (r.data.id + 1) as usize,
                v,
                (width * height) as nat,
            ),
            old(device).wf() ==> final(device).wf(),
    {
        proof {
            product_of_pair(width, height);
        }
        let mut tensor = Self::new_uninitialized(device, (width, height), false);
        tensor.fill(device, v);
        assert(device.table().subrange(0, old(device).table().len() as int) =~= old(
            device,
        ).table());
        assert(device.log() =~= old(device).log() + new_ops(
            tensor.data.id,
            (tensor.data.id + 1) as usize,
            v,
            (width * height) as nat,
        ));
        tensor
    }

    /// Sets every element to the word `v`, by one run of the fill kernel.
    pub fn fill(&mut self, device: &mut Device, v: u32)
        requires
            old(self).wf(),
            grid_rows(old(self).element_count()) <= u32::MAX,
        ensures
            *final(self) == *old(self),
            final(device).table() == old(device).table().push(
                Buffer {
                    id: old(device).table().len() as usize,
                    bytes: 4,
                    usage: Usage::Storage,
                },
            ),
            final(device).log() == old(device).log() + fill_ops(
                old(self).data.id,
                old(device).table().len() as usize,
                v,
                old(self).element_count(),
            ),
            old(device).wf() ==> final(device).wf(),
    {
        let (m, n) = self.shape;
        proof {
            product_of_pair(m, n);
        }
        let mut value: Vec<u32> = Vec::new();
        value.push(v);
        assert(value@ =~= seq![v]);
        let v_buffer = device.init_buffer(encode_words(value.as_slice()));
        let mut buffers: Vec<usize> = Vec::new();
        buffers.push(self.data.id);
        buffers.push(v_buffer.id);
        assert(buffers@ =~= seq![self.data.id, v_buffer.id]);
        let bind_group = bind(device, Pipeline::Fill, buffers);
        let grid = linear_grid(m * n).unwrap();
        device.dispatch(bind_group, grid);
        device.record(Command::Release { buffer: v_buffer.id });
        assert(device.log() =~= old(device).log() + fill_ops(
            self.data.id,
            v_buffer.id,
            v,
            self.element_count(),
        ));
    }

    /// The matrix product of `self`, of shape `(m, k1)`, and `rhs`, of shape
    /// `(k2, n)`: a tensor of shape `(m, n)`. The inner extents are held
    /// against each other before anything is asked of the device.
    pub fn matmul(&self, rhs: &Self, device: &mut Device) -> (r: Result<Self, Error>)
        ensures
            self.shape.1 != rhs.shape.0 ==> r.is_err() && r.unwrap_err().is_mismatch(
                "gemm"@,
                self.shape.extents(),
                rhs.shape.extents(),
            ),
            self.shape.1 == rhs.shape.0 && !matmul_fits(self.shape.0, self.shape.1, rhs.shape.1)
                ==> r.is_err() && r.unwrap_err().is_internal(),
            r.is_ok() <==> self.shape.1 == rhs.shape.0 && matmul_fits(
                self.shape.0,
                self.shape.1,
                rhs.shape.1,
            ),
            r.is_err() ==> final(device).log() == old(device).log() && final(device).table()
                == old(device).table(),
            r.is_ok() ==> {
                let t = r.unwrap();
                &&& t.shape == (self.shape.0, rhs.shape.1)
                &&& t.wf()
                &&& t.data.id == old(device).table().len()
                &&& t.data.bytes == self.shape.0 * rhs.shape.1 * 4
                &&& final(device).table() == old(device).table().push(t.data).push(
                    Buffer { id: (t.data.id + 1) as usize, bytes: 12, usage: Usage::Storage },
                )
                &&& final(device).log() == old(device).log() + matmul_ops(
                    self.data.id,
                    rhs.data.id,
                    t.data.id,
                    (t.data.id + 1) as usize,
                    self.shape.0,
                    self.shape.1,
                    rhs.shape.1,
                )
            },
            old(device).wf() ==> final(device).wf(),
    {
        let (m, k1) = self.shape;
        let (k2, n) = rhs.shape;
        if k1 != k2 {
            return Err(
                Error::DimensionMismatchBinaryOp {
                    op: "gemm",
                    lhs: self.shape.dims(),
                    rhs: rhs.shape.dims(),
                },
            );
        }
        if !matmul_sizes_fit(m, k1, n) {
            return Err(
                Error::InternalError("matrix product too large for the device".to_string()),
            );
        }
        proof {
            product_of_pair(m, n);
        }
        let output = Self::new_uninitialized(device, (m, n), false);
        let mut params: Vec<u32> = Vec::new();
        params.push(m as u32);
        params.push(k1 as u32);
        params.push(n as u32);
        assert(params@ =~= seq![m as u32, k1 as u32, n as u32]);
        let param_buffer = device.init_buffer(encode_words(params.as_slice()));
        let mut buffers: Vec<usize> = Vec::new();
        buffers.push(self.data.id);
        buffers.push(rhs.data.id);
        buffers.push(output.data.id);
        buffers.push(param_buffer.id);
        assert(buffers@ =~= seq![self.data.id, rhs.data.id, output.data.id, param_buffer.id]);
        let bind_group = bind(device, Pipeline::Matmul, buffers);
        device.dispatch(bind_group, Grid { x: m as u32, y: n as u32, z: 1 });
        device.record(Command::Release { buffer: param_buffer.id });
        assert(device.log() =~= old(device).log() + matmul_ops(
            self.data.id,
            rhs.data.id,
            output.data.id,
            param_buffer.id,
            m,
            k1,
            n,
        ));
        Ok(output)
    }

    /// The elementwise sum of two tensors of one shape: a tensor of that
    /// shape. The shapes are held against each other before anything is
    /// asked of the device.
    pub fn add(&self, rhs: &Self, device: &mut Device) -> (r: Result<Self, Error>)
        ensures
            self.shape != rhs.shape ==> r.is_err() && r.unwrap_err().is_mismatch(
                "add"@,
                self.shape.extents(),
                rhs.shape.extents(),
            ),
            self.shape == rhs.shape && !elementwise_fits(self.shape.0, self.shape.1) ==> r.is_err()
                && r.unwrap_err().is_internal(),
            r.is_ok() <==> self.shape == rhs.shape && elementwise_fits(self.shape.0, self.shape.1),
            r.is_err() ==> final(device).log() == old(device).log() && final(device).table()
                == old(device).table(),
            r.is_ok() ==> {
                let t = r.unwrap();
                &&& t.shape == self.shape
                &&& t.wf()
                &&& t.data.id == old(device).table().len()
                &&& t.data.bytes == self.shape.0 * self.shape.1 * 4
                &&& final(device).table() == old(device).table().push(t.data)
                &&& final(device).log() == old(device).log() + add_ops(
                    self.data.id,
                    rhs.data.id,
                    t.data.id,
                    (self.shape.0 * self.shape.1) as nat,
                )
            },
            old(device).wf() ==> final(device).wf(),
    {
        let (m, n) = self.shape;
        if m != rhs.shape.0 || n != rhs.shape.1 {
            return Err(
                Error::DimensionMismatchBinaryOp {
                    op: "add",
                    lhs: self.shape.dims(),
                    rhs: rhs.shape.dims(),
                },
            );
        }
        let grid = match elementwise_grid(m, n) {
            Some(grid) => grid,
            None => {
                return Err(
                    Error::InternalError("elementwise sum too large for the device".to_string()),
                );
            },
        };
        proof {
            product_of_pair(m, n);
        }
        let output = Self::new_uninitialized(device, (m, n), false);
        let mut buffers: Vec<usize> = Vec::new();
        buffers.push(self.data.id);
        buffers.push(rhs.data.id);
        buffers.push(output.data.id);
        assert(buffers@ =~= seq![self.data.id, rhs.data.id, output.data.id]);
        let bind_group = bind(device, Pipeline::Add, buffers);
        device.dispatch(bind_group, grid);
        assert(device.log() =~= old(device).log() + add_ops(
            self.data.id,
            rhs.data.id,
            output.data.id,
            (m * n) as nat,
        ));
        Ok(output)
    }
}

/// Whether a matrix product of `(m, k)` by `(k, n)` can be asked of the
/// device.
pub fn matmul_sizes_fit(m: usize, k: usize, n: usize) -> (r: bool)
    ensures
        r == matmul_fits(m, k, n),
{
    if m > 0xffff_ffff || k > 0xffff_ffff || n > 0xffff_ffff {
        return false;
    }
    match m.checked_mul(n) {
        Some(elements) => elements.checked_mul(4).is_some(),
        None => {
            assert(m * n * 4 >= m * n) by (nonlinear_arith);
            false
        },
    }
}

/// The grid of an elementwise kernel over `(m, n)`, or `None` when the
/// kernel cannot be asked of the device.
pub fn elementwise_grid(m: usize, n: usize) -> (r: Option<Grid>)
    ensures
        r.is_some() <==> elementwise_fits(m, n),
        r.is_some() ==> r.unwrap() == linear_grid_of((m * n) as nat),
{
    match m.checked_mul(n) {
        Some(elements) => {
            if elements.checked_mul(4).is_none() {
                None
            } else {
                linear_grid(elements)
            }
        },
        None => {
            assert(m * n * 4 >= m * n) by (nonlinear_arith);
            None
        },
    }
}

} // verus!
