use crate::bytes::{byte_of, host_bytes, host_is_little, host_words, word_of_its_bytes};
use crate::device::{Buffer, Op, Pipeline, Usage};
use crate::grid::{grid_rows, groups_in, linear_grid_covers, linear_grid_of, Grid};
use crate::tensor::{add_ops, clone_ops, fill_ops, matmul_ops, new_ops, to_vec_ops};
use vstd::prelude::*;

verus! {

/// The bytes of each buffer of a device, by the buffer's number.
pub type Memory = Map<usize, Seq<u8>>;

/// What the sum and product kernels leave in their output buffer, given the
/// contents of the buffers bound to them and the grid. The kernels are
/// compiled programs of the device; the laws below hold whatever they
/// compute.
pub type Kernels = spec_fn(Pipeline, Seq<Seq<u8>>, Grid) -> Seq<u8>;

/// Every bound buffer exists.
pub open spec fn bound(mem: Memory, bindings: Seq<(u32, usize)>) -> bool {
    forall|i: int| 0 <= i < bindings.len() ==> mem.dom().contains((#[trigger] bindings[i]).1)
}

/// The contents of the bound buffers, by slot.
pub open spec fn contents(mem: Memory, bindings: Seq<(u32, usize)>) -> Seq<Seq<u8>> {
    Seq::new(bindings.len(), |i: int| mem[bindings[i].1])
}

/// What the fill kernel leaves in its output: each workgroup sets 64
/// elements to the four bytes of `word`, and an element beyond the last
/// workgroup keeps what it held.
pub open spec fn fill_effect(before: Seq<u8>, word: Seq<u8>, grid: Grid) -> Seq<u8> {
    Seq::new(
        before.len(),
        |i: int|
            if i / 4 < 64 * groups_in(grid) {
                word[i % 4]
            } else {
                before[i]
            },
    )
}

/// Device memory after one request. A request that names a missing buffer,
/// or more bytes than a buffer has, changes nothing.
pub open spec fn effect(mem: Memory, op: Op, kernels: Kernels) -> Memory {
    match op {
        Op::CreateBuffer { buffer, bytes, usage, mapped } => mem.insert(
            buffer,
            Seq::new(bytes as nat, |i: int| 0u8),
        ),
        Op::CreateBufferInit { buffer, contents } => mem.insert(buffer, contents),
        Op::CopyBuffer { src, dst, bytes } => if mem.dom().contains(src) && mem.dom().contains(dst)
            && bytes <= mem[src].len() && bytes <= mem[dst].len() {
            mem.insert(
                dst,
                mem[src].subrange(0, bytes as int) + mem[dst].subrange(
                    bytes as int,
                    mem[dst].len() as int,
                ),
            )
        } else {
            mem
        },
        Op::Dispatch { pipeline, bindings, grid } => if bindings.len() != pipeline.slot_count()
            || !bound(mem, bindings) {
            mem
        } else if pipeline == Pipeline::Fill {
            if mem[bindings[1].1].len() == 4 {
                mem.insert(
                    bindings[0].1,
                    fill_effect(mem[bindings[0].1], mem[bindings[1].1], grid),
                )
            } else {
                mem
            }
        } else {
            mem.insert(bindings[2].1, kernels(pipeline, contents(mem, bindings), grid))
        },
        Op::Release { buffer } => mem.remove(buffer),
        _ => mem,
    }
}

/// Device memory after the requests `ops`, performed in order.
pub open spec fn run(mem: Memory, ops: Seq<Op>, kernels: Kernels) -> Memory
    decreases ops.len(),
{
    if ops.len() == 0 {
        mem
    } else {
        effect(run(mem, ops.drop_last(), kernels), ops.last(), kernels)
    }
}

/// The bytes of a buffer of `elements` elements that all hold the word `v`.
pub open spec fn all_set(elements: nat, v: u32) -> Seq<u8> {
    Seq::new(4 * elements, |i: int| host_bytes(seq![v])[i % 4])
}

/// One more request is performed after the others.
pub proof fn run_push(mem: Memory, ops: Seq<Op>, op: Op, kernels: Kernels)
    ensures
        run(mem, ops.push(op), kernels) == effect(run(mem, ops, kernels), op, kernels),
{
    assert(ops.push(op).drop_last() =~= ops);
}

/// Requests performed in two parts leave what they leave in one.
pub proof fn run_concat(mem: Memory, first: Seq<Op>, second: Seq<Op>, kernels: Kernels)
    ensures
        run(mem, first + second, kernels) == run(run(mem, first, kernels), second, kernels),
    decreases second.len(),
{
    if second.len() == 0 {
        assert(first + second =~= first);
    } else {
        run_concat(mem, first, second.drop_last(), kernels);
        assert((first + second).drop_last() =~= first + second.drop_last());
    }
}

/// A host read leaves in the staging buffer exactly the bytes of the
/// source, and the source as it was.
pub proof fn to_vec_copies(mem: Memory, src: Buffer, staging: usize, kernels: Kernels)
    requires
        mem.dom().contains(src.id),
        mem[src.id].len() == src.bytes,
        staging != src.id,
    ensures
        run(mem, to_vec_ops(src, staging), kernels).dom().contains(staging),
        run(mem, to_vec_ops(src, staging), kernels)[staging] == mem[src.id],
        run(mem, to_vec_ops(src, staging), kernels)[src.id] == mem[src.id],
{
    let ops = to_vec_ops(src, staging);
    let e = Seq::<Op>::empty();
    run_push(mem, e, ops[0], kernels);
    run_push(mem, e.push(ops[0]), ops[1], kernels);
    run_push(mem, e.push(ops[0]).push(ops[1]), ops[2], kernels);
    run_push(mem, e.push(ops[0]).push(ops[1]).push(ops[2]), ops[3], kernels);
    assert(ops =~= e.push(ops[0]).push(ops[1]).push(ops[2]).push(ops[3]));
    let m1 = effect(mem, ops[0], kernels);
    let m2 = effect(m1, ops[1], kernels);
    assert(m1[staging].len() == src.bytes);
    assert(m2[staging] =~= mem[src.id]);
}

/// A clone leaves in the new buffer exactly the bytes of the source, and
/// the source as it was.
pub proof fn clone_copies(mem: Memory, src: Buffer, dst: usize, kernels: Kernels)
    requires
        mem.dom().contains(src.id),
        mem[src.id].len() == src.bytes,
        dst != src.id,
    ensures
        run(mem, clone_ops(src, dst), kernels).dom().contains(dst),
        run(mem, clone_ops(src, dst), kernels)[dst] == mem[src.id],
        run(mem, clone_ops(src, dst), kernels)[src.id] == mem[src.id],
{
    let ops = clone_ops(src, dst);
    let e = Seq::<Op>::empty();
    run_push(mem, e, ops[0], kernels);
    run_push(mem, e.push(ops[0]), ops[1], kernels);
    assert(ops =~= e.push(ops[0]).push(ops[1]));
    let m1 = effect(mem, ops[0], kernels);
    let m2 = effect(m1, ops[1], kernels);
    assert(m1[dst].len() == src.bytes);
    assert(m2[dst] =~= mem[src.id]);
}

/// The host reads from a clone what it reads from the tensor itself: after
/// either sequence of requests the staging buffer holds the same bytes.
pub proof fn clone_reads_as_its_source(
    mem: Memory,
    src: Buffer,
    copy: usize,
    staging: usize,
    other_staging: usize,
    kernels: Kernels,
)
    requires
        mem.dom().contains(src.id),
        mem[src.id].len() == src.bytes,
        copy != src.id,
        staging != src.id,
        staging != copy,
        other_staging != src.id,
    ensures
        run(
            mem,
            clone_ops(src, copy) + to_vec_ops(
                Buffer { id: copy, bytes: src.bytes, usage: Usage::Storage },
                staging,
            ),
            kernels,
        )[staging] == run(mem, to_vec_ops(src, other_staging), kernels)[other_staging],
{
    let twin = Buffer { id: copy, bytes: src.bytes, usage: Usage::Storage };
    clone_copies(mem, src, copy, kernels);
    let after = run(mem, clone_ops(src, copy), kernels);
    to_vec_copies(after, twin, staging, kernels);
    run_concat(mem, clone_ops(src, copy), to_vec_ops(twin, staging), kernels);
    to_vec_copies(mem, src, other_staging, kernels);
}

/// A fill sets every element of the buffer to the fill value: the grid
/// leaves no element out.
pub proof fn fill_sets_every_element(
    mem: Memory,
    target: usize,
    scratch: usize,
    v: u32,
    elements: nat,
    kernels: Kernels,
)
    requires
        mem.dom().contains(target),
        mem[target].len() == 4 * elements,
        grid_rows(elements) <= u32::MAX,
        scratch != target,
    ensures
        run(mem, fill_ops(target, scratch, v, elements), kernels).dom().contains(target),
        run(mem, fill_ops(target, scratch, v, elements), kernels)[target] == all_set(elements, v),
{
    let ops = fill_ops(target, scratch, v, elements);
    let e = Seq::<Op>::empty();
    run_push(mem, e, ops[0], kernels);
    run_push(mem, e.push(ops[0]), ops[1], kernels);
    run_push(mem, e.push(ops[0]).push(ops[1]), ops[2], kernels);
    assert(ops =~= e.push(ops[0]).push(ops[1]).push(ops[2]));
    let m1 = effect(mem, ops[0], kernels);
    let m2 = effect(m1, ops[1], kernels);
    let grid = linear_grid_of(elements);
    linear_grid_covers(elements);
    assert(grid.x == 1024 && grid.y == grid_rows(elements) && grid.z == 1);
    assert(groups_in(grid) == 1024 * grid_rows(elements)) by (nonlinear_arith)
        requires
            grid.x == 1024 && grid.y == grid_rows(elements) && grid.z == 1,
            groups_in(grid) == (grid.x * grid.y * grid.z) as nat,
    ;
    assert(m1[scratch] == host_bytes(seq![v]));
    assert(m1[target] == mem[target]);
    let bindings = ops[1]->Dispatch_bindings;
    assert(bindings.len() == 2);
    assert(bindings[0].1 == target && bindings[1].1 == scratch);
    assert(bound(m1, bindings));
    assert(m2[target] =~= all_set(elements, v));
}

/// A new tensor of `elements` elements holds the fill value in each of
/// them, once its requests are performed.
pub proof fn new_sets_every_element(
    mem: Memory,
    target: usize,
    scratch: usize,
    v: u32,
    elements: nat,
    kernels: Kernels,
)
    requires
        4 * elements <= u64::MAX,
        grid_rows(elements) <= u32::MAX,
        scratch != target,
    ensures
        run(mem, new_ops(target, scratch, v, elements), kernels).dom().contains(target),
        run(mem, new_ops(target, scratch, v, elements), kernels)[target] == all_set(elements, v),
{
    let create = Op::CreateBuffer {
        buffer: target,
        bytes: (4 * elements) as u64,
        usage: Usage::Storage,
        mapped: false,
    };
    run_push(mem, Seq::<Op>::empty(), create, kernels);
    assert(seq![create] =~= Seq::<Op>::empty().push(create));
    run_concat(mem, seq![create], fill_ops(target, scratch, v, elements), kernels);
    fill_sets_every_element(
        run(mem, seq![create], kernels),
        target,
        scratch,
        v,
        elements,
        kernels,
    );
}

/// An elementwise sum writes its output buffer and no other: every other
/// buffer, the operands among them, holds what it held.
pub proof fn add_writes_only_its_output(
    mem: Memory,
    lhs: usize,
    rhs: usize,
    out: usize,
    elements: nat,
    other: usize,
    kernels: Kernels,
)
    requires
        mem.dom().contains(other),
        other != out,
    ensures
        run(mem, add_ops(lhs, rhs, out, elements), kernels).dom().contains(other),
        run(mem, add_ops(lhs, rhs, out, elements), kernels)[other] == mem[other],
{
    let ops = add_ops(lhs, rhs, out, elements);
    let e = Seq::<Op>::empty();
    run_push(mem, e, ops[0], kernels);
    run_push(mem, e.push(ops[0]), ops[1], kernels);
    assert(ops =~= e.push(ops[0]).push(ops[1]));
    let bindings = ops[1]->Dispatch_bindings;
    assert(bindings.len() == 3 && bindings[2].1 == out);
}

/// A matrix product writes its output buffer and no other that outlives
/// it: every other buffer, the operands among them, holds what it held.
pub proof fn matmul_writes_only_its_output(
    mem: Memory,
    lhs: usize,
    rhs: usize,
    out: usize,
    scratch: usize,
    m: usize,
    k: usize,
    n: usize,
    other: usize,
    kernels: Kernels,
)
    requires
        mem.dom().contains(other),
        other != out,
        other != scratch,
    ensures
        run(mem, matmul_ops(lhs, rhs, out, scratch, m, k, n), kernels).dom().contains(other),
        run(mem, matmul_ops(lhs, rhs, out, scratch, m, k, n), kernels)[other] == mem[other],
{
    let ops = matmul_ops(lhs, rhs, out, scratch, m, k, n);
    let e = Seq::<Op>::empty();
    run_push(mem, e, ops[0], kernels);
    run_push(mem, e.push(ops[0]), ops[1], kernels);
    run_push(mem, e.push(ops[0]).push(ops[1]), ops[2], kernels);
    run_push(mem, e.push(ops[0]).push(ops[1]).push(ops[2]), ops[3], kernels);
    assert(ops =~= e.push(ops[0]).push(ops[1]).push(ops[2]).push(ops[3]));
    let bindings = ops[2]->Dispatch_bindings;
    assert(bindings.len() == 4 && bindings[2].1 == out);
}

/// The host reads from a new tensor as many words as it has elements, and
/// each of them is the fill value.
pub proof fn new_reads_as_its_value(
    mem: Memory,
    target: usize,
    scratch: usize,
    staging: usize,
    v: u32,
    elements: nat,
    kernels: Kernels,
)
    requires
        4 * elements <= u64::MAX,
        grid_rows(elements) <= u32::MAX,
        scratch != target,
        staging != target,
    ensures
        host_words(
            run(
                mem,
                new_ops(target, scratch, v, elements) + to_vec_ops(
                    Buffer { id: target, bytes: (4 * elements) as u64, usage: Usage::Storage },
                    staging,
                ),
                kernels,
            )[staging],
        ) == Seq::new(elements, |i: int| v),
{
    let data = Buffer { id: target, bytes: (4 * elements) as u64, usage: Usage::Storage };
    new_sets_every_element(mem, target, scratch, v, elements, kernels);
    let after = run(mem, new_ops(target, scratch, v, elements), kernels);
    to_vec_copies(after, data, staging, kernels);
    run_concat(mem, new_ops(target, scratch, v, elements), to_vec_ops(data, staging), kernels);
    let bytes = all_set(elements, v);
    let words = host_words(bytes);
    assert(words.len() == elements);
    assert forall|i: int| 0 <= i < elements implies words[i] == v by {
        word_of_its_bytes(v);
        assert((4 * i) % 4 == 0 && (4 * i + 1) % 4 == 1 && (4 * i + 2) % 4 == 2 && (4 * i + 3) % 4
            == 3);
        assert(bytes[4 * i] == host_bytes(seq![v])[0]);
        assert(bytes[4 * i + 1] == host_bytes(seq![v])[1]);
        assert(bytes[4 * i + 2] == host_bytes(seq![v])[2]);
        assert(bytes[4 * i + 3] == host_bytes(seq![v])[3]);
        if host_is_little() {
            assert(host_bytes(seq![v])[0] == byte_of(v, 0));
        } else {
            assert(host_bytes(seq![v])[0] == byte_of(v, 3));
        }
    }
    assert(words =~= Seq::new(elements, |i: int| v));
}

} // verus!
