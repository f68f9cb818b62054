//! Planning the poll chunks for a list of registers: per table, the registers' addresses
//! in ascending order, batched into runs of at most 100 consecutive addresses.
use vstd::prelude::*;
use crate::modbus::{ModbusAddressType, RegisterAddress, RegisterMetadata};
use crate::modbus::cached_modbus::ModbusChunk;

verus! {

/// Most registers read by one request.
pub const MAX_CHUNK_LEN: u16 = 100;

/// Whether one of `registers` lies at `address` in `table`.
pub open spec fn has_register(registers: Seq<RegisterMetadata>, table: ModbusAddressType, address: int) -> bool {
    exists|i: int|
        0 <= i < registers.len() && #[trigger] registers[i].address == (RegisterAddress {
            register_type: table,
            address: address as u16,
        }) && 0 <= address < 0x1_0000
}

/// Whether the run `(start, count)` covers `address`.
pub open spec fn covers(run: (u16, u16), address: int) -> bool {
    run.0 <= address < run.0 + run.1
}

/// `runs` batch the registers of `table` greedily: in ascending order, each run starts at
/// the lowest register not yet covered and reaches the last register within 100
/// addresses of its start; every register is covered. These conditions fix the runs.
pub open spec fn is_greedy_plan(registers: Seq<RegisterMetadata>, table: ModbusAddressType, runs: Seq<(u16, u16)>) -> bool {
    &&& forall|k: int|
        0 <= k < runs.len() ==> 1 <= (#[trigger] runs[k]).1 <= MAX_CHUNK_LEN && runs[k].0 + runs[k].1
            <= 0x1_0000
    &&& forall|k: int|
        0 <= k < runs.len() ==> has_register(registers, table, (#[trigger] runs[k]).0 as int) && has_register(
            registers,
            table,
            runs[k].0 + runs[k].1 - 1,
        )
    &&& forall|k: int, x: int|
        0 <= k < runs.len() && (#[trigger] runs[k]).0 + runs[k].1 <= x < runs[k].0 + MAX_CHUNK_LEN
            ==> !#[trigger] has_register(registers, table, x)
    &&& forall|k: int, j: int|
        0 <= k < j < runs.len() ==> (#[trigger] runs[k]).0 + runs[k].1 <= (#[trigger] runs[j]).0
    &&& forall|x: int|
        #[trigger] has_register(registers, table, x) ==> exists|k: int|
            0 <= k < runs.len() && #[trigger] covers(runs[k], x)
}

/// The table each register of `registers` lies in, at each address, as a lookup.
fn presence(registers: &Vec<RegisterMetadata>, table: ModbusAddressType) -> (p: Vec<bool>)
    ensures
        p@.len() == 0x1_0000,
        forall|x: int| 0 <= x < 0x1_0000 ==> (#[trigger] p@[x] <==> has_register(registers@, table, x)),
{
    let mut p: Vec<bool> = Vec::new();
    let mut x: usize = 0;
    while x < 0x1_0000
        invariant
            x <= 0x1_0000,
            p@.len() == x,
            forall|y: int| 0 <= y < x ==> !p@[y],
        decreases 0x1_0000 - x,
    {
        p.push(false);
        x = x + 1;
    }
    let mut i: usize = 0;
    while i < registers.len()
        invariant
            i <= registers@.len(),
            p@.len() == 0x1_0000,
            forall|x: int|
                0 <= x < 0x1_0000 ==> (#[trigger] p@[x] <==> exists|j: int|
                    0 <= j < i && #[trigger] registers@[j].address == (RegisterAddress {
                        register_type: table,
                        address: x as u16,
                    })),
        decreases registers.len() - i,
    {
        let a = registers[i].address;
        if a.register_type == table {
            let ghost old_p = p@;
            p.set(a.address as usize, true);
            proof {
                assert forall|x: int| 0 <= x < 0x1_0000 implies (#[trigger] p@[x] <==> exists|j: int|
                    0 <= j < i + 1 && #[trigger] registers@[j].address == (RegisterAddress {
                        register_type: table,
                        address: x as u16,
                    })) by {
                    if x == a.address {
                        assert(registers@[i as int].address == (RegisterAddress { register_type: table, address: x as u16 }));
                    } else {
                        assert(p@[x] == old_p[x]);
                        if exists|j: int|
                            0 <= j < i + 1 && #[trigger] registers@[j].address == (RegisterAddress {
                                register_type: table,
                                address: x as u16,
                            }) {
                            let j = choose|j: int|
                                0 <= j < i + 1 && #[trigger] registers@[j].address == (RegisterAddress {
                                    register_type: table,
                                    address: x as u16,
                                });
                            assert(j != i);
                        }
                    }
                }
            }
        } else {
            proof {
                assert forall|x: int| 0 <= x < 0x1_0000 implies (#[trigger] p@[x] <==> exists|j: int|
                    0 <= j < i + 1 && #[trigger] registers@[j].address == (RegisterAddress {
                        register_type: table,
                        address: x as u16,
                    })) by {
                    if exists|j: int|
                        0 <= j < i + 1 && #[trigger] registers@[j].address == (RegisterAddress {
                            register_type: table,
                            address: x as u16,
                        }) {
                        let j = choose|j: int|
                            0 <= j < i + 1 && #[trigger] registers@[j].address == (RegisterAddress {
                                register_type: table,
                                address: x as u16,
                            });
                        assert(j != i);
                    }
                }
            }
        }
        i = i + 1;
    }
    p
}

/// The runs of `table` among `registers`, planned greedily (see `is_greedy_plan`).
pub fn plan_runs(registers: &Vec<RegisterMetadata>, table: ModbusAddressType) -> (runs: Vec<(u16, u16)>)
    ensures
        is_greedy_plan(registers@, table, runs@),
{
    let present = presence(registers, table);
    let ghost regs = registers@;
    let mut runs: Vec<(u16, u16)> = Vec::new();
    let mut x: usize = 0;
    while x < 0x1_0000
        invariant
            x <= 0x1_0000,
            present@.len() == 0x1_0000,
            regs == registers@,
            forall|y: int| 0 <= y < 0x1_0000 ==> (#[trigger] present@[y] <==> has_register(regs, table, y)),
            forall|k: int|
                0 <= k < runs@.len() ==> 1 <= (#[trigger] runs@[k]).1 <= MAX_CHUNK_LEN && runs@[k].0
                    + runs@[k].1 <= x,
            forall|k: int|
                0 <= k < runs@.len() ==> has_register(regs, table, (#[trigger] runs@[k]).0 as int)
                    && has_register(regs, table, runs@[k].0 + runs@[k].1 - 1),
            forall|k: int, y: int|
                0 <= k < runs@.len() && (#[trigger] runs@[k]).0 + runs@[k].1 <= y < runs@[k].0
                    + MAX_CHUNK_LEN ==> !#[trigger] has_register(regs, table, y),
            forall|k: int, j: int|
                0 <= k < j < runs@.len() ==> (#[trigger] runs@[k]).0 + runs@[k].1 <= (
                #[trigger] runs@[j]).0,
            forall|y: int|
                0 <= y < x && #[trigger] has_register(regs, table, y) ==> exists|k: int|
                    0 <= k < runs@.len() && #[trigger] covers(runs@[k], y),
        decreases 0x1_0000 - x,
    {
        if present[x] {
            let lim: usize = if x + 100 < 0x1_0000 {
                x + 100
            } else {
                0x1_0000
            };
            let mut e: usize = x;
            let mut y: usize = x + 1;
            while y < lim
                invariant
                    x <= e < y <= lim,
                    lim <= 0x1_0000,
                    lim <= x + 100,
                    present@.len() == 0x1_0000,
                    present@[e as int],
                    forall|z: int| e < z < y ==> !#[trigger] present@[z],
                decreases lim - y,
            {
                if present[y] {
                    e = y;
                }
                y = y + 1;
            }
            let run: (u16, u16) = (x as u16, (e - x + 1) as u16);
            let ghost old_runs = runs@;
            runs.push(run);
            proof {
                assert(has_register(regs, table, x as int));
                assert(has_register(regs, table, e as int));
                assert forall|k: int, z: int|
                    0 <= k < runs@.len() && (#[trigger] runs@[k]).0 + runs@[k].1 <= z < runs@[k].0
                        + MAX_CHUNK_LEN implies !#[trigger] has_register(regs, table, z) by {
                    if k < old_runs.len() {
                        assert(runs@[k] == old_runs[k]);
                    } else {
                        assert(runs@[k] == run);
                        if z < 0x1_0000 {
                            assert(!present@[z]);
                        }
                    }
                }
                assert forall|k: int, j: int|
                    0 <= k < j < runs@.len() implies (#[trigger] runs@[k]).0 + runs@[k].1 <= (
                    #[trigger] runs@[j]).0 by {
                    assert(runs@[k] == old_runs[k]);
                    if j < old_runs.len() {
                        assert(runs@[j] == old_runs[j]);
                    }
                }
                assert forall|z: int|
                    0 <= z < e + 1 && #[trigger] has_register(regs, table, z) implies exists|k: int|
                        0 <= k < runs@.len() && #[trigger] covers(runs@[k], z) by {
                    if z < x {
                        let k = choose|k: int| 0 <= k < old_runs.len() && #[trigger] covers(old_runs[k], z);
                        assert(runs@[k] == old_runs[k]);
                        assert(covers(runs@[k], z));
                    } else {
                        assert(runs@[old_runs.len() as int] == run);
                        assert(covers(runs@[old_runs.len() as int], z));
                    }
                }
            }
            x = e + 1;
        } else {
            proof {
                assert forall|z: int|
                    0 <= z < x + 1 && #[trigger] has_register(regs, table, z) implies exists|k: int|
                        0 <= k < runs@.len() && #[trigger] covers(runs@[k], z) by {
                    if z == x {
                        assert(present@[z]);
                    }
                }
            }
            x = x + 1;
        }
    }
    proof {
        assert forall|z: int| #[trigger] has_register(regs, table, z) implies exists|k: int|
            0 <= k < runs@.len() && #[trigger] covers(runs@[k], z) by {
            assert(0 <= z < 0x1_0000);
        }
    }
    runs
}

/// The table a chunk reads, and its first address and length.
pub open spec fn chunk_run(c: ModbusChunk) -> (ModbusAddressType, (u16, u16)) {
    match c {
        ModbusChunk::Coils { address, count } => (ModbusAddressType::Coil, (address, count)),
        ModbusChunk::DiscreteInputs { address, count } => (ModbusAddressType::DiscreteInput, (address, count)),
        ModbusChunk::InputRegisters { address, count } => (ModbusAddressType::InputRegister, (address, count)),
        ModbusChunk::HoldingRegisters { address, count } => (ModbusAddressType::HoldingRegister, (address, count)),
    }
}

/// The runs of the chunks in `chunks` that read `table`, in order.
pub open spec fn runs_of(chunks: Seq<ModbusChunk>, table: ModbusAddressType) -> Seq<(u16, u16)>
    decreases chunks.len(),
{
    if chunks.len() == 0 {
        Seq::empty()
    } else {
        let rest = runs_of(chunks.drop_last(), table);
        if chunk_run(chunks.last()).0 == table {
            rest.push(chunk_run(chunks.last()).1)
        } else {
            rest
        }
    }
}

fn chunk_of(table: ModbusAddressType, run: (u16, u16)) -> (c: ModbusChunk)
    ensures
        chunk_run(c) == (table, run),
{
    match table {
        ModbusAddressType::Coil => ModbusChunk::Coils { address: run.0, count: run.1 },
        ModbusAddressType::DiscreteInput => ModbusChunk::DiscreteInputs { address: run.0, count: run.1 },
        ModbusAddressType::InputRegister => ModbusChunk::InputRegisters { address: run.0, count: run.1 },
        ModbusAddressType::HoldingRegister => ModbusChunk::HoldingRegisters { address: run.0, count: run.1 },
    }
}

fn append_runs(chunks: &mut Vec<ModbusChunk>, table: ModbusAddressType, runs: &Vec<(u16, u16)>)
    ensures
        forall|t: ModbusAddressType|
            #[trigger] runs_of(final(chunks)@, t) == if t == table {
                runs_of(old(chunks)@, t) + runs@
            } else {
                runs_of(old(chunks)@, t)
            },
{
    let mut i: usize = 0;
    while i < runs.len()
        invariant
            i <= runs@.len(),
            forall|t: ModbusAddressType|
                #[trigger] runs_of(chunks@, t) == if t == table {
                    runs_of(old(chunks)@, t) + runs@.take(i as int)
                } else {
                    runs_of(old(chunks)@, t)
                },
        decreases runs.len() - i,
    {
        let c = chunk_of(table, runs[i]);
        let ghost before = chunks@;
        chunks.push(c);
        proof {
            assert(chunks@.drop_last() =~= before);
            assert forall|t: ModbusAddressType| #[trigger] runs_of(chunks@, t) == if t == table {
                runs_of(old(chunks)@, t) + runs@.take(i + 1)
            } else {
                runs_of(old(chunks)@, t)
            } by {
                assert(chunks@.last() == c);
                assert(runs_of(before, t) == if t == table {
                    runs_of(old(chunks)@, t) + runs@.take(i as int)
                } else {
                    runs_of(old(chunks)@, t)
                });
                assert(runs_of(chunks@, t) == if chunk_run(c).0 == t {
                    runs_of(before, t).push(chunk_run(c).1)
                } else {
                    runs_of(before, t)
                });
                if t == table {
                    assert(runs@.take(i + 1) =~= runs@.take(i as int).push(runs@[i as int]));
                    assert(runs_of(old(chunks)@, t) + runs@.take(i + 1) =~= (runs_of(old(chunks)@, t)
                        + runs@.take(i as int)).push(runs@[i as int]));
                }
            }
        }
        i = i + 1;
    }
    proof {
        assert(runs@.take(runs@.len() as int) =~= runs@);
    }
}

/// The poll chunks for `registers`: for each table in turn (coils, discrete inputs, input
/// registers, holding registers), the registers' addresses batched greedily into runs of
/// at most 100 addresses.
pub fn plan_chunks(registers: &Vec<RegisterMetadata>) -> (chunks: Vec<ModbusChunk>)
    ensures
        forall|t: ModbusAddressType| is_greedy_plan(registers@, t, #[trigger] runs_of(chunks@, t)),
{
    let mut chunks: Vec<ModbusChunk> = Vec::new();
    let coils = plan_runs(registers, ModbusAddressType::Coil);
    let discs = plan_runs(registers, ModbusAddressType::DiscreteInput);
    let iregs = plan_runs(registers, ModbusAddressType::InputRegister);
    let hregs = plan_runs(registers, ModbusAddressType::HoldingRegister);
    proof {
        assert forall|t: ModbusAddressType| #[trigger] runs_of(chunks@, t) == Seq::<(u16, u16)>::empty() by {}
    }
    append_runs(&mut chunks, ModbusAddressType::Coil, &coils);
    append_runs(&mut chunks, ModbusAddressType::DiscreteInput, &discs);
    append_runs(&mut chunks, ModbusAddressType::InputRegister, &iregs);
    append_runs(&mut chunks, ModbusAddressType::HoldingRegister, &hregs);
    proof {
        assert forall|t: ModbusAddressType| is_greedy_plan(registers@, t, #[trigger] runs_of(chunks@, t)) by {
            match t {
                ModbusAddressType::Coil => {
                    assert(runs_of(chunks@, t) =~= coils@);
                },
                ModbusAddressType::DiscreteInput => {
                    assert(runs_of(chunks@, t) =~= discs@);
                },
                ModbusAddressType::InputRegister => {
                    assert(runs_of(chunks@, t) =~= iregs@);
                },
                ModbusAddressType::HoldingRegister => {
                    assert(runs_of(chunks@, t) =~= hregs@);
                },
            }
        }
    }
    chunks
}

/// Whether some chunk of `chunks` reads the register at `a`: one of its table whose run
/// covers the address.
pub open spec fn read_by_some_chunk(chunks: Seq<ModbusChunk>, a: RegisterAddress) -> bool {
    exists|k: int|
        0 <= k < chunks.len() && chunk_run(#[trigger] chunks[k]).0 == a.register_type && covers(
            chunk_run(chunks[k]).1,
            a.address as int,
        )
}

/// Whether a chunk from the `k`th on reads the register at `a`, checked one by one.
pub open spec fn read_by_chunk_from(chunks: Seq<ModbusChunk>, a: RegisterAddress, k: nat) -> bool
    decreases chunks.len() - k,
{
    if k >= chunks.len() {
        false
    } else {
        (chunk_run(chunks[k as int]).0 == a.register_type && covers(chunk_run(chunks[k as int]).1, a.address as int))
            || read_by_chunk_from(chunks, a, k + 1)
    }
}

/// Whether every register from the `i`th on is read by some chunk, checked one by one.
pub open spec fn all_read_from(registers: Seq<RegisterMetadata>, chunks: Seq<ModbusChunk>, i: nat) -> bool
    decreases registers.len() - i,
{
    if i >= registers.len() {
        true
    } else {
        read_by_chunk_from(chunks, registers[i as int].address, 0) && all_read_from(registers, chunks, i + 1)
    }
}

proof fn lemma_read_by_chunk_from(chunks: Seq<ModbusChunk>, a: RegisterAddress, k: nat)
    requires
        read_by_chunk_from(chunks, a, k),
    ensures
        read_by_some_chunk(chunks, a),
    decreases chunks.len() - k,
{
    if chunk_run(chunks[k as int]).0 == a.register_type && covers(chunk_run(chunks[k as int]).1, a.address as int) {
        assert(0 <= k < chunks.len());
    } else {
        lemma_read_by_chunk_from(chunks, a, k + 1);
    }
}

/// The one-by-one check of `all_read_from` from the first register on means that each
/// register is read by some chunk.
pub proof fn lemma_all_read(registers: Seq<RegisterMetadata>, chunks: Seq<ModbusChunk>)
    requires
        all_read_from(registers, chunks, 0),
    ensures
        forall|i: int| 0 <= i < registers.len() ==> read_by_some_chunk(chunks, #[trigger] registers[i].address),
{
    assert forall|i: int| 0 <= i < registers.len() implies read_by_some_chunk(chunks, #[trigger] registers[i].address) by {
        lemma_all_read_from(registers, chunks, 0, i as nat);
        lemma_read_by_chunk_from(chunks, registers[i].address, 0);
    }
}

proof fn lemma_all_read_from(registers: Seq<RegisterMetadata>, chunks: Seq<ModbusChunk>, i: nat, j: nat)
    requires
        all_read_from(registers, chunks, i),
        i <= j < registers.len(),
    ensures
        read_by_chunk_from(chunks, registers[j as int].address, 0),
    decreases j - i,
{
    if i < j {
        lemma_all_read_from(registers, chunks, i + 1, j);
    }
}

} // verus!
