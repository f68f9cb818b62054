//! The local copy of a device's register tables, the round-robin poll schedule that
//! refreshes it, and the mapping of writes onto function codes.
use vstd::prelude::*;
use std::collections::HashMap;
use crate::error::HmPiError;
use crate::modbus::{ModbusAddressType, ModbusValue, RegisterAddress};
use crate::modbus::modbus_transaction_types::{WriteSingleCoilRequest, WriteSingleRegisterRequest};
use crate::modbus::chunk_plan::chunk_run;

verus! {

broadcast use vstd::std_specs::hash::group_hash_axioms;

/// A contiguous run of registers polled with one request.
#[derive(Clone, Copy, Debug)]
pub enum ModbusChunk {
    Coils { address: u16, count: u16 },
    DiscreteInputs { address: u16, count: u16 },
    InputRegisters { address: u16, count: u16 },
    HoldingRegisters { address: u16, count: u16 },
}

/// The values read for a run starting at `start`, keyed by address.
pub open spec fn chunk_map<T>(start: u16, values: Seq<T>) -> Map<u16, T> {
    Map::new(|a: u16| start <= a < start + values.len(), |a: u16| values[a - start])
}

/// Last-known values of the four tables of one device. An address is absent until a
/// poll has returned a value for it.
pub struct RegisterCache {
    coils: HashMap<u16, bool>,
    discrete_inputs: HashMap<u16, bool>,
    holding_registers: HashMap<u16, u16>,
    input_registers: HashMap<u16, u16>,
}

impl RegisterCache {
    pub closed spec fn coil_map(&self) -> Map<u16, bool> {
        self.coils@
    }

    pub closed spec fn disc_map(&self) -> Map<u16, bool> {
        self.discrete_inputs@
    }

    pub closed spec fn hreg_map(&self) -> Map<u16, u16> {
        self.holding_registers@
    }

    pub closed spec fn ireg_map(&self) -> Map<u16, u16> {
        self.input_registers@
    }

    /// What a read of `a` gives: the cached value of the table `a` names, if any.
    pub open spec fn spec_read(&self, a: RegisterAddress) -> Option<ModbusValue> {
        match a.register_type {
            ModbusAddressType::Coil => if self.coil_map().contains_key(a.address) {
                Some(ModbusValue::Bool(self.coil_map()[a.address]))
            } else {
                None
            },
            ModbusAddressType::DiscreteInput => if self.disc_map().contains_key(a.address) {
                Some(ModbusValue::Bool(self.disc_map()[a.address]))
            } else {
                None
            },
            ModbusAddressType::HoldingRegister => if self.hreg_map().contains_key(a.address) {
                Some(ModbusValue::U16(self.hreg_map()[a.address]))
            } else {
                None
            },
            ModbusAddressType::InputRegister => if self.ireg_map().contains_key(a.address) {
                Some(ModbusValue::U16(self.ireg_map()[a.address]))
            } else {
                None
            },
        }
    }

    /// An empty cache.
    pub fn new() -> (c: Self)
        ensures
            c.coil_map() == Map::<u16, bool>::empty(),
            c.disc_map() == Map::<u16, bool>::empty(),
            c.hreg_map() == Map::<u16, u16>::empty(),
            c.ireg_map() == Map::<u16, u16>::empty(),
    {
        RegisterCache {
            coils: HashMap::new(),
            discrete_inputs: HashMap::new(),
            holding_registers: HashMap::new(),
            input_registers: HashMap::new(),
        }
    }

    /// Forgets every value (done when the link drops).
    pub fn clear_cache(&mut self)
        ensures
            final(self).coil_map() == Map::<u16, bool>::empty(),
            final(self).disc_map() == Map::<u16, bool>::empty(),
            final(self).hreg_map() == Map::<u16, u16>::empty(),
            final(self).ireg_map() == Map::<u16, u16>::empty(),
    {
        self.coils.clear();
        self.discrete_inputs.clear();
        self.holding_registers.clear();
        self.input_registers.clear();
    }

    /// The cached value at `address`, in the table it names.
    pub fn read(&self, address: &RegisterAddress) -> (r: Option<ModbusValue>)
        ensures
            r == self.spec_read(*address),
    {
        let addr = address.address;
        match address.register_type {
            ModbusAddressType::Coil => match self.coils.get(&addr) {
                Some(v) => Some(ModbusValue::Bool(*v)),
                None => None,
            },
            ModbusAddressType::DiscreteInput => match self.discrete_inputs.get(&addr) {
                Some(v) => Some(ModbusValue::Bool(*v)),
                None => None,
            },
            ModbusAddressType::HoldingRegister => match self.holding_registers.get(&addr) {
                Some(v) => Some(ModbusValue::U16(*v)),
                None => None,
            },
            ModbusAddressType::InputRegister => match self.input_registers.get(&addr) {
                Some(v) => Some(ModbusValue::U16(*v)),
                None => None,
            },
        }
    }

    /// A 32-bit value kept in two consecutive word registers, low word first.
    /// Only holding and input registers hold words; for the bit tables the result is `None`.
    pub fn read_u32(&self, address: &RegisterAddress) -> (r: Option<u32>)
        requires
            !address.register_type.is_bit_table() ==> address.address < u16::MAX,
        ensures
            ({
                let m = if address.register_type is HoldingRegister {
                    self.hreg_map()
                } else {
                    self.ireg_map()
                };
                let a = address.address;
                if address.register_type.is_bit_table() {
                    r is None
                } else if m.contains_key(a) && m.contains_key((a + 1) as u16) {
                    r == Some((m[(a + 1) as u16] * 0x10000 + m[a]) as u32)
                } else {
                    r is None
                }
            }),
    {
        let addr = address.address;
        let guard = match address.register_type {
            ModbusAddressType::HoldingRegister => &self.holding_registers,
            ModbusAddressType::InputRegister => &self.input_registers,
            _ => {
                return None;
            },
        };
        let lower = guard.get(&addr);
        let upper = guard.get(&(addr + 1));
        match (lower, upper) {
            (Some(lower), Some(upper)) => {
                let lo = *lower;
                let hi = *upper;
                let number: u32 = ((hi as u32) << 16u32) | lo as u32;
                assert(((hi as u32) << 16u32) | lo as u32 == hi * 0x10000 + lo) by (bit_vector);
                Some(number)
            },
            _ => None,
        }
    }

    pub fn read_coil(&self, address: u16) -> (r: Option<bool>)
        ensures
            r == (if self.coil_map().contains_key(address) {
                Some(self.coil_map()[address])
            } else {
                None
            }),
    {
        match self.coils.get(&address) {
            Some(v) => Some(*v),
            None => None,
        }
    }

    pub fn read_disc(&self, address: u16) -> (r: Option<bool>)
        ensures
            r == (if self.disc_map().contains_key(address) {
                Some(self.disc_map()[address])
            } else {
                None
            }),
    {
        match self.discrete_inputs.get(&address) {
            Some(v) => Some(*v),
            None => None,
        }
    }

    pub fn read_ireg(&self, address: u16) -> (r: Option<u16>)
        ensures
            r == (if self.ireg_map().contains_key(address) {
                Some(self.ireg_map()[address])
            } else {
                None
            }),
    {
        match self.input_registers.get(&address) {
            Some(v) => Some(*v),
            None => None,
        }
    }

    pub fn read_hreg(&self, address: u16) -> (r: Option<u16>)
        ensures
            r == (if self.hreg_map().contains_key(address) {
                Some(self.hreg_map()[address])
            } else {
                None
            }),
    {
        match self.holding_registers.get(&address) {
            Some(v) => Some(*v),
            None => None,
        }
    }

    /// Records the coils read from `start` onwards.
    pub fn update_coils(&mut self, start: u16, values: &[bool])
        requires
            start + values@.len() <= 0x10000,
        ensures
            final(self).coil_map() == old(self).coil_map().union_prefer_right(chunk_map(start, values@)),
            final(self).disc_map() == old(self).disc_map(),
            final(self).hreg_map() == old(self).hreg_map(),
            final(self).ireg_map() == old(self).ireg_map(),
    {
        let ghost old_map = self.coils@;
        let mut i: usize = 0;
        while i < values.len()
            invariant
                i <= values@.len(),
                start + values@.len() <= 0x10000,
                self.coils@ == old_map.union_prefer_right(chunk_map(start, values@.subrange(0, i as int))),
                self.discrete_inputs@ == old(self).discrete_inputs@,
                self.holding_registers@ == old(self).holding_registers@,
                self.input_registers@ == old(self).input_registers@,
            decreases values.len() - i,
        {
            self.coils.insert(i as u16 + start, values[i]);
            proof {
                assert(old_map.union_prefer_right(chunk_map(start, values@.subrange(0, i + 1)))
                    =~= old_map.union_prefer_right(chunk_map(start, values@.subrange(0, i as int))).insert((i + start) as u16, values@[i as int]));
            }
            i = i + 1;
        }
        proof {
            assert(values@.subrange(0, values@.len() as int) =~= values@);
        }
    }

    /// Records the discrete inputs read from `start` onwards.
    pub fn update_discs(&mut self, start: u16, values: &[bool])
        requires
            start + values@.len() <= 0x10000,
        ensures
            final(self).disc_map() == old(self).disc_map().union_prefer_right(chunk_map(start, values@)),
            final(self).coil_map() == old(self).coil_map(),
            final(self).hreg_map() == old(self).hreg_map(),
            final(self).ireg_map() == old(self).ireg_map(),
    {
        let ghost old_map = self.discrete_inputs@;
        let mut i: usize = 0;
        while i < values.len()
            invariant
                i <= values@.len(),
                start + values@.len() <= 0x10000,
                self.discrete_inputs@ == old_map.union_prefer_right(chunk_map(start, values@.subrange(0, i as int))),
                self.coils@ == old(self).coils@,
                self.holding_registers@ == old(self).holding_registers@,
                self.input_registers@ == old(self).input_registers@,
            decreases values.len() - i,
        {
            self.discrete_inputs.insert(i as u16 + start, values[i]);
            proof {
                assert(old_map.union_prefer_right(chunk_map(start, values@.subrange(0, i + 1)))
                    =~= old_map.union_prefer_right(chunk_map(start, values@.subrange(0, i as int))).insert((i + start) as u16, values@[i as int]));
            }
            i = i + 1;
        }
        proof {
            assert(values@.subrange(0, values@.len() as int) =~= values@);
        }
    }

    /// Records the input registers read from `start` onwards.
    pub fn update_ireg_chunk(&mut self, start: u16, values: &[u16])
        requires
            start + values@.len() <= 0x10000,
        ensures
            final(self).ireg_map() == old(self).ireg_map().union_prefer_right(chunk_map(start, values@)),
            final(self).coil_map() == old(self).coil_map(),
            final(self).disc_map() == old(self).disc_map(),
            final(self).hreg_map() == old(self).hreg_map(),
    {
        let ghost old_map = self.input_registers@;
        let mut i: usize = 0;
        while i < values.len()
            invariant
                i <= values@.len(),
                start + values@.len() <= 0x10000,
                self.input_registers@ == old_map.union_prefer_right(chunk_map(start, values@.subrange(0, i as int))),
                self.coils@ == old(self).coils@,
                self.discrete_inputs@ == old(self).discrete_inputs@,
                self.holding_registers@ == old(self).holding_registers@,
            decreases values.len() - i,
        {
            self.input_registers.insert(i as u16 + start, values[i]);
            proof {
                assert(old_map.union_prefer_right(chunk_map(start, values@.subrange(0, i + 1)))
                    =~= old_map.union_prefer_right(chunk_map(start, values@.subrange(0, i as int))).insert((i + start) as u16, values@[i as int]));
            }
            i = i + 1;
        }
        proof {
            assert(values@.subrange(0, values@.len() as int) =~= values@);
        }
    }

    /// Records the holding registers read from `start` onwards.
    pub fn update_hreg_chunk(&mut self, start: u16, values: &[u16])
        requires
            start + values@.len() <= 0x10000,
        ensures
            final(self).hreg_map() == old(self).hreg_map().union_prefer_right(chunk_map(start, values@)),
            final(self).coil_map() == old(self).coil_map(),
            final(self).disc_map() == old(self).disc_map(),
            final(self).ireg_map() == old(self).ireg_map(),
    {
        let ghost old_map = self.holding_registers@;
        let mut i: usize = 0;
        while i < values.len()
            invariant
                i <= values@.len(),
                start + values@.len() <= 0x10000,
                self.holding_registers@ == old_map.union_prefer_right(chunk_map(start, values@.subrange(0, i as int))),
                self.coils@ == old(self).coils@,
                self.discrete_inputs@ == old(self).discrete_inputs@,
                self.input_registers@ == old(self).input_registers@,
            decreases values.len() - i,
        {
            self.holding_registers.insert(i as u16 + start, values[i]);
            proof {
                assert(old_map.union_prefer_right(chunk_map(start, values@.subrange(0, i + 1)))
                    =~= old_map.union_prefer_right(chunk_map(start, values@.subrange(0, i as int))).insert((i + start) as u16, values@[i as int]));
            }
            i = i + 1;
        }
        proof {
            assert(values@.subrange(0, values@.len() as int) =~= values@);
        }
    }
}

/// A write the device accepts: a single coil or a single holding register.
#[derive(Debug)]
pub enum WriteRequest {
    Coil(WriteSingleCoilRequest),
    Register(WriteSingleRegisterRequest),
}

/// Coils take bits and holding registers take words; the input tables are read-only,
/// and any other pairing is a type mismatch.
pub open spec fn spec_plan_write(address: RegisterAddress, value: ModbusValue) -> Result<WriteRequest, HmPiError> {
    match (address.register_type, value) {
        (ModbusAddressType::Coil, ModbusValue::Bool(v)) => Ok(
            WriteRequest::Coil(WriteSingleCoilRequest { address: address.address, value: v }),
        ),
        (ModbusAddressType::HoldingRegister, ModbusValue::U16(v)) => Ok(
            WriteRequest::Register(WriteSingleRegisterRequest { address: address.address, value: v }),
        ),
        (ModbusAddressType::DiscreteInput, _) | (ModbusAddressType::InputRegister, _) => Err(
            HmPiError::LocalRegisterTriedWriteReadOnly(value, address),
        ),
        _ => Err(HmPiError::LocalRegisterTypeMismatch(value, address)),
    }
}

/// Chooses the function code for writing `value` at `address`.
pub fn plan_write(address: &RegisterAddress, value: ModbusValue) -> (r: Result<WriteRequest, HmPiError>)
    ensures
        r == spec_plan_write(*address, value),
{
    let addr = address.address;
    match (address.register_type, value) {
        (ModbusAddressType::Coil, ModbusValue::Bool(v)) => Ok(
            WriteRequest::Coil(WriteSingleCoilRequest { address: addr, value: v }),
        ),
        (ModbusAddressType::HoldingRegister, ModbusValue::U16(v)) => Ok(
            WriteRequest::Register(WriteSingleRegisterRequest { address: addr, value: v }),
        ),
        (ModbusAddressType::DiscreteInput, value) | (ModbusAddressType::InputRegister, value) => Err(
            HmPiError::LocalRegisterTriedWriteReadOnly(value, *address),
        ),
        (_, value) => Err(HmPiError::LocalRegisterTypeMismatch(value, *address)),
    }
}

/// A planned write carries the value and the address it was given: a bit goes to a coil
/// and a word to a holding register, each at the given address and with the given value,
/// and those two pairings are always accepted. Anything else is refused, with the value
/// and the address in the error: as read-only for the input tables, as a type mismatch
/// otherwise.
pub proof fn law_write_carries_value(address: RegisterAddress, value: ModbusValue)
    ensures
        match spec_plan_write(address, value) {
            Ok(WriteRequest::Coil(req)) => {
                &&& address.register_type == ModbusAddressType::Coil
                &&& value == ModbusValue::Bool(req.value)
                &&& req.address == address.address
            },
            Ok(WriteRequest::Register(req)) => {
                &&& address.register_type == ModbusAddressType::HoldingRegister
                &&& value == ModbusValue::U16(req.value)
                &&& req.address == address.address
            },
            Err(e) => if address.register_type == ModbusAddressType::DiscreteInput
                || address.register_type == ModbusAddressType::InputRegister {
                e == HmPiError::LocalRegisterTriedWriteReadOnly(value, address)
            } else {
                e == HmPiError::LocalRegisterTypeMismatch(value, address)
            },
        },
        (address.register_type == ModbusAddressType::Coil && value is Bool)
            || (address.register_type == ModbusAddressType::HoldingRegister && value is U16)
            ==> spec_plan_write(address, value) is Ok,
{
}

/// What one poll tick does.
#[derive(Debug)]
pub enum UpdateStep {
    /// The link is down: forget the cache and report `NotConnected`.
    ClearCacheNotConnected,
    /// Nothing is scheduled.
    Idle,
    /// Read this chunk.
    Poll(ModbusChunk),
}

/// The chunks of a device, polled one per tick in turn.
pub struct ChunkSchedule {
    chunks: Vec<ModbusChunk>,
    cursor: usize,
}

impl ChunkSchedule {
    #[verifier::type_invariant]
    spec fn wf(self) -> bool {
        self.chunks.len() == 0 || self.cursor < self.chunks.len()
    }

    pub closed spec fn spec_chunks(&self) -> Seq<ModbusChunk> {
        self.chunks@
    }

    pub closed spec fn spec_cursor(&self) -> nat {
        self.cursor as nat
    }

    /// A schedule that starts with the first chunk.
    pub fn new(chunks: Vec<ModbusChunk>) -> (s: Self)
        ensures
            s.spec_chunks() == chunks@,
            s.spec_cursor() == 0,
    {
        ChunkSchedule { chunks, cursor: 0 }
    }

    /// Number of chunks scheduled.
    pub fn len(&self) -> (n: usize)
        ensures
            n == self.spec_chunks().len(),
    {
        self.chunks.len()
    }

    /// The step for this tick: clear when disconnected, idle with no chunks, otherwise
    /// poll the chunk under the cursor.
    pub fn plan(&self, connected: bool) -> (r: UpdateStep)
        ensures
            !connected ==> r is ClearCacheNotConnected,
            connected && self.spec_chunks().len() == 0 ==> r is Idle,
            connected && self.spec_chunks().len() > 0 ==> r == UpdateStep::Poll(
                self.spec_chunks()[self.spec_cursor() as int],
            ),
            self.spec_chunks().len() > 0 ==> self.spec_cursor() < self.spec_chunks().len(),
    {
        proof {
            use_type_invariant(self);
        }
        if !connected {
            UpdateStep::ClearCacheNotConnected
        } else if self.chunks.len() == 0 {
            UpdateStep::Idle
        } else {
            UpdateStep::Poll(self.chunks[self.cursor])
        }
    }

    /// Moves on after a successful poll, wrapping after the last chunk.
    pub fn advance(&mut self)
        ensures
            final(self).spec_chunks() == old(self).spec_chunks(),
            old(self).spec_chunks().len() > 0 ==> final(self).spec_cursor() == (old(self).spec_cursor() + 1)
                % old(self).spec_chunks().len(),
            old(self).spec_chunks().len() == 0 ==> final(self).spec_cursor() == old(self).spec_cursor(),
    {
        proof {
            use_type_invariant(&*self);
        }
        if self.chunks.len() > 0 {
            self.cursor = (self.cursor + 1) % self.chunks.len();
        }
    }
}

/// What a poll of one chunk returned: bits for the coil and discrete-input tables, words
/// for the register tables.
#[derive(Debug)]
pub enum ChunkValues {
    Bits(Vec<bool>),
    Words(Vec<u16>),
}

/// Whether `values` can be recorded for `chunk`: they are of its table's kind, and they
/// stay within the address space from the chunk's first address on.
pub open spec fn values_fit(chunk: ModbusChunk, values: ChunkValues) -> bool {
    match (chunk, values) {
        (ModbusChunk::Coils { address, .. }, ChunkValues::Bits(v)) => address + v@.len() <= 0x10000,
        (ModbusChunk::DiscreteInputs { address, .. }, ChunkValues::Bits(v)) => address + v@.len() <= 0x10000,
        (ModbusChunk::InputRegisters { address, .. }, ChunkValues::Words(v)) => address + v@.len() <= 0x10000,
        (ModbusChunk::HoldingRegisters { address, .. }, ChunkValues::Words(v)) => address + v@.len() <= 0x10000,
        _ => false,
    }
}

/// Tells whether `values` can be recorded for `chunk` (see `values_fit`).
pub fn chunk_values_fit(chunk: &ModbusChunk, values: &ChunkValues) -> (b: bool)
    ensures
        b == values_fit(*chunk, *values),
{
    match (chunk, values) {
        (ModbusChunk::Coils { address, .. }, ChunkValues::Bits(v)) => v.len() <= 0x10000 - *address as usize,
        (ModbusChunk::DiscreteInputs { address, .. }, ChunkValues::Bits(v)) => v.len() <= 0x10000 - *address as usize,
        (ModbusChunk::InputRegisters { address, .. }, ChunkValues::Words(v)) => v.len() <= 0x10000 - *address as usize,
        (ModbusChunk::HoldingRegisters { address, .. }, ChunkValues::Words(v)) => v.len() <= 0x10000 - *address as usize,
        _ => false,
    }
}

/// Whether two caches hold the same values in all four tables.
pub open spec fn same_tables(a: &RegisterCache, b: &RegisterCache) -> bool {
    &&& a.coil_map() == b.coil_map()
    &&& a.disc_map() == b.disc_map()
    &&& a.hreg_map() == b.hreg_map()
    &&& a.ireg_map() == b.ireg_map()
}

/// `after` is `before` with `values` recorded for `chunk`: the chunk's table holds each
/// value at its address from the chunk's first address on, everything else is kept.
pub open spec fn records(before: &RegisterCache, after: &RegisterCache, chunk: ModbusChunk, values: ChunkValues) -> bool {
    match (chunk, values) {
        (ModbusChunk::Coils { address, .. }, ChunkValues::Bits(v)) => {
            &&& after.coil_map() == before.coil_map().union_prefer_right(chunk_map(address, v@))
            &&& after.disc_map() == before.disc_map()
            &&& after.hreg_map() == before.hreg_map()
            &&& after.ireg_map() == before.ireg_map()
        },
        (ModbusChunk::DiscreteInputs { address, .. }, ChunkValues::Bits(v)) => {
            &&& after.coil_map() == before.coil_map()
            &&& after.disc_map() == before.disc_map().union_prefer_right(chunk_map(address, v@))
            &&& after.hreg_map() == before.hreg_map()
            &&& after.ireg_map() == before.ireg_map()
        },
        (ModbusChunk::InputRegisters { address, .. }, ChunkValues::Words(v)) => {
            &&& after.coil_map() == before.coil_map()
            &&& after.disc_map() == before.disc_map()
            &&& after.hreg_map() == before.hreg_map()
            &&& after.ireg_map() == before.ireg_map().union_prefer_right(chunk_map(address, v@))
        },
        (ModbusChunk::HoldingRegisters { address, .. }, ChunkValues::Words(v)) => {
            &&& after.coil_map() == before.coil_map()
            &&& after.disc_map() == before.disc_map()
            &&& after.hreg_map() == before.hreg_map().union_prefer_right(chunk_map(address, v@))
            &&& after.ireg_map() == before.ireg_map()
        },
        _ => false,
    }
}

/// The value a poll returned for the `i`th address of its run.
pub open spec fn polled_value(values: ChunkValues, i: int) -> ModbusValue {
    match values {
        ChunkValues::Bits(v) => ModbusValue::Bool(v@[i]),
        ChunkValues::Words(v) => ModbusValue::U16(v@[i]),
    }
}

/// How many values a poll returned.
pub open spec fn polled_len(values: ChunkValues) -> nat {
    match values {
        ChunkValues::Bits(v) => v@.len(),
        ChunkValues::Words(v) => v@.len(),
    }
}

/// Reading back a poll: once the values read for a chunk are recorded, each address of
/// the run they cover, in the chunk's table, reads as the value polled for it, whatever
/// the other tables hold at that address; every other address, of any table, reads as it
/// did before.
pub proof fn law_read_after_poll(
    before: RegisterCache,
    after: RegisterCache,
    chunk: ModbusChunk,
    values: ChunkValues,
    a: RegisterAddress,
)
    requires
        values_fit(chunk, values),
        records(&before, &after, chunk, values),
    ensures
        ({
            let (table, run) = chunk_run(chunk);
            if a.register_type == table && run.0 <= a.address < run.0 + polled_len(values) {
                after.spec_read(a) == Some(polled_value(values, a.address - run.0))
            } else {
                after.spec_read(a) == before.spec_read(a)
            }
        }),
{
    let (table, run) = chunk_run(chunk);
    match values {
        ChunkValues::Bits(v) => {
            assert(chunk_map(run.0, v@).contains_key(a.address) <==> run.0 <= a.address < run.0 + v@.len());
        },
        ChunkValues::Words(v) => {
            assert(chunk_map(run.0, v@).contains_key(a.address) <==> run.0 <= a.address < run.0 + v@.len());
        },
    }
}

impl ChunkSchedule {
    /// Completes the poll of the chunk under the cursor. When the read succeeded, what it
    /// returned is recorded in `cache` and the cursor moves on to the next chunk, wrapping
    /// after the last; when it failed, its error is returned and cache and cursor stay as
    /// they were, so the same chunk is polled again on the next tick.
    pub fn finish_poll(&mut self, cache: &mut RegisterCache, outcome: Result<ChunkValues, HmPiError>) -> (r: Result<(), HmPiError>)
        requires
            old(self).spec_chunks().len() > 0,
            outcome matches Ok(v) ==> values_fit(old(self).spec_chunks()[old(self).spec_cursor() as int], v),
        ensures
            final(self).spec_chunks() == old(self).spec_chunks(),
            final(self).spec_cursor() < final(self).spec_chunks().len(),
            match outcome {
                Ok(v) => {
                    &&& r is Ok
                    &&& records(&*old(cache), &*final(cache), old(self).spec_chunks()[old(self).spec_cursor() as int], v)
                    &&& final(self).spec_cursor() == (old(self).spec_cursor() + 1) % old(self).spec_chunks().len()
                },
                Err(e) => {
                    &&& r == Err::<(), HmPiError>(e)
                    &&& same_tables(&*final(cache), &*old(cache))
                    &&& final(self).spec_cursor() == old(self).spec_cursor()
                },
            },
    {
        proof {
            use_type_invariant(&*self);
        }
        match outcome {
            Err(e) => Err(e),
            Ok(values) => {
                let chunk = self.chunks[self.cursor];
                match (chunk, values) {
                    (ModbusChunk::Coils { address, .. }, ChunkValues::Bits(v)) => cache.update_coils(address, v.as_slice()),
                    (ModbusChunk::DiscreteInputs { address, .. }, ChunkValues::Bits(v)) => cache.update_discs(address, v.as_slice()),
                    (ModbusChunk::InputRegisters { address, .. }, ChunkValues::Words(v)) => cache.update_ireg_chunk(address, v.as_slice()),
                    (ModbusChunk::HoldingRegisters { address, .. }, ChunkValues::Words(v)) => cache.update_hreg_chunk(address, v.as_slice()),
                    _ => {},
                }
                self.advance();
                proof {
                    use_type_invariant(&*self);
                }
                Ok(())
            },
        }
    }
}

/// How many successful polls after the cursor stands at `cursor` the chunk at `k` is polled.
pub open spec fn polls_until(cursor: nat, k: nat, len: nat) -> nat {
    if k >= cursor {
        (k - cursor) as nat
    } else {
        (len - cursor + k) as nat
    }
}

/// Round robin: from any cursor, every chunk is polled within the next `len` successful polls.
pub proof fn law_round_robin_covers_all(len: nat, cursor: nat, k: nat)
    requires
        cursor < len,
        k < len,
    ensures
        polls_until(cursor, k, len) < len,
        (cursor + polls_until(cursor, k, len)) % len == k,
{
    let j = polls_until(cursor, k, len);
    if k >= cursor {
        assert(cursor + j == k);
        assert((k as int) % (len as int) == k) by (nonlinear_arith)
            requires
                0 <= k < len,
        ;
    } else {
        assert(cursor + j == len + k);
        assert(((len + k) as int) % (len as int) == k) by (nonlinear_arith)
            requires
                0 <= k < len,
        ;
    }
}

/// What a read gives back of a poll: right after a run of holding registers is recorded,
/// each address in the run reads as the value recorded for it.
pub proof fn law_read_after_update(before: Map<u16, u16>, start: u16, values: Seq<u16>, i: int)
    requires
        0 <= i < values.len(),
        start + values.len() <= 0x10000,
    ensures
        ({
            let after = before.union_prefer_right(chunk_map(start, values));
            after.contains_key((start + i) as u16) && after[(start + i) as u16] == values[i]
        }),
{
    let a = (start + i) as u16;
    assert(chunk_map(start, values).contains_key(a));
}

} // verus!
