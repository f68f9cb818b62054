use hm_pi::miller::miller_register_definitions::miller_registers;
use hm_pi::modbus::cached_modbus::ModbusChunk;
use hm_pi::modbus::chunk_plan::{plan_chunks, plan_runs};
use hm_pi::modbus::{ModbusAddressType, RegisterAddress, RegisterMetadata};

fn reg(t: ModbusAddressType, a: u16) -> RegisterMetadata {
    RegisterMetadata::new(RegisterAddress::new(t, a), "r", "")
}

fn runs(chunks: &[ModbusChunk]) -> Vec<(u8, u16, u16)> {
    chunks
        .iter()
        .map(|c| match *c {
            ModbusChunk::Coils { address, count } => (0, address, count),
            ModbusChunk::DiscreteInputs { address, count } => (1, address, count),
            ModbusChunk::InputRegisters { address, count } => (2, address, count),
            ModbusChunk::HoldingRegisters { address, count } => (3, address, count),
        })
        .collect()
}

#[test]
fn chunks_are_sorted_by_table_and_address() {
    let regs = vec![
        reg(ModbusAddressType::HoldingRegister, 20),
        reg(ModbusAddressType::Coil, 150),
        reg(ModbusAddressType::Coil, 5),
        reg(ModbusAddressType::Coil, 0),
        reg(ModbusAddressType::HoldingRegister, 18),
    ];
    let chunks = plan_chunks(&regs);
    assert_eq!(runs(&chunks), vec![(0, 0, 6), (0, 150, 1), (3, 18, 3)]);
}

#[test]
fn chunks_hold_at_most_one_hundred_registers() {
    let regs: Vec<RegisterMetadata> =
        (0..=250u16).map(|a| reg(ModbusAddressType::InputRegister, a)).collect();
    let chunks = plan_chunks(&regs);
    assert_eq!(runs(&chunks), vec![(2, 0, 100), (2, 100, 100), (2, 200, 51)]);
}

#[test]
fn no_registers_give_no_chunks() {
    assert!(plan_chunks(&Vec::new()).is_empty());
    assert!(plan_runs(&vec![reg(ModbusAddressType::Coil, 3)], ModbusAddressType::DiscreteInput).is_empty());
}

#[test]
fn runs_reach_the_top_address() {
    let regs = vec![
        reg(ModbusAddressType::DiscreteInput, 65535),
        reg(ModbusAddressType::DiscreteInput, 65500),
        reg(ModbusAddressType::DiscreteInput, 65500),
    ];
    assert_eq!(plan_runs(&regs, ModbusAddressType::DiscreteInput), vec![(65500, 36)]);
}

#[test]
fn every_miller_register_lies_in_a_planned_chunk() {
    let regs = miller_registers();
    let chunks = runs(&plan_chunks(&regs));
    for r in &regs {
        let t = match r.address.register_type {
            ModbusAddressType::Coil => 0,
            ModbusAddressType::DiscreteInput => 1,
            ModbusAddressType::InputRegister => 2,
            ModbusAddressType::HoldingRegister => 3,
        };
        let a = r.address.address as u32;
        assert!(chunks
            .iter()
            .any(|&(ct, s, n)| ct == t && s as u32 <= a && a < s as u32 + n as u32));
    }
    assert!(chunks.iter().all(|&(_, _, n)| 1 <= n && n <= 100));
}
