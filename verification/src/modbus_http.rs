//! The raw register page: read a block of holding registers, write one.
use vstd::prelude::*;
use crate::modbus::modbus_transaction_types::{ReadHoldingRegistersRequest, WriteSingleRegisterRequest};
use crate::text::{decimal, decimal_string, push_str};

verus! {

/// A block of holding registers as shown: each register's address and value.
#[derive(Debug)]
pub struct RegistersTemplate {
    pub start_address: u16,
    pub registers: Vec<(u16, u16)>,
}

/// The read form as submitted.
#[derive(Debug, Clone, Copy)]
pub struct ReadForm {
    pub address: u16,
    pub count: u16,
}

/// The write form as submitted.
#[derive(Debug, Clone, Copy)]
pub struct WriteForm {
    pub address: u16,
    pub value: u16,
}

/// The request a read form makes.
pub fn read_request(form: ReadForm) -> (r: ReadHoldingRegistersRequest)
    ensures
        r.address == form.address,
        r.count == form.count,
{
    ReadHoldingRegistersRequest { address: form.address, count: form.count }
}

/// The request a write form makes.
pub fn write_request(form: WriteForm) -> (r: WriteSingleRegisterRequest)
    ensures
        r.address == form.address,
        r.value == form.value,
{
    WriteSingleRegisterRequest { address: form.address, value: form.value }
}

/// The block read from `start`: the `k`-th value belongs to register `start + k`.
/// The block must not run past the last register address.
pub fn registers_template(start: u16, values: &Vec<u16>) -> (t: RegistersTemplate)
    requires
        start + values@.len() <= 0x1_0000,
    ensures
        t.start_address == start,
        t.registers@.len() == values@.len(),
        forall|k: int| 0 <= k < values@.len() ==> #[trigger] t.registers@[k] == (
        (start + k) as u16, values@[k]),
{
    let mut registers: Vec<(u16, u16)> = Vec::new();
    let mut i: usize = 0;
    while i < values.len()
        invariant
            i <= values@.len(),
            start + values@.len() <= 0x1_0000,
            registers@.len() == i,
            forall|k: int| 0 <= k < i ==> #[trigger] registers@[k] == ((start + k) as u16, values@[k]),
        decreases values.len() - i,
    {
        let address = start + i as u16;
        registers.push((address, values[i]));
        i = i + 1;
    }
    RegistersTemplate { start_address: start, registers }
}

pub open spec fn spec_write_success(form: WriteForm) -> Seq<char> {
    "<p class='write-response green'>✓ Successfully wrote "@ + decimal(form.value as nat)
        + " to register "@ + decimal(form.address as nat) + "</p>"@
}

/// The confirmation shown after a successful write.
pub fn write_success_html(form: WriteForm) -> (s: String)
    ensures
        s@ == spec_write_success(form),
{
    let mut s = String::from_str("<p class='write-response green'>✓ Successfully wrote ");
    let v = decimal_string(form.value as u32);
    push_str(&mut s, v.as_str());
    push_str(&mut s, " to register ");
    let a = decimal_string(form.address as u32);
    push_str(&mut s, a.as_str());
    push_str(&mut s, "</p>");
    s
}

} // verus!
