//! Modbus addressing, values and register descriptions.
use vstd::prelude::*;
use vstd::std_specs::convert::FromSpecImpl;
use crate::text::{str_eq, decimal, decimal_string, hex, hex_padded, push_str, zero_pad};
use crate::modbus::cached_modbus::RegisterCache;

pub mod modbus_transaction_types;
pub mod cached_modbus;
pub mod chunk_plan;
mod modbus;

pub use modbus::{
    begin_connect, finish_connect, law_connect_attempt_settles, law_connect_is_exclusive,
    law_connect_stores_config, op_precheck, settle_connect, spec_begin_connect, spec_finish_connect,
    spec_op_precheck, spec_settle_connect, squash_error, start_connect, LinkConfig, ModbusState,
};

verus! {

/// The four Modbus data tables.
#[derive(Debug, Clone, Copy, PartialEq, Eq, Structural, Hash)]
pub enum ModbusAddressType {
    Coil,
    DiscreteInput,
    HoldingRegister,
    InputRegister,
}

impl ModbusAddressType {
    /// The read function code of the table.
    pub open spec fn spec_function_code(self) -> u8 {
        match self {
            ModbusAddressType::Coil => 0x01,
            ModbusAddressType::DiscreteInput => 0x02,
            ModbusAddressType::HoldingRegister => 0x03,
            ModbusAddressType::InputRegister => 0x04,
        }
    }

    pub open spec fn spec_display(self) -> Seq<char> {
        match self {
            ModbusAddressType::Coil => "Coil"@,
            ModbusAddressType::DiscreteInput => "Discrete Input"@,
            ModbusAddressType::HoldingRegister => "Holding Register"@,
            ModbusAddressType::InputRegister => "Input Register"@,
        }
    }

    /// The table's name as shown to a user.
    pub fn display_name(&self) -> (s: &'static str)
        ensures
            s@ == self.spec_display(),
    {
        match self {
            ModbusAddressType::Coil => "Coil",
            ModbusAddressType::DiscreteInput => "Discrete Input",
            ModbusAddressType::HoldingRegister => "Holding Register",
            ModbusAddressType::InputRegister => "Input Register",
        }
    }

    pub open spec fn spec_variant_name(self) -> Seq<char> {
        match self {
            ModbusAddressType::Coil => "Coil"@,
            ModbusAddressType::DiscreteInput => "DiscreteInput"@,
            ModbusAddressType::HoldingRegister => "HoldingRegister"@,
            ModbusAddressType::InputRegister => "InputRegister"@,
        }
    }

    /// The table's name as written in code, as debug output shows it.
    pub fn variant_name(&self) -> (s: &'static str)
        ensures
            s@ == self.spec_variant_name(),
    {
        match self {
            ModbusAddressType::Coil => "Coil",
            ModbusAddressType::DiscreteInput => "DiscreteInput",
            ModbusAddressType::HoldingRegister => "HoldingRegister",
            ModbusAddressType::InputRegister => "InputRegister",
        }
    }

    /// Whether values of this table hold single bits.
    pub open spec fn is_bit_table(self) -> bool {
        self is Coil || self is DiscreteInput
    }
}

impl From<ModbusAddressType> for u8 {
    fn from(t: ModbusAddressType) -> (r: u8) {
        match t {
            ModbusAddressType::Coil => 0x01,
            ModbusAddressType::DiscreteInput => 0x02,
            ModbusAddressType::HoldingRegister => 0x03,
            ModbusAddressType::InputRegister => 0x04,
        }
    }
}

impl FromSpecImpl<ModbusAddressType> for u8 {
    open spec fn obeys_from_spec() -> bool {
        true
    }

    open spec fn from_spec(t: ModbusAddressType) -> u8 {
        t.spec_function_code()
    }
}

/// One value of a Modbus table: a bit or a 16-bit word.
#[derive(Debug, Clone, Copy, PartialEq, Eq, Structural)]
pub enum ModbusValue {
    Bool(bool),
    U16(u16),
}

impl ModbusValue {
    pub open spec fn spec_display(self) -> Seq<char> {
        match self {
            ModbusValue::Bool(b) => if b {
                "true"@
            } else {
                "false"@
            },
            ModbusValue::U16(u) => decimal(u as nat),
        }
    }

    pub fn as_bool(&self) -> (r: Option<bool>)
        ensures
            r == (match *self {
                ModbusValue::Bool(b) => Some(b),
                _ => None,
            }),
    {
        match self {
            ModbusValue::Bool(b) => Some(*b),
            _ => None,
        }
    }

    pub fn as_u16(&self) -> (r: Option<u16>)
        ensures
            r == (match *self {
                ModbusValue::U16(u) => Some(u),
                _ => None,
            }),
    {
        match self {
            ModbusValue::U16(u) => Some(*u),
            _ => None,
        }
    }

    /// The value as debug output shows it: `Bool(<b>)` or `U16(<n>)`.
    pub open spec fn spec_debug(self) -> Seq<char> {
        match self {
            ModbusValue::Bool(_) => "Bool("@ + self.spec_display() + ")"@,
            ModbusValue::U16(_) => "U16("@ + self.spec_display() + ")"@,
        }
    }

    pub fn to_debug_string(&self) -> (s: String)
        ensures
            s@ == self.spec_debug(),
    {
        let mut s = match self {
            ModbusValue::Bool(_) => String::from_str("Bool("),
            ModbusValue::U16(_) => String::from_str("U16("),
        };
        let v = self.to_display_string();
        push_str(&mut s, v.as_str());
        push_str(&mut s, ")");
        s
    }

    /// The value as shown to a user: `true`/`false`, or the word in decimal.
    pub fn to_display_string(&self) -> (s: String)
        ensures
            s@ == self.spec_display(),
    {
        match self {
            ModbusValue::Bool(b) => if *b {
                String::from_str("true")
            } else {
                String::from_str("false")
            },
            ModbusValue::U16(u) => decimal_string(*u as u32),
        }
    }
}

/// A table and an index into it.
#[derive(Debug, Clone, Copy, PartialEq, Eq, Structural, Hash)]
pub struct RegisterAddress {
    pub register_type: ModbusAddressType,
    pub address: u16,
}

impl RegisterAddress {
    pub fn new(register_type: ModbusAddressType, address: u16) -> (r: Self)
        ensures
            r.register_type == register_type,
            r.address == address,
    {
        Self { register_type, address }
    }

    /// `<table>: 0x<hex>` with at least two hex digits.
    pub open spec fn spec_display(self) -> Seq<char> {
        self.register_type.spec_display() + ": 0x"@ + zero_pad(hex(self.address as nat), 2)
    }

    /// The address as debug output shows it:
    /// `RegisterAddress { register_type: <table>, address: <decimal> }`.
    pub open spec fn spec_debug(self) -> Seq<char> {
        "RegisterAddress { register_type: "@ + self.register_type.spec_variant_name()
            + ", address: "@ + decimal(self.address as nat) + " }"@
    }

    pub fn to_debug_string(&self) -> (s: String)
        ensures
            s@ == self.spec_debug(),
    {
        let mut s = String::from_str("RegisterAddress { register_type: ");
        push_str(&mut s, self.register_type.variant_name());
        push_str(&mut s, ", address: ");
        let a = decimal_string(self.address as u32);
        push_str(&mut s, a.as_str());
        push_str(&mut s, " }");
        s
    }

    pub fn to_display_string(&self) -> (s: String)
        ensures
            s@ == self.spec_display(),
    {
        let mut s = String::from_str(self.register_type.display_name());
        push_str(&mut s, ": 0x");
        let h = hex_padded(self.address as u32, 2);
        push_str(&mut s, h.as_str());
        s
    }
}

/// A named register with a human description.
#[derive(Debug, Clone, Copy)]
pub struct RegisterMetadata {
    pub address: RegisterAddress,
    pub name: &'static str,
    pub description: &'static str,
}

impl RegisterMetadata {
    pub fn new(address: RegisterAddress, name: &'static str, description: &'static str) -> (r:
        Self)
        ensures
            r.address == address,
            r.name == name,
            r.description == description,
    {
        Self { address, name, description }
    }

    pub fn new_raw(
        register_type: ModbusAddressType,
        address: u16,
        name: &'static str,
        description: &'static str,
    ) -> (r: Self)
        ensures
            r.address.register_type == register_type,
            r.address.address == address,
            r.name == name,
            r.description == description,
    {
        Self { address: RegisterAddress::new(register_type, address), name, description }
    }

    /// `<address>: <name>`.
    pub open spec fn spec_debug(self) -> Seq<char> {
        self.address.spec_display() + ": "@ + self.name@
    }

    pub fn to_debug_string(&self) -> (s: String)
        ensures
            s@ == self.spec_debug(),
    {
        let mut s = self.address.to_display_string();
        push_str(&mut s, ": ");
        push_str(&mut s, self.name);
        s
    }
}

/// The last entry of `table` whose name is `name`.
pub open spec fn spec_last_named(table: Seq<RegisterMetadata>, name: Seq<char>) -> Option<RegisterMetadata>
    decreases table.len(),
{
    if table.len() == 0 {
        None
    } else if table.last().name@ == name {
        Some(table.last())
    } else {
        spec_last_named(table.drop_last(), name)
    }
}

/// Looking a register up by name gives the last entry with that name (no later entry
/// holds it), and nothing only when no entry holds the name.
pub proof fn law_last_named_is_last_entry(table: Seq<RegisterMetadata>, name: Seq<char>)
    ensures
        spec_last_named(table, name) is None <==> forall|j: int| 0 <= j < table.len() ==> (#[trigger] table[j]).name@ != name,
        spec_last_named(table, name) matches Some(r) ==> exists|i: int|
            {
                &&& 0 <= i < table.len()
                &&& #[trigger] table[i] == r
                &&& r.name@ == name
                &&& forall|j: int| i < j < table.len() ==> (#[trigger] table[j]).name@ != name
            },
    decreases table.len(),
{
    if table.len() > 0 {
        let last = table.len() - 1;
        assert(table[last] == table.last());
        if table.last().name@ != name {
            let rest = table.drop_last();
            law_last_named_is_last_entry(rest, name);
            if let Some(r) = spec_last_named(rest, name) {
                let i = choose|i: int|
                    {
                        &&& 0 <= i < rest.len()
                        &&& #[trigger] rest[i] == r
                        &&& r.name@ == name
                        &&& forall|j: int| i < j < rest.len() ==> (#[trigger] rest[j]).name@ != name
                    };
                assert(table[i] == rest[i]);
                assert forall|j: int| i < j < table.len() implies (#[trigger] table[j]).name@ != name by {
                    if j < rest.len() {
                        assert(rest[j] == table[j]);
                    }
                }
            } else {
                assert forall|j: int| 0 <= j < table.len() implies (#[trigger] table[j]).name@ != name by {
                    if j < rest.len() {
                        assert(rest[j] == table[j]);
                    }
                }
            }
        }
    }
}

/// Finds a register by name, preferring the later of two entries with the same name.
pub fn lookup_by_name(table: &Vec<RegisterMetadata>, name: &str) -> (r: Option<RegisterMetadata>)
    ensures
        r == spec_last_named(table@, name@),
{
    let mut i = table.len();
    proof {
        assert(table@.subrange(0, i as int) =~= table@);
    }
    while i > 0
        invariant
            i <= table@.len(),
            spec_last_named(table@, name@) == spec_last_named(table@.subrange(0, i as int), name@),
        decreases i,
    {
        let entry = table[i - 1];
        let ghost prefix = table@.subrange(0, i as int);
        if str_eq(entry.name, name) {
            assert(prefix.last() == entry);
            return Some(entry);
        }
        proof {
            assert(prefix.drop_last() =~= table@.subrange(0, i - 1));
        }
        i = i - 1;
    }
    None
}

/// A register whose value held locally differs from the one last read from the device.
pub struct MbDiffStub {
    local_value: ModbusValue,
    value_in_mb: Option<ModbusValue>,
    register: RegisterMetadata,
}

impl MbDiffStub {
    pub closed spec fn spec_local_value(&self) -> ModbusValue {
        self.local_value
    }

    pub closed spec fn spec_value_in_mb(&self) -> Option<ModbusValue> {
        self.value_in_mb
    }

    pub closed spec fn spec_register(&self) -> RegisterMetadata {
        self.register
    }

    /// Compares a bit held locally with the cached device value. Reports a difference only
    /// when the cache holds a bit for the register and it differs from `local_value`.
    pub fn check_bool(regs: &RegisterCache, register: RegisterMetadata, local_value: bool) -> (r:
        Option<Self>)
        ensures
            match regs.spec_read(register.address) {
                Some(ModbusValue::Bool(mb)) => if mb == local_value {
                    r is None
                } else {
                    r matches Some(d) && d.spec_local_value() == ModbusValue::Bool(local_value)
                        && d.spec_value_in_mb() == Some(ModbusValue::Bool(mb))
                        && d.spec_register() == register
                },
                _ => r is None,
            },
    {
        match regs.read(&register.address) {
            Some(ModbusValue::Bool(mb_val)) => if mb_val == local_value {
                None
            } else {
                Some(
                    Self {
                        local_value: ModbusValue::Bool(local_value),
                        value_in_mb: Some(ModbusValue::Bool(mb_val)),
                        register,
                    },
                )
            },
            Some(ModbusValue::U16(_)) => None,
            None => None,
        }
    }

    /// Compares a word held locally with the cached device value. Reports a difference only
    /// when the cache holds a word for the register and it differs from `local_value`.
    pub fn check_word(regs: &RegisterCache, register: RegisterMetadata, local_value: u16) -> (r:
        Option<Self>)
        ensures
            match regs.spec_read(register.address) {
                Some(ModbusValue::U16(mb)) => if mb == local_value {
                    r is None
                } else {
                    r matches Some(d) && d.spec_local_value() == ModbusValue::U16(local_value)
                        && d.spec_value_in_mb() == Some(ModbusValue::U16(mb))
                        && d.spec_register() == register
                },
                _ => r is None,
            },
    {
        match regs.read(&register.address) {
            Some(ModbusValue::U16(mb_val)) => if mb_val == local_value {
                None
            } else {
                Some(
                    Self {
                        local_value: ModbusValue::U16(local_value),
                        value_in_mb: Some(ModbusValue::U16(mb_val)),
                        register,
                    },
                )
            },
            Some(ModbusValue::Bool(_)) => None,
            None => None,
        }
    }

    pub fn new(local_value: ModbusValue, register: RegisterMetadata) -> (r: Self)
        ensures
            r.spec_local_value() == local_value,
            r.spec_value_in_mb() is None,
            r.spec_register() == register,
    {
        Self { local_value, value_in_mb: None, register }
    }

    pub fn local_value(&self) -> (v: ModbusValue)
        ensures
            v == self.spec_local_value(),
    {
        self.local_value
    }

    pub fn value_in_mb(&self) -> (v: Option<ModbusValue>)
        ensures
            v == self.spec_value_in_mb(),
    {
        self.value_in_mb
    }

    pub fn register(&self) -> (m: RegisterMetadata)
        ensures
            m == self.spec_register(),
    {
        self.register
    }

    /// The device write that brings the register to the local value.
    pub fn write_request(&self) -> (r: Result<cached_modbus::WriteRequest, crate::error::HmPiError>)
        ensures
            r == cached_modbus::spec_plan_write(self.spec_register().address, self.spec_local_value()),
    {
        cached_modbus::plan_write(&self.register.address, self.local_value)
    }

    /// `Register{addr: <address> name: <name>} modbus value: <mb>, local value: <local>`.
    pub open spec fn spec_debug(&self) -> Seq<char> {
        "Register{addr: "@ + self.spec_register().address.spec_debug() + " name: "@
            + self.spec_register().name@ + "} modbus value: "@ + spec_dbg(
            self.spec_value_in_mb(),
        ) + ", local value: "@ + self.spec_local_value().spec_display()
    }

    pub fn to_debug_string(&self) -> (s: String)
        ensures
            s@ == self.spec_debug(),
    {
        let mut s = String::from_str("Register{addr: ");
        let a = self.register.address.to_debug_string();
        push_str(&mut s, a.as_str());
        push_str(&mut s, " name: ");
        push_str(&mut s, self.register.name);
        push_str(&mut s, "} modbus value: ");
        let m = dbg_helper(&self.value_in_mb);
        push_str(&mut s, m.as_str());
        push_str(&mut s, ", local value: ");
        let l = self.local_value.to_display_string();
        push_str(&mut s, l.as_str());
        s
    }
}

/// What `dbg_helper` shows for an optional value.
pub open spec fn spec_dbg(val: Option<ModbusValue>) -> Seq<char> {
    match val {
        Some(v) => v.spec_display(),
        None => "None"@,
    }
}

/// Shows an optional value: the value itself, or `None`.
pub fn dbg_helper(val: &Option<ModbusValue>) -> (s: String)
    ensures
        s@ == spec_dbg(*val),
{
    match val {
        Some(v) => v.to_display_string(),
        None => String::from_str("None"),
    }
}

} // verus!
