//! Register map of the ClearCore motion PLC.
use vstd::prelude::*;
use crate::modbus::{lookup_by_name, spec_last_named, ModbusAddressType, RegisterAddress, RegisterMetadata};
use crate::modbus::cached_modbus::ModbusChunk;
use crate::modbus::chunk_plan::{all_read_from, lemma_all_read, read_by_chunk_from, read_by_some_chunk};

verus! {

/// HMI sets to true after uploading all options
///
/// Coil `CONFIG READY`.
pub const CONFIG_READY: u16 = 1;

/// Is the current operation cancellable (should display cancel button)
///
/// Coil `IS OP CANCELLABLE`.
pub const IS_OP_CANCELLABLE: u16 = 9;

/// Start cycle latch
///
/// Coil `START CYCLE LATCH`.
pub const START_CYCLE_LATCH: u16 = 10;

/// Home latch
///
/// Coil `HOME LATCH`.
pub const HOME_LATCH: u16 = 11;

/// Is currently homing
///
/// Coil `IS HOMING`.
pub const IS_HOMING: u16 = 12;

/// Is homed
///
/// Coil `IS HOMED`.
pub const IS_HOMED: u16 = 13;

/// At start position
///
/// Coil `AT START`.
pub const AT_START: u16 = 14;

/// Go to start latch
///
/// Coil `GO TO START LATCH`.
pub const GO_TO_START_LATCH: u16 = 15;

/// Job is active
///
/// Coil `JOB ACTIVE`.
pub const JOB_ACTIVE: u16 = 16;

/// Cancel operation latch
///
/// Coil `CANCEL OPERATION LATCH`.
pub const CANCEL_OPERATION_LATCH: u16 = 17;

/// HMI commands estop
///
/// Coil `FORCE ESTOP`.
pub const FORCE_ESTOP: u16 = 18;

/// If false, it will be in sim mode
///
/// Coil `WELD ENABLE`.
pub const WELD_ENABLE: u16 = 19;

/// Weld signal
///
/// Coil `WELD SIGNAL`.
pub const WELD_SIGNAL: u16 = 20;

/// When true, gas will be forced on. For purge or pre-flow
///
/// Coil `ENABLE GAS OUTPUT`.
pub const ENABLE_GAS_OUTPUT: u16 = 21;

/// Error state
///
/// Coil `ERROR`.
pub const ERROR: u16 = 22;

/// latch: command left fingers up
///
/// Coil `COMMAND LF UP LATCH`.
pub const COMMAND_LF_UP_LATCH: u16 = 33;

/// latch: command left fingers down
///
/// Coil `COMMAND LF DOWN LATCH`.
pub const COMMAND_LF_DOWN_LATCH: u16 = 34;

/// latch: command right fingers up
///
/// Coil `COMMAND RF UP LATCH`.
pub const COMMAND_RF_UP_LATCH: u16 = 35;

/// latch: command right fingers down
///
/// Coil `COMMAND RF DOWN LATCH`.
pub const COMMAND_RF_DOWN_LATCH: u16 = 36;

/// When true, cycle will use CYCLE_AVC_VREF to manage Z height, else will use CYCLE_Z_STATIC_OFFSET
///
/// Coil `CYCLE USE AVC`.
pub const CYCLE_USE_AVC: u16 = 37;

/// TODO
///
/// Coil `CYCLE USE TOUCH RETRACT`.
pub const CYCLE_USE_TOUCH_RETRACT: u16 = 38;

/// Jog X axis in positive direction
///
/// Coil `JOG X AXIS POSITIVE`.
pub const JOG_X_AXIS_POSITIVE: u16 = 40;

/// Jog X axis in negative direction
///
/// Coil `JOG X AXIS NEGATIVE`.
pub const JOG_X_AXIS_NEGATIVE: u16 = 41;

/// Jog Y axis in positive direction
///
/// Coil `JOG Y AXIS POSITIVE`.
pub const JOG_Y_AXIS_POSITIVE: u16 = 42;

/// Jog Y axis in negative direction
///
/// Coil `JOG Y AXIS NEGATIVE`.
pub const JOG_Y_AXIS_NEGATIVE: u16 = 43;

/// Jog Z axis in positive direction
///
/// Coil `JOG Z AXIS POSITIVE`.
pub const JOG_Z_AXIS_POSITIVE: u16 = 44;

/// Jog Z axis in negative direction
///
/// Coil `JOG Z AXIS NEGATIVE`.
pub const JOG_Z_AXIS_NEGATIVE: u16 = 45;

/// Jog W axis in positive direction
///
/// Coil `JOG W AXIS POSITIVE`.
pub const JOG_W_AXIS_POSITIVE: u16 = 46;

/// Jog W axis in negative direction
///
/// Coil `JOG W AXIS NEGATIVE`.
pub const JOG_W_AXIS_NEGATIVE: u16 = 47;

/// Direction to home the X axis motor. True is positive
///
/// Coil `AXIS X HOME DIRECTION`.
pub const AXIS_X_HOME_DIRECTION_POSITIVE: u16 = 50;

/// Direction to home the Y axis motor. True is positive
///
/// Coil `AXIS Y HOME DIRECTION`.
pub const AXIS_Y_HOME_DIRECTION_POSITIVE: u16 = 51;

/// Direction to home the Z axis motor. True is positive
///
/// Coil `AXIS Z HOME DIRECTION`.
pub const AXIS_Z_HOME_DIRECTION_POSITIVE: u16 = 52;

/// Machine uses Y axis
///
/// Coil `USES Y AXIS`.
pub const USES_Y_AXIS: u16 = 65;

/// Machine uses Z axis
///
/// Coil `USES Z AXIS`.
pub const USES_Z_AXIS: u16 = 66;

/// Machine uses W axis
///
/// Coil `USES W AXIS`.
pub const USES_W_AXIS: u16 = 67;

/// Latch to command X axis go to position
///
/// Coil `X AXIS GO TO POSITION LATCH`.
pub const X_AXIS_GO_TO_POSITION_LATCH: u16 = 68;

/// Latch to command Y axis go to position
///
/// Coil `Y AXIS GO TO POSITION LATCH`.
pub const Y_AXIS_GO_TO_POSITION_LATCH: u16 = 69;

/// Latch to command Z axis go to position
///
/// Coil `Z AXIS GO TO POSITION LATCH`.
pub const Z_AXIS_GO_TO_POSITION_LATCH: u16 = 70;

/// True when X axis is homed
///
/// Coil `X AXIS IS HOMED`.
pub const X_AXIS_IS_HOMED: u16 = 71;

/// True when Y axis is homed
///
/// Coil `Y AXIS IS HOMED`.
pub const Y_AXIS_IS_HOMED: u16 = 72;

/// True when Z axis is homed
///
/// Coil `Z AXIS IS HOMED`.
pub const Z_AXIS_IS_HOMED: u16 = 73;

/// True means welder runs in simulate mode
///
/// Coil `WELDER SIMULATE MODE`.
pub const WELDER_SIMULATE_MODE: u16 = 74;

/// UNUSED True means the touch retract coil on the welder is currently enabled. This is the REQUEST. Not sense feedback.
///
/// Coil `TOUCH RETRACT ENABLED`.
pub const TOUCH_RETRACT_ENABLED: u16 = 75;

/// Like the {}_AXIS_GO_TO_POSITION_LATCH's but instead of an absolute position, it jogs that far from current
///
/// Coil `W AXIS GO TO RELATIVE POSITION LATCH`.
pub const W_AXIS_GO_TO_RELATIVE_POSITION_LATCH: u16 = 76;

/// Discrete input (TODO: define purpose)
///
/// Discrete input `FORGOR`.
pub const FORGOR: u16 = 0;

/// true when an arc is commanded. This happens even in simulate mode, to show when it WOULD be active
///
/// Discrete input `WELDER ARC COMMANDED`.
pub const WELDER_ARC_COMMANDED: u16 = 2;

/// true when an arc is valid. this is from the miller and only happens when there is a REAL ARC
///
/// Discrete input `WELDER ARC VALID`.
pub const WELDER_ARC_VALID: u16 = 3;

/// true when estop is engaged
///
/// Discrete input `IN ESTOP`.
pub const IN_ESTOP: u16 = 4;

/// true when the mandrel latch is sensed to be closed
///
/// Discrete input `MANDREL LATCH CLOSED`.
pub const MANDREL_LATCH_CLOSED: u16 = 5;

/// Are the left fingers currently commanded down
///
/// Discrete input `LF COMMANDED DOWN`.
pub const LF_COMMANDED_DOWN: u16 = 6;

/// Are the right fingers currently commanded down
///
/// Discrete input `RF COMMANDED DOWN`.
pub const RF_COMMANDED_DOWN: u16 = 7;

/// true when clearcore wants to enable touch retract
///
/// Discrete input `TOUCH RETRACT REQUESTED`.
pub const TOUCH_RETRACT_REQUESTED: u16 = 8;

/// Serial number low word
///
/// Input register `SERIAL NUMBER LOW`.
pub const SERIAL_NUMBER_LOW: u16 = 0;

/// Serial number high word
///
/// Input register `SERIAL NUMBER HIGH`.
pub const SERIAL_NUMBER_HIGH: u16 = 1;

/// hundredths of a volt| this shows the voltage on the arc with avc-l/o gating, a convolution, and correction factor
///
/// Input register `MEASURED AVC VOLTAGE`.
pub const MEASURED_AVC_VOLTAGE: u16 = 10;

/// hundredths of an amp| this shows the current on the arc with avc-l/o gating, a convolution, and correction factor
///
/// Input register `MEASURED AVC CURRENT`.
pub const MEASURED_AVC_CURRENT: u16 = 11;

/// port to send UDP logs to. Logs will be sent to whoever connects to modbus on this port. 0 means no logging
///
/// Holding register `UDP LOG PORT`.
pub const UDP_LOG_PORT: u16 = 6;

/// Current position of carriage (hundredths of an inch)
///
/// Holding register `X AXIS POSITION`.
pub const X_AXIS_POSITION: u16 = 8;

/// Current position of carriage (hundredths of an inch)
///
/// Holding register `Y AXIS POSITION`.
pub const Y_AXIS_POSITION: u16 = 9;

/// Current position of carriage (hundredths of an inch)
///
/// Holding register `Z AXIS POSITION`.
pub const Z_AXIS_POSITION: u16 = 10;

/// Distance from 0 to start weld (hundredths of an inch)
///
/// Holding register `CYCLE START POS`.
pub const CYCLE_START_POS: u16 = 13;

/// Distance from 0 to finish weld (hundredths of an inch)
///
/// Holding register `CYCLE END POS`.
pub const CYCLE_END_POS: u16 = 14;

/// Distance from 0 to park after weld cycle (hundredths of an inch)
///
/// Holding register `CYCLE PARK POS`.
pub const CYCLE_PARK_POS: u16 = 15;

/// Speed to weld (hundredths of an inch per minute)
///
/// Holding register `CYCLE WELD SPEED`.
pub const CYCLE_WELD_SPEED: u16 = 16;

/// Speed to extrude wire while welding (hundredths of an inch per minute)
///
/// Holding register `CYCLE WIRE FEED SPEED`.
pub const CYCLE_WIRE_FEED_SPEED: u16 = 18;

/// Currently commanded jogging speed for X axis (hundredths of an inch per minute)
///
/// Holding register `AXIS X COMMANDED JOG SPEED`.
pub const AXIS_X_COMMANDED_JOG_SPEED: u16 = 20;

/// Currently commanded jogging speed for Y axis (hundredths of an inch per minute)
///
/// Holding register `AXIS Y COMMANDED JOG SPEED`.
pub const AXIS_Y_COMMANDED_JOG_SPEED: u16 = 21;

/// Currently commanded jogging speed for Z axis (hundredths of an inch per minute)
///
/// Holding register `AXIS Z COMMANDED JOG SPEED`.
pub const AXIS_Z_COMMANDED_JOG_SPEED: u16 = 22;

/// Currently commanded jogging speed for W axis (hundredths of an inch per minute)
///
/// Holding register `AXIS W COMMANDED JOG SPEED`.
pub const AXIS_W_COMMANDED_JOG_SPEED: u16 = 23;

/// Speed to use when homing X axis (hundredths of an inch per minute)
///
/// Holding register `AXIS X HOMING SPEED`.
pub const AXIS_X_HOMING_SPEED: u16 = 24;

/// Speed to use when homing Y axis (hundredths of an inch per minute)
///
/// Holding register `AXIS Y HOMING SPEED`.
pub const AXIS_Y_HOMING_SPEED: u16 = 25;

/// Speed to use when homing Z axis (hundredths of an inch per minute)
///
/// Holding register `AXIS Z HOMING SPEED`.
pub const AXIS_Z_HOMING_SPEED: u16 = 26;

/// Distance to move X axis away from hardware limit after homing (hundredths of an inch)
///
/// Holding register `AXIS X HOMING OFFSET`.
pub const AXIS_X_HOMING_OFFSET: u16 = 27;

/// Distance to move Y axis away from hardware limit after homing (hundredths of an inch)
///
/// Holding register `AXIS Y HOMING OFFSET`.
pub const AXIS_Y_HOMING_OFFSET: u16 = 28;

/// Distance to move Z axis away from hardware limit after homing (hundredths of an inch)
///
/// Holding register `AXIS Z HOMING OFFSET`.
pub const AXIS_Z_HOMING_OFFSET: u16 = 29;

/// Progress on current job (hundredths of percent, 0..10000)
///
/// Holding register `CYCLE PROGRESS`.
pub const CYCLE_PROGRESS: u16 = 30;

/// Target voltage for AVC (hundredth of volt)
///
/// Holding register `AVC VREF`.
pub const CYCLE_AVC_VREF: u16 = 31;

/// offset to use for Z axis when CYCLE_USE_AVC is false. measured as distance from top of travel (hundredths of an inch)
///
/// Holding register `Z STATIC OFFSET`.
pub const CYCLE_Z_STATIC_OFFSET: u16 = 32;

/// speed to move x axis in cycle when not actively welding (hundredths of an inch per minute)
///
/// Holding register `REPOSITION SPEED X`.
pub const CYCLE_REPOSITION_SPEED_X: u16 = 33;

/// speed to move y axis in cycle when not actively welding (hundredths of an inch per minute)
///
/// Holding register `REPOSITION SPEED Y`.
pub const CYCLE_REPOSITION_SPEED_Y: u16 = 34;

/// speed to move z axis in cycle when not actively welding (hundredths of an inch per minute)
///
/// Holding register `REPOSITION SPEED Z`.
pub const CYCLE_REPOSITION_SPEED_Z: u16 = 35;

/// hundredths of an inch| offset to use for Z axis when torch is up after a cycle. measured as distance from top of travel
///
/// Holding register `AXIS Z TORCH UP OFFSET`.
pub const CYCLE_AXIS_Z_TORCH_UP_OFFSET: u16 = 36;

/// hundredths of an inch| distance to move the Z axis at reposition speed before slowing down during touch retract. measured as distance from top of travel
///
/// Holding register `TOUCH RETRACT REPOSITION DIST`.
pub const CYCLE_TOUCH_RETRACT_REPOSITION_DISTANCE: u16 = 37;

/// hundredths of an inch per minute| probing speed after reaching CYCLE_TOUCH_RETRACT_REPOSITION_DISTANCE during touch retract
///
/// Holding register `TOUCH RETRACT PROBE SPEED`.
pub const CYCLE_TOUCH_RETRACT_PROBE_SPEED: u16 = 38;

/// hundredths of an inch| final height when using touch retract measured from the part (only used with touch retract mode)
///
/// Holding register `TOUCH RETRACT FINAL HEIGHT`.
pub const CYCLE_TOUCH_RETRACT_FINAL_HEIGHT: u16 = 39;

/// unitless factor in thousandths| AVC correction strength multiplier. 1000 == 1.0x
///
/// Holding register `AVC CORRECTION STRENGTH MULTIPLIER`.
pub const CYCLE_AVC_CORRECTION_STRENGTH_MULTIPLIER: u16 = 40;

/// hundredths of an inch per minute| speed limit for z axis while making AVC correction moves
///
/// Holding register `AVC TRAVEL SPEED Z`.
pub const CYCLE_AVC_TRAVEL_SPEED_Z: u16 = 41;

/// unitless factor| This number divided by 10000 is multiplied by the raw adc voltage reading to get the actual arc voltage
///
/// Holding register `ARC VOLTAGE ADC CORRECTION`.
pub const ARC_VOLTAGE_CALIBRATION_FACTOR: u16 = 60;

/// unitless factor| This number divided by 10000 is multiplied by the raw adc current reading to get the actual arc current
///
/// Holding register `ARC CURRENT ADC CORRECTION`.
pub const ARC_CURRENT_CALIBRATION_FACTOR: u16 = 61;

/// u32 where combined value over 10^9 is inches per step. range: 0..4.294967296
///
/// Holding register `X AXIS SCALING`.
pub const INCHES_PER_STEP_X_AXIS_LOWER: u16 = 64;

/// See HUNDREDTHS_PER_STEP_X_AXIS_LOWER
///
/// Holding register `X AXIS SCALING UPPER`.
pub const INCHES_PER_STEP_X_AXIS_UPPER: u16 = 65;

/// u32 where combined value over 10^9 is inches per step. range: 0..4.294967296
///
/// Holding register `Y AXIS SCALING`.
pub const INCHES_PER_STEP_Y_AXIS_LOWER: u16 = 66;

/// See HUNDREDTHS_PER_STEP_Y_AXIS_LOWER
///
/// Holding register `Y AXIS SCALING UPPER`.
pub const INCHES_PER_STEP_Y_AXIS_UPPER: u16 = 67;

/// u32 where combined value over 10^9 is inches per step. range: 0..4.294967296
///
/// Holding register `Z AXIS SCALING`.
pub const INCHES_PER_STEP_Z_AXIS_LOWER: u16 = 68;

/// See HUNDREDTHS_PER_STEP_Z_AXIS_LOWER
///
/// Holding register `Z AXIS SCALING UPPER`.
pub const INCHES_PER_STEP_Z_AXIS_UPPER: u16 = 69;

/// u32 where combined value over 10^9 is inches per step. range: 0..4.294967296
///
/// Holding register `W AXIS SCALING`.
pub const INCHES_PER_STEP_W_AXIS_LOWER: u16 = 70;

/// See HUNDREDTHS_PER_STEP_W_AXIS_LOWER
///
/// Holding register `W AXIS SCALING UPPER`.
pub const INCHES_PER_STEP_W_AXIS_UPPER: u16 = 71;

/// Minimum position for X axis (hundredths of an inch)
///
/// Holding register `MIN POS X AXIS`.
pub const MIN_POS_X_AXIS_HUNDREDTHS: u16 = 72;

/// Maximum position for X axis (hundredths of an inch)
///
/// Holding register `MAX POS X AXIS`.
pub const MAX_POS_X_AXIS_HUNDREDTHS: u16 = 73;

/// Maximum velocity for X axis (hundredths of an inch per minute)
///
/// Holding register `MAX VEL X AXIS`.
pub const MAX_VEL_X_AXIS_HUNDREDTHS_PER_MINUTE: u16 = 74;

/// Maximum acceleration for X axis (hundredths of an inch per minute per second)
///
/// Holding register `MAX ACCEL X AXIS`.
pub const MAX_ACCEL_X_AXIS_HUNDREDTHS_PER_MINUTE_PER_SECOND: u16 = 75;

/// Minimum position for Y axis (hundredths of an inch)
///
/// Holding register `MIN POS Y AXIS`.
pub const MIN_POS_Y_AXIS_HUNDREDTHS: u16 = 76;

/// Maximum position for Y axis (hundredths of an inch)
///
/// Holding register `MAX POS Y AXIS`.
pub const MAX_POS_Y_AXIS_HUNDREDTHS: u16 = 77;

/// Maximum velocity for Y axis (hundredths of an inch per minute)
///
/// Holding register `MAX VEL Y AXIS`.
pub const MAX_VEL_Y_AXIS_HUNDREDTHS_PER_MINUTE: u16 = 78;

/// Maximum acceleration for Y axis (hundredths of an inch per minute per second)
///
/// Holding register `MAX ACCEL Y AXIS`.
pub const MAX_ACCEL_Y_AXIS_HUNDREDTHS_PER_MINUTE_PER_SECOND: u16 = 79;

/// Minimum position for Z axis (hundredths of an inch)
///
/// Holding register `MIN POS Z AXIS`.
pub const MIN_POS_Z_AXIS_HUNDREDTHS: u16 = 80;

/// Maximum position for Z axis (hundredths of an inch)
///
/// Holding register `MAX POS Z AXIS`.
pub const MAX_POS_Z_AXIS_HUNDREDTHS: u16 = 81;

/// Maximum velocity for Z axis (hundredths of an inch per minute)
///
/// Holding register `MAX VEL Z AXIS`.
pub const MAX_VEL_Z_AXIS_HUNDREDTHS_PER_MINUTE: u16 = 82;

/// Maximum acceleration for Z axis (hundredths of an inch per minute per second)
///
/// Holding register `MAX ACCEL Z AXIS`.
pub const MAX_ACCEL_Z_AXIS_HUNDREDTHS_PER_MINUTE_PER_SECOND: u16 = 83;

/// Maximum velocity for W axis (hundredths of an inch per minute)
///
/// Holding register `MAX VEL W AXIS`.
pub const MAX_VEL_W_AXIS_HUNDREDTHS_PER_MINUTE: u16 = 84;

/// Maximum acceleration for W axis (hundredths of an inch per minute per second)
///
/// Holding register `MAX ACCEL W AXIS`.
pub const MAX_ACCEL_W_AXIS_HUNDREDTHS_PER_MINUTE_PER_SECOND: u16 = 85;

/// Target position for X axis go-to command (hundredths of an inch)
///
/// Holding register `X AXIS GO TO POSITION`.
pub const X_AXIS_GO_TO_POSITION: u16 = 96;

/// Target position for Y axis go-to command (hundredths of an inch)
///
/// Holding register `Y AXIS GO TO POSITION`.
pub const Y_AXIS_GO_TO_POSITION: u16 = 97;

/// Target position for Z axis go-to command (hundredths of an inch)
///
/// Holding register `Z AXIS GO TO POSITION`.
pub const Z_AXIS_GO_TO_POSITION: u16 = 98;

/// Default jog speed for X axis (hundredths of an inch per minute)
///
/// Holding register `AXIS X DEFAULT JOG SPEED`.
pub const AXIS_X_DEFAULT_JOG_SPEED: u16 = 99;

/// Default jog speed for Y axis (hundredths of an inch per minute)
///
/// Holding register `AXIS Y DEFAULT JOG SPEED`.
pub const AXIS_Y_DEFAULT_JOG_SPEED: u16 = 100;

/// Default jog speed for Z axis (hundredths of an inch per minute)
///
/// Holding register `AXIS Z DEFAULT JOG SPEED`.
pub const AXIS_Z_DEFAULT_JOG_SPEED: u16 = 101;

/// Default jog speed for W axis (hundredths of an inch per minute)
///
/// Holding register `AXIS W DEFAULT JOG SPEED`.
pub const AXIS_W_DEFAULT_JOG_SPEED: u16 = 102;

/// hundredths of an inch + 32,768| relative go to position for w axis
///
/// Holding register `W AXIS RELATIVE GO TO POSITION`.
pub const W_AXIS_RELATIVE_GO_TO_POTION: u16 = 103;

/// Every register of the map, in declaration order.
pub open spec fn clearcore_registers_table() -> Seq<RegisterMetadata> {
    seq![
        RegisterMetadata {
            address: RegisterAddress { register_type: ModbusAddressType::Coil, address: CONFIG_READY },
            name: "CONFIG READY",
            description: "Configuration upload complete",
        },
        RegisterMetadata {
            address: RegisterAddress { register_type: ModbusAddressType::Coil, address: IS_OP_CANCELLABLE },
            name: "IS OP CANCELLABLE",
            description: "Cancel is available for the current operation",
        },
        RegisterMetadata {
            address: RegisterAddress { register_type: ModbusAddressType::Coil, address: START_CYCLE_LATCH },
            name: "START CYCLE LATCH",
            description: "Start cycle",
        },
        RegisterMetadata {
            address: RegisterAddress { register_type: ModbusAddressType::Coil, address: HOME_LATCH },
            name: "HOME LATCH",
            description: "Home axes",
        },
        RegisterMetadata {
            address: RegisterAddress { register_type: ModbusAddressType::Coil, address: IS_HOMED },
            name: "IS HOMED",
            description: "Machine homed",
        },
        RegisterMetadata {
            address: RegisterAddress { register_type: ModbusAddressType::Coil, address: AT_START },
            name: "AT START",
            description: "At cycle start position",
        },
        RegisterMetadata {
            address: RegisterAddress { register_type: ModbusAddressType::Coil, address: GO_TO_START_LATCH },
            name: "GO TO START LATCH",
            description: "Move to start position",
        },
        RegisterMetadata {
            address: RegisterAddress { register_type: ModbusAddressType::Coil, address: JOB_ACTIVE },
            name: "JOB ACTIVE",
            description: "Cycle running",
        },
        RegisterMetadata {
            address: RegisterAddress { register_type: ModbusAddressType::Coil, address: CANCEL_OPERATION_LATCH },
            name: "CANCEL OPERATION LATCH",
            description: "Cancel current operation",
        },
        RegisterMetadata {
            address: RegisterAddress { register_type: ModbusAddressType::Coil, address: FORCE_ESTOP },
            name: "FORCE ESTOP",
            description: "Trigger emergency stop",
        },
        RegisterMetadata {
            address: RegisterAddress { register_type: ModbusAddressType::Coil, address: WELD_ENABLE },
            name: "WELD ENABLE",
            description: "Enable welding output",
        },
        RegisterMetadata {
            address: RegisterAddress { register_type: ModbusAddressType::Coil, address: WELD_SIGNAL },
            name: "WELD SIGNAL",
            description: "Weld signal output",
        },
        RegisterMetadata {
            address: RegisterAddress { register_type: ModbusAddressType::Coil, address: ENABLE_GAS_OUTPUT },
            name: "ENABLE GAS OUTPUT",
            description: "Force gas on for purge or pre-flow",
        },
        RegisterMetadata {
            address: RegisterAddress { register_type: ModbusAddressType::DiscreteInput, address: IN_ESTOP },
            name: "IN ESTOP",
            description: "Emergency stop engaged",
        },
        RegisterMetadata {
            address: RegisterAddress { register_type: ModbusAddressType::Coil, address: ERROR },
            name: "ERROR",
            description: "Error active",
        },
        RegisterMetadata {
            address: RegisterAddress { register_type: ModbusAddressType::Coil, address: COMMAND_LF_UP_LATCH },
            name: "COMMAND LF UP LATCH",
            description: "Raise left fingers",
        },
        RegisterMetadata {
            address: RegisterAddress { register_type: ModbusAddressType::Coil, address: COMMAND_LF_DOWN_LATCH },
            name: "COMMAND LF DOWN LATCH",
            description: "Lower left fingers",
        },
        RegisterMetadata {
            address: RegisterAddress { register_type: ModbusAddressType::Coil, address: COMMAND_RF_UP_LATCH },
            name: "COMMAND RF UP LATCH",
            description: "Raise right fingers",
        },
        RegisterMetadata {
            address: RegisterAddress { register_type: ModbusAddressType::Coil, address: COMMAND_RF_DOWN_LATCH },
            name: "COMMAND RF DOWN LATCH",
            description: "Lower right fingers",
        },
        RegisterMetadata {
            address: RegisterAddress { register_type: ModbusAddressType::Coil, address: CYCLE_USE_AVC },
            name: "CYCLE USE AVC",
            description: "Use AVC for Z height control",
        },
        RegisterMetadata {
            address: RegisterAddress { register_type: ModbusAddressType::Coil, address: CYCLE_USE_TOUCH_RETRACT },
            name: "CYCLE USE TOUCH RETRACT",
            description: "Use touch retract for Z height",
        },
        RegisterMetadata {
            address: RegisterAddress { register_type: ModbusAddressType::Coil, address: JOG_X_AXIS_POSITIVE },
            name: "JOG X AXIS POSITIVE",
            description: "Jog X in the positive direction",
        },
        RegisterMetadata {
            address: RegisterAddress { register_type: ModbusAddressType::Coil, address: JOG_X_AXIS_NEGATIVE },
            name: "JOG X AXIS NEGATIVE",
            description: "Jog X in the negative direction",
        },
        RegisterMetadata {
            address: RegisterAddress { register_type: ModbusAddressType::Coil, address: JOG_Y_AXIS_POSITIVE },
            name: "JOG Y AXIS POSITIVE",
            description: "Jog Y in the positive direction",
        },
        RegisterMetadata {
            address: RegisterAddress { register_type: ModbusAddressType::Coil, address: JOG_Y_AXIS_NEGATIVE },
            name: "JOG Y AXIS NEGATIVE",
            description: "Jog Y in the negative direction",
        },
        RegisterMetadata {
            address: RegisterAddress { register_type: ModbusAddressType::Coil, address: JOG_Z_AXIS_POSITIVE },
            name: "JOG Z AXIS POSITIVE",
            description: "Jog Z in the positive direction",
        },
        RegisterMetadata {
            address: RegisterAddress { register_type: ModbusAddressType::Coil, address: JOG_Z_AXIS_NEGATIVE },
            name: "JOG Z AXIS NEGATIVE",
            description: "Jog Z in the negative direction",
        },
        RegisterMetadata {
            address: RegisterAddress { register_type: ModbusAddressType::Coil, address: JOG_W_AXIS_POSITIVE },
            name: "JOG W AXIS POSITIVE",
            description: "Jog W in the positive direction",
        },
        RegisterMetadata {
            address: RegisterAddress { register_type: ModbusAddressType::Coil, address: JOG_W_AXIS_NEGATIVE },
            name: "JOG W AXIS NEGATIVE",
            description: "Jog W in the negative direction",
        },
        RegisterMetadata {
            address: RegisterAddress { register_type: ModbusAddressType::Coil, address: AXIS_X_HOME_DIRECTION_POSITIVE },
            name: "AXIS X HOME DIRECTION",
            description: "X axis homes toward positive",
        },
        RegisterMetadata {
            address: RegisterAddress { register_type: ModbusAddressType::Coil, address: AXIS_Y_HOME_DIRECTION_POSITIVE },
            name: "AXIS Y HOME DIRECTION",
            description: "Y axis homes toward positive",
        },
        RegisterMetadata {
            address: RegisterAddress { register_type: ModbusAddressType::Coil, address: AXIS_Z_HOME_DIRECTION_POSITIVE },
            name: "AXIS Z HOME DIRECTION",
            description: "Z axis homes toward positive",
        },
        RegisterMetadata {
            address: RegisterAddress { register_type: ModbusAddressType::Coil, address: USES_Y_AXIS },
            name: "USES Y AXIS",
            description: "Enable Y axis",
        },
        RegisterMetadata {
            address: RegisterAddress { register_type: ModbusAddressType::Coil, address: USES_Z_AXIS },
            name: "USES Z AXIS",
            description: "Enable Z axis",
        },
        RegisterMetadata {
            address: RegisterAddress { register_type: ModbusAddressType::Coil, address: USES_W_AXIS },
            name: "USES W AXIS",
            description: "Enable W axis",
        },
        RegisterMetadata {
            address: RegisterAddress { register_type: ModbusAddressType::Coil, address: X_AXIS_GO_TO_POSITION_LATCH },
            name: "X AXIS GO TO POSITION LATCH",
            description: "Move X to target position",
        },
        RegisterMetadata {
            address: RegisterAddress { register_type: ModbusAddressType::Coil, address: Y_AXIS_GO_TO_POSITION_LATCH },
            name: "Y AXIS GO TO POSITION LATCH",
            description: "Move Y to target position",
        },
        RegisterMetadata {
            address: RegisterAddress { register_type: ModbusAddressType::Coil, address: Z_AXIS_GO_TO_POSITION_LATCH },
            name: "Z AXIS GO TO POSITION LATCH",
            description: "Move Z to target position",
        },
        RegisterMetadata {
            address: RegisterAddress { register_type: ModbusAddressType::Coil, address: X_AXIS_IS_HOMED },
            name: "X AXIS IS HOMED",
            description: "X axis homed",
        },
        RegisterMetadata {
            address: RegisterAddress { register_type: ModbusAddressType::Coil, address: Y_AXIS_IS_HOMED },
            name: "Y AXIS IS HOMED",
            description: "Y axis homed",
        },
        RegisterMetadata {
            address: RegisterAddress { register_type: ModbusAddressType::Coil, address: Z_AXIS_IS_HOMED },
            name: "Z AXIS IS HOMED",
            description: "Z axis homed",
        },
        RegisterMetadata {
            address: RegisterAddress { register_type: ModbusAddressType::Coil, address: WELDER_SIMULATE_MODE },
            name: "WELDER SIMULATE MODE",
            description: "Simulate welder output",
        },
        RegisterMetadata {
            address: RegisterAddress { register_type: ModbusAddressType::Coil, address: TOUCH_RETRACT_ENABLED },
            name: "TOUCH RETRACT ENABLED",
            description: "Touch retract output enabled (unused)",
        },
        RegisterMetadata {
            address: RegisterAddress { register_type: ModbusAddressType::Coil, address: W_AXIS_GO_TO_RELATIVE_POSITION_LATCH },
            name: "W AXIS GO TO RELATIVE POSITION LATCH",
            description: "Move W by a relative distance",
        },
        RegisterMetadata {
            address: RegisterAddress { register_type: ModbusAddressType::DiscreteInput, address: FORGOR },
            name: "FORGOR",
            description: "Unused discrete input",
        },
        RegisterMetadata {
            address: RegisterAddress { register_type: ModbusAddressType::DiscreteInput, address: WELDER_ARC_COMMANDED },
            name: "WELDER ARC COMMANDED",
            description: "Arc command active",
        },
        RegisterMetadata {
            address: RegisterAddress { register_type: ModbusAddressType::DiscreteInput, address: WELDER_ARC_VALID },
            name: "WELDER ARC VALID",
            description: "Arc detected",
        },
        RegisterMetadata {
            address: RegisterAddress { register_type: ModbusAddressType::DiscreteInput, address: LF_COMMANDED_DOWN },
            name: "LF COMMANDED DOWN",
            description: "Left fingers commanded down",
        },
        RegisterMetadata {
            address: RegisterAddress { register_type: ModbusAddressType::DiscreteInput, address: RF_COMMANDED_DOWN },
            name: "RF COMMANDED DOWN",
            description: "Right fingers commanded down",
        },
        RegisterMetadata {
            address: RegisterAddress { register_type: ModbusAddressType::DiscreteInput, address: TOUCH_RETRACT_REQUESTED },
            name: "TOUCH RETRACT REQUESTED",
            description: "Touch retract requested",
        },
        RegisterMetadata {
            address: RegisterAddress { register_type: ModbusAddressType::InputRegister, address: SERIAL_NUMBER_LOW },
            name: "SERIAL NUMBER LOW",
            description: "Clearcore serial number (low word of 2 part register)",
        },
        RegisterMetadata {
            address: RegisterAddress { register_type: ModbusAddressType::InputRegister, address: SERIAL_NUMBER_HIGH },
            name: "SERIAL NUMBER HIGH",
            description: "Clearcore serial number (high word of 2 part register)",
        },
        RegisterMetadata {
            address: RegisterAddress { register_type: ModbusAddressType::InputRegister, address: MEASURED_AVC_VOLTAGE },
            name: "MEASURED AVC VOLTAGE",
            description: "Measured arc voltage (V)",
        },
        RegisterMetadata {
            address: RegisterAddress { register_type: ModbusAddressType::InputRegister, address: MEASURED_AVC_CURRENT },
            name: "MEASURED AVC CURRENT",
            description: "Measured arc current (A)",
        },
        RegisterMetadata {
            address: RegisterAddress { register_type: ModbusAddressType::HoldingRegister, address: UDP_LOG_PORT },
            name: "UDP LOG PORT",
            description: "UDP log port",
        },
        RegisterMetadata {
            address: RegisterAddress { register_type: ModbusAddressType::HoldingRegister, address: X_AXIS_POSITION },
            name: "X AXIS POSITION",
            description: "X axis position (in)",
        },
        RegisterMetadata {
            address: RegisterAddress { register_type: ModbusAddressType::HoldingRegister, address: Y_AXIS_POSITION },
            name: "Y AXIS POSITION",
            description: "Y axis position (in)",
        },
        RegisterMetadata {
            address: RegisterAddress { register_type: ModbusAddressType::HoldingRegister, address: Z_AXIS_POSITION },
            name: "Z AXIS POSITION",
            description: "Z axis position (in)",
        },
        RegisterMetadata {
            address: RegisterAddress { register_type: ModbusAddressType::HoldingRegister, address: CYCLE_START_POS },
            name: "CYCLE START POS",
            description: "Weld start position (in)",
        },
        RegisterMetadata {
            address: RegisterAddress { register_type: ModbusAddressType::HoldingRegister, address: CYCLE_END_POS },
            name: "CYCLE END POS",
            description: "Weld end position (in)",
        },
        RegisterMetadata {
            address: RegisterAddress { register_type: ModbusAddressType::HoldingRegister, address: CYCLE_PARK_POS },
            name: "CYCLE PARK POS",
            description: "Park position after cycle (in)",
        },
        RegisterMetadata {
            address: RegisterAddress { register_type: ModbusAddressType::HoldingRegister, address: CYCLE_WELD_SPEED },
            name: "CYCLE WELD SPEED",
            description: "Weld travel speed (in/min)",
        },
        RegisterMetadata {
            address: RegisterAddress { register_type: ModbusAddressType::HoldingRegister, address: CYCLE_WIRE_FEED_SPEED },
            name: "CYCLE WIRE FEED SPEED",
            description: "Wire feed speed during weld (in/min)",
        },
        RegisterMetadata {
            address: RegisterAddress { register_type: ModbusAddressType::HoldingRegister, address: AXIS_X_COMMANDED_JOG_SPEED },
            name: "AXIS X COMMANDED JOG SPEED",
            description: "Current X jog speed (in/min)",
        },
        RegisterMetadata {
            address: RegisterAddress { register_type: ModbusAddressType::HoldingRegister, address: AXIS_Y_COMMANDED_JOG_SPEED },
            name: "AXIS Y COMMANDED JOG SPEED",
            description: "Current Y jog speed (in/min)",
        },
        RegisterMetadata {
            address: RegisterAddress { register_type: ModbusAddressType::HoldingRegister, address: AXIS_Z_COMMANDED_JOG_SPEED },
            name: "AXIS Z COMMANDED JOG SPEED",
            description: "Current Z jog speed (in/min)",
        },
        RegisterMetadata {
            address: RegisterAddress { register_type: ModbusAddressType::HoldingRegister, address: AXIS_W_COMMANDED_JOG_SPEED },
            name: "AXIS W COMMANDED JOG SPEED",
            description: "Current W jog speed (in/min)",
        },
        RegisterMetadata {
            address: RegisterAddress { register_type: ModbusAddressType::HoldingRegister, address: AXIS_X_HOMING_SPEED },
            name: "AXIS X HOMING SPEED",
            description: "X axis homing speed (in/min)",
        },
        RegisterMetadata {
            address: RegisterAddress { register_type: ModbusAddressType::HoldingRegister, address: AXIS_Y_HOMING_SPEED },
            name: "AXIS Y HOMING SPEED",
            description: "Y axis homing speed (in/min)",
        },
        RegisterMetadata {
            address: RegisterAddress { register_type: ModbusAddressType::HoldingRegister, address: AXIS_Z_HOMING_SPEED },
            name: "AXIS Z HOMING SPEED",
            description: "Z axis homing speed (in/min)",
        },
        RegisterMetadata {
            address: RegisterAddress { register_type: ModbusAddressType::HoldingRegister, address: AXIS_X_HOMING_OFFSET },
            name: "AXIS X HOMING OFFSET",
            description: "X axis homing offset (in)",
        },
        RegisterMetadata {
            address: RegisterAddress { register_type: ModbusAddressType::HoldingRegister, address: AXIS_Y_HOMING_OFFSET },
            name: "AXIS Y HOMING OFFSET",
            description: "Y axis homing offset (in)",
        },
        RegisterMetadata {
            address: RegisterAddress { register_type: ModbusAddressType::HoldingRegister, address: AXIS_Z_HOMING_OFFSET },
            name: "AXIS Z HOMING OFFSET",
            description: "Z axis homing offset (in)",
        },
        RegisterMetadata {
            address: RegisterAddress { register_type: ModbusAddressType::HoldingRegister, address: CYCLE_PROGRESS },
            name: "CYCLE PROGRESS",
            description: "Cycle progress (%)",
        },
        RegisterMetadata {
            address: RegisterAddress { register_type: ModbusAddressType::HoldingRegister, address: CYCLE_AVC_VREF },
            name: "AVC VREF",
            description: "Target arc voltage (V)",
        },
        RegisterMetadata {
            address: RegisterAddress { register_type: ModbusAddressType::HoldingRegister, address: CYCLE_Z_STATIC_OFFSET },
            name: "Z STATIC OFFSET",
            description: "Fixed Z height when AVC is off (in)",
        },
        RegisterMetadata {
            address: RegisterAddress { register_type: ModbusAddressType::HoldingRegister, address: CYCLE_REPOSITION_SPEED_X },
            name: "REPOSITION SPEED X",
            description: "X axis travel speed between welds (in/min)",
        },
        RegisterMetadata {
            address: RegisterAddress { register_type: ModbusAddressType::HoldingRegister, address: CYCLE_REPOSITION_SPEED_Y },
            name: "REPOSITION SPEED Y",
            description: "Y axis travel speed between welds (in/min)",
        },
        RegisterMetadata {
            address: RegisterAddress { register_type: ModbusAddressType::HoldingRegister, address: CYCLE_REPOSITION_SPEED_Z },
            name: "REPOSITION SPEED Z",
            description: "Z axis travel speed between welds (in/min)",
        },
        RegisterMetadata {
            address: RegisterAddress { register_type: ModbusAddressType::HoldingRegister, address: CYCLE_AXIS_Z_TORCH_UP_OFFSET },
            name: "AXIS Z TORCH UP OFFSET",
            description: "Torch up height after cycle (in)",
        },
        RegisterMetadata {
            address: RegisterAddress { register_type: ModbusAddressType::HoldingRegister, address: CYCLE_TOUCH_RETRACT_REPOSITION_DISTANCE },
            name: "TOUCH RETRACT REPOSITION DIST",
            description: "Touch retract fast travel distance (in)",
        },
        RegisterMetadata {
            address: RegisterAddress { register_type: ModbusAddressType::HoldingRegister, address: CYCLE_TOUCH_RETRACT_PROBE_SPEED },
            name: "TOUCH RETRACT PROBE SPEED",
            description: "Touch retract probe speed (in/min)",
        },
        RegisterMetadata {
            address: RegisterAddress { register_type: ModbusAddressType::HoldingRegister, address: CYCLE_TOUCH_RETRACT_FINAL_HEIGHT },
            name: "TOUCH RETRACT FINAL HEIGHT",
            description: "Touch retract final height (in)",
        },
        RegisterMetadata {
            address: RegisterAddress { register_type: ModbusAddressType::HoldingRegister, address: CYCLE_AVC_CORRECTION_STRENGTH_MULTIPLIER },
            name: "AVC CORRECTION STRENGTH MULTIPLIER",
            description: "AVC correction strength multiplier (x)",
        },
        RegisterMetadata {
            address: RegisterAddress { register_type: ModbusAddressType::HoldingRegister, address: CYCLE_AVC_TRAVEL_SPEED_Z },
            name: "AVC TRAVEL SPEED Z",
            description: "AVC correction Z speed limit (in/min)",
        },
        RegisterMetadata {
            address: RegisterAddress { register_type: ModbusAddressType::HoldingRegister, address: ARC_VOLTAGE_CALIBRATION_FACTOR },
            name: "ARC VOLTAGE ADC CORRECTION",
            description: "Arc voltage calibration factor (unitless)",
        },
        RegisterMetadata {
            address: RegisterAddress { register_type: ModbusAddressType::HoldingRegister, address: ARC_CURRENT_CALIBRATION_FACTOR },
            name: "ARC CURRENT ADC CORRECTION",
            description: "Arc current calibration factor (unitless)",
        },
        RegisterMetadata {
            address: RegisterAddress { register_type: ModbusAddressType::HoldingRegister, address: INCHES_PER_STEP_X_AXIS_LOWER },
            name: "X AXIS SCALING",
            description: "X axis scale (in/step)",
        },
        RegisterMetadata {
            address: RegisterAddress { register_type: ModbusAddressType::HoldingRegister, address: INCHES_PER_STEP_X_AXIS_UPPER },
            name: "X AXIS SCALING UPPER",
            description: "X axis scale (upper word)",
        },
        RegisterMetadata {
            address: RegisterAddress { register_type: ModbusAddressType::HoldingRegister, address: INCHES_PER_STEP_Y_AXIS_LOWER },
            name: "Y AXIS SCALING",
            description: "Y axis scale (in/step)",
        },
        RegisterMetadata {
            address: RegisterAddress { register_type: ModbusAddressType::HoldingRegister, address: INCHES_PER_STEP_Y_AXIS_UPPER },
            name: "Y AXIS SCALING UPPER",
            description: "Y axis scale (upper word)",
        },
        RegisterMetadata {
            address: RegisterAddress { register_type: ModbusAddressType::HoldingRegister, address: INCHES_PER_STEP_Z_AXIS_LOWER },
            name: "Z AXIS SCALING",
            description: "Z axis scale (in/step)",
        },
        RegisterMetadata {
            address: RegisterAddress { register_type: ModbusAddressType::HoldingRegister, address: INCHES_PER_STEP_Z_AXIS_UPPER },
            name: "Z AXIS SCALING UPPER",
            description: "Z axis scale (upper word)",
        },
        RegisterMetadata {
            address: RegisterAddress { register_type: ModbusAddressType::HoldingRegister, address: INCHES_PER_STEP_W_AXIS_LOWER },
            name: "W AXIS SCALING",
            description: "W axis scale (in/step)",
        },
        RegisterMetadata {
            address: RegisterAddress { register_type: ModbusAddressType::HoldingRegister, address: INCHES_PER_STEP_W_AXIS_UPPER },
            name: "W AXIS SCALING UPPER",
            description: "W axis scale (upper word)",
        },
        RegisterMetadata {
            address: RegisterAddress { register_type: ModbusAddressType::HoldingRegister, address: MIN_POS_X_AXIS_HUNDREDTHS },
            name: "MIN POS X AXIS",
            description: "X axis minimum position (in)",
        },
        RegisterMetadata {
            address: RegisterAddress { register_type: ModbusAddressType::HoldingRegister, address: MAX_POS_X_AXIS_HUNDREDTHS },
            name: "MAX POS X AXIS",
            description: "X axis maximum position (in)",
        },
        RegisterMetadata {
            address: RegisterAddress { register_type: ModbusAddressType::HoldingRegister, address: MAX_VEL_X_AXIS_HUNDREDTHS_PER_MINUTE },
            name: "MAX VEL X AXIS",
            description: "X axis maximum speed (in/min)",
        },
        RegisterMetadata {
            address: RegisterAddress { register_type: ModbusAddressType::HoldingRegister, address: MAX_ACCEL_X_AXIS_HUNDREDTHS_PER_MINUTE_PER_SECOND },
            name: "MAX ACCEL X AXIS",
            description: "X axis maximum acceleration (in/min/s)",
        },
        RegisterMetadata {
            address: RegisterAddress { register_type: ModbusAddressType::HoldingRegister, address: MIN_POS_Y_AXIS_HUNDREDTHS },
            name: "MIN POS Y AXIS",
            description: "Y axis minimum position (in)",
        },
        RegisterMetadata {
            address: RegisterAddress { register_type: ModbusAddressType::HoldingRegister, address: MAX_POS_Y_AXIS_HUNDREDTHS },
            name: "MAX POS Y AXIS",
            description: "Y axis maximum position (in)",
        },
        RegisterMetadata {
            address: RegisterAddress { register_type: ModbusAddressType::HoldingRegister, address: MAX_VEL_Y_AXIS_HUNDREDTHS_PER_MINUTE },
            name: "MAX VEL Y AXIS",
            description: "Y axis maximum speed (in/min)",
        },
        RegisterMetadata {
            address: RegisterAddress { register_type: ModbusAddressType::HoldingRegister, address: MAX_ACCEL_Y_AXIS_HUNDREDTHS_PER_MINUTE_PER_SECOND },
            name: "MAX ACCEL Y AXIS",
            description: "Y axis maximum acceleration (in/min/s)",
        },
        RegisterMetadata {
            address: RegisterAddress { register_type: ModbusAddressType::HoldingRegister, address: MIN_POS_Z_AXIS_HUNDREDTHS },
            name: "MIN POS Z AXIS",
            description: "Z axis minimum position (in)",
        },
        RegisterMetadata {
            address: RegisterAddress { register_type: ModbusAddressType::HoldingRegister, address: MAX_POS_Z_AXIS_HUNDREDTHS },
            name: "MAX POS Z AXIS",
            description: "Z axis maximum position (in)",
        },
        RegisterMetadata {
            address: RegisterAddress { register_type: ModbusAddressType::HoldingRegister, address: MAX_VEL_Z_AXIS_HUNDREDTHS_PER_MINUTE },
            name: "MAX VEL Z AXIS",
            description: "Z axis maximum speed (in/min)",
        },
        RegisterMetadata {
            address: RegisterAddress { register_type: ModbusAddressType::HoldingRegister, address: MAX_ACCEL_Z_AXIS_HUNDREDTHS_PER_MINUTE_PER_SECOND },
            name: "MAX ACCEL Z AXIS",
            description: "Z axis maximum acceleration (in/min/s)",
        },
        RegisterMetadata {
            address: RegisterAddress { register_type: ModbusAddressType::HoldingRegister, address: MAX_VEL_W_AXIS_HUNDREDTHS_PER_MINUTE },
            name: "MAX VEL W AXIS",
            description: "W axis maximum speed (in/min)",
        },
        RegisterMetadata {
            address: RegisterAddress { register_type: ModbusAddressType::HoldingRegister, address: MAX_ACCEL_W_AXIS_HUNDREDTHS_PER_MINUTE_PER_SECOND },
            name: "MAX ACCEL W AXIS",
            description: "W axis maximum acceleration (in/min/s)",
        },
        RegisterMetadata {
            address: RegisterAddress { register_type: ModbusAddressType::HoldingRegister, address: X_AXIS_GO_TO_POSITION },
            name: "X AXIS GO TO POSITION",
            description: "X axis target position (in)",
        },
        RegisterMetadata {
            address: RegisterAddress { register_type: ModbusAddressType::HoldingRegister, address: Y_AXIS_GO_TO_POSITION },
            name: "Y AXIS GO TO POSITION",
            description: "Y axis target position (in)",
        },
        RegisterMetadata {
            address: RegisterAddress { register_type: ModbusAddressType::HoldingRegister, address: Z_AXIS_GO_TO_POSITION },
            name: "Z AXIS GO TO POSITION",
            description: "Z axis target position (in)",
        },
        RegisterMetadata {
            address: RegisterAddress { register_type: ModbusAddressType::HoldingRegister, address: AXIS_X_DEFAULT_JOG_SPEED },
            name: "AXIS X DEFAULT JOG SPEED",
            description: "Default X jog speed (in/min)",
        },
        RegisterMetadata {
            address: RegisterAddress { register_type: ModbusAddressType::HoldingRegister, address: AXIS_Y_DEFAULT_JOG_SPEED },
            name: "AXIS Y DEFAULT JOG SPEED",
            description: "Default Y jog speed (in/min)",
        },
        RegisterMetadata {
            address: RegisterAddress { register_type: ModbusAddressType::HoldingRegister, address: AXIS_Z_DEFAULT_JOG_SPEED },
            name: "AXIS Z DEFAULT JOG SPEED",
            description: "Default Z jog speed (in/min)",
        },
        RegisterMetadata {
            address: RegisterAddress { register_type: ModbusAddressType::HoldingRegister, address: AXIS_W_DEFAULT_JOG_SPEED },
            name: "AXIS W DEFAULT JOG SPEED",
            description: "Default W jog speed (in/min)",
        },
        RegisterMetadata {
            address: RegisterAddress { register_type: ModbusAddressType::HoldingRegister, address: W_AXIS_RELATIVE_GO_TO_POTION },
            name: "W AXIS RELATIVE GO TO POSITION",
            description: "W axis relative move distance (in)",
        },
    ]
}

/// Every register of the map, in declaration order.
pub fn clearcore_registers() -> (v: Vec<RegisterMetadata>)
    ensures
        v@ == clearcore_registers_table(),
{
    let v = vec![
        RegisterMetadata {
            address: RegisterAddress { register_type: ModbusAddressType::Coil, address: CONFIG_READY },
            name: "CONFIG READY",
            description: "Configuration upload complete",
        },
        RegisterMetadata {
            address: RegisterAddress { register_type: ModbusAddressType::Coil, address: IS_OP_CANCELLABLE },
            name: "IS OP CANCELLABLE",
            description: "Cancel is available for the current operation",
        },
        RegisterMetadata {
            address: RegisterAddress { register_type: ModbusAddressType::Coil, address: START_CYCLE_LATCH },
            name: "START CYCLE LATCH",
            description: "Start cycle",
        },
        RegisterMetadata {
            address: RegisterAddress { register_type: ModbusAddressType::Coil, address: HOME_LATCH },
            name: "HOME LATCH",
            description: "Home axes",
        },
        RegisterMetadata {
            address: RegisterAddress { register_type: ModbusAddressType::Coil, address: IS_HOMED },
            name: "IS HOMED",
            description: "Machine homed",
        },
        RegisterMetadata {
            address: RegisterAddress { register_type: ModbusAddressType::Coil, address: AT_START },
            name: "AT START",
            description: "At cycle start position",
        },
        RegisterMetadata {
            address: RegisterAddress { register_type: ModbusAddressType::Coil, address: GO_TO_START_LATCH },
            name: "GO TO START LATCH",
            description: "Move to start position",
        },
        RegisterMetadata {
            address: RegisterAddress { register_type: ModbusAddressType::Coil, address: JOB_ACTIVE },
            name: "JOB ACTIVE",
            description: "Cycle running",
        },
        RegisterMetadata {
            address: RegisterAddress { register_type: ModbusAddressType::Coil, address: CANCEL_OPERATION_LATCH },
            name: "CANCEL OPERATION LATCH",
            description: "Cancel current operation",
        },
        RegisterMetadata {
            address: RegisterAddress { register_type: ModbusAddressType::Coil, address: FORCE_ESTOP },
            name: "FORCE ESTOP",
            description: "Trigger emergency stop",
        },
        RegisterMetadata {
            address: RegisterAddress { register_type: ModbusAddressType::Coil, address: WELD_ENABLE },
            name: "WELD ENABLE",
            description: "Enable welding output",
        },
        RegisterMetadata {
            address: RegisterAddress { register_type: ModbusAddressType::Coil, address: WELD_SIGNAL },
            name: "WELD SIGNAL",
            description: "Weld signal output",
        },
        RegisterMetadata {
            address: RegisterAddress { register_type: ModbusAddressType::Coil, address: ENABLE_GAS_OUTPUT },
            name: "ENABLE GAS OUTPUT",
            description: "Force gas on for purge or pre-flow",
        },
        RegisterMetadata {
            address: RegisterAddress { register_type: ModbusAddressType::DiscreteInput, address: IN_ESTOP },
            name: "IN ESTOP",
            description: "Emergency stop engaged",
        },
        RegisterMetadata {
            address: RegisterAddress { register_type: ModbusAddressType::Coil, address: ERROR },
            name: "ERROR",
            description: "Error active",
        },
        RegisterMetadata {
            address: RegisterAddress { register_type: ModbusAddressType::Coil, address: COMMAND_LF_UP_LATCH },
            name: "COMMAND LF UP LATCH",
            description: "Raise left fingers",
        },
        RegisterMetadata {
            address: RegisterAddress { register_type: ModbusAddressType::Coil, address: COMMAND_LF_DOWN_LATCH },
            name: "COMMAND LF DOWN LATCH",
            description: "Lower left fingers",
        },
        RegisterMetadata {
            address: RegisterAddress { register_type: ModbusAddressType::Coil, address: COMMAND_RF_UP_LATCH },
            name: "COMMAND RF UP LATCH",
            description: "Raise right fingers",
        },
        RegisterMetadata {
            address: RegisterAddress { register_type: ModbusAddressType::Coil, address: COMMAND_RF_DOWN_LATCH },
            name: "COMMAND RF DOWN LATCH",
            description: "Lower right fingers",
        },
        RegisterMetadata {
            address: RegisterAddress { register_type: ModbusAddressType::Coil, address: CYCLE_USE_AVC },
            name: "CYCLE USE AVC",
            description: "Use AVC for Z height control",
        },
        RegisterMetadata {
            address: RegisterAddress { register_type: ModbusAddressType::Coil, address: CYCLE_USE_TOUCH_RETRACT },
            name: "CYCLE USE TOUCH RETRACT",
            description: "Use touch retract for Z height",
        },
        RegisterMetadata {
            address: RegisterAddress { register_type: ModbusAddressType::Coil, address: JOG_X_AXIS_POSITIVE },
            name: "JOG X AXIS POSITIVE",
            description: "Jog X in the positive direction",
        },
        RegisterMetadata {
            address: RegisterAddress { register_type: ModbusAddressType::Coil, address: JOG_X_AXIS_NEGATIVE },
            name: "JOG X AXIS NEGATIVE",
            description: "Jog X in the negative direction",
        },
        RegisterMetadata {
            address: RegisterAddress { register_type: ModbusAddressType::Coil, address: JOG_Y_AXIS_POSITIVE },
            name: "JOG Y AXIS POSITIVE",
            description: "Jog Y in the positive direction",
        },
        RegisterMetadata {
            address: RegisterAddress { register_type: ModbusAddressType::Coil, address: JOG_Y_AXIS_NEGATIVE },
            name: "JOG Y AXIS NEGATIVE",
            description: "Jog Y in the negative direction",
        },
        RegisterMetadata {
            address: RegisterAddress { register_type: ModbusAddressType::Coil, address: JOG_Z_AXIS_POSITIVE },
            name: "JOG Z AXIS POSITIVE",
            description: "Jog Z in the positive direction",
        },
        RegisterMetadata {
            address: RegisterAddress { register_type: ModbusAddressType::Coil, address: JOG_Z_AXIS_NEGATIVE },
            name: "JOG Z AXIS NEGATIVE",
            description: "Jog Z in the negative direction",
        },
        RegisterMetadata {
            address: RegisterAddress { register_type: ModbusAddressType::Coil, address: JOG_W_AXIS_POSITIVE },
            name: "JOG W AXIS POSITIVE",
            description: "Jog W in the positive direction",
        },
        RegisterMetadata {
            address: RegisterAddress { register_type: ModbusAddressType::Coil, address: JOG_W_AXIS_NEGATIVE },
            name: "JOG W AXIS NEGATIVE",
            description: "Jog W in the negative direction",
        },
        RegisterMetadata {
            address: RegisterAddress { register_type: ModbusAddressType::Coil, address: AXIS_X_HOME_DIRECTION_POSITIVE },
            name: "AXIS X HOME DIRECTION",
            description: "X axis homes toward positive",
        },
        RegisterMetadata {
            address: RegisterAddress { register_type: ModbusAddressType::Coil, address: AXIS_Y_HOME_DIRECTION_POSITIVE },
            name: "AXIS Y HOME DIRECTION",
            description: "Y axis homes toward positive",
        },
        RegisterMetadata {
            address: RegisterAddress { register_type: ModbusAddressType::Coil, address: AXIS_Z_HOME_DIRECTION_POSITIVE },
            name: "AXIS Z HOME DIRECTION",
            description: "Z axis homes toward positive",
        },
        RegisterMetadata {
            address: RegisterAddress { register_type: ModbusAddressType::Coil, address: USES_Y_AXIS },
            name: "USES Y AXIS",
            description: "Enable Y axis",
        },
        RegisterMetadata {
            address: RegisterAddress { register_type: ModbusAddressType::Coil, address: USES_Z_AXIS },
            name: "USES Z AXIS",
            description: "Enable Z axis",
        },
        RegisterMetadata {
            address: RegisterAddress { register_type: ModbusAddressType::Coil, address: USES_W_AXIS },
            name: "USES W AXIS",
            description: "Enable W axis",
        },
        RegisterMetadata {
            address: RegisterAddress { register_type: ModbusAddressType::Coil, address: X_AXIS_GO_TO_POSITION_LATCH },
            name: "X AXIS GO TO POSITION LATCH",
            description: "Move X to target position",
        },
        RegisterMetadata {
            address: RegisterAddress { register_type: ModbusAddressType::Coil, address: Y_AXIS_GO_TO_POSITION_LATCH },
            name: "Y AXIS GO TO POSITION LATCH",
            description: "Move Y to target position",
        },
        RegisterMetadata {
            address: RegisterAddress { register_type: ModbusAddressType::Coil, address: Z_AXIS_GO_TO_POSITION_LATCH },
            name: "Z AXIS GO TO POSITION LATCH",
            description: "Move Z to target position",
        },
        RegisterMetadata {
            address: RegisterAddress { register_type: ModbusAddressType::Coil, address: X_AXIS_IS_HOMED },
            name: "X AXIS IS HOMED",
            description: "X axis homed",
        },
        RegisterMetadata {
            address: RegisterAddress { register_type: ModbusAddressType::Coil, address: Y_AXIS_IS_HOMED },
            name: "Y AXIS IS HOMED",
            description: "Y axis homed",
        },
        RegisterMetadata {
            address: RegisterAddress { register_type: ModbusAddressType::Coil, address: Z_AXIS_IS_HOMED },
            name: "Z AXIS IS HOMED",
            description: "Z axis homed",
        },
        RegisterMetadata {
            address: RegisterAddress { register_type: ModbusAddressType::Coil, address: WELDER_SIMULATE_MODE },
            name: "WELDER SIMULATE MODE",
            description: "Simulate welder output",
        },
        RegisterMetadata {
            address: RegisterAddress { register_type: ModbusAddressType::Coil, address: TOUCH_RETRACT_ENABLED },
            name: "TOUCH RETRACT ENABLED",
            description: "Touch retract output enabled (unused)",
        },
        RegisterMetadata {
            address: RegisterAddress { register_type: ModbusAddressType::Coil, address: W_AXIS_GO_TO_RELATIVE_POSITION_LATCH },
            name: "W AXIS GO TO RELATIVE POSITION LATCH",
            description: "Move W by a relative distance",
        },
        RegisterMetadata {
            address: RegisterAddress { register_type: ModbusAddressType::DiscreteInput, address: FORGOR },
            name: "FORGOR",
            description: "Unused discrete input",
        },
        RegisterMetadata {
            address: RegisterAddress { register_type: ModbusAddressType::DiscreteInput, address: WELDER_ARC_COMMANDED },
            name: "WELDER ARC COMMANDED",
            description: "Arc command active",
        },
        RegisterMetadata {
            address: RegisterAddress { register_type: ModbusAddressType::DiscreteInput, address: WELDER_ARC_VALID },
            name: "WELDER ARC VALID",
            description: "Arc detected",
        },
        RegisterMetadata {
            address: RegisterAddress { register_type: ModbusAddressType::DiscreteInput, address: LF_COMMANDED_DOWN },
            name: "LF COMMANDED DOWN",
            description: "Left fingers commanded down",
        },
        RegisterMetadata {
            address: RegisterAddress { register_type: ModbusAddressType::DiscreteInput, address: RF_COMMANDED_DOWN },
            name: "RF COMMANDED DOWN",
            description: "Right fingers commanded down",
        },
        RegisterMetadata {
            address: RegisterAddress { register_type: ModbusAddressType::DiscreteInput, address: TOUCH_RETRACT_REQUESTED },
            name: "TOUCH RETRACT REQUESTED",
            description: "Touch retract requested",
        },
        RegisterMetadata {
            address: RegisterAddress { register_type: ModbusAddressType::InputRegister, address: SERIAL_NUMBER_LOW },
            name: "SERIAL NUMBER LOW",
            description: "Clearcore serial number (low word of 2 part register)",
        },
        RegisterMetadata {
            address: RegisterAddress { register_type: ModbusAddressType::InputRegister, address: SERIAL_NUMBER_HIGH },
            name: "SERIAL NUMBER HIGH",
            description: "Clearcore serial number (high word of 2 part register)",
        },
        RegisterMetadata {
            address: RegisterAddress { register_type: ModbusAddressType::InputRegister, address: MEASURED_AVC_VOLTAGE },
            name: "MEASURED AVC VOLTAGE",
            description: "Measured arc voltage (V)",
        },
        RegisterMetadata {
            address: RegisterAddress { register_type: ModbusAddressType::InputRegister, address: MEASURED_AVC_CURRENT },
            name: "MEASURED AVC CURRENT",
            description: "Measured arc current (A)",
        },
        RegisterMetadata {
            address: RegisterAddress { register_type: ModbusAddressType::HoldingRegister, address: UDP_LOG_PORT },
            name: "UDP LOG PORT",
            description: "UDP log port",
        },
        RegisterMetadata {
            address: RegisterAddress { register_type: ModbusAddressType::HoldingRegister, address: X_AXIS_POSITION },
            name: "X AXIS POSITION",
            description: "X axis position (in)",
        },
        RegisterMetadata {
            address: RegisterAddress { register_type: ModbusAddressType::HoldingRegister, address: Y_AXIS_POSITION },
            name: "Y AXIS POSITION",
            description: "Y axis position (in)",
        },
        RegisterMetadata {
            address: RegisterAddress { register_type: ModbusAddressType::HoldingRegister, address: Z_AXIS_POSITION },
            name: "Z AXIS POSITION",
            description: "Z axis position (in)",
        },
        RegisterMetadata {
            address: RegisterAddress { register_type: ModbusAddressType::HoldingRegister, address: CYCLE_START_POS },
            name: "CYCLE START POS",
            description: "Weld start position (in)",
        },
        RegisterMetadata {
            address: RegisterAddress { register_type: ModbusAddressType::HoldingRegister, address: CYCLE_END_POS },
            name: "CYCLE END POS",
            description: "Weld end position (in)",
        },
        RegisterMetadata {
            address: RegisterAddress { register_type: ModbusAddressType::HoldingRegister, address: CYCLE_PARK_POS },
            name: "CYCLE PARK POS",
            description: "Park position after cycle (in)",
        },
        RegisterMetadata {
            address: RegisterAddress { register_type: ModbusAddressType::HoldingRegister, address: CYCLE_WELD_SPEED },
            name: "CYCLE WELD SPEED",
            description: "Weld travel speed (in/min)",
        },
        RegisterMetadata {
            address: RegisterAddress { register_type: ModbusAddressType::HoldingRegister, address: CYCLE_WIRE_FEED_SPEED },
            name: "CYCLE WIRE FEED SPEED",
            description: "Wire feed speed during weld (in/min)",
        },
        RegisterMetadata {
            address: RegisterAddress { register_type: ModbusAddressType::HoldingRegister, address: AXIS_X_COMMANDED_JOG_SPEED },
            name: "AXIS X COMMANDED JOG SPEED",
            description: "Current X jog speed (in/min)",
        },
        RegisterMetadata {
            address: RegisterAddress { register_type: ModbusAddressType::HoldingRegister, address: AXIS_Y_COMMANDED_JOG_SPEED },
            name: "AXIS Y COMMANDED JOG SPEED",
            description: "Current Y jog speed (in/min)",
        },
        RegisterMetadata {
            address: RegisterAddress { register_type: ModbusAddressType::HoldingRegister, address: AXIS_Z_COMMANDED_JOG_SPEED },
            name: "AXIS Z COMMANDED JOG SPEED",
            description: "Current Z jog speed (in/min)",
        },
        RegisterMetadata {
            address: RegisterAddress { register_type: ModbusAddressType::HoldingRegister, address: AXIS_W_COMMANDED_JOG_SPEED },
            name: "AXIS W COMMANDED JOG SPEED",
            description: "Current W jog speed (in/min)",
        },
        RegisterMetadata {
            address: RegisterAddress { register_type: ModbusAddressType::HoldingRegister, address: AXIS_X_HOMING_SPEED },
            name: "AXIS X HOMING SPEED",
            description: "X axis homing speed (in/min)",
        },
        RegisterMetadata {
            address: RegisterAddress { register_type: ModbusAddressType::HoldingRegister, address: AXIS_Y_HOMING_SPEED },
            name: "AXIS Y HOMING SPEED",
            description: "Y axis homing speed (in/min)",
        },
        RegisterMetadata {
            address: RegisterAddress { register_type: ModbusAddressType::HoldingRegister, address: AXIS_Z_HOMING_SPEED },
            name: "AXIS Z HOMING SPEED",
            description: "Z axis homing speed (in/min)",
        },
        RegisterMetadata {
            address: RegisterAddress { register_type: ModbusAddressType::HoldingRegister, address: AXIS_X_HOMING_OFFSET },
            name: "AXIS X HOMING OFFSET",
            description: "X axis homing offset (in)",
        },
        RegisterMetadata {
            address: RegisterAddress { register_type: ModbusAddressType::HoldingRegister, address: AXIS_Y_HOMING_OFFSET },
            name: "AXIS Y HOMING OFFSET",
            description: "Y axis homing offset (in)",
        },
        RegisterMetadata {
            address: RegisterAddress { register_type: ModbusAddressType::HoldingRegister, address: AXIS_Z_HOMING_OFFSET },
            name: "AXIS Z HOMING OFFSET",
            description: "Z axis homing offset (in)",
        },
        RegisterMetadata {
            address: RegisterAddress { register_type: ModbusAddressType::HoldingRegister, address: CYCLE_PROGRESS },
            name: "CYCLE PROGRESS",
            description: "Cycle progress (%)",
        },
        RegisterMetadata {
            address: RegisterAddress { register_type: ModbusAddressType::HoldingRegister, address: CYCLE_AVC_VREF },
            name: "AVC VREF",
            description: "Target arc voltage (V)",
        },
        RegisterMetadata {
            address: RegisterAddress { register_type: ModbusAddressType::HoldingRegister, address: CYCLE_Z_STATIC_OFFSET },
            name: "Z STATIC OFFSET",
            description: "Fixed Z height when AVC is off (in)",
        },
        RegisterMetadata {
            address: RegisterAddress { register_type: ModbusAddressType::HoldingRegister, address: CYCLE_REPOSITION_SPEED_X },
            name: "REPOSITION SPEED X",
            description: "X axis travel speed between welds (in/min)",
        },
        RegisterMetadata {
            address: RegisterAddress { register_type: ModbusAddressType::HoldingRegister, address: CYCLE_REPOSITION_SPEED_Y },
            name: "REPOSITION SPEED Y",
            description: "Y axis travel speed between welds (in/min)",
        },
        RegisterMetadata {
            address: RegisterAddress { register_type: ModbusAddressType::HoldingRegister, address: CYCLE_REPOSITION_SPEED_Z },
            name: "REPOSITION SPEED Z",
            description: "Z axis travel speed between welds (in/min)",
        },
        RegisterMetadata {
            address: RegisterAddress { register_type: ModbusAddressType::HoldingRegister, address: CYCLE_AXIS_Z_TORCH_UP_OFFSET },
            name: "AXIS Z TORCH UP OFFSET",
            description: "Torch up height after cycle (in)",
        },
        RegisterMetadata {
            address: RegisterAddress { register_type: ModbusAddressType::HoldingRegister, address: CYCLE_TOUCH_RETRACT_REPOSITION_DISTANCE },
            name: "TOUCH RETRACT REPOSITION DIST",
            description: "Touch retract fast travel distance (in)",
        },
        RegisterMetadata {
            address: RegisterAddress { register_type: ModbusAddressType::HoldingRegister, address: CYCLE_TOUCH_RETRACT_PROBE_SPEED },
            name: "TOUCH RETRACT PROBE SPEED",
            description: "Touch retract probe speed (in/min)",
        },
        RegisterMetadata {
            address: RegisterAddress { register_type: ModbusAddressType::HoldingRegister, address: CYCLE_TOUCH_RETRACT_FINAL_HEIGHT },
            name: "TOUCH RETRACT FINAL HEIGHT",
            description: "Touch retract final height (in)",
        },
        RegisterMetadata {
            address: RegisterAddress { register_type: ModbusAddressType::HoldingRegister, address: CYCLE_AVC_CORRECTION_STRENGTH_MULTIPLIER },
            name: "AVC CORRECTION STRENGTH MULTIPLIER",
            description: "AVC correction strength multiplier (x)",
        },
        RegisterMetadata {
            address: RegisterAddress { register_type: ModbusAddressType::HoldingRegister, address: CYCLE_AVC_TRAVEL_SPEED_Z },
            name: "AVC TRAVEL SPEED Z",
            description: "AVC correction Z speed limit (in/min)",
        },
        RegisterMetadata {
            address: RegisterAddress { register_type: ModbusAddressType::HoldingRegister, address: ARC_VOLTAGE_CALIBRATION_FACTOR },
            name: "ARC VOLTAGE ADC CORRECTION",
            description: "Arc voltage calibration factor (unitless)",
        },
        RegisterMetadata {
            address: RegisterAddress { register_type: ModbusAddressType::HoldingRegister, address: ARC_CURRENT_CALIBRATION_FACTOR },
            name: "ARC CURRENT ADC CORRECTION",
            description: "Arc current calibration factor (unitless)",
        },
        RegisterMetadata {
            address: RegisterAddress { register_type: ModbusAddressType::HoldingRegister, address: INCHES_PER_STEP_X_AXIS_LOWER },
            name: "X AXIS SCALING",
            description: "X axis scale (in/step)",
        },
        RegisterMetadata {
            address: RegisterAddress { register_type: ModbusAddressType::HoldingRegister, address: INCHES_PER_STEP_X_AXIS_UPPER },
            name: "X AXIS SCALING UPPER",
            description: "X axis scale (upper word)",
        },
        RegisterMetadata {
            address: RegisterAddress { register_type: ModbusAddressType::HoldingRegister, address: INCHES_PER_STEP_Y_AXIS_LOWER },
            name: "Y AXIS SCALING",
            description: "Y axis scale (in/step)",
        },
        RegisterMetadata {
            address: RegisterAddress { register_type: ModbusAddressType::HoldingRegister, address: INCHES_PER_STEP_Y_AXIS_UPPER },
            name: "Y AXIS SCALING UPPER",
            description: "Y axis scale (upper word)",
        },
        RegisterMetadata {
            address: RegisterAddress { register_type: ModbusAddressType::HoldingRegister, address: INCHES_PER_STEP_Z_AXIS_LOWER },
            name: "Z AXIS SCALING",
            description: "Z axis scale (in/step)",
        },
        RegisterMetadata {
            address: RegisterAddress { register_type: ModbusAddressType::HoldingRegister, address: INCHES_PER_STEP_Z_AXIS_UPPER },
            name: "Z AXIS SCALING UPPER",
            description: "Z axis scale (upper word)",
        },
        RegisterMetadata {
            address: RegisterAddress { register_type: ModbusAddressType::HoldingRegister, address: INCHES_PER_STEP_W_AXIS_LOWER },
            name: "W AXIS SCALING",
            description: "W axis scale (in/step)",
        },
        RegisterMetadata {
            address: RegisterAddress { register_type: ModbusAddressType::HoldingRegister, address: INCHES_PER_STEP_W_AXIS_UPPER },
            name: "W AXIS SCALING UPPER",
            description: "W axis scale (upper word)",
        },
        RegisterMetadata {
            address: RegisterAddress { register_type: ModbusAddressType::HoldingRegister, address: MIN_POS_X_AXIS_HUNDREDTHS },
            name: "MIN POS X AXIS",
            description: "X axis minimum position (in)",
        },
        RegisterMetadata {
            address: RegisterAddress { register_type: ModbusAddressType::HoldingRegister, address: MAX_POS_X_AXIS_HUNDREDTHS },
            name: "MAX POS X AXIS",
            description: "X axis maximum position (in)",
        },
        RegisterMetadata {
            address: RegisterAddress { register_type: ModbusAddressType::HoldingRegister, address: MAX_VEL_X_AXIS_HUNDREDTHS_PER_MINUTE },
            name: "MAX VEL X AXIS",
            description: "X axis maximum speed (in/min)",
        },
        RegisterMetadata {
            address: RegisterAddress { register_type: ModbusAddressType::HoldingRegister, address: MAX_ACCEL_X_AXIS_HUNDREDTHS_PER_MINUTE_PER_SECOND },
            name: "MAX ACCEL X AXIS",
            description: "X axis maximum acceleration (in/min/s)",
        },
        RegisterMetadata {
            address: RegisterAddress { register_type: ModbusAddressType::HoldingRegister, address: MIN_POS_Y_AXIS_HUNDREDTHS },
            name: "MIN POS Y AXIS",
            description: "Y axis minimum position (in)",
        },
        RegisterMetadata {
            address: RegisterAddress { register_type: ModbusAddressType::HoldingRegister, address: MAX_POS_Y_AXIS_HUNDREDTHS },
            name: "MAX POS Y AXIS",
            description: "Y axis maximum position (in)",
        },
        RegisterMetadata {
            address: RegisterAddress { register_type: ModbusAddressType::HoldingRegister, address: MAX_VEL_Y_AXIS_HUNDREDTHS_PER_MINUTE },
            name: "MAX VEL Y AXIS",
            description: "Y axis maximum speed (in/min)",
        },
        RegisterMetadata {
            address: RegisterAddress { register_type: ModbusAddressType::HoldingRegister, address: MAX_ACCEL_Y_AXIS_HUNDREDTHS_PER_MINUTE_PER_SECOND },
            name: "MAX ACCEL Y AXIS",
            description: "Y axis maximum acceleration (in/min/s)",
        },
        RegisterMetadata {
            address: RegisterAddress { register_type: ModbusAddressType::HoldingRegister, address: MIN_POS_Z_AXIS_HUNDREDTHS },
            name: "MIN POS Z AXIS",
            description: "Z axis minimum position (in)",
        },
        RegisterMetadata {
            address: RegisterAddress { register_type: ModbusAddressType::HoldingRegister, address: MAX_POS_Z_AXIS_HUNDREDTHS },
            name: "MAX POS Z AXIS",
            description: "Z axis maximum position (in)",
        },
        RegisterMetadata {
            address: RegisterAddress { register_type: ModbusAddressType::HoldingRegister, address: MAX_VEL_Z_AXIS_HUNDREDTHS_PER_MINUTE },
            name: "MAX VEL Z AXIS",
            description: "Z axis maximum speed (in/min)",
        },
        RegisterMetadata {
            address: RegisterAddress { register_type: ModbusAddressType::HoldingRegister, address: MAX_ACCEL_Z_AXIS_HUNDREDTHS_PER_MINUTE_PER_SECOND },
            name: "MAX ACCEL Z AXIS",
            description: "Z axis maximum acceleration (in/min/s)",
        },
        RegisterMetadata {
            address: RegisterAddress { register_type: ModbusAddressType::HoldingRegister, address: MAX_VEL_W_AXIS_HUNDREDTHS_PER_MINUTE },
            name: "MAX VEL W AXIS",
            description: "W axis maximum speed (in/min)",
        },
        RegisterMetadata {
            address: RegisterAddress { register_type: ModbusAddressType::HoldingRegister, address: MAX_ACCEL_W_AXIS_HUNDREDTHS_PER_MINUTE_PER_SECOND },
            name: "MAX ACCEL W AXIS",
            description: "W axis maximum acceleration (in/min/s)",
        },
        RegisterMetadata {
            address: RegisterAddress { register_type: ModbusAddressType::HoldingRegister, address: X_AXIS_GO_TO_POSITION },
            name: "X AXIS GO TO POSITION",
            description: "X axis target position (in)",
        },
        RegisterMetadata {
            address: RegisterAddress { register_type: ModbusAddressType::HoldingRegister, address: Y_AXIS_GO_TO_POSITION },
            name: "Y AXIS GO TO POSITION",
            description: "Y axis target position (in)",
        },
        RegisterMetadata {
            address: RegisterAddress { register_type: ModbusAddressType::HoldingRegister, address: Z_AXIS_GO_TO_POSITION },
            name: "Z AXIS GO TO POSITION",
            description: "Z axis target position (in)",
        },
        RegisterMetadata {
            address: RegisterAddress { register_type: ModbusAddressType::HoldingRegister, address: AXIS_X_DEFAULT_JOG_SPEED },
            name: "AXIS X DEFAULT JOG SPEED",
            description: "Default X jog speed (in/min)",
        },
        RegisterMetadata {
            address: RegisterAddress { register_type: ModbusAddressType::HoldingRegister, address: AXIS_Y_DEFAULT_JOG_SPEED },
            name: "AXIS Y DEFAULT JOG SPEED",
            description: "Default Y jog speed (in/min)",
        },
        RegisterMetadata {
            address: RegisterAddress { register_type: ModbusAddressType::HoldingRegister, address: AXIS_Z_DEFAULT_JOG_SPEED },
            name: "AXIS Z DEFAULT JOG SPEED",
            description: "Default Z jog speed (in/min)",
        },
        RegisterMetadata {
            address: RegisterAddress { register_type: ModbusAddressType::HoldingRegister, address: AXIS_W_DEFAULT_JOG_SPEED },
            name: "AXIS W DEFAULT JOG SPEED",
            description: "Default W jog speed (in/min)",
        },
        RegisterMetadata {
            address: RegisterAddress { register_type: ModbusAddressType::HoldingRegister, address: W_AXIS_RELATIVE_GO_TO_POTION },
            name: "W AXIS RELATIVE GO TO POSITION",
            description: "W axis relative move distance (in)",
        },
    ];
    assert(v@ =~= clearcore_registers_table());
    v
}

/// The runs the poller reads, one per tick in turn.
pub open spec fn clearcore_chunk_table() -> Seq<ModbusChunk> {
    seq![
        ModbusChunk::Coils { address: 0, count: 128 },
        ModbusChunk::DiscreteInputs { address: 0, count: 128 },
        ModbusChunk::InputRegisters { address: 0, count: 64 },
        ModbusChunk::HoldingRegisters { address: 0, count: 64 },
        ModbusChunk::HoldingRegisters { address: 64, count: 64 },
    ]
}

/// The runs the poller reads, one per tick in turn.
pub fn clearcore_chunks() -> (v: Vec<ModbusChunk>)
    ensures
        v@ == clearcore_chunk_table(),
{
    let v = vec![
        ModbusChunk::Coils { address: 0, count: 128 },
        ModbusChunk::DiscreteInputs { address: 0, count: 128 },
        ModbusChunk::InputRegisters { address: 0, count: 64 },
        ModbusChunk::HoldingRegisters { address: 0, count: 64 },
        ModbusChunk::HoldingRegisters { address: 64, count: 64 },
    ];
    assert(v@ =~= clearcore_chunk_table());
    v
}

/// The register of the map called `register_name` (the last one, should two share a name).
pub fn get_clearcore_register_metadata(register_name: &str) -> (r: Option<RegisterMetadata>)
    ensures
        r == spec_last_named(clearcore_registers_table(), register_name@),
{
    let table = clearcore_registers();
    lookup_by_name(&table, register_name)
}

/// The poll list covers the register map: every register of the PLC is read by a chunk
/// of its table.
#[verifier::rlimit(100)]
pub proof fn law_clearcore_chunks_cover_registers()
    ensures
        forall|i: int|
            0 <= i < clearcore_registers_table().len() ==> read_by_some_chunk(
                clearcore_chunk_table(),
                #[trigger] clearcore_registers_table()[i].address,
            ),
{
    let registers = clearcore_registers_table();
    let chunks = clearcore_chunk_table();
    assert(all_read_from(registers, chunks, 117));
    assert(all_read_from(registers, chunks, 100)) by {
        reveal_with_fuel(all_read_from, 24);
        reveal_with_fuel(read_by_chunk_from, 6);
    }
    assert(all_read_from(registers, chunks, 80)) by {
        reveal_with_fuel(all_read_from, 24);
        reveal_with_fuel(read_by_chunk_from, 6);
    }
    assert(all_read_from(registers, chunks, 60)) by {
        reveal_with_fuel(all_read_from, 24);
        reveal_with_fuel(read_by_chunk_from, 6);
    }
    assert(all_read_from(registers, chunks, 40)) by {
        reveal_with_fuel(all_read_from, 24);
        reveal_with_fuel(read_by_chunk_from, 6);
    }
    assert(all_read_from(registers, chunks, 20)) by {
        reveal_with_fuel(all_read_from, 24);
        reveal_with_fuel(read_by_chunk_from, 6);
    }
    assert(all_read_from(registers, chunks, 0)) by {
        reveal_with_fuel(all_read_from, 24);
        reveal_with_fuel(read_by_chunk_from, 6);
    }
    lemma_all_read(registers, chunks);
}

} // verus!
