//! Register map of the Miller power source.
use vstd::prelude::*;
use crate::modbus::{lookup_by_name, spec_last_named, ModbusAddressType, RegisterAddress, RegisterMetadata};
use crate::modbus::cached_modbus::ModbusChunk;
use crate::modbus::chunk_plan::{all_read_from, lemma_all_read, read_by_chunk_from, read_by_some_chunk};

verus! {

/// User Interface Disable: 1 True / 0 False.
/// With User Interface disabled, all "*" marked Coils and Holding Registers should be set for
/// desired function.
///
/// Context: Disable the front panel UI so Modbus can control starred settings without the UI
/// overwriting them.
///
/// Coil `PS UI DISABLE`.
pub const PS_UI_DISABLE: u16 = 0;

/// Rmt Trigger Disable: 1 True / 0 False.
///
/// Context: Blocks the remote trigger input on the 14-pin connector so external start/stop is
/// ignored.
///
/// Coil `RMT TRIGGER DISABLE`.
pub const RMT_TRIGGER_DISABLE: u16 = 1;

/// Trigger (Contactor) Request: 1 True (1 Second Time Out Return To False) / 0 False.
/// To continue a weld sequence through Final Slope and or Final Time, Coil must be refreshed with
/// False throughout these sequences.
///
/// Context: Momentary request to close the contactor (start output). Used to start or continue a
/// weld sequence.
///
/// Coil `CONTACTOR TRIGGER`.
pub const CONTACTOR_TRIGGER: u16 = 2;

/// Gas Request: 1 True (1 Second Time Out Return To False) / 0 False.
///
/// Context: Momentary request for gas flow independent of weld output.
///
/// Coil `GAS REQUEST`.
pub const GAS_REQUEST: u16 = 3;

/// * AC Power Source's Output DC: 1 True (DC) / 0 False (AC).
///
/// Context: Selects DC output instead of AC on AC-capable machines.
///
/// Coil `USE DC OUTPUT`.
pub const USE_DC_OUTPUT: u16 = 4;

/// * AC Power Source's DC Polarity EP: 1 True (EP) / 0 False (EN).
///
/// Context: Selects electrode-positive (EP) polarity for DC output.
///
/// Coil `USE EP POLARITY`.
pub const USE_EP_POLARITY: u16 = 5;

/// * Stuck Check Enable: 1 True / 0 False.
/// When Stick Stuck Check is on and the welding electrode (rod) is stuck, output is turned off.
///
/// Coil `STUCK CHECK EN`.
pub const STUCK_CHECK_EN: u16 = 6;

/// * Hot Start Enable: 1 True / 0 False.
/// Note: Hot Start can also be disabled with 0 time set in Holding Register 6215 Hot Start Time.
/// Stick only.
///
/// Context: Project uses holding register 6214 for hot start time.
///
/// Coil `HOT START EN`.
pub const HOT_START_EN: u16 = 7;

/// * Boost Enable: 1 True / 0 False.
///
/// Coil `BOOST EN`.
pub const BOOST_EN: u16 = 8;

/// * Droop Enable: 1 True / 0 False.
///
/// Coil `DROOP EN`.
pub const DROOP_EN: u16 = 9;

/// * Open Circuit Voltage (OCV) Low Enable: 1 True (Low) / 0 False (Normal).
/// OCV selection applies to both Stick and MIG processes.
///
/// Coil `USE LOW OCV`.
pub const USE_LOW_OCV: u16 = 10;

/// * Weld Gas Enable: 1 True / 0 False Enables Gas With Contactor.
///
/// Context: Set true for automatic gas, false if using an external gas solenoid.
///
/// Coil `GAS EN`.
pub const GAS_EN: u16 = 11;

/// Non-CE Models Only Cooler Power Supply (CPS) Enable: 1 True (Parallel With Coil 0013) / 0 False.
/// Note: Dynasty/Maxstar 210/280 CE Models have no control; read returns False.
///
/// Context: Enables the 120 V cooler power supply output.
///
/// Coil `COOLER EN`.
pub const COOLER_EN: u16 = 12;

/// * Cooler Power Supply (CPS) TIG Enable: 1 True (Parallel With Coil 0012) / 0 False.
/// TIG Process Control of Cooler Power Supply.
///
/// Coil `COOLER TIG EN`.
pub const COOLER_TIG_EN: u16 = 13;

/// Dynasty/Maxstar 210/280 Models Only * Cooler Error Enable: 1 True / 0 False.
/// Enables Error "1.3.6 No Cooler Detected With Output Current".
/// Error is generated when no load detected on cooler power supply output with load detected on the
/// power source output.
///
/// Coil `COOLER ERROR EN`.
pub const COOLER_ERROR_EN: u16 = 14;

/// Touch Sense Enable: 1 True / 0 False.
/// Touch Sense Detection found at Modbus Discrete Input 2009 or Remote 14 Receptacle Socket J.
///
/// Context: Touch sense detect status is exposed in this project at discrete input 2008
/// (TOUCH_SENSE_DETECT).
///
/// Coil `TOUCH SENSE EN`.
pub const TOUCH_SENSE_EN: u16 = 15;

/// RMS Enable: AC Amperage Preset And Meter And/Or DC Pulse Amperage Meter:
/// 1 True (RMS) / 0 False (Average).
/// Note: To enable, must have Discrete Input 2013 RMS Hardware Detect = True.
///
/// Context: RMS hardware detect is exposed here as discrete input 2012 (RMS_HW_PRESENT).
///
/// Coil `RMS EN`.
pub const RMS_EN: u16 = 16;

/// * Pulser Enable: 1 True / 0 False.
/// Note: Can also be set TRUE / FALSE when writing values to Holding Register 6305 Pulser Pulses
/// Per Second (PPS). When enabled and Holding Register 6304 PPS is found at "0", PPS will be set to
/// a default value.
///
/// Context: In this project, PPS is register 6305; 6304 is weld amperage.
///
/// Coil `PULSER EN`.
pub const PULSER_EN: u16 = 17;

/// Dynasty/Maxstar 400/800 Models Only * AC Commutation Amperage Low Enable:
/// 1 True (Low) / 0 False (High).
/// Application: Use high commutation amperage when a more aggressive arc is preferred. Use low
/// commutation amperage when a less aggressive and quieter arc is preferred.
///
/// Coil `USE LOW AC COMMUTATION AMP`.
pub const USE_LOW_AC_COMMUTATION_AMP: u16 = 18;

/// * AC Independent Enable: 1 True / 0 False.
/// Enables/Disables both independent amperage and independent AC wave shapes.
///
/// Coil `AC INDEPENDANT EN`.
pub const AC_INDEPENDANT_EN: u16 = 19;

/// * Weld Timers Enable: 1 True / 0 False.
/// Weld Timers include weld (spot), initial amperage, and final amperage timers.
///
/// Coil `WLED TIMERS EN`.
pub const WLED_TIMERS_EN: u16 = 20;

/// Dynasty/Maxstar 210/280 Models Only. Cooler Power Supply (CPS) Detect: 1 True / 0 False.
///
/// Discrete input `COOLER DETECTED`.
pub const COOLER_DETECTED: u16 = 2000;

/// Dynasty/Maxstar 210/280 Models Only. Cooler Load Detect: 1 True / 0 False.
///
/// Discrete input `COOLER LOAD DETECTED`.
pub const COOLER_LOAD_DETECTED: u16 = 2001;

/// Foot/Finger Tip Control Detect: 1 True / 0 False.
/// Note: Holding Register 6205 (Remote 14-Skt E) Must Be Configured To 0 (Amperage Control) To
/// Detect Foot/Finger Tip Control.
///
/// Context: This project uses holding register 6204 (RMT_PIN_E_CONFIG) for the Remote 14-skt E
/// configuration.
///
/// Discrete input `FOOT CONTROL DETECTED`.
pub const FOOT_CONTROL_DETECTED: u16 = 2002;

/// Remote Trigger (Contactor 14-Skt A-B) Enable: 1 True / 0 False.
///
/// Discrete input `RMT TRIGGER ENABLED`.
pub const RMT_TRIGGER_ENABLED: u16 = 2003;

/// Contactor Output Enabled: 1 True / 0 False (Contactor Output Or Sense Voltage Pre Contactor
/// Output).
///
/// Discrete input `CONTACTOR OUTPUT ENABLED`.
pub const CONTACTOR_OUTPUT_ENABLED: u16 = 2004;

/// Gas Output Enabled: 1 True / 0 False.
///
/// Discrete input `GAS OUTPUT ENABLED`.
pub const GAS_OUTPUT_ENABLED: u16 = 2005;

/// Valid Arc: 1 True / 0 False.
///
/// Discrete input `IS VALID ARC`.
pub const IS_VALID_ARC: u16 = 2006;

/// Arc Length Control Lock Out: 1 True / 0 False.
///
/// Discrete input `ARC LENGTH CTL LOCKOUT`.
pub const ARC_LENGTH_CTL_LOCKOUT: u16 = 2007;

/// Touch Sense Detect: 1 True / 0 False.
/// Touch Sense Enable (Coil 16) must be set True with Machine's State (Input Register 4101) in
/// standby, and weld output shorted for Touch Sense Detect to register as True.
///
/// Context: Touch sense enable is coil 0015. Weld state is input register 4100 in this project.
///
/// Discrete input `TOUCH SENSE DETECT`.
pub const TOUCH_SENSE_DETECT: u16 = 2008;

/// CE Model Detect: 1 True / 0 False.
///
/// Discrete input `IS CE MODEL`.
pub const IS_CE_MODEL: u16 = 2009;

/// STR Model Detect: 1 True / 0 False.
///
/// Discrete input `IS STR MODEL`.
pub const IS_STR_MODEL: u16 = 2010;

/// DX Model Detect: 1 True / 0 False.
///
/// Discrete input `IS DX MODEL`.
pub const IS_DX_MODEL: u16 = 2011;

/// RMS Hardware Detect: 1 True / 0 False.
///
/// Discrete input `RMS HW PRESENT`.
pub const RMS_HW_PRESENT: u16 = 2012;

/// Low Line Detect: 1 True / 0 False (Dynasty/Maxstar 210 Only).
/// Note: Set True when powered up on 120 V input.
///
/// Discrete input `LOW LIVE INPUT`.
pub const LOW_LIVE_INPUT: u16 = 2013;

/// Feature Enable for Hot Start Adjust: 1 True / 0 False.
///
/// Discrete input `HOT START SUPPORTED`.
pub const HOT_START_SUPPORTED: u16 = 2014;

/// Feature Enable for AC Independent: 1 True / 0 False.
///
/// Discrete input `AC INDEPENDANT SUPPORTED`.
pub const AC_INDEPENDANT_SUPPORTED: u16 = 2015;

/// Dynasty/Maxstar 210/280 Models Only. Volt Sensing (MIG) Model Detect: 1 True / 0 False.
///
/// Discrete input `IS MIG VOLT SENSE MODEL`.
pub const IS_MIG_VOLT_SENSE_MODEL: u16 = 2016;

/// Syncrowave Model Detect: 1 True / 0 False.
///
/// Discrete input `IS SYNCROWAVE MODEL`.
pub const IS_SYNCROWAVE_MODEL: u16 = 2017;

/// Syncrowave 300/400 Models Only. Non Cooler Supply Detect: 1 True / 0 False.
///
/// Discrete input `NON COOLER SUPPLY DETECT`.
pub const NON_COOLER_SUPPLY_DETECT: u16 = 2018;

/// 32 bit.
/// Dynasty/Maxstar 800 Models Only.
/// Application Software Number and Revision, 4 bytes bit mapped:
/// NNNN,NNNN NNNN,NNNN NNNN,NNRR RRRE,EEEE
/// NNNN,NNNN NNNN,NNNN NNNN,NN == Miller Part Number, 22 bits 31-10, bit range 0-4,194,303,
/// actual 0-999999.
/// RR RRR == Revision Level, 5 bits 9-5, bit range 0-31, actual 0-26 where: 0 == "@" preproduction
/// or field test software; 1,2,3... == Revision A,B,C...
/// EEEE == Evaluation / Test, 5 bits 4-0, bit range 0-31, actual 0-26 where: 0 == "@" released
/// software; 1,2,3... == Evaluation / Test Revision A,B,C...
///
/// Context: Displayed as "Part Number: <n>, Release Revision: <letter>, Evaluation Revision: <letter>".
///
/// Input register `APP SOFTWARE VERSION PCB 7`.
pub const APP_SOFTWARE_VERSION_PCB_7: u16 = 4016;

/// 32 bit.
/// Application Software Number and Revision, PCB 6 Gateway Interface.
/// See APP_SOFTWARE_VERSION_PCB_7.
///
/// Context: Displayed as "Part Number: <n>, Release Revision: <letter>, Evaluation Revision: <letter>".
///
/// Input register `APP SOFTWARE VERSION PCB 6`.
pub const APP_SOFTWARE_VERSION_PCB_6: u16 = 4018;

/// 32 bit.
/// Dynasty/Maxstar 210/280 Models Only. Application Software Number and Revision, PCB 5 Cooler
/// Power Supply (CPS).
/// See APP_SOFTWARE_VERSION_PCB_7.
///
/// Context: Displayed as "Part Number: <n>, Release Revision: <letter>, Evaluation Revision: <letter>".
///
/// Input register `APP SOFTWARE VERSION PCB 5`.
pub const APP_SOFTWARE_VERSION_PCB_5: u16 = 4020;

/// 32 bit.
/// Application Software Number and Revision, PCB 4 Primary.
/// See APP_SOFTWARE_VERSION_PCB_7.
///
/// Context: Displayed as "Part Number: <n>, Release Revision: <letter>, Evaluation Revision: <letter>".
///
/// Input register `APP SOFTWARE VERSION PCB 4`.
pub const APP_SOFTWARE_VERSION_PCB_4: u16 = 4022;

/// 32 bit.
/// Application Software Number and Revision, PCB 3 Process.
/// See APP_SOFTWARE_VERSION_PCB_7.
///
/// Context: Displayed as "Part Number: <n>, Release Revision: <letter>, Evaluation Revision: <letter>".
///
/// Input register `APP SOFTWARE VERSION PCB 3`.
pub const APP_SOFTWARE_VERSION_PCB_3: u16 = 4024;

/// 32 bit.
/// Application Software Number and Revision, PCB 2 User Interface.
/// See APP_SOFTWARE_VERSION_PCB_7.
///
/// Context: Displayed as "Part Number: <n>, Release Revision: <letter>, Evaluation Revision: <letter>".
///
/// Input register `APP SOFTWARE VERSION PCB 2`.
pub const APP_SOFTWARE_VERSION_PCB_2: u16 = 4026;

/// 32 bit.
/// Application Software Number and Revision, PCB 1 SD Card.
/// See APP_SOFTWARE_VERSION_PCB_7.
///
/// Context: Displayed as "Part Number: <n>, Release Revision: <letter>, Evaluation Revision: <letter>".
///
/// Input register `APP SOFTWARE VERSION PCB 1`.
pub const APP_SOFTWARE_VERSION_PCB_1: u16 = 4028;

/// 32 bit.
/// Serial Number: 4 bytes bit mapped:
/// DDDY,YYYW WWWW,WSSS,SSSS,SSSS,SSSB,BBBB
/// DDD = Decade Code, 3 bits 31-29, bit range 0-7, actual "M" - "U" (for decades 201*-208*),
/// skip "O".
/// Y,YYY = Year Code, 4 bits 28-25, bit range 0-15, actual 0-9 "A" - "K", skip "I".
/// W WWWW,W = Week Number, 6 bits 24-19, bit range 0-63, actual 01-52.
/// SSS,SSSS,SSSS SSS = Serialized Number, 14 bits 18-5, bit range 0-16383, actual 0001-9999.
/// B,BBBB = Business Unit Code, 5 bits 4-0, bit range 0-31, actual 0-25 "A"-"Z".
/// Note: Letters "I" and "O" are skipped in decade and year. Not used in business unit code.
///
/// Context: Displayed as a decoded serial like "MY051234B" (decade, year, week, serial, business unit).
///
/// Input register `SERIAL NUMBER`.
pub const SERIAL_NUMBER: u16 = 4030;

/// Power Source Configuration, Amperage Maximum: 0-1023, Res: 1A.
///
/// Input register `MAX AMPS`.
pub const MAX_AMPS: u16 = 4032;

/// Power Source Configuration, Amperage DC Minimum: 0-31, Res: 1A, 0 = DC Not Available.
///
/// Input register `MIN DC AMPS`.
pub const MIN_DC_AMPS: u16 = 4033;

/// Power Source Configuration, Amperage AC Minimum: 0-31, Res: 1A, 0 = AC Not Available.
///
/// Input register `MIN AC AMPS`.
pub const MIN_AC_AMPS: u16 = 4034;

/// 32 bit.
/// Machine's Software Update Number, Revision. 4 bytes bit mapped:
/// NNNN,NNNN,NNNN,NNNN,NNNN,NNMM,MMML,LLLL
/// NNNN,NNNN,NNNN,NNNN,NNNN,NN == Miller Part Number, 22 bits 31-10, bit range 0-4,194,303,
/// actual 0-999999.
/// MM MMM = Revision Level's Most Significant Designator, 5 bits 9-5, bit range 0-31,
/// actual 0,1-26 (ASCII "@,A-Z"), 9 "I" and 15 "O" similar to "1" and "0" not used.
/// Typically starts at 0 ("@", omitted when displayed), increases by one with each wrap "Z" to "A"
/// of the least significant designator.
/// L, LLLL = Revision Level's Least Significant Designator, 5 bits 4-0, bit range 0-31,
/// actual 0,1-26 (ASCII "@,A-Z"), 9 "I" and 15 "O" similar to "1" and "0" not used.
/// 0 "@" used for preproduction only.
///
/// Context: Displayed as "Part Number: <n>, Release Revision: <letters>".
///
/// Input register `SOFTWARE VERSION`.
pub const SOFTWARE_VERSION: u16 = 4036;

/// Sequence Timer: Remaining / Elapsed Time of States:
/// Initial Amperage, Initial Slope Time, Main Amperage, Final Slope Time, Final Amperage, Preflow,
/// Postflow (typically timed while in Standby State).
/// Resolution: 0.1 second.
///
/// Input register `SEQUENCE TIMER`.
pub const SEQUENCE_TIMER: u16 = 4099;

/// State:
/// 0 Initial Amperage
/// 1 Initial Slope Time
/// 2 Main Amperage
/// 3 Final Slope Time
/// 4 Final Amperage
/// 5 Preflow
/// 6 Standby
/// 7 Output Shorted
/// 8 Release Trigger
/// 9 Output Disabled
/// 13 Error
/// 14 Power Down
/// 15 Power Up
///
/// Input register `WELD STATE`.
pub const WELD_STATE: u16 = 4100;

/// Errors 1, 16 bits. Possible errors, 1 True / 0 False (power source dependent).
/// Dynasty/Maxstar 210/280, Syncrowave 300 Process and User Interface:
/// - Bit 0: 0.3.1 Secondary Over Temp
/// - Bit 1: 0.3.2 Ambient Over Temp
/// - Bit 2: 7.3.6 Process Serial Communication With Gateway
/// - Bit 3: 3.3.1 Secondary Thermistor Failure
/// - Bit 4: 3.3.2 Ambient Thermistor Failure
/// - Bit 5: 1.3.1 Fan Failure
/// - Bit 6: 1.3.2 Clamp/Output Over Voltage
/// - Bit 7: 1.3.3 AC Commutation Time Out
/// - Bit 8: 1.3.4 Output Over Voltage
/// - Bit 9: 1.3.5 Output Current Or Voltage Feedback With Output Off
/// - Bit 10: 1.3.6 No Cooler Detected With Output Current
/// - Bit 11: 7.3.4 Process Serial Communication With Primary
/// - Bit 12: 7.3.2 Process Serial Communication With User Interface
/// - Bit 13: 7.3.1 Process Serial Communication With Memory Card
/// - Bit 14: 7.3.5 Process Serial Communication With CPS
/// - Bit 15: 7.2.3 User Interface Serial Communication With Process
/// Dynasty/Maxstar 400/800:
/// - Bit 0: 0.3.2 Ambient Over Temp
/// - Bit 1: 0.3.1 Secondary Over Temp RC20
/// - Bit 2: 0.3.1 Secondary Over Temp RC30
/// - Bit 3: 0.4.1 Primary Power Over Temp 400/800 Top
/// - Bit 4: 0.4.2 or 0.7.1 Primary Power Over Temp 800 Bottom
/// - Bit 5: (unused)
/// - Bit 6: (unused)
/// - Bit 7: (unused)
/// - Bit 8: (unused)
/// - Bit 9: (unused)
/// - Bit 10: (unused)
/// - Bit 11: 7.3.7 Process serial communication with Primary 800 Bottom
/// - Bit 12: 7.3.4 Process serial communication with Primary 400/800 Top
/// - Bit 13: 3.3.2 Ambient thermistor failure
/// - Bit 14: 3.3.1 Secondary thermistor failure RC20
/// - Bit 15: 3.3.1 Secondary thermistor failure RC30
///
/// Input register `ERROR REG 1`.
pub const ERROR_REG_1: u16 = 4101;

/// Errors 2, 16 bits. Possible errors, 1 True / 0 False (power source dependent).
/// Dynasty/Maxstar 210/280, Syncrowave 300 Primary:
/// - Bit 0: 0.4.1 Primary Power 1 Over Temp
/// - Bit 1: 0.4.2 Primary Power 2 Over Temp
/// - Bit 2: 1.4.8 Ground Current
/// - Bit 3: 1.4.0 Primary Not Ready
/// - Bit 4: 1.4.1 Primary Capacitor Imbalance
/// - Bit 5: 1.4.2 Input Over Voltage
/// - Bit 6: 1.4.3 Input Over Current
/// - Bit 7: 1.4.4 Primary Bus Under Voltage
/// - Bit 8: 1.4.5 Input Under Voltage
/// - Bit 9: 3.4.1 Primary Power 1 Thermistor Failure
/// - Bit 10: 3.4.2 Primary Power 2 Thermistor Failure
/// - Bit 11: 7.4.3 Primary Serial Communication With Process
/// - Bit 12: 1.4.6 Primary Capacitor Failure
/// - Bit 13: 1.4.7 Primary Control Power
/// - Bit 14: 0.4.1L Primary Power 1 Latched Over Temp
/// - Bit 15: 0.4.2L Primary Power 2 Latched Over Temp
/// Dynasty/Maxstar 400/800, Syncrowave 400:
/// - Bit 0: 3.4.1 Primary Power Thermistor Failure 400/800 Top
/// - Bit 1: 3.4.2 or 3.7.1 Primary Power Thermistor Failure 800 Bottom
/// - Bit 2: 1.3.2 Clamp/Output over voltage
/// - Bit 3: 1.3.3 AC Communication time out
/// - Bit 4: 1.3.4 Output over voltage
/// - Bit 5: 1.3.5 Output current or voltage feedback with output off
/// - Bit 6: 1.4.8 Ground current
/// - Bit 7: 1.4.3 Input over current 400/800 Top
/// - Bit 8: 1.4.3 or 1.7.3 Input over current 800 Bottom
/// - Bit 9: 1.4.7 Primary control power
/// - Bit 10: 1.4.5 Input under voltage
/// - Bit 11: 1.4.4 Primary bus under voltage
/// - Bit 12: 7.3.6 Process serial communication with Gateway
/// - Bit 13: 7.3.2 Process serial communication with User Interface
/// - Bit 14: 7.3.1 Process serial communication with Memory Card
/// - Bit 15: 7.2.3 User interface serial communication with Process
///
/// Input register `ERROR REG 2`.
pub const ERROR_REG_2: u16 = 4102;

/// Errors 3, 16 bits. Possible errors, 1 True / 0 False (power source dependent).
/// Dynasty Maxstar 210 and 280 CPS:
/// - Bit 0: 0.5.1 CPS Power Module 1 Over Temp
/// - Bit 1: 0.5.2 CPS Power Module 2 Over Temp
/// - Bit 2: 0.5.3 CPS Power Module 3 Over Temp
/// - Bit 3: 1.5.9 CPS Primary Bus Under Voltage
/// - Bit 4: 7.5.3 CPS Serial Communication With Process
/// - Bit 5: 3.5.1 CPS Power Module 1 Thermistor Failure
/// - Bit 6: 3.5.2 CPS Power Module 2 Thermistor Failure
/// - Bit 7: 3.5.3 CPS Power Module 3 Thermistor Failure
/// - Bit 8: 1.5.1 CPS Secondary Bus Under Voltage
/// - Bit 9: 1.5.2 CPS Output Over Current
/// - Bit 10: 1.5.3 CPS Secondary Bus Over Voltage
/// - Bit 11: 1.5.4 CPS Current Or Voltage feedback With CPS off
/// - Bit 12: 1.5.5 CPS Secondary Control Power
/// - Bit 13: 1.5.6 CPS Capacitor Imbalance
/// - Bit 14: 1.5.7 CPS Primary Control Power
/// - Bit 15: 1.5.8 CPS Secondary Communication With CPS Primary
/// Syncrowave 300:
/// - Bit 3: 1.5.9 CPS Primary Bus Under Voltage
/// Dynasty/Maxstar 400/800, Syncrowave 400:
/// - Bit 0: 1.5.9 CPS Primary Bus Under Voltage
/// - Bit 1: 1.4.4 Primary Bus Under Voltage 400/800 Top
/// - Bit 2: 1.4.5 Input Under Voltage 400/800 Top
/// - Bit 3: 1.4.2 Input Over Voltage 400/800 Top
/// - Bit 4: 1.4.7 Primary Control Power 400/800 Top
/// - Bit 5: 7.4.3 Primary Serial Communication With Process 400/800 Top
/// - Bit 6: 1.4.0 Primary Not Ready 400/800 Top
/// - Bit 7: (unused)
/// - Bit 8: (unused)
/// - Bit 9: 1.7.4 Primary Bus Under Voltage 800 Bottom
/// - Bit 10: 1.7.5 Input Under Voltage 800 Bottom
/// - Bit 11: 1.7.2 Input Over Voltage 800 Bottom
/// - Bit 12: 1.7.7 Primary Control Power 800 Bottom
/// - Bit 13: 7.7.3 Primary Serial Communication With Process 800 Bottom
/// - Bit 14: 1.7.0 Primary Not Ready 800 Bottom
/// - Bit 15: (unused)
///
/// Input register `ERROR REG 3`.
pub const ERROR_REG_3: u16 = 4103;

/// Power Source Command Out Amperage, Res: 1A.
///
/// Input register `COMMANDED OUTPUT AMPERAGE`.
pub const COMMANDED_OUTPUT_AMPERAGE: u16 = 4200;

/// Power Source Output Current, Res: 1A.
///
/// Input register `OUTPUT AMPERAGE`.
pub const OUTPUT_AMPERAGE: u16 = 4201;

/// Power Source Output Voltage, Res: 0.1V.
///
/// Input register `OUTPUT VOLTAGE`.
pub const OUTPUT_VOLTAGE: u16 = 4202;

/// Power Source Output Current DC Pulse Peak, Res: 1A.
///
/// Input register `OUTPUT CURRENT DC PULSE PEAK`.
pub const OUTPUT_CURRENT_DC_PULSE_PEAK: u16 = 4203;

/// Power Source Output Voltage DC Pulse Peak, Res: 0.1V.
///
/// Input register `OUTPUT VOLTAGE DC PULSE PEAK`.
pub const OUTPUT_VOLTAGE_DC_PULSE_PEAK: u16 = 4204;

/// Power Source Output Current DC Pulse Back, Res: 1A.
///
/// Input register `OUTPUT CURRENT DC PULSE BACK`.
pub const OUTPUT_CURRENT_DC_PULSE_BACK: u16 = 4205;

/// Power Source Output Voltage DC Pulse Back, Res: 0.1V.
///
/// Input register `OUTPUT VOLTAGE DC PULSE BACK`.
pub const OUTPUT_VOLTAGE_DC_PULSE_BACK: u16 = 4206;

/// Fan Out, 0 (Off) - 100%.
///
/// Input register `FAN OUTPUT`.
pub const FAN_OUTPUT: u16 = 4300;

/// Temperature registers (power source dependent):
/// Range: 0 - 254
/// Resolution: 1 C
/// Offset: -50 (i.e. 50 == 0 C)
/// Possible range: -50 - +204 C
/// Actual range: limited by thermistor's hardware and software
///
/// Temperature 1:
/// - Dynasty/Maxstar 210/280, Syncrowave 300: Primary Power 1
/// - Dynasty/Maxstar 400/800, Syncrowave 400: Ambient
///
/// Input register `TEMPERATURE 1`.
pub const TEMPERATURE_1: u16 = 4301;

/// Temperature registers (power source dependent):
/// Range: 0 - 254
/// Resolution: 1 C
/// Offset: -50 (i.e. 50 == 0 C)
/// Possible range: -50 - +204 C
/// Actual range: limited by thermistor's hardware and software
///
/// Temperature 2:
/// - Dynasty/Maxstar 210/280, Syncrowave 300: Primary Power 2
/// - Dynasty/Maxstar 400/800 Top, Syncrowave 400: Primary Power
///
/// Input register `TEMPERATURE 2`.
pub const TEMPERATURE_2: u16 = 4302;

/// Temperature registers (power source dependent):
/// Range: 0 - 254
/// Resolution: 1 C
/// Offset: -50 (i.e. 50 == 0 C)
/// Possible range: -50 - +204 C
/// Actual range: limited by thermistor's hardware and software
///
/// Temperature 3:
/// - Dynasty/Maxstar 210/280, Syncrowave 300: Secondary
/// - Dynasty/Maxstar 800 Bottom: Primary Power
///
/// Input register `TEMPERATURE 3`.
pub const TEMPERATURE_3: u16 = 4303;

/// Temperature registers (power source dependent):
/// Range: 0 - 254
/// Resolution: 1 C
/// Offset: -50 (i.e. 50 == 0 C)
/// Possible range: -50 - +204 C
/// Actual range: limited by thermistor's hardware and software
///
/// Temperature 4:
/// - Dynasty/Maxstar 210/280, Syncrowave 300: Ambient
/// - Dynasty/Maxstar 400/800, Syncrowave 400: Secondary RC20
///
/// Input register `TEMPERATURE 4`.
pub const TEMPERATURE_4: u16 = 4304;

/// Temperature registers (power source dependent):
/// Range: 0 - 254
/// Resolution: 1 C
/// Offset: -50 (i.e. 50 == 0 C)
/// Possible range: -50 - +204 C
/// Actual range: limited by thermistor's hardware and software
///
/// Temperature 5:
/// - Dynasty/Maxstar 210/280: CPS Module 1
/// - Dynasty/Maxstar 400/800, Syncrowave 400: Secondary RC30
///
/// Input register `TEMPERATURE 5`.
pub const TEMPERATURE_5: u16 = 4305;

/// Temperature registers (power source dependent):
/// Range: 0 - 254
/// Resolution: 1 C
/// Offset: -50 (i.e. 50 == 0 C)
/// Possible range: -50 - +204 C
/// Actual range: limited by thermistor's hardware and software
///
/// Temperature 6:
/// - Dynasty/Maxstar 210/280: CPS Module 2
///
/// Input register `TEMPERATURE 6`.
pub const TEMPERATURE_6: u16 = 4306;

/// Temperature registers (power source dependent):
/// Range: 0 - 254
/// Resolution: 1 C
/// Offset: -50 (i.e. 50 == 0 C)
/// Possible range: -50 - +204 C
/// Actual range: limited by thermistor's hardware and software
///
/// Temperature 7:
/// - Dynasty/Maxstar 210/280: CPS Module 3
///
/// Input register `TEMPERATURE 7`.
pub const TEMPERATURE_7: u16 = 4307;

/// Dynasty/Maxstar 210/280, Syncrowave 300 - Primary Line Current, Res: 1A.
///
/// Input register `PRIMARY LINE CURRENT`.
pub const PRIMARY_LINE_CURRENT: u16 = 4400;

/// Dynasty/Maxstar 210/280, Syncrowave 300 - Primary Line Voltage, Res: 1V.
///
/// Input register `PRIMARY LINE VOLTAGE`.
pub const PRIMARY_LINE_VOLTAGE: u16 = 4401;

/// Dynasty/Maxstar 210/280/400/800, Syncrowave 300/400 - Primary Line Voltage Peak, Res: 1V.
///
/// Input register `PRIMARY LINE VOLTAGE PEAK`.
pub const PRIMARY_LINE_VOLTAGE_PEAK: u16 = 4402;

/// Dynasty/Maxstar 210/280/400/800, Syncrowave 300/400 - Primary Bus Voltage, Res: 1V.
///
/// Input register `PRIMARY BUS VOLTAGE`.
pub const PRIMARY_BUS_VOLTAGE: u16 = 4403;

/// Dynasty/Maxstar 210/280 - Cooler Power Output Voltage, Res: 1V.
///
/// Input register `COOLER OUTPUT VOLTAGE`.
pub const COOLER_OUTPUT_VOLTAGE: u16 = 4404;

/// Dynasty/Maxstar 210/280 - Cooler Power Output Current, Res: 0.1A.
///
/// Input register `COOLER OUTPUT CURRENT`.
pub const COOLER_OUTPUT_CURRENT: u16 = 4405;

/// Dynasty/Maxstar 210/280 - Cooler Power Bus Voltage, Res: 1V.
///
/// Input register `COOLER BUS VOLTAGE`.
pub const COOLER_BUS_VOLTAGE: u16 = 4406;

/// Dynasty/Maxstar 800 - Primary 2 (bottom) Line Voltage Peak, Res: 1V.
///
/// Input register `PRIMARY 2 LINE VOLTAGE PEAK`.
pub const PRIMARY_2_LINE_VOLTAGE_PEAK: u16 = 4407;

/// Dynasty/Maxstar 800 - Primary 2 (bottom) Bus Voltage Peak, Res: 1V.
///
/// Input register `PRIMARY 2 BUS VOLTAGE PEAK`.
pub const PRIMARY_2_BUS_VOLTAGE_PEAK: u16 = 4408;

/// Power Source's Modbus Slave Address: 1 - 247.
///
/// Holding register `MB SLAVE ADDR`.
pub const MB_SLAVE_ADDR: u16 = 6000;

/// Fan Request:
/// Dynasty/Maxstar 210/280: 0 (Off), 1 (Min 27%) - 30 (Max 100%).
/// Requires request of 3 minimum to start fan.
/// Dynasty/Maxstar 400/800: 0 (Off), 1 - 30 (Max 100%).
/// Notes: 1 second time out return to 0 (Off).
/// Parallel request with all machine thermistors; highest fan request is used.
/// 0 (Off) in this register will not turn fan off with a fan request other than Off from any
/// machine thermistors.
///
/// Holding register `FAN REQUEST`.
pub const FAN_REQUEST: u16 = 6001;

/// Meter Calibration, Amperage: +-50, Res: 0.1% (+-50 == +-5.0%).
/// Note: With Discrete Input 2012 RMS Hardware Detect = True, Coil 16 RMS Enable selects RMS (True)
/// or Average (False) amperage calibration.
///
/// Context: RMS hardware detect is exposed here as discrete input 2012.
///
/// Holding register `CURRENT METER CALIBRATION`.
pub const CURRENT_METER_CALIBRATION: u16 = 6002;

/// Meter Calibration, Voltage Average: +-50, Res: 0.1% (+-50 == +-5.0%).
///
/// Holding register `VOLTAGE METER CALIBRATION`.
pub const VOLTAGE_METER_CALIBRATION: u16 = 6003;

/// 32 bit.
/// Arc Time, Res: 0.01 minute, Maximum: 59999999 == 9999 hours and 59.99 minutes.
///
/// Context: Displayed as hours, minutes, seconds.
///
/// Holding register `ARC TIME`.
pub const ARC_TIME: u16 = 6100;

/// 32 bit.
/// Arc Cycles, Res: 1 cycle, Maximum: 999999 cycles.
///
/// Holding register `ARC CYCLES`.
pub const ARC_CYCLES: u16 = 6102;

/// Dynasty/Maxstar 400/800 Models Only.
/// Memory: 0 Memory control off typically defaults to memory 1 with no memory number displayed.
/// 1 - Power Source's memory maximum.
///
/// Holding register `MEMORY CONTROL`.
pub const MEMORY_CONTROL: u16 = 6200;

/// * Process:
/// 0 Stick
/// 1 TIG
/// 2 MIG (selectable only with Dynasty/Maxstar 210/280 models and Dynasty's polarity DC)
/// 3 Test
/// 4 Hot Wire
///
/// Holding register `WELD PROCESS`.
pub const WELD_PROCESS: u16 = 6201;

/// * Process Start: 0 Scratch, 1 Lift, 2 HF.
///
/// Holding register `WELD START PROCESS`.
pub const WELD_START_PROCESS: u16 = 6202;

/// * Trigger:
/// 0 None - Output Off
/// 1 Panel - Output On
/// 2 Standard
/// 3 2T Hold
/// 4 3T Hold
/// 5 4T Hold
/// 6 4TL Mini Logic Hold
/// 7 4TE Momentary Hold
/// 8 4Tm Modified Hold
///
/// Holding register `TRIGGER`.
pub const TRIGGER: u16 = 6203;

/// * Remote 14-skt E Configuration:
/// 0 Amperage Control (slow response, finger tip/foot controls)
/// 1 External Pulse Control (amperage, fast response)
/// 2 Output Enable (14-Skt E-D shorted enables power source output)
/// 3 Disable (14-Skt E has no function)
///
/// Holding register `RMT PIN E CONFIG`.
pub const RMT_PIN_E_CONFIG: u16 = 6204;

/// * Tungsten (Canned Arc Start Parameters):
/// 0 0.020 in. (0.5 mm)
/// 1 0.040 in. (1.0 mm)
/// 2 1/16 in. (1.6 mm)
/// 3 3/32 in. (2.4 mm)
/// 4 1/8 in. (3.2 mm)
/// 5 5/32 in. (4.0 mm)
/// 6 3/16 in. (4.8 mm)
/// 7 1/4 in. (6.4 mm)
/// 8 General (user defined with holding registers 6207 through 6212)
/// <9 Power source dependent, typically used with process TIG
/// 9 Disabled (typically used with non-TIG processes)
///
/// Holding register `TUNGSTEN PRESET`.
pub const TUNGSTEN_PRESET: u16 = 6205;

/// Preset Amperage Minimum: Power Source AC / DC Amperage Minimum - 25 A (Tungsten General) or
/// 63 A (Tungsten Disabled), Res: 1A.
/// Write only with Tungsten General or Disabled.
///
/// Holding register `PRESET MIN AMPERAGE`.
pub const PRESET_MIN_AMPERAGE: u16 = 6206;

/// Arc Start Amperage: 5 A - 200 A, Res: 1A.
/// Write only with Tungsten General or Disabled.
///
/// Holding register `ARC START AMPERAGE`.
pub const ARC_START_AMPERAGE: u16 = 6207;

/// Arc Start Time: 0 (Off) - 25 (x10 ms), Res: 1 (x10 ms).
/// Write only with Tungsten General.
///
/// Holding register `ARC START TIME`.
pub const ARC_START_TIME: u16 = 6208;

/// Arc Start Slope Time: 0 (Off) - 25 (x10 ms), Res: 1 (x10 ms).
/// Write only with Tungsten General.
///
/// Holding register `ARC START SLOPE TIME`.
pub const ARC_START_SLOPE_TIME: u16 = 6209;

/// ** Arc Start AC Time: 0 (Off) - 25 (x10 ms), Res: 1 (x10 ms).
/// Write only with AC power source's AC output and Tungsten General.
///
/// Holding register `ARC START AC TIME`.
pub const ARC_START_AC_TIME: u16 = 6210;

/// ** Arc Start Polarity Phase: 1 EP, 0 EN.
/// Write only with AC power source and Tungsten General or Disabled.
///
/// Holding register `ARC START POLARITY PHASE`.
pub const ARC_START_POLARITY_PHASE: u16 = 6211;

/// * AC EN Wave Shape: 0 Advance Square, 1 Soft Square, 2 Sine, 3 Triangle.
///
/// Holding register `AC EN WAVE SHAPE`.
pub const AC_EN_WAVE_SHAPE: u16 = 6212;

/// * AC EP Wave Shape: 0 Advance Square, 1 Soft Square, 2 Sine, 3 Triangle.
///
/// Holding register `AC EP WAVE SHAPE`.
pub const AC_EP_WAVE_SHAPE: u16 = 6213;

/// Hot Start Time:
/// Range: 0 (Off) - 20
/// Resolution: 0.1 second
/// Hot Start Enable / Disabled with Coil 8 Hot Start Enable.
/// Stick only.
///
/// Holding register `HOT START TIME`.
pub const HOT_START_TIME: u16 = 6214;

/// Remote Hold:
/// 0 / 2T
/// 1 / 3T
/// 2 / 4T
/// 3 / 4TL Mini Logic
/// 4 / 4TE Momentary
/// 5 / 4Tm Modified
/// Resolution: 0.1 second.
/// Remote Hold can also be changed with Holding Register 6204 Trigger.
///
/// Context: Trigger mode is holding register 6203 in this project.
///
/// Holding register `REMOTE HOLD`.
pub const REMOTE_HOLD: u16 = 6215;

/// * Dig, 0 (Off) - 100%, Res: 1%.
/// 101% will set Process Stick for Carbon Arc Gouging, turning Dig off and disabling Boost
/// (Coil 0009).
/// With Process (Holding Register 6201) MIG selection:
/// * Inductance 0 - 99% Res: 1%
/// 100% will set Inductance and optimize Digital Voltage Control for Flux Core Wire.
///
/// Holding register `DIG PERCENT`.
pub const DIG_PERCENT: u16 = 6217;

/// * AC EN Amperage, Preset Amps Min - PS Amps Max, Res: 1A.
///
/// Holding register `AC EN AMPERAGE`.
pub const AC_EN_AMPERAGE: u16 = 6300;

/// * AC EP Amperage, Preset Amps Min - PS Amps Max, Res: 1A.
///
/// Holding register `AC EP AMPERAGE`.
pub const AC_EP_AMPERAGE: u16 = 6301;

/// * AC Balance, 30-99%, Res: 1%.
///
/// Holding register `AC BALANCE`.
pub const AC_BALANCE: u16 = 6302;

/// * AC Frequency, 20-400 Hz, Res: 1 Hz.
///
/// Holding register `AC FREQUENCY`.
pub const AC_FREQUENCY: u16 = 6303;

/// * Weld Amperage (DC or AC), Preset Amps Min - PS Amps Max, Res: 1A.
///
/// Holding register `WELD AMPERAGE`.
pub const WELD_AMPERAGE: u16 = 6304;

/// * Pulser - Pulses Per Second (PPS):
/// Range: 0 (Off) - 50000 / 5000 (power source dependent)
/// Resolution: 0.1 Hz
/// Can be set to a default value when writing a True to coil 18 Pulser Enable and PPS is found at
/// 0 (Off).
/// Writing a non "0" value will set coil 18 Pulser Enable to True.
/// Writing a "0" value will set coil 18 Pulser Enable to False.
/// Dependent on configuration of the slave, the slave may or may not retain the PPS non "0" value.
///
/// Holding register `PULSER PPS`.
pub const PULSER_PPS: u16 = 6305;

/// * Pulser - Peak Time, 5-95%, Res: 1%.
///
/// Holding register `PULSER PEAK TIME`.
pub const PULSER_PEAK_TIME: u16 = 6306;

/// * Pulser - Background Amperage, 5-95%, Res: 1%.
///
/// Holding register `PULSER BACKGROUND AMPS`.
pub const PULSER_BACKGROUND_AMPS: u16 = 6307;

/// * Prelow Time, 0 (Off) - 250, Res: 1 (x0.1 sec).
/// (Miller says prelow, assuming preflow.)
///
/// Holding register `PRE-FLOW TIME`.
pub const PREFLOW_TIME: u16 = 6308;

/// * Initial Amperage, Preset Amps Min - PS Amps Max, Res: 1A.
///
/// Holding register `INITIAL AMPERAGE`.
pub const INITIAL_AMPERAGE: u16 = 6309;

/// * Initial Time, 0 (Off) - 250, Res: 1 (x0.1 sec).
///
/// Holding register `INITIAL TIME`.
pub const INITIAL_TIME: u16 = 6310;

/// * Initial Slope Time, 0 (Off) - 500, Res: 1 (x0.1 sec).
///
/// Holding register `INITIAL SLOPE TIME`.
pub const INITIAL_SLOPE_TIME: u16 = 6311;

/// * Main Time, 0 (Off) - 9990, Res: 1 (x0.1 sec).
///
/// Holding register `MAIN TIME`.
pub const MAIN_TIME: u16 = 6312;

/// * Final Slope Time, 0 (Off) - 500, Res: 1 (x0.1 sec).
///
/// Holding register `FINAL SLOPE TIME`.
pub const FINAL_SLOPE_TIME: u16 = 6313;

/// * Final Amperage, Preset Amps Min - PS Amps Max, Res: 1A.
///
/// Holding register `FINAL AMPERAGE`.
pub const FINAL_AMPERAGE: u16 = 6314;

/// * Final Time, 0 (Off) - 250, Res: 1 (x0.1 sec).
///
/// Holding register `FINAL TIME`.
pub const FINAL_TIME: u16 = 6315;

/// * Postflow Time, 0 (Off) - 50 s & Auto (51), Res: 1 sec.
///
/// Holding register `POSTFLOW TIME`.
pub const POSTFLOW_TIME: u16 = 6316;

/// * Dig, 0 (Off) - 100%, Res: 1%.
/// 101% will set Process Stick for Carbon Arc Gouging, turning Dig off and disabling Boost
/// (Coil 0009).
///
/// Same as 6217??
///
/// Holding register `DIG PERCENT AGAIN`.
pub const DIG_PERCENT_AGAIN: u16 = 6317;

/// * Hot Wire Voltage, 5-20, Res: 1V.
///
/// Holding register `HOT WIRE VOLTAGE`.
pub const HOT_WIRE_VOLTAGE: u16 = 6318;

/// Every register of the map, in declaration order.
pub open spec fn miller_registers_table() -> Seq<RegisterMetadata> {
    seq![
        RegisterMetadata {
            address: RegisterAddress { register_type: ModbusAddressType::Coil, address: PS_UI_DISABLE },
            name: "PS UI DISABLE",
            description: "Disables the front-panel UI so Modbus can control starred settings without the panel overriding them. Re-enable to return local control.",
        },
        RegisterMetadata {
            address: RegisterAddress { register_type: ModbusAddressType::Coil, address: RMT_TRIGGER_DISABLE },
            name: "RMT TRIGGER DISABLE",
            description: "Disables the remote trigger input on the 14-pin connector.",
        },
        RegisterMetadata {
            address: RegisterAddress { register_type: ModbusAddressType::Coil, address: CONTACTOR_TRIGGER },
            name: "CONTACTOR TRIGGER",
            description: "Momentary request to close the contactor (start output).",
        },
        RegisterMetadata {
            address: RegisterAddress { register_type: ModbusAddressType::Coil, address: GAS_REQUEST },
            name: "GAS REQUEST",
            description: "Momentary request for gas flow independent of weld output.",
        },
        RegisterMetadata {
            address: RegisterAddress { register_type: ModbusAddressType::Coil, address: USE_DC_OUTPUT },
            name: "USE DC OUTPUT",
            description: "Selects DC output instead of AC (AC-capable models only).",
        },
        RegisterMetadata {
            address: RegisterAddress { register_type: ModbusAddressType::Coil, address: USE_EP_POLARITY },
            name: "USE EP POLARITY",
            description: "Selects electrode-positive (EP) polarity for DC output.",
        },
        RegisterMetadata {
            address: RegisterAddress { register_type: ModbusAddressType::Coil, address: STUCK_CHECK_EN },
            name: "STUCK CHECK EN",
            description: "Enables stick-stuck protection that shuts off output if the electrode sticks.",
        },
        RegisterMetadata {
            address: RegisterAddress { register_type: ModbusAddressType::Coil, address: HOT_START_EN },
            name: "HOT START EN",
            description: "Enables hot start boost at arc start for stick welding.",
        },
        RegisterMetadata {
            address: RegisterAddress { register_type: ModbusAddressType::Coil, address: BOOST_EN },
            name: "BOOST EN",
            description: "Enables boost (arc force) to increase current during short arc conditions.",
        },
        RegisterMetadata {
            address: RegisterAddress { register_type: ModbusAddressType::Coil, address: DROOP_EN },
            name: "DROOP EN",
            description: "Enables droop mode to soften the arc by reducing voltage as current rises.",
        },
        RegisterMetadata {
            address: RegisterAddress { register_type: ModbusAddressType::Coil, address: USE_LOW_OCV },
            name: "USE LOW OCV",
            description: "Uses low open-circuit voltage (applies to stick and MIG).",
        },
        RegisterMetadata {
            address: RegisterAddress { register_type: ModbusAddressType::Coil, address: GAS_EN },
            name: "GAS EN",
            description: "Enables automatic gas valve operation with the contactor.",
        },
        RegisterMetadata {
            address: RegisterAddress { register_type: ModbusAddressType::Coil, address: COOLER_EN },
            name: "COOLER EN",
            description: "Enables the cooler power supply output (non-CE models only).",
        },
        RegisterMetadata {
            address: RegisterAddress { register_type: ModbusAddressType::Coil, address: COOLER_TIG_EN },
            name: "COOLER TIG EN",
            description: "Allows TIG process control of the cooler power supply.",
        },
        RegisterMetadata {
            address: RegisterAddress { register_type: ModbusAddressType::Coil, address: COOLER_ERROR_EN },
            name: "COOLER ERROR EN",
            description: "Enables the 'no cooler detected with output current' fault.",
        },
        RegisterMetadata {
            address: RegisterAddress { register_type: ModbusAddressType::Coil, address: TOUCH_SENSE_EN },
            name: "TOUCH SENSE EN",
            description: "Enables touch sense, which detects the electrode touching the work before arc start.",
        },
        RegisterMetadata {
            address: RegisterAddress { register_type: ModbusAddressType::Coil, address: RMS_EN },
            name: "RMS EN",
            description: "Uses RMS measurement mode for AC amperage and DC pulse metering (if hardware present).",
        },
        RegisterMetadata {
            address: RegisterAddress { register_type: ModbusAddressType::Coil, address: PULSER_EN },
            name: "PULSER EN",
            description: "Enables pulsed output.",
        },
        RegisterMetadata {
            address: RegisterAddress { register_type: ModbusAddressType::Coil, address: USE_LOW_AC_COMMUTATION_AMP },
            name: "USE LOW AC COMMUTATION AMP",
            description: "Uses low AC commutation amperage for a softer, quieter arc (400/800 models).",
        },
        RegisterMetadata {
            address: RegisterAddress { register_type: ModbusAddressType::Coil, address: AC_INDEPENDANT_EN },
            name: "AC INDEPENDANT EN",
            description: "Enables independent EN/EP amperage and wave shape controls for AC.",
        },
        RegisterMetadata {
            address: RegisterAddress { register_type: ModbusAddressType::Coil, address: WLED_TIMERS_EN },
            name: "WLED TIMERS EN",
            description: "Enables weld timers (spot weld, initial, and final timers).",
        },
        RegisterMetadata {
            address: RegisterAddress { register_type: ModbusAddressType::DiscreteInput, address: COOLER_DETECTED },
            name: "COOLER DETECTED",
            description: "Cooler power supply detected (210/280 only).",
        },
        RegisterMetadata {
            address: RegisterAddress { register_type: ModbusAddressType::DiscreteInput, address: COOLER_LOAD_DETECTED },
            name: "COOLER LOAD DETECTED",
            description: "Cooler load detected (210/280 only). Indicates a cooler is connected and drawing load.",
        },
        RegisterMetadata {
            address: RegisterAddress { register_type: ModbusAddressType::DiscreteInput, address: FOOT_CONTROL_DETECTED },
            name: "FOOT CONTROL DETECTED",
            description: "Foot or finger control detected on the Remote 14 input (requires pin E configured for amperage control).",
        },
        RegisterMetadata {
            address: RegisterAddress { register_type: ModbusAddressType::DiscreteInput, address: RMT_TRIGGER_ENABLED },
            name: "RMT TRIGGER ENABLED",
            description: "Remote trigger circuit enabled (contactor A-B on the Remote 14 connector).",
        },
        RegisterMetadata {
            address: RegisterAddress { register_type: ModbusAddressType::DiscreteInput, address: CONTACTOR_OUTPUT_ENABLED },
            name: "CONTACTOR OUTPUT ENABLED",
            description: "Contactor output active (weld output enabled or sensing voltage pre-contactor).",
        },
        RegisterMetadata {
            address: RegisterAddress { register_type: ModbusAddressType::DiscreteInput, address: GAS_OUTPUT_ENABLED },
            name: "GAS OUTPUT ENABLED",
            description: "Gas valve output active.",
        },
        RegisterMetadata {
            address: RegisterAddress { register_type: ModbusAddressType::DiscreteInput, address: IS_VALID_ARC },
            name: "IS VALID ARC",
            description: "Arc detected as valid.",
        },
        RegisterMetadata {
            address: RegisterAddress { register_type: ModbusAddressType::DiscreteInput, address: ARC_LENGTH_CTL_LOCKOUT },
            name: "ARC LENGTH CTL LOCKOUT",
            description: "Arc length control lockout active.",
        },
        RegisterMetadata {
            address: RegisterAddress { register_type: ModbusAddressType::DiscreteInput, address: TOUCH_SENSE_DETECT },
            name: "TOUCH SENSE DETECT",
            description: "Touch sense detected (electrode touching the work with output shorted in standby).",
        },
        RegisterMetadata {
            address: RegisterAddress { register_type: ModbusAddressType::DiscreteInput, address: IS_CE_MODEL },
            name: "IS CE MODEL",
            description: "CE model detected.",
        },
        RegisterMetadata {
            address: RegisterAddress { register_type: ModbusAddressType::DiscreteInput, address: IS_STR_MODEL },
            name: "IS STR MODEL",
            description: "STR model detected.",
        },
        RegisterMetadata {
            address: RegisterAddress { register_type: ModbusAddressType::DiscreteInput, address: IS_DX_MODEL },
            name: "IS DX MODEL",
            description: "DX model detected.",
        },
        RegisterMetadata {
            address: RegisterAddress { register_type: ModbusAddressType::DiscreteInput, address: RMS_HW_PRESENT },
            name: "RMS HW PRESENT",
            description: "RMS measurement hardware present.",
        },
        RegisterMetadata {
            address: RegisterAddress { register_type: ModbusAddressType::DiscreteInput, address: LOW_LIVE_INPUT },
            name: "LOW LIVE INPUT",
            description: "Low-line (120 V) input detected (210 only).",
        },
        RegisterMetadata {
            address: RegisterAddress { register_type: ModbusAddressType::DiscreteInput, address: HOT_START_SUPPORTED },
            name: "HOT START SUPPORTED",
            description: "Hot start adjustment supported by this machine.",
        },
        RegisterMetadata {
            address: RegisterAddress { register_type: ModbusAddressType::DiscreteInput, address: AC_INDEPENDANT_SUPPORTED },
            name: "AC INDEPENDANT SUPPORTED",
            description: "AC independent feature supported by this machine.",
        },
        RegisterMetadata {
            address: RegisterAddress { register_type: ModbusAddressType::DiscreteInput, address: IS_MIG_VOLT_SENSE_MODEL },
            name: "IS MIG VOLT SENSE MODEL",
            description: "MIG volt-sensing model detected (210/280 only).",
        },
        RegisterMetadata {
            address: RegisterAddress { register_type: ModbusAddressType::DiscreteInput, address: IS_SYNCROWAVE_MODEL },
            name: "IS SYNCROWAVE MODEL",
            description: "Syncrowave model detected.",
        },
        RegisterMetadata {
            address: RegisterAddress { register_type: ModbusAddressType::DiscreteInput, address: NON_COOLER_SUPPLY_DETECT },
            name: "NON COOLER SUPPLY DETECT",
            description: "Non-cooler supply detected (Syncrowave 300/400 only).",
        },
        RegisterMetadata {
            address: RegisterAddress { register_type: ModbusAddressType::InputRegister, address: APP_SOFTWARE_VERSION_PCB_7 },
            name: "APP SOFTWARE VERSION PCB 7",
            description: "Application software version for PCB 7 (output control), shown as part number and revision letters.",
        },
        RegisterMetadata {
            address: RegisterAddress { register_type: ModbusAddressType::InputRegister, address: APP_SOFTWARE_VERSION_PCB_6 },
            name: "APP SOFTWARE VERSION PCB 6",
            description: "Application software version for PCB 6 (gateway interface), shown as part number and revision letters.",
        },
        RegisterMetadata {
            address: RegisterAddress { register_type: ModbusAddressType::InputRegister, address: APP_SOFTWARE_VERSION_PCB_5 },
            name: "APP SOFTWARE VERSION PCB 5",
            description: "Application software version for PCB 5 (cooler power supply), shown as part number and revision letters.",
        },
        RegisterMetadata {
            address: RegisterAddress { register_type: ModbusAddressType::InputRegister, address: APP_SOFTWARE_VERSION_PCB_4 },
            name: "APP SOFTWARE VERSION PCB 4",
            description: "Application software version for PCB 4 (primary), shown as part number and revision letters.",
        },
        RegisterMetadata {
            address: RegisterAddress { register_type: ModbusAddressType::InputRegister, address: APP_SOFTWARE_VERSION_PCB_3 },
            name: "APP SOFTWARE VERSION PCB 3",
            description: "Application software version for PCB 3 (process), shown as part number and revision letters.",
        },
        RegisterMetadata {
            address: RegisterAddress { register_type: ModbusAddressType::InputRegister, address: APP_SOFTWARE_VERSION_PCB_2 },
            name: "APP SOFTWARE VERSION PCB 2",
            description: "Application software version for PCB 2 (user interface), shown as part number and revision letters.",
        },
        RegisterMetadata {
            address: RegisterAddress { register_type: ModbusAddressType::InputRegister, address: APP_SOFTWARE_VERSION_PCB_1 },
            name: "APP SOFTWARE VERSION PCB 1",
            description: "Application software version for PCB 1 (SD card), shown as part number and revision letters.",
        },
        RegisterMetadata {
            address: RegisterAddress { register_type: ModbusAddressType::InputRegister, address: SERIAL_NUMBER },
            name: "SERIAL NUMBER",
            description: "Machine serial number as decoded text (decade, year, week, serial, business unit).",
        },
        RegisterMetadata {
            address: RegisterAddress { register_type: ModbusAddressType::InputRegister, address: MAX_AMPS },
            name: "MAX AMPS",
            description: "Maximum output amperage configured for this power source.",
        },
        RegisterMetadata {
            address: RegisterAddress { register_type: ModbusAddressType::InputRegister, address: MIN_DC_AMPS },
            name: "MIN DC AMPS",
            description: "Minimum DC amperage configured for this power source.",
        },
        RegisterMetadata {
            address: RegisterAddress { register_type: ModbusAddressType::InputRegister, address: MIN_AC_AMPS },
            name: "MIN AC AMPS",
            description: "Minimum AC amperage configured for this power source.",
        },
        RegisterMetadata {
            address: RegisterAddress { register_type: ModbusAddressType::InputRegister, address: SOFTWARE_VERSION },
            name: "SOFTWARE VERSION",
            description: "Machine software update version, shown as part number and revision letters.",
        },
        RegisterMetadata {
            address: RegisterAddress { register_type: ModbusAddressType::InputRegister, address: SEQUENCE_TIMER },
            name: "SEQUENCE TIMER",
            description: "Remaining or elapsed time for the current weld sequence phase.",
        },
        RegisterMetadata {
            address: RegisterAddress { register_type: ModbusAddressType::InputRegister, address: WELD_STATE },
            name: "WELD STATE",
            description: "Current weld sequence state (preflow, initial, main, final, standby, etc.).",
        },
        RegisterMetadata {
            address: RegisterAddress { register_type: ModbusAddressType::InputRegister, address: ERROR_REG_1 },
            name: "ERROR REG 1",
            description: "Active fault flags for system errors (decoded in the error list).",
        },
        RegisterMetadata {
            address: RegisterAddress { register_type: ModbusAddressType::InputRegister, address: ERROR_REG_2 },
            name: "ERROR REG 2",
            description: "Active fault flags for primary power and communications errors (decoded in the error list).",
        },
        RegisterMetadata {
            address: RegisterAddress { register_type: ModbusAddressType::InputRegister, address: ERROR_REG_3 },
            name: "ERROR REG 3",
            description: "Active fault flags for cooler power supply and primary errors (decoded in the error list).",
        },
        RegisterMetadata {
            address: RegisterAddress { register_type: ModbusAddressType::InputRegister, address: COMMANDED_OUTPUT_AMPERAGE },
            name: "COMMANDED OUTPUT AMPERAGE",
            description: "Commanded output current setpoint.",
        },
        RegisterMetadata {
            address: RegisterAddress { register_type: ModbusAddressType::InputRegister, address: OUTPUT_AMPERAGE },
            name: "OUTPUT AMPERAGE",
            description: "Measured output current at the weld terminals.",
        },
        RegisterMetadata {
            address: RegisterAddress { register_type: ModbusAddressType::InputRegister, address: OUTPUT_VOLTAGE },
            name: "OUTPUT VOLTAGE",
            description: "Measured output voltage at the weld terminals.",
        },
        RegisterMetadata {
            address: RegisterAddress { register_type: ModbusAddressType::InputRegister, address: OUTPUT_CURRENT_DC_PULSE_PEAK },
            name: "OUTPUT CURRENT DC PULSE PEAK",
            description: "Measured output current during the DC pulse peak portion.",
        },
        RegisterMetadata {
            address: RegisterAddress { register_type: ModbusAddressType::InputRegister, address: OUTPUT_VOLTAGE_DC_PULSE_PEAK },
            name: "OUTPUT VOLTAGE DC PULSE PEAK",
            description: "Measured output voltage during the DC pulse peak portion.",
        },
        RegisterMetadata {
            address: RegisterAddress { register_type: ModbusAddressType::InputRegister, address: OUTPUT_CURRENT_DC_PULSE_BACK },
            name: "OUTPUT CURRENT DC PULSE BACK",
            description: "Measured output current during the DC pulse background portion.",
        },
        RegisterMetadata {
            address: RegisterAddress { register_type: ModbusAddressType::InputRegister, address: OUTPUT_VOLTAGE_DC_PULSE_BACK },
            name: "OUTPUT VOLTAGE DC PULSE BACK",
            description: "Measured output voltage during the DC pulse background portion.",
        },
        RegisterMetadata {
            address: RegisterAddress { register_type: ModbusAddressType::InputRegister, address: FAN_OUTPUT },
            name: "FAN OUTPUT",
            description: "Current fan output level.",
        },
        RegisterMetadata {
            address: RegisterAddress { register_type: ModbusAddressType::InputRegister, address: TEMPERATURE_1 },
            name: "TEMPERATURE 1",
            description: "Temperature reading in C. On 210/280 and Syncrowave 300 this is Primary Power 1; on 400/800 and Syncrowave 400 it is Ambient.",
        },
        RegisterMetadata {
            address: RegisterAddress { register_type: ModbusAddressType::InputRegister, address: TEMPERATURE_2 },
            name: "TEMPERATURE 2",
            description: "Temperature reading in C. On 210/280 and Syncrowave 300 this is Primary Power 2; on 400/800 top and Syncrowave 400 it is Primary Power.",
        },
        RegisterMetadata {
            address: RegisterAddress { register_type: ModbusAddressType::InputRegister, address: TEMPERATURE_3 },
            name: "TEMPERATURE 3",
            description: "Temperature reading in C. On 210/280 and Syncrowave 300 this is Secondary; on Dynasty 800 bottom it is Primary Power.",
        },
        RegisterMetadata {
            address: RegisterAddress { register_type: ModbusAddressType::InputRegister, address: TEMPERATURE_4 },
            name: "TEMPERATURE 4",
            description: "Temperature reading in C. On 210/280 and Syncrowave 300 this is Ambient; on 400/800 and Syncrowave 400 it is Secondary RC20.",
        },
        RegisterMetadata {
            address: RegisterAddress { register_type: ModbusAddressType::InputRegister, address: TEMPERATURE_5 },
            name: "TEMPERATURE 5",
            description: "Temperature reading in C. On 210/280 this is CPS Module 1; on 400/800 and Syncrowave 400 it is Secondary RC30.",
        },
        RegisterMetadata {
            address: RegisterAddress { register_type: ModbusAddressType::InputRegister, address: TEMPERATURE_6 },
            name: "TEMPERATURE 6",
            description: "Temperature reading in C. On 210/280 this is CPS Module 2.",
        },
        RegisterMetadata {
            address: RegisterAddress { register_type: ModbusAddressType::InputRegister, address: TEMPERATURE_7 },
            name: "TEMPERATURE 7",
            description: "Temperature reading in C. On 210/280 this is CPS Module 3.",
        },
        RegisterMetadata {
            address: RegisterAddress { register_type: ModbusAddressType::InputRegister, address: PRIMARY_LINE_CURRENT },
            name: "PRIMARY LINE CURRENT",
            description: "Primary input line current (mains).",
        },
        RegisterMetadata {
            address: RegisterAddress { register_type: ModbusAddressType::InputRegister, address: PRIMARY_LINE_VOLTAGE },
            name: "PRIMARY LINE VOLTAGE",
            description: "Primary input line voltage (mains).",
        },
        RegisterMetadata {
            address: RegisterAddress { register_type: ModbusAddressType::InputRegister, address: PRIMARY_LINE_VOLTAGE_PEAK },
            name: "PRIMARY LINE VOLTAGE PEAK",
            description: "Primary line voltage peak (mains).",
        },
        RegisterMetadata {
            address: RegisterAddress { register_type: ModbusAddressType::InputRegister, address: PRIMARY_BUS_VOLTAGE },
            name: "PRIMARY BUS VOLTAGE",
            description: "Primary DC bus voltage.",
        },
        RegisterMetadata {
            address: RegisterAddress { register_type: ModbusAddressType::InputRegister, address: COOLER_OUTPUT_VOLTAGE },
            name: "COOLER OUTPUT VOLTAGE",
            description: "Cooler power supply output voltage.",
        },
        RegisterMetadata {
            address: RegisterAddress { register_type: ModbusAddressType::InputRegister, address: COOLER_OUTPUT_CURRENT },
            name: "COOLER OUTPUT CURRENT",
            description: "Cooler power supply output current.",
        },
        RegisterMetadata {
            address: RegisterAddress { register_type: ModbusAddressType::InputRegister, address: COOLER_BUS_VOLTAGE },
            name: "COOLER BUS VOLTAGE",
            description: "Cooler power supply bus voltage.",
        },
        RegisterMetadata {
            address: RegisterAddress { register_type: ModbusAddressType::InputRegister, address: PRIMARY_2_LINE_VOLTAGE_PEAK },
            name: "PRIMARY 2 LINE VOLTAGE PEAK",
            description: "Second primary line voltage peak (800 bottom section).",
        },
        RegisterMetadata {
            address: RegisterAddress { register_type: ModbusAddressType::InputRegister, address: PRIMARY_2_BUS_VOLTAGE_PEAK },
            name: "PRIMARY 2 BUS VOLTAGE PEAK",
            description: "Second primary bus voltage peak (800 bottom section).",
        },
        RegisterMetadata {
            address: RegisterAddress { register_type: ModbusAddressType::HoldingRegister, address: MB_SLAVE_ADDR },
            name: "MB SLAVE ADDR",
            description: "Modbus slave address for the power source on the RS-485 link.",
        },
        RegisterMetadata {
            address: RegisterAddress { register_type: ModbusAddressType::HoldingRegister, address: FAN_REQUEST },
            name: "FAN REQUEST",
            description: "Requested fan speed or cooling demand; highest active request wins.",
        },
        RegisterMetadata {
            address: RegisterAddress { register_type: ModbusAddressType::HoldingRegister, address: CURRENT_METER_CALIBRATION },
            name: "CURRENT METER CALIBRATION",
            description: "Calibration trim for the current meter (service setting).",
        },
        RegisterMetadata {
            address: RegisterAddress { register_type: ModbusAddressType::HoldingRegister, address: VOLTAGE_METER_CALIBRATION },
            name: "VOLTAGE METER CALIBRATION",
            description: "Calibration trim for the voltage meter (service setting).",
        },
        RegisterMetadata {
            address: RegisterAddress { register_type: ModbusAddressType::HoldingRegister, address: ARC_TIME },
            name: "ARC TIME",
            description: "Total arc-on time (lifetime), displayed as hours, minutes, and seconds.",
        },
        RegisterMetadata {
            address: RegisterAddress { register_type: ModbusAddressType::HoldingRegister, address: ARC_CYCLES },
            name: "ARC CYCLES",
            description: "Total arc starts/cycles (lifetime).",
        },
        RegisterMetadata {
            address: RegisterAddress { register_type: ModbusAddressType::HoldingRegister, address: MEMORY_CONTROL },
            name: "MEMORY CONTROL",
            description: "Selects the active memory program (400/800 models only).",
        },
        RegisterMetadata {
            address: RegisterAddress { register_type: ModbusAddressType::HoldingRegister, address: WELD_PROCESS },
            name: "WELD PROCESS",
            description: "Selects the weld process (Stick, TIG, MIG, Test, Hot Wire).",
        },
        RegisterMetadata {
            address: RegisterAddress { register_type: ModbusAddressType::HoldingRegister, address: WELD_START_PROCESS },
            name: "WELD START PROCESS",
            description: "Selects the TIG start method (scratch, lift, or HF).",
        },
        RegisterMetadata {
            address: RegisterAddress { register_type: ModbusAddressType::HoldingRegister, address: TRIGGER },
            name: "TRIGGER",
            description: "Selects the trigger mode for torch switch behavior (2T/3T/4T variants).",
        },
        RegisterMetadata {
            address: RegisterAddress { register_type: ModbusAddressType::HoldingRegister, address: RMT_PIN_E_CONFIG },
            name: "RMT PIN E CONFIG",
            description: "Configures Remote 14 pin E (amperage control, external pulse, output enable, or disabled).",
        },
        RegisterMetadata {
            address: RegisterAddress { register_type: ModbusAddressType::HoldingRegister, address: TUNGSTEN_PRESET },
            name: "TUNGSTEN PRESET",
            description: "Selects the tungsten preset (diameter-based or General/Disabled).",
        },
        RegisterMetadata {
            address: RegisterAddress { register_type: ModbusAddressType::HoldingRegister, address: PRESET_MIN_AMPERAGE },
            name: "PRESET MIN AMPERAGE",
            description: "Minimum preset amperage used with the selected tungsten preset mode.",
        },
        RegisterMetadata {
            address: RegisterAddress { register_type: ModbusAddressType::HoldingRegister, address: ARC_START_AMPERAGE },
            name: "ARC START AMPERAGE",
            description: "Arc start amperage for TIG.",
        },
        RegisterMetadata {
            address: RegisterAddress { register_type: ModbusAddressType::HoldingRegister, address: ARC_START_TIME },
            name: "ARC START TIME",
            description: "Time at arc start amperage before ramping.",
        },
        RegisterMetadata {
            address: RegisterAddress { register_type: ModbusAddressType::HoldingRegister, address: ARC_START_SLOPE_TIME },
            name: "ARC START SLOPE TIME",
            description: "Ramp time from arc start amperage to the next phase.",
        },
        RegisterMetadata {
            address: RegisterAddress { register_type: ModbusAddressType::HoldingRegister, address: ARC_START_AC_TIME },
            name: "ARC START AC TIME",
            description: "AC-specific arc start time for TIG.",
        },
        RegisterMetadata {
            address: RegisterAddress { register_type: ModbusAddressType::HoldingRegister, address: ARC_START_POLARITY_PHASE },
            name: "ARC START POLARITY PHASE",
            description: "Polarity used at arc start for AC TIG (EP or EN).",
        },
        RegisterMetadata {
            address: RegisterAddress { register_type: ModbusAddressType::HoldingRegister, address: AC_EN_WAVE_SHAPE },
            name: "AC EN WAVE SHAPE",
            description: "Wave shape for the EN (electrode negative) portion of AC.",
        },
        RegisterMetadata {
            address: RegisterAddress { register_type: ModbusAddressType::HoldingRegister, address: AC_EP_WAVE_SHAPE },
            name: "AC EP WAVE SHAPE",
            description: "Wave shape for the EP (electrode positive) portion of AC.",
        },
        RegisterMetadata {
            address: RegisterAddress { register_type: ModbusAddressType::HoldingRegister, address: HOT_START_TIME },
            name: "HOT START TIME",
            description: "Duration of hot start boost for stick welding.",
        },
        RegisterMetadata {
            address: RegisterAddress { register_type: ModbusAddressType::HoldingRegister, address: REMOTE_HOLD },
            name: "REMOTE HOLD",
            description: "Remote hold mode for trigger behavior (2T/3T/4T variants).",
        },
        RegisterMetadata {
            address: RegisterAddress { register_type: ModbusAddressType::HoldingRegister, address: DIG_PERCENT },
            name: "DIG PERCENT",
            description: "Stick arc force (dig) or MIG inductance, depending on process.",
        },
        RegisterMetadata {
            address: RegisterAddress { register_type: ModbusAddressType::HoldingRegister, address: AC_EN_AMPERAGE },
            name: "AC EN AMPERAGE",
            description: "Amperage for the EN portion of AC (independent AC settings).",
        },
        RegisterMetadata {
            address: RegisterAddress { register_type: ModbusAddressType::HoldingRegister, address: AC_EP_AMPERAGE },
            name: "AC EP AMPERAGE",
            description: "Amperage for the EP portion of AC (independent AC settings).",
        },
        RegisterMetadata {
            address: RegisterAddress { register_type: ModbusAddressType::HoldingRegister, address: AC_BALANCE },
            name: "AC BALANCE",
            description: "AC balance (EN/EP ratio).",
        },
        RegisterMetadata {
            address: RegisterAddress { register_type: ModbusAddressType::HoldingRegister, address: AC_FREQUENCY },
            name: "AC FREQUENCY",
            description: "AC frequency setting.",
        },
        RegisterMetadata {
            address: RegisterAddress { register_type: ModbusAddressType::HoldingRegister, address: WELD_AMPERAGE },
            name: "WELD AMPERAGE",
            description: "Main weld amperage setpoint.",
        },
        RegisterMetadata {
            address: RegisterAddress { register_type: ModbusAddressType::HoldingRegister, address: PULSER_PPS },
            name: "PULSER PPS",
            description: "Pulse frequency in pulses per second.",
        },
        RegisterMetadata {
            address: RegisterAddress { register_type: ModbusAddressType::HoldingRegister, address: PULSER_PEAK_TIME },
            name: "PULSER PEAK TIME",
            description: "Percent of the pulse spent at peak current.",
        },
        RegisterMetadata {
            address: RegisterAddress { register_type: ModbusAddressType::HoldingRegister, address: PULSER_BACKGROUND_AMPS },
            name: "PULSER BACKGROUND AMPS",
            description: "Background current level during pulsed welding.",
        },
        RegisterMetadata {
            address: RegisterAddress { register_type: ModbusAddressType::HoldingRegister, address: PREFLOW_TIME },
            name: "PRE-FLOW TIME",
            description: "Gas preflow time before arc start.",
        },
        RegisterMetadata {
            address: RegisterAddress { register_type: ModbusAddressType::HoldingRegister, address: INITIAL_AMPERAGE },
            name: "INITIAL AMPERAGE",
            description: "Initial amperage for the weld sequence.",
        },
        RegisterMetadata {
            address: RegisterAddress { register_type: ModbusAddressType::HoldingRegister, address: INITIAL_TIME },
            name: "INITIAL TIME",
            description: "Time at initial amperage before ramping.",
        },
        RegisterMetadata {
            address: RegisterAddress { register_type: ModbusAddressType::HoldingRegister, address: INITIAL_SLOPE_TIME },
            name: "INITIAL SLOPE TIME",
            description: "Ramp time from initial to main amperage.",
        },
        RegisterMetadata {
            address: RegisterAddress { register_type: ModbusAddressType::HoldingRegister, address: MAIN_TIME },
            name: "MAIN TIME",
            description: "Time at main amperage (spot/weld timer).",
        },
        RegisterMetadata {
            address: RegisterAddress { register_type: ModbusAddressType::HoldingRegister, address: FINAL_SLOPE_TIME },
            name: "FINAL SLOPE TIME",
            description: "Ramp time from main to final amperage.",
        },
        RegisterMetadata {
            address: RegisterAddress { register_type: ModbusAddressType::HoldingRegister, address: FINAL_AMPERAGE },
            name: "FINAL AMPERAGE",
            description: "Final amperage for crater fill or end of weld.",
        },
        RegisterMetadata {
            address: RegisterAddress { register_type: ModbusAddressType::HoldingRegister, address: FINAL_TIME },
            name: "FINAL TIME",
            description: "Time at final amperage before stopping output.",
        },
        RegisterMetadata {
            address: RegisterAddress { register_type: ModbusAddressType::HoldingRegister, address: POSTFLOW_TIME },
            name: "POSTFLOW TIME",
            description: "Gas postflow time after arc end (Auto lets the machine decide).",
        },
        RegisterMetadata {
            address: RegisterAddress { register_type: ModbusAddressType::HoldingRegister, address: DIG_PERCENT_AGAIN },
            name: "DIG PERCENT AGAIN",
            description: "Duplicate of dig/inductance setting (same meaning as DIG PERCENT).",
        },
        RegisterMetadata {
            address: RegisterAddress { register_type: ModbusAddressType::HoldingRegister, address: HOT_WIRE_VOLTAGE },
            name: "HOT WIRE VOLTAGE",
            description: "Hot wire voltage setpoint (Hot Wire process).",
        },
    ]
}

/// Every register of the map, in declaration order.
pub fn miller_registers() -> (v: Vec<RegisterMetadata>)
    ensures
        v@ == miller_registers_table(),
{
    let v = vec![
        RegisterMetadata {
            address: RegisterAddress { register_type: ModbusAddressType::Coil, address: PS_UI_DISABLE },
            name: "PS UI DISABLE",
            description: "Disables the front-panel UI so Modbus can control starred settings without the panel overriding them. Re-enable to return local control.",
        },
        RegisterMetadata {
            address: RegisterAddress { register_type: ModbusAddressType::Coil, address: RMT_TRIGGER_DISABLE },
            name: "RMT TRIGGER DISABLE",
            description: "Disables the remote trigger input on the 14-pin connector.",
        },
        RegisterMetadata {
            address: RegisterAddress { register_type: ModbusAddressType::Coil, address: CONTACTOR_TRIGGER },
            name: "CONTACTOR TRIGGER",
            description: "Momentary request to close the contactor (start output).",
        },
        RegisterMetadata {
            address: RegisterAddress { register_type: ModbusAddressType::Coil, address: GAS_REQUEST },
            name: "GAS REQUEST",
            description: "Momentary request for gas flow independent of weld output.",
        },
        RegisterMetadata {
            address: RegisterAddress { register_type: ModbusAddressType::Coil, address: USE_DC_OUTPUT },
            name: "USE DC OUTPUT",
            description: "Selects DC output instead of AC (AC-capable models only).",
        },
        RegisterMetadata {
            address: RegisterAddress { register_type: ModbusAddressType::Coil, address: USE_EP_POLARITY },
            name: "USE EP POLARITY",
            description: "Selects electrode-positive (EP) polarity for DC output.",
        },
        RegisterMetadata {
            address: RegisterAddress { register_type: ModbusAddressType::Coil, address: STUCK_CHECK_EN },
            name: "STUCK CHECK EN",
            description: "Enables stick-stuck protection that shuts off output if the electrode sticks.",
        },
        RegisterMetadata {
            address: RegisterAddress { register_type: ModbusAddressType::Coil, address: HOT_START_EN },
            name: "HOT START EN",
            description: "Enables hot start boost at arc start for stick welding.",
        },
        RegisterMetadata {
            address: RegisterAddress { register_type: ModbusAddressType::Coil, address: BOOST_EN },
            name: "BOOST EN",
            description: "Enables boost (arc force) to increase current during short arc conditions.",
        },
        RegisterMetadata {
            address: RegisterAddress { register_type: ModbusAddressType::Coil, address: DROOP_EN },
            name: "DROOP EN",
            description: "Enables droop mode to soften the arc by reducing voltage as current rises.",
        },
        RegisterMetadata {
            address: RegisterAddress { register_type: ModbusAddressType::Coil, address: USE_LOW_OCV },
            name: "USE LOW OCV",
            description: "Uses low open-circuit voltage (applies to stick and MIG).",
        },
        RegisterMetadata {
            address: RegisterAddress { register_type: ModbusAddressType::Coil, address: GAS_EN },
            name: "GAS EN",
            description: "Enables automatic gas valve operation with the contactor.",
        },
        RegisterMetadata {
            address: RegisterAddress { register_type: ModbusAddressType::Coil, address: COOLER_EN },
            name: "COOLER EN",
            description: "Enables the cooler power supply output (non-CE models only).",
        },
        RegisterMetadata {
            address: RegisterAddress { register_type: ModbusAddressType::Coil, address: COOLER_TIG_EN },
            name: "COOLER TIG EN",
            description: "Allows TIG process control of the cooler power supply.",
        },
        RegisterMetadata {
            address: RegisterAddress { register_type: ModbusAddressType::Coil, address: COOLER_ERROR_EN },
            name: "COOLER ERROR EN",
            description: "Enables the 'no cooler detected with output current' fault.",
        },
        RegisterMetadata {
            address: RegisterAddress { register_type: ModbusAddressType::Coil, address: TOUCH_SENSE_EN },
            name: "TOUCH SENSE EN",
            description: "Enables touch sense, which detects the electrode touching the work before arc start.",
        },
        RegisterMetadata {
            address: RegisterAddress { register_type: ModbusAddressType::Coil, address: RMS_EN },
            name: "RMS EN",
            description: "Uses RMS measurement mode for AC amperage and DC pulse metering (if hardware present).",
        },
        RegisterMetadata {
            address: RegisterAddress { register_type: ModbusAddressType::Coil, address: PULSER_EN },
            name: "PULSER EN",
            description: "Enables pulsed output.",
        },
        RegisterMetadata {
            address: RegisterAddress { register_type: ModbusAddressType::Coil, address: USE_LOW_AC_COMMUTATION_AMP },
            name: "USE LOW AC COMMUTATION AMP",
            description: "Uses low AC commutation amperage for a softer, quieter arc (400/800 models).",
        },
        RegisterMetadata {
            address: RegisterAddress { register_type: ModbusAddressType::Coil, address: AC_INDEPENDANT_EN },
            name: "AC INDEPENDANT EN",
            description: "Enables independent EN/EP amperage and wave shape controls for AC.",
        },
        RegisterMetadata {
            address: RegisterAddress { register_type: ModbusAddressType::Coil, address: WLED_TIMERS_EN },
            name: "WLED TIMERS EN",
            description: "Enables weld timers (spot weld, initial, and final timers).",
        },
        RegisterMetadata {
            address: RegisterAddress { register_type: ModbusAddressType::DiscreteInput, address: COOLER_DETECTED },
            name: "COOLER DETECTED",
            description: "Cooler power supply detected (210/280 only).",
        },
        RegisterMetadata {
            address: RegisterAddress { register_type: ModbusAddressType::DiscreteInput, address: COOLER_LOAD_DETECTED },
            name: "COOLER LOAD DETECTED",
            description: "Cooler load detected (210/280 only). Indicates a cooler is connected and drawing load.",
        },
        RegisterMetadata {
            address: RegisterAddress { register_type: ModbusAddressType::DiscreteInput, address: FOOT_CONTROL_DETECTED },
            name: "FOOT CONTROL DETECTED",
            description: "Foot or finger control detected on the Remote 14 input (requires pin E configured for amperage control).",
        },
        RegisterMetadata {
            address: RegisterAddress { register_type: ModbusAddressType::DiscreteInput, address: RMT_TRIGGER_ENABLED },
            name: "RMT TRIGGER ENABLED",
            description: "Remote trigger circuit enabled (contactor A-B on the Remote 14 connector).",
        },
        RegisterMetadata {
            address: RegisterAddress { register_type: ModbusAddressType::DiscreteInput, address: CONTACTOR_OUTPUT_ENABLED },
            name: "CONTACTOR OUTPUT ENABLED",
            description: "Contactor output active (weld output enabled or sensing voltage pre-contactor).",
        },
        RegisterMetadata {
            address: RegisterAddress { register_type: ModbusAddressType::DiscreteInput, address: GAS_OUTPUT_ENABLED },
            name: "GAS OUTPUT ENABLED",
            description: "Gas valve output active.",
        },
        RegisterMetadata {
            address: RegisterAddress { register_type: ModbusAddressType::DiscreteInput, address: IS_VALID_ARC },
            name: "IS VALID ARC",
            description: "Arc detected as valid.",
        },
        RegisterMetadata {
            address: RegisterAddress { register_type: ModbusAddressType::DiscreteInput, address: ARC_LENGTH_CTL_LOCKOUT },
            name: "ARC LENGTH CTL LOCKOUT",
            description: "Arc length control lockout active.",
        },
        RegisterMetadata {
            address: RegisterAddress { register_type: ModbusAddressType::DiscreteInput, address: TOUCH_SENSE_DETECT },
            name: "TOUCH SENSE DETECT",
            description: "Touch sense detected (electrode touching the work with output shorted in standby).",
        },
        RegisterMetadata {
            address: RegisterAddress { register_type: ModbusAddressType::DiscreteInput, address: IS_CE_MODEL },
            name: "IS CE MODEL",
            description: "CE model detected.",
        },
        RegisterMetadata {
            address: RegisterAddress { register_type: ModbusAddressType::DiscreteInput, address: IS_STR_MODEL },
            name: "IS STR MODEL",
            description: "STR model detected.",
        },
        RegisterMetadata {
            address: RegisterAddress { register_type: ModbusAddressType::DiscreteInput, address: IS_DX_MODEL },
            name: "IS DX MODEL",
            description: "DX model detected.",
        },
        RegisterMetadata {
            address: RegisterAddress { register_type: ModbusAddressType::DiscreteInput, address: RMS_HW_PRESENT },
            name: "RMS HW PRESENT",
            description: "RMS measurement hardware present.",
        },
        RegisterMetadata {
            address: RegisterAddress { register_type: ModbusAddressType::DiscreteInput, address: LOW_LIVE_INPUT },
            name: "LOW LIVE INPUT",
            description: "Low-line (120 V) input detected (210 only).",
        },
        RegisterMetadata {
            address: RegisterAddress { register_type: ModbusAddressType::DiscreteInput, address: HOT_START_SUPPORTED },
            name: "HOT START SUPPORTED",
            description: "Hot start adjustment supported by this machine.",
        },
        RegisterMetadata {
            address: RegisterAddress { register_type: ModbusAddressType::DiscreteInput, address: AC_INDEPENDANT_SUPPORTED },
            name: "AC INDEPENDANT SUPPORTED",
            description: "AC independent feature supported by this machine.",
        },
        RegisterMetadata {
            address: RegisterAddress { register_type: ModbusAddressType::DiscreteInput, address: IS_MIG_VOLT_SENSE_MODEL },
            name: "IS MIG VOLT SENSE MODEL",
            description: "MIG volt-sensing model detected (210/280 only).",
        },
        RegisterMetadata {
            address: RegisterAddress { register_type: ModbusAddressType::DiscreteInput, address: IS_SYNCROWAVE_MODEL },
            name: "IS SYNCROWAVE MODEL",
            description: "Syncrowave model detected.",
        },
        RegisterMetadata {
            address: RegisterAddress { register_type: ModbusAddressType::DiscreteInput, address: NON_COOLER_SUPPLY_DETECT },
            name: "NON COOLER SUPPLY DETECT",
            description: "Non-cooler supply detected (Syncrowave 300/400 only).",
        },
        RegisterMetadata {
            address: RegisterAddress { register_type: ModbusAddressType::InputRegister, address: APP_SOFTWARE_VERSION_PCB_7 },
            name: "APP SOFTWARE VERSION PCB 7",
            description: "Application software version for PCB 7 (output control), shown as part number and revision letters.",
        },
        RegisterMetadata {
            address: RegisterAddress { register_type: ModbusAddressType::InputRegister, address: APP_SOFTWARE_VERSION_PCB_6 },
            name: "APP SOFTWARE VERSION PCB 6",
            description: "Application software version for PCB 6 (gateway interface), shown as part number and revision letters.",
        },
        RegisterMetadata {
            address: RegisterAddress { register_type: ModbusAddressType::InputRegister, address: APP_SOFTWARE_VERSION_PCB_5 },
            name: "APP SOFTWARE VERSION PCB 5",
            description: "Application software version for PCB 5 (cooler power supply), shown as part number and revision letters.",
        },
        RegisterMetadata {
            address: RegisterAddress { register_type: ModbusAddressType::InputRegister, address: APP_SOFTWARE_VERSION_PCB_4 },
            name: "APP SOFTWARE VERSION PCB 4",
            description: "Application software version for PCB 4 (primary), shown as part number and revision letters.",
        },
        RegisterMetadata {
            address: RegisterAddress { register_type: ModbusAddressType::InputRegister, address: APP_SOFTWARE_VERSION_PCB_3 },
            name: "APP SOFTWARE VERSION PCB 3",
            description: "Application software version for PCB 3 (process), shown as part number and revision letters.",
        },
        RegisterMetadata {
            address: RegisterAddress { register_type: ModbusAddressType::InputRegister, address: APP_SOFTWARE_VERSION_PCB_2 },
            name: "APP SOFTWARE VERSION PCB 2",
            description: "Application software version for PCB 2 (user interface), shown as part number and revision letters.",
        },
        RegisterMetadata {
            address: RegisterAddress { register_type: ModbusAddressType::InputRegister, address: APP_SOFTWARE_VERSION_PCB_1 },
            name: "APP SOFTWARE VERSION PCB 1",
            description: "Application software version for PCB 1 (SD card), shown as part number and revision letters.",
        },
        RegisterMetadata {
            address: RegisterAddress { register_type: ModbusAddressType::InputRegister, address: SERIAL_NUMBER },
            name: "SERIAL NUMBER",
            description: "Machine serial number as decoded text (decade, year, week, serial, business unit).",
        },
        RegisterMetadata {
            address: RegisterAddress { register_type: ModbusAddressType::InputRegister, address: MAX_AMPS },
            name: "MAX AMPS",
            description: "Maximum output amperage configured for this power source.",
        },
        RegisterMetadata {
            address: RegisterAddress { register_type: ModbusAddressType::InputRegister, address: MIN_DC_AMPS },
            name: "MIN DC AMPS",
            description: "Minimum DC amperage configured for this power source.",
        },
        RegisterMetadata {
            address: RegisterAddress { register_type: ModbusAddressType::InputRegister, address: MIN_AC_AMPS },
            name: "MIN AC AMPS",
            description: "Minimum AC amperage configured for this power source.",
        },
        RegisterMetadata {
            address: RegisterAddress { register_type: ModbusAddressType::InputRegister, address: SOFTWARE_VERSION },
            name: "SOFTWARE VERSION",
            description: "Machine software update version, shown as part number and revision letters.",
        },
        RegisterMetadata {
            address: RegisterAddress { register_type: ModbusAddressType::InputRegister, address: SEQUENCE_TIMER },
            name: "SEQUENCE TIMER",
            description: "Remaining or elapsed time for the current weld sequence phase.",
        },
        RegisterMetadata {
            address: RegisterAddress { register_type: ModbusAddressType::InputRegister, address: WELD_STATE },
            name: "WELD STATE",
            description: "Current weld sequence state (preflow, initial, main, final, standby, etc.).",
        },
        RegisterMetadata {
            address: RegisterAddress { register_type: ModbusAddressType::InputRegister, address: ERROR_REG_1 },
            name: "ERROR REG 1",
            description: "Active fault flags for system errors (decoded in the error list).",
        },
        RegisterMetadata {
            address: RegisterAddress { register_type: ModbusAddressType::InputRegister, address: ERROR_REG_2 },
            name: "ERROR REG 2",
            description: "Active fault flags for primary power and communications errors (decoded in the error list).",
        },
        RegisterMetadata {
            address: RegisterAddress { register_type: ModbusAddressType::InputRegister, address: ERROR_REG_3 },
            name: "ERROR REG 3",
            description: "Active fault flags for cooler power supply and primary errors (decoded in the error list).",
        },
        RegisterMetadata {
            address: RegisterAddress { register_type: ModbusAddressType::InputRegister, address: COMMANDED_OUTPUT_AMPERAGE },
            name: "COMMANDED OUTPUT AMPERAGE",
            description: "Commanded output current setpoint.",
        },
        RegisterMetadata {
            address: RegisterAddress { register_type: ModbusAddressType::InputRegister, address: OUTPUT_AMPERAGE },
            name: "OUTPUT AMPERAGE",
            description: "Measured output current at the weld terminals.",
        },
        RegisterMetadata {
            address: RegisterAddress { register_type: ModbusAddressType::InputRegister, address: OUTPUT_VOLTAGE },
            name: "OUTPUT VOLTAGE",
            description: "Measured output voltage at the weld terminals.",
        },
        RegisterMetadata {
            address: RegisterAddress { register_type: ModbusAddressType::InputRegister, address: OUTPUT_CURRENT_DC_PULSE_PEAK },
            name: "OUTPUT CURRENT DC PULSE PEAK",
            description: "Measured output current during the DC pulse peak portion.",
        },
        RegisterMetadata {
            address: RegisterAddress { register_type: ModbusAddressType::InputRegister, address: OUTPUT_VOLTAGE_DC_PULSE_PEAK },
            name: "OUTPUT VOLTAGE DC PULSE PEAK",
            description: "Measured output voltage during the DC pulse peak portion.",
        },
        RegisterMetadata {
            address: RegisterAddress { register_type: ModbusAddressType::InputRegister, address: OUTPUT_CURRENT_DC_PULSE_BACK },
            name: "OUTPUT CURRENT DC PULSE BACK",
            description: "Measured output current during the DC pulse background portion.",
        },
        RegisterMetadata {
            address: RegisterAddress { register_type: ModbusAddressType::InputRegister, address: OUTPUT_VOLTAGE_DC_PULSE_BACK },
            name: "OUTPUT VOLTAGE DC PULSE BACK",
            description: "Measured output voltage during the DC pulse background portion.",
        },
        RegisterMetadata {
            address: RegisterAddress { register_type: ModbusAddressType::InputRegister, address: FAN_OUTPUT },
            name: "FAN OUTPUT",
            description: "Current fan output level.",
        },
        RegisterMetadata {
            address: RegisterAddress { register_type: ModbusAddressType::InputRegister, address: TEMPERATURE_1 },
            name: "TEMPERATURE 1",
            description: "Temperature reading in C. On 210/280 and Syncrowave 300 this is Primary Power 1; on 400/800 and Syncrowave 400 it is Ambient.",
        },
        RegisterMetadata {
            address: RegisterAddress { register_type: ModbusAddressType::InputRegister, address: TEMPERATURE_2 },
            name: "TEMPERATURE 2",
            description: "Temperature reading in C. On 210/280 and Syncrowave 300 this is Primary Power 2; on 400/800 top and Syncrowave 400 it is Primary Power.",
        },
        RegisterMetadata {
            address: RegisterAddress { register_type: ModbusAddressType::InputRegister, address: TEMPERATURE_3 },
            name: "TEMPERATURE 3",
            description: "Temperature reading in C. On 210/280 and Syncrowave 300 this is Secondary; on Dynasty 800 bottom it is Primary Power.",
        },
        RegisterMetadata {
            address: RegisterAddress { register_type: ModbusAddressType::InputRegister, address: TEMPERATURE_4 },
            name: "TEMPERATURE 4",
            description: "Temperature reading in C. On 210/280 and Syncrowave 300 this is Ambient; on 400/800 and Syncrowave 400 it is Secondary RC20.",
        },
        RegisterMetadata {
            address: RegisterAddress { register_type: ModbusAddressType::InputRegister, address: TEMPERATURE_5 },
            name: "TEMPERATURE 5",
            description: "Temperature reading in C. On 210/280 this is CPS Module 1; on 400/800 and Syncrowave 400 it is Secondary RC30.",
        },
        RegisterMetadata {
            address: RegisterAddress { register_type: ModbusAddressType::InputRegister, address: TEMPERATURE_6 },
            name: "TEMPERATURE 6",
            description: "Temperature reading in C. On 210/280 this is CPS Module 2.",
        },
        RegisterMetadata {
            address: RegisterAddress { register_type: ModbusAddressType::InputRegister, address: TEMPERATURE_7 },
            name: "TEMPERATURE 7",
            description: "Temperature reading in C. On 210/280 this is CPS Module 3.",
        },
        RegisterMetadata {
            address: RegisterAddress { register_type: ModbusAddressType::InputRegister, address: PRIMARY_LINE_CURRENT },
            name: "PRIMARY LINE CURRENT",
            description: "Primary input line current (mains).",
        },
        RegisterMetadata {
            address: RegisterAddress { register_type: ModbusAddressType::InputRegister, address: PRIMARY_LINE_VOLTAGE },
            name: "PRIMARY LINE VOLTAGE",
            description: "Primary input line voltage (mains).",
        },
        RegisterMetadata {
            address: RegisterAddress { register_type: ModbusAddressType::InputRegister, address: PRIMARY_LINE_VOLTAGE_PEAK },
            name: "PRIMARY LINE VOLTAGE PEAK",
            description: "Primary line voltage peak (mains).",
        },
        RegisterMetadata {
            address: RegisterAddress { register_type: ModbusAddressType::InputRegister, address: PRIMARY_BUS_VOLTAGE },
            name: "PRIMARY BUS VOLTAGE",
            description: "Primary DC bus voltage.",
        },
        RegisterMetadata {
            address: RegisterAddress { register_type: ModbusAddressType::InputRegister, address: COOLER_OUTPUT_VOLTAGE },
            name: "COOLER OUTPUT VOLTAGE",
            description: "Cooler power supply output voltage.",
        },
        RegisterMetadata {
            address: RegisterAddress { register_type: ModbusAddressType::InputRegister, address: COOLER_OUTPUT_CURRENT },
            name: "COOLER OUTPUT CURRENT",
            description: "Cooler power supply output current.",
        },
        RegisterMetadata {
            address: RegisterAddress { register_type: ModbusAddressType::InputRegister, address: COOLER_BUS_VOLTAGE },
            name: "COOLER BUS VOLTAGE",
            description: "Cooler power supply bus voltage.",
        },
        RegisterMetadata {
            address: RegisterAddress { register_type: ModbusAddressType::InputRegister, address: PRIMARY_2_LINE_VOLTAGE_PEAK },
            name: "PRIMARY 2 LINE VOLTAGE PEAK",
            description: "Second primary line voltage peak (800 bottom section).",
        },
        RegisterMetadata {
            address: RegisterAddress { register_type: ModbusAddressType::InputRegister, address: PRIMARY_2_BUS_VOLTAGE_PEAK },
            name: "PRIMARY 2 BUS VOLTAGE PEAK",
            description: "Second primary bus voltage peak (800 bottom section).",
        },
        RegisterMetadata {
            address: RegisterAddress { register_type: ModbusAddressType::HoldingRegister, address: MB_SLAVE_ADDR },
            name: "MB SLAVE ADDR",
            description: "Modbus slave address for the power source on the RS-485 link.",
        },
        RegisterMetadata {
            address: RegisterAddress { register_type: ModbusAddressType::HoldingRegister, address: FAN_REQUEST },
            name: "FAN REQUEST",
            description: "Requested fan speed or cooling demand; highest active request wins.",
        },
        RegisterMetadata {
            address: RegisterAddress { register_type: ModbusAddressType::HoldingRegister, address: CURRENT_METER_CALIBRATION },
            name: "CURRENT METER CALIBRATION",
            description: "Calibration trim for the current meter (service setting).",
        },
        RegisterMetadata {
            address: RegisterAddress { register_type: ModbusAddressType::HoldingRegister, address: VOLTAGE_METER_CALIBRATION },
            name: "VOLTAGE METER CALIBRATION",
            description: "Calibration trim for the voltage meter (service setting).",
        },
        RegisterMetadata {
            address: RegisterAddress { register_type: ModbusAddressType::HoldingRegister, address: ARC_TIME },
            name: "ARC TIME",
            description: "Total arc-on time (lifetime), displayed as hours, minutes, and seconds.",
        },
        RegisterMetadata {
            address: RegisterAddress { register_type: ModbusAddressType::HoldingRegister, address: ARC_CYCLES },
            name: "ARC CYCLES",
            description: "Total arc starts/cycles (lifetime).",
        },
        RegisterMetadata {
            address: RegisterAddress { register_type: ModbusAddressType::HoldingRegister, address: MEMORY_CONTROL },
            name: "MEMORY CONTROL",
            description: "Selects the active memory program (400/800 models only).",
        },
        RegisterMetadata {
            address: RegisterAddress { register_type: ModbusAddressType::HoldingRegister, address: WELD_PROCESS },
            name: "WELD PROCESS",
            description: "Selects the weld process (Stick, TIG, MIG, Test, Hot Wire).",
        },
        RegisterMetadata {
            address: RegisterAddress { register_type: ModbusAddressType::HoldingRegister, address: WELD_START_PROCESS },
            name: "WELD START PROCESS",
            description: "Selects the TIG start method (scratch, lift, or HF).",
        },
        RegisterMetadata {
            address: RegisterAddress { register_type: ModbusAddressType::HoldingRegister, address: TRIGGER },
            name: "TRIGGER",
            description: "Selects the trigger mode for torch switch behavior (2T/3T/4T variants).",
        },
        RegisterMetadata {
            address: RegisterAddress { register_type: ModbusAddressType::HoldingRegister, address: RMT_PIN_E_CONFIG },
            name: "RMT PIN E CONFIG",
            description: "Configures Remote 14 pin E (amperage control, external pulse, output enable, or disabled).",
        },
        RegisterMetadata {
            address: RegisterAddress { register_type: ModbusAddressType::HoldingRegister, address: TUNGSTEN_PRESET },
            name: "TUNGSTEN PRESET",
            description: "Selects the tungsten preset (diameter-based or General/Disabled).",
        },
        RegisterMetadata {
            address: RegisterAddress { register_type: ModbusAddressType::HoldingRegister, address: PRESET_MIN_AMPERAGE },
            name: "PRESET MIN AMPERAGE",
            description: "Minimum preset amperage used with the selected tungsten preset mode.",
        },
        RegisterMetadata {
            address: RegisterAddress { register_type: ModbusAddressType::HoldingRegister, address: ARC_START_AMPERAGE },
            name: "ARC START AMPERAGE",
            description: "Arc start amperage for TIG.",
        },
        RegisterMetadata {
            address: RegisterAddress { register_type: ModbusAddressType::HoldingRegister, address: ARC_START_TIME },
            name: "ARC START TIME",
            description: "Time at arc start amperage before ramping.",
        },
        RegisterMetadata {
            address: RegisterAddress { register_type: ModbusAddressType::HoldingRegister, address: ARC_START_SLOPE_TIME },
            name: "ARC START SLOPE TIME",
            description: "Ramp time from arc start amperage to the next phase.",
        },
        RegisterMetadata {
            address: RegisterAddress { register_type: ModbusAddressType::HoldingRegister, address: ARC_START_AC_TIME },
            name: "ARC START AC TIME",
            description: "AC-specific arc start time for TIG.",
        },
        RegisterMetadata {
            address: RegisterAddress { register_type: ModbusAddressType::HoldingRegister, address: ARC_START_POLARITY_PHASE },
            name: "ARC START POLARITY PHASE",
            description: "Polarity used at arc start for AC TIG (EP or EN).",
        },
        RegisterMetadata {
            address: RegisterAddress { register_type: ModbusAddressType::HoldingRegister, address: AC_EN_WAVE_SHAPE },
            name: "AC EN WAVE SHAPE",
            description: "Wave shape for the EN (electrode negative) portion of AC.",
        },
        RegisterMetadata {
            address: RegisterAddress { register_type: ModbusAddressType::HoldingRegister, address: AC_EP_WAVE_SHAPE },
            name: "AC EP WAVE SHAPE",
            description: "Wave shape for the EP (electrode positive) portion of AC.",
        },
        RegisterMetadata {
            address: RegisterAddress { register_type: ModbusAddressType::HoldingRegister, address: HOT_START_TIME },
            name: "HOT START TIME",
            description: "Duration of hot start boost for stick welding.",
        },
        RegisterMetadata {
            address: RegisterAddress { register_type: ModbusAddressType::HoldingRegister, address: REMOTE_HOLD },
            name: "REMOTE HOLD",
            description: "Remote hold mode for trigger behavior (2T/3T/4T variants).",
        },
        RegisterMetadata {
            address: RegisterAddress { register_type: ModbusAddressType::HoldingRegister, address: DIG_PERCENT },
            name: "DIG PERCENT",
            description: "Stick arc force (dig) or MIG inductance, depending on process.",
        },
        RegisterMetadata {
            address: RegisterAddress { register_type: ModbusAddressType::HoldingRegister, address: AC_EN_AMPERAGE },
            name: "AC EN AMPERAGE",
            description: "Amperage for the EN portion of AC (independent AC settings).",
        },
        RegisterMetadata {
            address: RegisterAddress { register_type: ModbusAddressType::HoldingRegister, address: AC_EP_AMPERAGE },
            name: "AC EP AMPERAGE",
            description: "Amperage for the EP portion of AC (independent AC settings).",
        },
        RegisterMetadata {
            address: RegisterAddress { register_type: ModbusAddressType::HoldingRegister, address: AC_BALANCE },
            name: "AC BALANCE",
            description: "AC balance (EN/EP ratio).",
        },
        RegisterMetadata {
            address: RegisterAddress { register_type: ModbusAddressType::HoldingRegister, address: AC_FREQUENCY },
            name: "AC FREQUENCY",
            description: "AC frequency setting.",
        },
        RegisterMetadata {
            address: RegisterAddress { register_type: ModbusAddressType::HoldingRegister, address: WELD_AMPERAGE },
            name: "WELD AMPERAGE",
            description: "Main weld amperage setpoint.",
        },
        RegisterMetadata {
            address: RegisterAddress { register_type: ModbusAddressType::HoldingRegister, address: PULSER_PPS },
            name: "PULSER PPS",
            description: "Pulse frequency in pulses per second.",
        },
        RegisterMetadata {
            address: RegisterAddress { register_type: ModbusAddressType::HoldingRegister, address: PULSER_PEAK_TIME },
            name: "PULSER PEAK TIME",
            description: "Percent of the pulse spent at peak current.",
        },
        RegisterMetadata {
            address: RegisterAddress { register_type: ModbusAddressType::HoldingRegister, address: PULSER_BACKGROUND_AMPS },
            name: "PULSER BACKGROUND AMPS",
            description: "Background current level during pulsed welding.",
        },
        RegisterMetadata {
            address: RegisterAddress { register_type: ModbusAddressType::HoldingRegister, address: PREFLOW_TIME },
            name: "PRE-FLOW TIME",
            description: "Gas preflow time before arc start.",
        },
        RegisterMetadata {
            address: RegisterAddress { register_type: ModbusAddressType::HoldingRegister, address: INITIAL_AMPERAGE },
            name: "INITIAL AMPERAGE",
            description: "Initial amperage for the weld sequence.",
        },
        RegisterMetadata {
            address: RegisterAddress { register_type: ModbusAddressType::HoldingRegister, address: INITIAL_TIME },
            name: "INITIAL TIME",
            description: "Time at initial amperage before ramping.",
        },
        RegisterMetadata {
            address: RegisterAddress { register_type: ModbusAddressType::HoldingRegister, address: INITIAL_SLOPE_TIME },
            name: "INITIAL SLOPE TIME",
            description: "Ramp time from initial to main amperage.",
        },
        RegisterMetadata {
            address: RegisterAddress { register_type: ModbusAddressType::HoldingRegister, address: MAIN_TIME },
            name: "MAIN TIME",
            description: "Time at main amperage (spot/weld timer).",
        },
        RegisterMetadata {
            address: RegisterAddress { register_type: ModbusAddressType::HoldingRegister, address: FINAL_SLOPE_TIME },
            name: "FINAL SLOPE TIME",
            description: "Ramp time from main to final amperage.",
        },
        RegisterMetadata {
            address: RegisterAddress { register_type: ModbusAddressType::HoldingRegister, address: FINAL_AMPERAGE },
            name: "FINAL AMPERAGE",
            description: "Final amperage for crater fill or end of weld.",
        },
        RegisterMetadata {
            address: RegisterAddress { register_type: ModbusAddressType::HoldingRegister, address: FINAL_TIME },
            name: "FINAL TIME",
            description: "Time at final amperage before stopping output.",
        },
        RegisterMetadata {
            address: RegisterAddress { register_type: ModbusAddressType::HoldingRegister, address: POSTFLOW_TIME },
            name: "POSTFLOW TIME",
            description: "Gas postflow time after arc end (Auto lets the machine decide).",
        },
        RegisterMetadata {
            address: RegisterAddress { register_type: ModbusAddressType::HoldingRegister, address: DIG_PERCENT_AGAIN },
            name: "DIG PERCENT AGAIN",
            description: "Duplicate of dig/inductance setting (same meaning as DIG PERCENT).",
        },
        RegisterMetadata {
            address: RegisterAddress { register_type: ModbusAddressType::HoldingRegister, address: HOT_WIRE_VOLTAGE },
            name: "HOT WIRE VOLTAGE",
            description: "Hot wire voltage setpoint (Hot Wire process).",
        },
    ];
    assert(v@ =~= miller_registers_table());
    v
}

/// The runs the poller reads, one per tick in turn.
pub open spec fn miller_chunk_table() -> Seq<ModbusChunk> {
    seq![
        ModbusChunk::Coils { address: 0, count: 21 },
        ModbusChunk::DiscreteInputs { address: 2000, count: 19 },
        ModbusChunk::InputRegisters { address: 4016, count: 22 },
        ModbusChunk::InputRegisters { address: 4099, count: 5 },
        ModbusChunk::InputRegisters { address: 4200, count: 7 },
        ModbusChunk::InputRegisters { address: 4300, count: 8 },
        ModbusChunk::InputRegisters { address: 4400, count: 9 },
        ModbusChunk::HoldingRegisters { address: 6000, count: 4 },
        ModbusChunk::HoldingRegisters { address: 6100, count: 4 },
        ModbusChunk::HoldingRegisters { address: 6200, count: 18 },
        ModbusChunk::HoldingRegisters { address: 6300, count: 19 },
    ]
}

/// The runs the poller reads, one per tick in turn.
pub fn miller_chunks() -> (v: Vec<ModbusChunk>)
    ensures
        v@ == miller_chunk_table(),
{
    let v = vec![
        ModbusChunk::Coils { address: 0, count: 21 },
        ModbusChunk::DiscreteInputs { address: 2000, count: 19 },
        ModbusChunk::InputRegisters { address: 4016, count: 22 },
        ModbusChunk::InputRegisters { address: 4099, count: 5 },
        ModbusChunk::InputRegisters { address: 4200, count: 7 },
        ModbusChunk::InputRegisters { address: 4300, count: 8 },
        ModbusChunk::InputRegisters { address: 4400, count: 9 },
        ModbusChunk::HoldingRegisters { address: 6000, count: 4 },
        ModbusChunk::HoldingRegisters { address: 6100, count: 4 },
        ModbusChunk::HoldingRegisters { address: 6200, count: 18 },
        ModbusChunk::HoldingRegisters { address: 6300, count: 19 },
    ];
    assert(v@ =~= miller_chunk_table());
    v
}

/// The register of the map called `register_name` (the last one, should two share a name).
pub fn get_miller_register_metadata(register_name: &str) -> (r: Option<RegisterMetadata>)
    ensures
        r == spec_last_named(miller_registers_table(), register_name@),
{
    let table = miller_registers();
    lookup_by_name(&table, register_name)
}

/// The poll list covers the register map: every register of the welder is read by a
/// chunk of its table.
#[verifier::rlimit(100)]
pub proof fn law_miller_chunks_cover_registers()
    ensures
        forall|i: int|
            0 <= i < miller_registers_table().len() ==> read_by_some_chunk(
                miller_chunk_table(),
                #[trigger] miller_registers_table()[i].address,
            ),
{
    let registers = miller_registers_table();
    let chunks = miller_chunk_table();
    assert(all_read_from(registers, chunks, 123));
    assert(all_read_from(registers, chunks, 100)) by {
        reveal_with_fuel(all_read_from, 24);
        reveal_with_fuel(read_by_chunk_from, 12);
    }
    assert(all_read_from(registers, chunks, 80)) by {
        reveal_with_fuel(all_read_from, 24);
        reveal_with_fuel(read_by_chunk_from, 12);
    }
    assert(all_read_from(registers, chunks, 60)) by {
        reveal_with_fuel(all_read_from, 24);
        reveal_with_fuel(read_by_chunk_from, 12);
    }
    assert(all_read_from(registers, chunks, 40)) by {
        reveal_with_fuel(all_read_from, 24);
        reveal_with_fuel(read_by_chunk_from, 12);
    }
    assert(all_read_from(registers, chunks, 20)) by {
        reveal_with_fuel(all_read_from, 24);
        reveal_with_fuel(read_by_chunk_from, 12);
    }
    assert(all_read_from(registers, chunks, 0)) by {
        reveal_with_fuel(all_read_from, 24);
        reveal_with_fuel(read_by_chunk_from, 12);
    }
    lemma_all_read(registers, chunks);
}

} // verus!
