//! DS402/CiA402 high level interface.
use vstd::prelude::*;
use core::ops::Range;
use crate::error::Error;
use crate::wire::{bit_set, lemma_pack_flags, pack_flags, WireError};

verus! {

/// DS402 control word (object 0x6040), ETG6010 5.2: sixteen flags, bit 0 first.
#[derive(Debug, Copy, Clone, PartialEq, Eq, Structural)]
pub struct ControlWord {
    /// Switch on.
    pub switch_on: bool,
    /// Enable voltage.
    pub enable_voltage: bool,
    /// Quick stop.
    pub quick_stop: bool,
    /// Enable operation.
    pub enable_operation: bool,
    /// Operation mode specific.
    pub op_specific_1: bool,
    /// Operation mode specific.
    pub op_specific_2: bool,
    /// Operation mode specific.
    pub op_specific_3: bool,
    /// Fault reset.
    pub fault_reset: bool,
    /// Halt.
    pub halt: bool,
    /// Operation mode specific.
    pub op_specific_4: bool,
    /// Reserved.
    pub reserved: bool,
    /// Manufacturer specific.
    pub manf_1: bool,
    /// Manufacturer specific.
    pub manf_2: bool,
    /// Manufacturer specific.
    pub manf_3: bool,
    /// Manufacturer specific.
    pub manf_4: bool,
    /// Manufacturer specific.
    pub manf_5: bool,
}

/// The control word the two bytes `a`, `b` hold.
pub open spec fn spec_control_word(a: u8, b: u8) -> ControlWord {
    ControlWord {
        switch_on: bit_set(a, 1),
        enable_voltage: bit_set(a, 2),
        quick_stop: bit_set(a, 4),
        enable_operation: bit_set(a, 8),
        op_specific_1: bit_set(a, 16),
        op_specific_2: bit_set(a, 32),
        op_specific_3: bit_set(a, 64),
        fault_reset: bit_set(a, 128),
        halt: bit_set(b, 1),
        op_specific_4: bit_set(b, 2),
        reserved: bit_set(b, 4),
        manf_1: bit_set(b, 8),
        manf_2: bit_set(b, 16),
        manf_3: bit_set(b, 32),
        manf_4: bit_set(b, 64),
        manf_5: bit_set(b, 128),
    }
}

impl ControlWord {
    /// The control word after [`ControlWord::set_state`]: the fault reset flag is cleared unless
    /// a fault reset is asked for, and each state sets the flags it needs on top of the others.
    pub open spec fn spec_with_state(self, state: WriteState) -> ControlWord {
        match state {
            WriteState::ResetFault => ControlWord { fault_reset: true, ..self },
            WriteState::SwitchOn => ControlWord { fault_reset: false, switch_on: true, ..self },
            WriteState::EnableVoltage => ControlWord {
                fault_reset: false,
                switch_on: true,
                enable_voltage: true,
                ..self
            },
            WriteState::EnableOperation => ControlWord {
                fault_reset: false,
                switch_on: true,
                enable_voltage: true,
                enable_operation: true,
                ..self
            },
        }
    }

    /// The flags each requested state sets. Fault reset is set by a fault reset request and
    /// cleared by every other; switch on is set by the switch on, enable voltage and enable
    /// operation requests; enable voltage by the enable voltage and enable operation requests;
    /// enable operation by the enable operation request. A flag a request does not name keeps its
    /// value, and so do all the other bits of the control word.
    pub proof fn lemma_set_state_flags(self, state: WriteState)
        ensures
            self.spec_with_state(state).fault_reset <==> state == WriteState::ResetFault,
            state == WriteState::ResetFault ==> self.spec_with_state(state).switch_on
                == self.switch_on,
            state != WriteState::ResetFault ==> self.spec_with_state(state).switch_on,
            state == WriteState::EnableVoltage || state == WriteState::EnableOperation
                ==> self.spec_with_state(state).enable_voltage,
            state == WriteState::ResetFault || state == WriteState::SwitchOn
                ==> self.spec_with_state(state).enable_voltage == self.enable_voltage,
            state == WriteState::EnableOperation ==> self.spec_with_state(state).enable_operation,
            state != WriteState::EnableOperation ==> self.spec_with_state(state).enable_operation
                == self.enable_operation,
            self.spec_with_state(state).quick_stop == self.quick_stop,
            self.spec_with_state(state).halt == self.halt,
            self.spec_with_state(state).op_specific_1 == self.op_specific_1,
            self.spec_with_state(state).op_specific_2 == self.op_specific_2,
            self.spec_with_state(state).op_specific_3 == self.op_specific_3,
            self.spec_with_state(state).op_specific_4 == self.op_specific_4,
            self.spec_with_state(state).reserved == self.reserved,
            self.spec_with_state(state).manf_1 == self.manf_1,
            self.spec_with_state(state).manf_2 == self.manf_2,
            self.spec_with_state(state).manf_3 == self.manf_3,
            self.spec_with_state(state).manf_4 == self.manf_4,
            self.spec_with_state(state).manf_5 == self.manf_5,
    {
    }

    /// Set the desired state.
    pub fn set_state(&mut self, state: WriteState)
        ensures
            *final(self) == old(self).spec_with_state(state),
    {
        // Only reset faults if explicitly requested
        let c = *self;
        *self = match state {
            WriteState::ResetFault => ControlWord { fault_reset: true, ..c },
            WriteState::SwitchOn => ControlWord { fault_reset: false, switch_on: true, ..c },
            WriteState::EnableVoltage => ControlWord {
                fault_reset: false,
                switch_on: true,
                enable_voltage: true,
                ..c
            },
            WriteState::EnableOperation => ControlWord {
                fault_reset: false,
                switch_on: true,
                enable_voltage: true,
                enable_operation: true,
                ..c
            },
        };
    }

    /// Unpack from the first two bytes of `buf`.
    pub fn unpack_from_slice(buf: &[u8]) -> (r: Result<Self, WireError>)
        ensures
            buf@.len() < 2 ==> r == Err::<Self, WireError>(WireError::ReadBufferTooShort),
            buf@.len() >= 2 ==> r == Ok::<Self, WireError>(spec_control_word(buf@[0], buf@[1])),
    {
        if buf.len() < 2 {
            return Err(WireError::ReadBufferTooShort);
        }
        let a = buf[0];
        let b = buf[1];
        Ok(
            ControlWord {
                switch_on: (a / 1) % 2 == 1,
                enable_voltage: (a / 2) % 2 == 1,
                quick_stop: (a / 4) % 2 == 1,
                enable_operation: (a / 8) % 2 == 1,
                op_specific_1: (a / 16) % 2 == 1,
                op_specific_2: (a / 32) % 2 == 1,
                op_specific_3: (a / 64) % 2 == 1,
                fault_reset: (a / 128) % 2 == 1,
                halt: (b / 1) % 2 == 1,
                op_specific_4: (b / 2) % 2 == 1,
                reserved: (b / 4) % 2 == 1,
                manf_1: (b / 8) % 2 == 1,
                manf_2: (b / 16) % 2 == 1,
                manf_3: (b / 32) % 2 == 1,
                manf_4: (b / 64) % 2 == 1,
                manf_5: (b / 128) % 2 == 1,
            },
        )
    }
}

/// DS402 status word (object 0x6041), ETG6010 5.3: sixteen flags, bit 0 first.
#[derive(Debug, Copy, Clone, PartialEq, Eq, Structural)]
pub struct StatusWord {
    /// Ready to switch on.
    pub ready_to_switch_on: bool,
    /// Switched on.
    pub switched_on: bool,
    /// Operation enabled.
    pub operation_enabled: bool,
    /// Fault.
    pub fault: bool,
    /// Voltage enabled.
    pub voltage_enabled: bool,
    /// Quick stop.
    pub quick_stop: bool,
    /// Switch on disabled.
    pub switch_on_disabled: bool,
    /// Warning.
    pub warning: bool,
    /// Manufacturer specific.
    pub manf_1: bool,
    /// Remote.
    pub remote: bool,
    /// Operation mode specific.
    pub op_specific_1: bool,
    /// Internal limit active.
    pub internal_limit_active: bool,
    /// Operation mode specific.
    pub op_specific_2: bool,
    /// Operation mode specific.
    pub op_specific_3: bool,
    /// Manufacturer specific.
    pub manf_2: bool,
    /// Manufacturer specific.
    pub manf_3: bool,
}

/// The status word the two bytes `a`, `b` hold.
pub open spec fn spec_status_word(a: u8, b: u8) -> StatusWord {
    StatusWord {
        ready_to_switch_on: bit_set(a, 1),
        switched_on: bit_set(a, 2),
        operation_enabled: bit_set(a, 4),
        fault: bit_set(a, 8),
        voltage_enabled: bit_set(a, 16),
        quick_stop: bit_set(a, 32),
        switch_on_disabled: bit_set(a, 64),
        warning: bit_set(a, 128),
        manf_1: bit_set(b, 1),
        remote: bit_set(b, 2),
        op_specific_1: bit_set(b, 4),
        internal_limit_active: bit_set(b, 8),
        op_specific_2: bit_set(b, 16),
        op_specific_3: bit_set(b, 32),
        manf_2: bit_set(b, 64),
        manf_3: bit_set(b, 128),
    }
}

/// The state a status word shows is decided by its low byte alone, by priority: the fault bit
/// (bit 3) gives a fault; else the quick stop bit (bit 5) a quick stop; else operation enabled
/// (bit 2), switched on (bit 1), ready to switch on (bit 0) and switch on disabled (bit 6) in that
/// order; a byte with none of these bits shows a drive not ready to switch on.
pub proof fn lemma_status_word_state(a: u8, b: u8)
    ensures
        spec_status_word(a, b).spec_state() == spec_status_word(a, 0).spec_state(),
        (a / 8) % 2 == 1 ==> spec_status_word(a, b).spec_state() == ReadState::Fault,
        (a / 8) % 2 == 0 && (a / 32) % 2 == 1 ==> spec_status_word(a, b).spec_state()
            == ReadState::QuickStop,
        (a / 8) % 2 == 0 && (a / 32) % 2 == 0 && (a / 4) % 2 == 1 ==> spec_status_word(
            a,
            b,
        ).spec_state() == ReadState::OpEnabled,
        (a / 8) % 2 == 0 && (a / 32) % 2 == 0 && (a / 4) % 2 == 0 && (a / 2) % 2 == 1
            ==> spec_status_word(a, b).spec_state() == ReadState::SwitchedOn,
        (a / 8) % 2 == 0 && (a / 32) % 2 == 0 && (a / 4) % 2 == 0 && (a / 2) % 2 == 0 && a % 2
            == 1 ==> spec_status_word(a, b).spec_state() == ReadState::ReadyToSwitchOn,
        (a / 8) % 2 == 0 && (a / 32) % 2 == 0 && (a / 4) % 2 == 0 && (a / 2) % 2 == 0 && a % 2
            == 0 && (a / 64) % 2 == 1 ==> spec_status_word(a, b).spec_state()
            == ReadState::SwitchOnDisabled,
        (a / 8) % 2 == 0 && (a / 32) % 2 == 0 && (a / 4) % 2 == 0 && (a / 2) % 2 == 0 && a % 2
            == 0 && (a / 64) % 2 == 0 ==> spec_status_word(a, b).spec_state()
            == ReadState::NotReadyToSwitchOn,
{
}

/// The flags of a control word sit in its two bytes as ETG6010 places them: switch on, enable
/// voltage, quick stop and enable operation in bits 0 to 3 of the first byte, fault reset in its
/// bit 7, halt in bit 0 of the second byte.
pub proof fn lemma_control_word_bits(a: u8, b: u8)
    ensures
        spec_control_word(a, b).switch_on <==> a % 2 == 1,
        spec_control_word(a, b).enable_voltage <==> (a / 2) % 2 == 1,
        spec_control_word(a, b).quick_stop <==> (a / 4) % 2 == 1,
        spec_control_word(a, b).enable_operation <==> (a / 8) % 2 == 1,
        spec_control_word(a, b).fault_reset <==> (a / 128) % 2 == 1,
        spec_control_word(a, b).halt <==> b % 2 == 1,
{
}

impl StatusWord {
    /// The state machine state the flags show, by priority: fault, quick stop, operation
    /// enabled, switched on, ready to switch on, switch on disabled, else not ready to switch on.
    pub open spec fn spec_state(self) -> ReadState {
        if self.fault {
            ReadState::Fault
        } else if self.quick_stop {
            ReadState::QuickStop
        } else if self.operation_enabled {
            ReadState::OpEnabled
        } else if self.switched_on {
            ReadState::SwitchedOn
        } else if self.ready_to_switch_on {
            ReadState::ReadyToSwitchOn
        } else if self.switch_on_disabled {
            ReadState::SwitchOnDisabled
        } else {
            ReadState::NotReadyToSwitchOn
        }
    }

    /// Read various fields of the status word and return the state machine state.
    pub fn state(&self) -> (r: ReadState)
        ensures
            r == self.spec_state(),
    {
        if self.fault {
            ReadState::Fault
        } else if self.quick_stop {
            ReadState::QuickStop
        } else if self.operation_enabled {
            ReadState::OpEnabled
        } else if self.switched_on {
            ReadState::SwitchedOn
        } else if self.ready_to_switch_on {
            ReadState::ReadyToSwitchOn
        } else if self.switch_on_disabled {
            ReadState::SwitchOnDisabled
        } else {
            ReadState::NotReadyToSwitchOn
        }
    }

    /// Unpack from the first two bytes of `buf`.
    pub fn unpack_from_slice(buf: &[u8]) -> (r: Result<Self, WireError>)
        ensures
            buf@.len() < 2 ==> r == Err::<Self, WireError>(WireError::ReadBufferTooShort),
            buf@.len() >= 2 ==> r == Ok::<Self, WireError>(spec_status_word(buf@[0], buf@[1])),
    {
        if buf.len() < 2 {
            return Err(WireError::ReadBufferTooShort);
        }
        let a = buf[0];
        let b = buf[1];
        Ok(
            StatusWord {
                ready_to_switch_on: (a / 1) % 2 == 1,
                switched_on: (a / 2) % 2 == 1,
                operation_enabled: (a / 4) % 2 == 1,
                fault: (a / 8) % 2 == 1,
                voltage_enabled: (a / 16) % 2 == 1,
                quick_stop: (a / 32) % 2 == 1,
                switch_on_disabled: (a / 64) % 2 == 1,
                warning: (a / 128) % 2 == 1,
                manf_1: (b / 1) % 2 == 1,
                remote: (b / 2) % 2 == 1,
                op_specific_1: (b / 4) % 2 == 1,
                internal_limit_active: (b / 8) % 2 == 1,
                op_specific_2: (b / 16) % 2 == 1,
                op_specific_3: (b / 32) % 2 == 1,
                manf_2: (b / 64) % 2 == 1,
                manf_3: (b / 128) % 2 == 1,
            },
        )
    }
}

/// Operation mode (objects 0x6060, 0x6061, 0x6502), one signed byte.
#[derive(Debug, Copy, Clone, PartialEq, Eq, Structural)]
pub enum OpMode {
    /// Profile position mode, "PP".
    ProfilePosition,
    /// Velocity mode (frequency converter), "VL".
    Velocity,
    /// Profile velocity mode, "PV".
    ProfileVelocity,
    /// Torque profile mode, "TQ".
    ProfileTorque,
    /// Homing mode, "HM".
    Homing,
    /// Interpolated position mode, "IP".
    InterpolatedPosition,
    /// Cyclic synchronous position mode, "CSP".
    CyclicSynchronousPosition,
    /// Cyclic synchronous velocity mode, "CSV".
    CyclicSynchronousVelocity,
    /// Cyclic synchronous torque mode, "CST".
    CyclicSynchronousTorque,
    /// Cyclic synchronous torque mode with commutation angle, "CSTCA".
    CyclicSynchronousTorqueWithCommutation,
    /// Any other value, such as the manufacturer specific modes from `-128..=-1`.
    ManufacturerSpecific(i8),
}

/// The operation mode a raw value names; values without a named mode are kept as they are.
pub open spec fn op_mode_from_i8(v: i8) -> OpMode {
    if v == 1 {
        OpMode::ProfilePosition
    } else if v == 2 {
        OpMode::Velocity
    } else if v == 3 {
        OpMode::ProfileVelocity
    } else if v == 4 {
        OpMode::ProfileTorque
    } else if v == 6 {
        OpMode::Homing
    } else if v == 7 {
        OpMode::InterpolatedPosition
    } else if v == 8 {
        OpMode::CyclicSynchronousPosition
    } else if v == 9 {
        OpMode::CyclicSynchronousVelocity
    } else if v == 10 {
        OpMode::CyclicSynchronousTorque
    } else if v == 11 {
        OpMode::CyclicSynchronousTorqueWithCommutation
    } else {
        OpMode::ManufacturerSpecific(v)
    }
}

/// The raw value of an operation mode.
pub open spec fn op_mode_to_i8(m: OpMode) -> i8 {
    match m {
        OpMode::ProfilePosition => 1,
        OpMode::Velocity => 2,
        OpMode::ProfileVelocity => 3,
        OpMode::ProfileTorque => 4,
        OpMode::Homing => 6,
        OpMode::InterpolatedPosition => 7,
        OpMode::CyclicSynchronousPosition => 8,
        OpMode::CyclicSynchronousVelocity => 9,
        OpMode::CyclicSynchronousTorque => 10,
        OpMode::CyclicSynchronousTorqueWithCommutation => 11,
        OpMode::ManufacturerSpecific(v) => v,
    }
}

impl OpMode {
    /// Decode a raw operation mode.
    pub fn from_i8(v: i8) -> (r: Self)
        ensures
            r == op_mode_from_i8(v),
    {
        if v == 1 {
            OpMode::ProfilePosition
        } else if v == 2 {
            OpMode::Velocity
        } else if v == 3 {
            OpMode::ProfileVelocity
        } else if v == 4 {
            OpMode::ProfileTorque
        } else if v == 6 {
            OpMode::Homing
        } else if v == 7 {
            OpMode::InterpolatedPosition
        } else if v == 8 {
            OpMode::CyclicSynchronousPosition
        } else if v == 9 {
            OpMode::CyclicSynchronousVelocity
        } else if v == 10 {
            OpMode::CyclicSynchronousTorque
        } else if v == 11 {
            OpMode::CyclicSynchronousTorqueWithCommutation
        } else {
            OpMode::ManufacturerSpecific(v)
        }
    }

    /// The raw value of this operation mode.
    pub fn to_i8(&self) -> (r: i8)
        ensures
            r == op_mode_to_i8(*self),
    {
        match self {
            OpMode::ProfilePosition => 1,
            OpMode::Velocity => 2,
            OpMode::ProfileVelocity => 3,
            OpMode::ProfileTorque => 4,
            OpMode::Homing => 6,
            OpMode::InterpolatedPosition => 7,
            OpMode::CyclicSynchronousPosition => 8,
            OpMode::CyclicSynchronousVelocity => 9,
            OpMode::CyclicSynchronousTorque => 10,
            OpMode::CyclicSynchronousTorqueWithCommutation => 11,
            OpMode::ManufacturerSpecific(v) => *v,
        }
    }

    /// The byte this mode packs into: its value in two's complement.
    pub fn pack_byte(&self) -> (r: u8)
        ensures
            r == (if op_mode_to_i8(*self) >= 0 {
                op_mode_to_i8(*self) as int
            } else {
                op_mode_to_i8(*self) + 256
            }),
    {
        let v = self.to_i8();
        if v >= 0 {
            v as u8
        } else {
            (v as i16 + 256) as u8
        }
    }
}

/// Decoding the raw value of a mode without its own name gives the same mode back; so does
/// decoding the value of a named mode.
pub proof fn lemma_op_mode_roundtrip(v: i8)
    ensures
        op_mode_to_i8(op_mode_from_i8(v)) == v,
{
}

/// The operation mode numbers of CiA 402: 1 profile position, 2 velocity, 3 profile velocity,
/// 4 profile torque, 6 homing, 7 interpolated position, 8 to 11 the cyclic synchronous position,
/// velocity, torque and torque with commutation modes; negative numbers are manufacturer
/// specific, and every number reads back as the mode it names.
pub proof fn lemma_op_mode_numbers(v: i8)
    ensures
        op_mode_to_i8(OpMode::ProfilePosition) == 1,
        op_mode_to_i8(OpMode::Velocity) == 2,
        op_mode_to_i8(OpMode::ProfileVelocity) == 3,
        op_mode_to_i8(OpMode::ProfileTorque) == 4,
        op_mode_to_i8(OpMode::Homing) == 6,
        op_mode_to_i8(OpMode::InterpolatedPosition) == 7,
        op_mode_to_i8(OpMode::CyclicSynchronousPosition) == 8,
        op_mode_to_i8(OpMode::CyclicSynchronousVelocity) == 9,
        op_mode_to_i8(OpMode::CyclicSynchronousTorque) == 10,
        op_mode_to_i8(OpMode::CyclicSynchronousTorqueWithCommutation) == 11,
        v < 0 ==> op_mode_from_i8(v) == OpMode::ManufacturerSpecific(v),
        op_mode_to_i8(op_mode_from_i8(v)) == v,
{
}

/// Set the DS402 state machine state; used to set bits in the [`ControlWord`].
#[derive(Debug, Copy, Clone, PartialEq, Eq, Structural)]
pub enum WriteState {
    /// Reset fault.
    ResetFault,
    /// Switch on.
    SwitchOn,
    /// Enable voltage.
    EnableVoltage,
    /// Enable operation.
    EnableOperation,
}

/// DS402 state machine state, read from the [`StatusWord`]; ETG6010 5.1 Figure 2.
#[derive(Debug, Copy, Clone, PartialEq, Eq, Structural)]
pub enum ReadState {
    /// Not ready to switch on.
    NotReadyToSwitchOn,
    /// Switch on disabled.
    SwitchOnDisabled,
    /// Ready to switch on.
    ReadyToSwitchOn,
    /// Switched on.
    SwitchedOn,
    /// Operation enabled.
    OpEnabled,
    /// Quick stop active.
    QuickStop,
    /// The device is in a fault state.
    Fault,
}

/// State machine transition.
#[derive(Debug, Copy, Clone, PartialEq, Eq, Structural)]
pub enum Transition {
    /// The device is in a steady state.
    Steady(ReadState),
    /// The device has finished transitioning to a new state.
    Edge {
        /// Previous state before the transition started.
        previous: ReadState,
        /// Current state.
        current: ReadState,
    },
}

/// The object code of a PDO mapping entry: index in the top sixteen bits, subindex in the next
/// eight and the size in bits less one, modulo 256, in the lowest eight.
pub open spec fn spec_object(index: u16, subindex: u8, packed_len: int) -> u32 {
    (index as int * 0x10000 + subindex as int * 0x100 + (packed_len * 8 + 255) % 256) as u32
}

/// An object sent from the MainDevice to the SubDevice (RxPdo).
#[derive(Copy, Clone)]
pub struct WriteObject;

impl WriteObject {
    /// Control word, object 0x6040:00, two bytes.
    pub const CONTROL_WORD: u32 = 0x6040_000f;
    /// Operation mode, object 0x6060:00, one byte.
    pub const OP_MODE: u32 = 0x6060_0007;
}

/// An object received by the MainDevice from the SubDevice (TxPdo).
#[derive(Copy, Clone)]
pub struct ReadObject;

impl ReadObject {
    /// Status word, object 0x6041:00, two bytes.
    pub const STATUS_WORD: u32 = 0x6041_000f;
    /// Operation mode display, object 0x6061:00, one byte.
    pub const OP_MODE: u32 = 0x6061_0007;
}

/// The DS402 object codes are the object codes of their index, subindex and size.
pub proof fn lemma_ds402_object_codes()
    ensures
        WriteObject::CONTROL_WORD == spec_object(0x6040, 0, 2),
        WriteObject::OP_MODE == spec_object(0x6060, 0, 1),
        ReadObject::STATUS_WORD == spec_object(0x6041, 0, 2),
        ReadObject::OP_MODE == spec_object(0x6061, 0, 1),
{
}

/// An object code holds the object's size in bits less one in its low byte, and the bytes it
/// reserves in the process data are the object's bytes. A 16 bit value at `0x6800:01` is
/// `0x6800_010f`.
pub proof fn lemma_object_code_size(index: u16, subindex: u8, packed_len: int)
    requires
        1 <= packed_len,
        packed_len * 8 <= 256,
    ensures
        spec_object(index, subindex, packed_len) / 0x10000 == index,
        spec_object(index, subindex, packed_len) / 0x100 % 0x100 == subindex,
        spec_object(index, subindex, packed_len) % 256 == packed_len * 8 - 1,
        object_bytes(spec_object(index, subindex, packed_len)) == packed_len,
        spec_object(0x6800, 1, 2) == 0x6800_010f,
{
    let low = packed_len * 8 - 1;
    assert((packed_len * 8 + 255) % 256 == low);
    let v = index as int * 0x10000 + subindex as int * 0x100 + low;
    assert(v < 0x1_0000_0000);
    assert(v % 256 == low && v / 0x10000 == index && v / 0x100 % 0x100 == subindex)
        by (nonlinear_arith)
        requires
            v == index as int * 0x10000 + subindex as int * 0x100 + low,
            0 <= low < 256,
            0 <= index < 0x10000,
            0 <= subindex < 0x100,
    ;
}

/// PDO object to be mapped.
#[derive(Debug, Default, Copy, Clone)]
pub struct PdoMapping<'a> {
    /// PDO index, e.g. `0x1600` or `0x1a00`.
    pub index: u16,
    /// Objects to map into this PDO.
    pub objects: &'a [u32],
    /// Oversampling ratio. If in doubt, set to `None`.
    pub oversampling: Option<u16>,
}

impl<'a> PdoMapping<'a> {
    /// Create a new PDO assignment with the given index and PDO objects.
    pub fn new(index: u16, objects: &'a [u32]) -> (r: Self)
        ensures
            r.index == index,
            r.objects@ == objects@,
            r.oversampling is None,
    {
        PdoMapping { index, objects, oversampling: None }
    }

    /// Set oversampling configuration for this mapping. For actual oversampling, values over 1
    /// should be used.
    pub fn with_oversampling(self, oversampling: u16) -> (r: Self)
        ensures
            r.index == self.index,
            r.objects@ == self.objects@,
            r.oversampling == Some(oversampling),
    {
        PdoMapping { oversampling: Some(oversampling), ..self }
    }

    /// Create an object mapping from an index, subindex and the packed length in bytes of the
    /// mapped type. The low byte holds the size in bits less one: a 16 bit value at `0x6800:01`
    /// maps to `0x6800_010f`.
    pub fn object(index: u16, subindex: u8, packed_len: usize) -> (r: u32)
        requires
            packed_len * 8 <= u32::MAX,
        ensures
            r == spec_object(index, subindex, packed_len as int),
    {
        (index as u32) * 0x10000 + (subindex as u32) * 0x100 + ((packed_len as u32) * 8 % 256 + 255) % 256
    }
}

/// Bytes taken by an object: its size in bits, from the lowest eight bits, rounded up.
pub open spec fn object_bytes(object: u32) -> int {
    ((object % 256) + 7) / 8
}

/// Bytes taken by the first `n` objects.
pub open spec fn objects_bytes(objects: Seq<u32>, n: int) -> int
    decreases n,
{
    if n <= 0 {
        0
    } else {
        objects_bytes(objects, n - 1) + object_bytes(objects[n - 1])
    }
}

/// The oversampling factor of a mapping, at least one.
pub open spec fn mapping_factor(m: PdoMapping) -> int {
    match m.oversampling {
        Some(v) => if v == 0 {
            1
        } else {
            v as int
        },
        None => 1,
    }
}

/// Bytes taken by a mapping: its objects times its oversampling factor.
pub open spec fn mapping_bytes(m: PdoMapping) -> int {
    objects_bytes(m.objects@, m.objects@.len() as int) * mapping_factor(m)
}

/// An object takes the fewest whole bytes that hold as many bits as its low byte says, and a
/// mapping takes its objects' bytes once per sample, at least once.
pub proof fn lemma_object_bytes_round_up(object: u32, m: PdoMapping)
    ensures
        8 * object_bytes(object) >= object % 256,
        object_bytes(object) == 0 || 8 * (object_bytes(object) - 1) < object % 256,
        mapping_factor(m) >= 1,
        m.oversampling is Some && m.oversampling->0 >= 1 ==> mapping_factor(m) == m.oversampling->0,
        mapping_bytes(m) == objects_bytes(m.objects@, m.objects@.len() as int) * mapping_factor(m),
{
}

/// Bytes taken by the first `n` mappings.
pub open spec fn mappings_bytes(ms: Seq<PdoMapping>, n: int) -> int
    decreases n,
{
    if n <= 0 {
        0
    } else {
        mappings_bytes(ms, n - 1) + mapping_bytes(ms[n - 1])
    }
}

proof fn lemma_objects_bytes_monotonic(objects: Seq<u32>, m: int, n: int)
    requires
        0 <= m <= n,
    ensures
        0 <= objects_bytes(objects, m) <= objects_bytes(objects, n),
    decreases n,
{
    if m < n {
        lemma_objects_bytes_monotonic(objects, m, n - 1);
    } else if n > 0 {
        lemma_objects_bytes_monotonic(objects, n - 1, n - 1);
    }
}

proof fn lemma_mappings_bytes_monotonic(ms: Seq<PdoMapping>, m: int, n: int)
    requires
        0 <= m <= n,
    ensures
        0 <= mappings_bytes(ms, m) <= mappings_bytes(ms, n),
    decreases n,
{
    if n > 0 {
        lemma_objects_bytes_monotonic(ms[n - 1].objects@, 0, ms[n - 1].objects@.len() as int);
        assert(mapping_bytes(ms[n - 1]) >= 0) by (nonlinear_arith)
            requires
                objects_bytes(ms[n - 1].objects@, ms[n - 1].objects@.len() as int) >= 0,
                mapping_factor(ms[n - 1]) >= 1,
        ;
    }
    if m < n {
        lemma_mappings_bytes_monotonic(ms, m, n - 1);
    } else if n > 0 {
        lemma_mappings_bytes_monotonic(ms, n - 1, n - 1);
    }
}

/// SDO config for a SubDevice's read (with [`ReadObject`]) or write (with [`WriteObject`]) PDOs.
#[derive(Debug, Copy, Clone)]
pub struct SyncManagerAssignment<'a> {
    /// Sync manager index starting from 0; chosen automatically when `None`.
    pub sync_manager: Option<u8>,
    /// PDO mappings.
    pub mappings: &'a [PdoMapping<'a>],
}

impl<'a> SyncManagerAssignment<'a> {
    /// Create a new SM assignment with an automatically chosen sync manager.
    pub fn new(mappings: &'a [PdoMapping<'a>]) -> (r: Self)
        ensures
            r.mappings@ == mappings@,
            r.sync_manager is None,
    {
        SyncManagerAssignment { mappings, sync_manager: None }
    }

    /// Set an explicit sync manager index to use.
    pub fn with_sync_manager(self, sync_manager: u8) -> (r: Self)
        ensures
            r.mappings@ == self.mappings@,
            r.sync_manager == Some(sync_manager),
    {
        SyncManagerAssignment { sync_manager: Some(sync_manager), ..self }
    }

    /// The size in bytes of each mapping.
    pub fn object_sizes(&self) -> (r: Vec<u16>)
        requires
            forall|i: int|
                0 <= i < self.mappings@.len() ==> mapping_bytes(#[trigger] self.mappings@[i])
                    <= u16::MAX,
        ensures
            r@.len() == self.mappings@.len(),
            forall|i: int| 0 <= i < r@.len() ==> r@[i] == mapping_bytes(#[trigger] self.mappings@[i]),
    {
        let mut out: Vec<u16> = Vec::new();
        let mut i: usize = 0;
        while i < self.mappings.len()
            invariant
                i <= self.mappings@.len(),
                out@.len() == i,
                forall|j: int|
                    0 <= j < self.mappings@.len() ==> mapping_bytes(#[trigger] self.mappings@[j])
                        <= u16::MAX,
                forall|j: int| 0 <= j < i ==> out@[j] == mapping_bytes(#[trigger] self.mappings@[j]),
            decreases self.mappings@.len() - i,
        {
            let mapping = &self.mappings[i];
            let mul: u16 = match mapping.oversampling {
                Some(v) => if v == 0 {
                    1
                } else {
                    v
                },
                None => 1,
            };
            let ghost objs = mapping.objects@;
            proof {
                lemma_objects_bytes_monotonic(objs, 0, objs.len() as int);
                assert(objects_bytes(objs, objs.len() as int) * mapping_factor(*mapping)
                    >= objects_bytes(objs, objs.len() as int)) by (nonlinear_arith)
                    requires
                        objects_bytes(objs, objs.len() as int) >= 0,
                        mapping_factor(*mapping) >= 1,
                ;
            }
            let mut sum: u16 = 0;
            let mut k: usize = 0;
            while k < mapping.objects.len()
                invariant
                    k <= objs.len(),
                    objs == mapping.objects@,
                    sum == objects_bytes(objs, k as int),
                    objects_bytes(objs, objs.len() as int) <= u16::MAX,
                decreases objs.len() - k,
            {
                proof {
                    lemma_objects_bytes_monotonic(objs, k + 1, objs.len() as int);
                }
                let object = mapping.objects[k];
                let size_bits = (object % 256) as u16;
                sum = sum + (size_bits + 7) / 8;
                k = k + 1;
            }
            assert(mul == mapping_factor(*mapping));
            out.push(sum * mul);
            i = i + 1;
        }
        out
    }

    /// The size in bytes of all mappings together.
    pub fn len_bytes(&self) -> (r: u16)
        requires
            mappings_bytes(self.mappings@, self.mappings@.len() as int) <= u16::MAX,
        ensures
            r == mappings_bytes(self.mappings@, self.mappings@.len() as int),
    {
        let ghost n = self.mappings@.len() as int;
        proof {
            assert forall|i: int| 0 <= i < n implies mapping_bytes(#[trigger] self.mappings@[i])
                <= u16::MAX by {
                lemma_mappings_bytes_monotonic(self.mappings@, i + 1, n);
                lemma_mappings_bytes_monotonic(self.mappings@, 0, i);
            }
        }
        let sizes = self.object_sizes();
        let mut total: u16 = 0;
        let mut i: usize = 0;
        while i < sizes.len()
            invariant
                i <= sizes@.len(),
                sizes@.len() == self.mappings@.len(),
                forall|j: int| 0 <= j < sizes@.len() ==> sizes@[j] == mapping_bytes(#[trigger] self.mappings@[j]),
                total == mappings_bytes(self.mappings@, i as int),
                mappings_bytes(self.mappings@, self.mappings@.len() as int) <= u16::MAX,
            decreases sizes@.len() - i,
        {
            proof {
                lemma_mappings_bytes_monotonic(self.mappings@, i + 1, self.mappings@.len() as int);
            }
            total = total + sizes[i];
            i = i + 1;
        }
        total
    }
}

/// What the DS402 driver asks of the drive.
#[derive(Debug, Copy, Clone, PartialEq, Eq, Structural)]
pub enum BikeshedHighLevelState {
    /// Drive off.
    Off,
    /// Drive on.
    On,
}

/// Objects mapped into a SubDevice's process data: each object code with its byte range, no
/// object code twice.
#[derive(Debug)]
pub struct ObjectRanges {
    entries: Vec<(u32, Range<usize>)>,
}

/// No object code appears twice among `entries`.
pub open spec fn distinct_keys(entries: Seq<(u32, Range<usize>)>) -> bool {
    forall|i: int, j: int| 0 <= i < j < entries.len() ==> entries[i].0 != entries[j].0
}

/// The range of the first entry for `key` among entries from `j`, if any.
pub open spec fn lookup_from(entries: Seq<(u32, Range<usize>)>, key: u32, j: int) -> Option<
    Range<usize>,
>
    decreases entries.len() - j,
{
    if j < 0 || j >= entries.len() {
        None
    } else if entries[j].0 == key {
        Some(entries[j].1)
    } else {
        lookup_from(entries, key, j + 1)
    }
}

/// Entries that do not hold `key` can be skipped when looking it up.
proof fn lemma_lookup_skip(s: Seq<(u32, Range<usize>)>, key: u32, j0: int, j: int)
    requires
        0 <= j0 <= j <= s.len(),
        forall|i: int| j0 <= i < j ==> s[i].0 != key,
    ensures
        lookup_from(s, key, j0) == lookup_from(s, key, j),
    decreases j - j0,
{
    if j0 < j {
        lemma_lookup_skip(s, key, j0 + 1, j);
    }
}

/// Looking up in `s` with `x` appended finds what `s` holds, else `x`.
proof fn lemma_lookup_push(s: Seq<(u32, Range<usize>)>, x: (u32, Range<usize>), key: u32, j: int)
    requires
        0 <= j <= s.len(),
    ensures
        lookup_from(s.push(x), key, j) == (match lookup_from(s, key, j) {
            Some(r) => Some(r),
            None => if x.0 == key {
                Some(x.1)
            } else {
                None
            },
        }),
    decreases s.len() - j,
{
    assert(lookup_from(s.push(x), key, s.len() + 1int) is None);
    if j < s.len() {
        assert(s.push(x)[j] == s[j]);
        lemma_lookup_push(s, x, key, j + 1);
    } else {
        assert(s.push(x)[j] == x);
    }
}

/// Replacing the range of entry `i`, keeping its key, changes only what that key finds.
proof fn lemma_lookup_update(
    s: Seq<(u32, Range<usize>)>,
    i: int,
    x: (u32, Range<usize>),
    key: u32,
    j: int,
)
    requires
        0 <= i < s.len(),
        0 <= j <= s.len(),
        s[i].0 == x.0,
        distinct_keys(s),
    ensures
        lookup_from(s.update(i, x), key, j) == if key == x.0 && j <= i {
            Some(x.1)
        } else {
            lookup_from(s, key, j)
        },
    decreases s.len() - j,
{
    if j < s.len() {
        lemma_lookup_update(s, i, x, key, j + 1);
        if j != i && s[j].0 == key && key == x.0 && j < i {
            assert(s[j].0 != s[i].0);
        }
    }
}

impl ObjectRanges {
    #[verifier::type_invariant]
    spec fn keys_distinct(&self) -> bool {
        distinct_keys(self.entries@)
    }

    /// The range mapped for `key`, if any.
    pub closed spec fn spec_get(&self, key: u32) -> Option<Range<usize>> {
        lookup_from(self.entries@, key, 0)
    }

    /// No objects mapped.
    pub fn new() -> (r: Self)
        ensures
            forall|k: u32| r.spec_get(k) is None,
    {
        ObjectRanges { entries: Vec::new() }
    }

    /// Map `key` to `range`, giving back the range it had, if any. Other keys keep theirs.
    pub fn insert(&mut self, key: u32, range: Range<usize>) -> (r: Option<Range<usize>>)
        ensures
            r == old(self).spec_get(key),
            final(self).spec_get(key) == Some(range),
            forall|k: u32| k != key ==> final(self).spec_get(k) == old(self).spec_get(k),
    {
        proof {
            use_type_invariant(&*self);
        }
        let mut entries: Vec<(u32, Range<usize>)> = Vec::new();
        std::mem::swap(&mut entries, &mut self.entries);
        let ghost s = entries@;
        let mut j: usize = 0;
        while j < entries.len()
            invariant
                entries@ == s,
                s == old(self).entries@,
                distinct_keys(s),
                j <= s.len(),
                forall|i: int| 0 <= i < j ==> s[i].0 != key,
            decreases s.len() - j,
        {
            if entries[j].0 == key {
                let previous = entries[j].1.start..entries[j].1.end;
                entries.set(j, (key, range));
                proof {
                    lemma_lookup_skip(s, key, 0, j as int);
                    lemma_lookup_update(s, j as int, (key, range), key, 0);
                    assert forall|k: u32| k != key implies lookup_from(entries@, k, 0) == lookup_from(
                        s,
                        k,
                        0,
                    ) by {
                        lemma_lookup_update(s, j as int, (key, range), k, 0);
                    }
                    assert(distinct_keys(entries@));
                }
                self.entries = entries;
                return Some(previous);
            }
            j = j + 1;
        }
        entries.push((key, range));
        proof {
            lemma_lookup_skip(s, key, 0, s.len() as int);
            lemma_lookup_push(s, (key, range), key, 0);
            assert forall|k: u32| k != key implies lookup_from(entries@, k, 0) == lookup_from(
                s,
                k,
                0,
            ) by {
                lemma_lookup_push(s, (key, range), k, 0);
            }
            assert(distinct_keys(entries@));
        }
        self.entries = entries;
        None
    }

    /// Whether `key` is mapped.
    pub fn contains_key(&self, key: &u32) -> (r: bool)
        ensures
            r == self.spec_get(*key) is Some,
    {
        match self.get(key) {
            Some(_) => true,
            None => false,
        }
    }

    /// The range mapped for `key`, if any.
    pub fn get(&self, key: &u32) -> (r: Option<Range<usize>>)
        ensures
            r == self.spec_get(*key),
    {
        let mut j: usize = 0;
        while j < self.entries.len()
            invariant
                j <= self.entries@.len(),
                lookup_from(self.entries@, *key, 0) == lookup_from(self.entries@, *key, j as int),
            decreases self.entries@.len() - j,
        {
            if self.entries[j].0 == *key {
                let r = &self.entries[j].1;
                return Some(r.start..r.end);
            }
            j = j + 1;
        }
        None
    }
}

/// A SubDevice's process data with the objects mapped into it.
#[derive(Debug)]
pub struct PdiMappingBikeshedName {
    /// Objects read from the SubDevice.
    pub inputs: ObjectRanges,
    /// Objects written to the SubDevice.
    pub outputs: ObjectRanges,
    /// The input process data.
    pub inputs_raw: Vec<u8>,
    /// The output process data.
    pub outputs_raw: Vec<u8>,
}

/// Wraps a SubDevice's process data in a higher level DS402 API.
#[derive(Debug)]
pub struct Ds402 {
    /// The SubDevice's process data and mappings.
    pub subdevice: PdiMappingBikeshedName,
    /// Bytes of the control word in the outputs.
    pub control_word: Range<usize>,
    /// Bytes of the status word.
    pub status_word: Range<usize>,
    /// Bytes of the operation mode in the outputs.
    pub op_mode: Range<usize>,
    /// Bytes of the operation mode display.
    pub op_mode_display: Range<usize>,
    /// What the application asked for, if anything.
    pub desired_state: Option<BikeshedHighLevelState>,
    /// The state seen at the last tick.
    pub prev_state: ReadState,
}

/// Whether [`Ds402::new`] accepts `s`: the status word and operation mode display objects are
/// among the inputs, and the control word and operation mode objects among the outputs.
pub open spec fn ds402_accepts(s: PdiMappingBikeshedName) -> bool {
    &&& s.inputs.spec_get(ReadObject::STATUS_WORD) is Some
    &&& s.inputs.spec_get(ReadObject::OP_MODE) is Some
    &&& s.outputs.spec_get(WriteObject::CONTROL_WORD) is Some
    &&& s.outputs.spec_get(WriteObject::OP_MODE) is Some
}

impl Ds402 {
    /// Create a new DS402 instance with the given SubDevice.
    ///
    /// Fails with [`Error::Internal`] unless the mandatory objects are mapped: the status word
    /// and operation mode display as inputs, the control word and operation mode as outputs.
    pub fn new(subdevice: PdiMappingBikeshedName) -> (r: Result<Self, Error>)
        ensures
            ds402_accepts(subdevice) <==> r is Ok,
            !ds402_accepts(subdevice) ==> r == Err::<Self, Error>(Error::Internal),
            r matches Ok(d) ==> {
                &&& d.subdevice == subdevice
                &&& Some(d.control_word) == subdevice.outputs.spec_get(WriteObject::CONTROL_WORD)
                &&& Some(d.op_mode) == subdevice.outputs.spec_get(WriteObject::OP_MODE)
                &&& Some(d.status_word) == subdevice.inputs.spec_get(ReadObject::STATUS_WORD)
                &&& Some(d.op_mode_display) == subdevice.inputs.spec_get(ReadObject::OP_MODE)
                &&& d.desired_state is None
                &&& d.prev_state == ReadState::NotReadyToSwitchOn
            },
    {
        // Mandatory fields referenced from ETG6010 Table 85: Object Dictionary.
        let status_word = match subdevice.inputs.get(&ReadObject::STATUS_WORD) {
            Some(r) => r,
            None => {
                return Err(Error::Internal);
            },
        };
        let op_mode_display = match subdevice.inputs.get(&ReadObject::OP_MODE) {
            Some(r) => r,
            None => {
                return Err(Error::Internal);
            },
        };
        let control_word = match subdevice.outputs.get(&WriteObject::CONTROL_WORD) {
            Some(r) => r,
            None => {
                return Err(Error::Internal);
            },
        };
        let op_mode = match subdevice.outputs.get(&WriteObject::OP_MODE) {
            Some(r) => r,
            None => {
                return Err(Error::Internal);
            },
        };
        Ok(
            Ds402 {
                subdevice,
                control_word,
                op_mode,
                status_word,
                op_mode_display,
                desired_state: None,
                prev_state: ReadState::NotReadyToSwitchOn,
            },
        )
    }

    /// Record the state the application wants the drive in.
    pub fn bikeshed_set_high_level_state(&mut self, desired: BikeshedHighLevelState)
        ensures
            final(self).desired_state == Some(desired),
            final(self).prev_state == old(self).prev_state,
            final(self).subdevice.inputs_raw@ == old(self).subdevice.inputs_raw@,
            final(self).status_word == old(self).status_word,
    {
        self.desired_state = Some(desired)
    }

    /// The status word read from the input process data.
    pub open spec fn spec_status_word(&self) -> StatusWord {
        spec_status_word(
            self.subdevice.inputs_raw@[self.status_word.start as int],
            self.subdevice.inputs_raw@[self.status_word.start + 1],
        )
    }

    /// The status word range lies in the input process data and holds two bytes or more.
    pub open spec fn status_word_readable(&self) -> bool {
        self.status_word.start <= self.status_word.end <= self.subdevice.inputs_raw@.len()
            && self.status_word.end - self.status_word.start >= 2
    }

    /// Advance the state machine by one cycle. Only a drive in fault is handled: the desired
    /// state is cleared and the fault state reported.
    pub fn bikeshed_tick(&mut self) -> (r: Transition)
        requires
            old(self).status_word_readable(),
            old(self).spec_status_word().spec_state() == ReadState::Fault,
        ensures
            final(self).desired_state is None,
            final(self).prev_state == ReadState::Fault,
            old(self).prev_state != ReadState::Fault ==> r == (Transition::Edge {
                previous: old(self).prev_state,
                current: ReadState::Fault,
            }),
            old(self).prev_state == ReadState::Fault ==> r == Transition::Steady(ReadState::Fault),
            final(self).subdevice == old(self).subdevice,
            final(self).control_word == old(self).control_word,
            final(self).status_word == old(self).status_word,
            final(self).op_mode == old(self).op_mode,
            final(self).op_mode_display == old(self).op_mode_display,
    {
        // A drive in fault: the desired state is cleared and the application must clear the
        // fault and set a new desired state itself.
        let new_state = self.state();
        self.desired_state = None;
        let result = if new_state != self.prev_state {
            Transition::Edge { previous: self.prev_state, current: new_state }
        } else {
            Transition::Steady(new_state)
        };
        self.prev_state = new_state;
        result
    }

    /// Write the DS402 operation mode (CSV, CSP, etc) into the first byte of its output range.
    pub fn set_op_mode(&mut self, mode: OpMode)
        requires
            old(self).op_mode.start < old(self).op_mode.end <= old(self).subdevice.outputs_raw@.len(),
        ensures
            final(self).subdevice.outputs_raw@ == old(self).subdevice.outputs_raw@.update(
                old(self).op_mode.start as int,
                mode.pack_byte_spec(),
            ),
            final(self).op_mode == old(self).op_mode,
    {
        let b = mode.pack_byte();
        let k = self.op_mode.start;
        self.subdevice.outputs_raw.set(k, b);
    }

    /// The DS402 status word.
    pub fn status_word(&self) -> (r: StatusWord)
        requires
            self.status_word_readable(),
        ensures
            r == self.spec_status_word(),
    {
        let k = self.status_word.start;
        let a = self.subdevice.inputs_raw[k];
        let b = self.subdevice.inputs_raw[k + 1];
        match StatusWord::unpack_from_slice([a, b].as_slice()) {
            Ok(w) => w,
            Err(_) => StatusWord::unpack_from_slice([0u8, 0u8].as_slice()).unwrap(),
        }
    }

    /// The current DS402 state machine state.
    pub fn state(&self) -> (r: ReadState)
        requires
            self.status_word_readable(),
        ensures
            r == self.spec_status_word().spec_state(),
    {
        self.status_word().state()
    }

    /// The underlying SubDevice with its process data.
    pub fn inner(&self) -> (r: &PdiMappingBikeshedName)
        ensures
            r == &self.subdevice,
    {
        &self.subdevice
    }
}

impl OpMode {
    /// The byte this mode packs into.
    pub open spec fn pack_byte_spec(&self) -> u8 {
        (if op_mode_to_i8(*self) >= 0 {
            op_mode_to_i8(*self) as int
        } else {
            op_mode_to_i8(*self) + 256
        }) as u8
    }
}

} // verus!
