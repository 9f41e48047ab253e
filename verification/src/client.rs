//! The MainDevice's view of the network: counts, the DC reference and the network reset plan.
use vstd::prelude::*;
use crate::al_control::AlControl;
use crate::client_config::ClientConfig;
use crate::subdevice_state::SubDeviceState;

verus! {

/// The chunks `blank_mem_iter` yields from position `pos` with `len` bytes left, of at most
/// `step` bytes each (the chunk length is `step` truncated to sixteen bits), ending before `end`.
pub open spec fn blank_chunks(pos: int, end: int, len: int, step: int) -> Seq<(u16, u16)>
    decreases (if pos < end {
        end - pos
    } else {
        0
    }),
{
    if len <= 0 || step <= 0 || pos >= end {
        Seq::empty()
    } else {
        let c = if (step % 0x10000) < len {
            step % 0x10000
        } else {
            len
        };
        seq![(pos as u16, (pos + c) as u16)] + blank_chunks(pos + step, end, len - c, step)
    }
}

/// Split the `len` bytes from `start` into chunks of at most `step` bytes, as `(start, end)`
/// address pairs.
pub fn blank_mem_iter(start: u16, len: u16, step: usize) -> (r: Vec<(u16, u16)>)
    requires
        start + len <= u16::MAX,
    ensures
        r@ == blank_chunks(start as int, start + len, len as int, step as int),
{
    let end: u16 = start + len;
    let chunk_step: u16 = (step % 0x10000) as u16;
    let mut out: Vec<(u16, u16)> = Vec::new();
    let mut pos: usize = start as usize;
    let mut left: u16 = len;
    while left > 0 && step > 0 && pos < end as usize
        invariant
            start <= pos,
            end == start + len,
            chunk_step == step % 0x10000,
            left <= len,
            pos < end ==> pos + left <= end,
            out@ + blank_chunks(pos as int, end as int, left as int, step as int) == blank_chunks(
                start as int,
                end as int,
                len as int,
                step as int,
            ),
        decreases end - pos,
    {
        let c: u16 = if chunk_step < left {
            chunk_step
        } else {
            left
        };
        let ghost prev_out = out@;
        out.push((pos as u16, pos as u16 + c));
        left = left - c;
        proof {
            assert(out@ == prev_out + seq![((pos as int) as u16, (pos + c) as u16)]);
            assert(out@ + blank_chunks(pos + step, end as int, left as int, step as int) =~= prev_out
                + blank_chunks(pos as int, end as int, (left + c) as int, step as int));
        }
        if end as usize - pos <= step {
            pos = end as usize;
        } else {
            pos = pos + step;
        }
    }
    proof {
        assert(blank_chunks(pos as int, end as int, left as int, step as int) =~= Seq::empty());
        assert(out@ =~= out@ + Seq::<(u16, u16)>::empty());
    }
    out
}

/// The chunks cover the range without gaps: the first starts at `start`, each ends where the next
/// begins, the last ends at `start + len`, and there are `len / step` chunks plus one for a
/// partial last step.
pub proof fn lemma_blank_mem_cover(start: int, len: int, step: int)
    requires
        0 <= start,
        0 <= len,
        start + len <= u16::MAX,
        1 <= step <= u16::MAX,
    ensures
        blank_chunks(start, start + len, len, step).len() == len / step + (if len % step > 0 {
            1int
        } else {
            0
        }),
        len > 0 ==> blank_chunks(start, start + len, len, step)[0].0 == start,
        len > 0 ==> blank_chunks(start, start + len, len, step).last().1 == start + len,
        forall|i: int|
            0 <= i < blank_chunks(start, start + len, len, step).len() - 1 ==> (#[trigger] blank_chunks(
                start,
                start + len,
                len,
                step,
            )[i]).1 == blank_chunks(start, start + len, len, step)[i + 1].0,
    decreases len,
{
    let s = blank_chunks(start, start + len, len, step);
    if len > 0 {
        let c = if step < len {
            step
        } else {
            len
        };
        assert(step % 0x10000 == step);
        if step < len {
            lemma_blank_mem_cover(start + step, len - step, step);
            let rest = blank_chunks(start + step, start + step + (len - step), len - step, step);
            assert(s == seq![(start as u16, (start + step) as u16)] + rest);
            assert((len - step) / step == len / step - 1) by {
                vstd::arithmetic::div_mod::lemma_div_minus_one(len, step);
            }
            assert((len - step) % step == len % step) by {
                vstd::arithmetic::div_mod::lemma_mod_sub_multiples_vanish(len, step);
            }
            assert forall|i: int| 0 <= i < s.len() - 1 implies (#[trigger] s[i]).1 == s[i + 1].0 by {
                if i > 0 {
                    assert(s[i] == rest[i - 1]);
                    assert(s[i + 1] == rest[i]);
                }
            }
        } else {
            assert(blank_chunks(start + step, start + len, len - c, step) =~= Seq::empty());
            assert(s =~= seq![(start as u16, (start + len) as u16)]);
            if step == len {
                assert(len / step == 1 && len % step == 0) by {
                    vstd::arithmetic::div_mod::lemma_div_by_self(len);
                    vstd::arithmetic::div_mod::lemma_mod_self_0(len);
                }
            } else {
                assert(len / step == 0 && len % step == len) by {
                    vstd::arithmetic::div_mod::lemma_basic_div(len, step);
                    vstd::arithmetic::div_mod::lemma_small_mod(len as nat, step as nat);
                }
            }
        }
    } else {
        assert(len / step == 0 && len % step == 0) by {
            vstd::arithmetic::div_mod::lemma_basic_div(0, step);
            vstd::arithmetic::div_mod::lemma_small_mod(0, step as nat);
        }
    }
}

/// An action of the network reset.
#[derive(Debug, Copy, Clone, PartialEq, Eq, Structural)]
pub enum ResetAction {
    /// Broadcast-write the AL control word requesting INIT with the error acknowledged.
    WriteAlControl {
        /// Register address.
        address: u16,
        /// The control word.
        value: AlControl,
    },
    /// Broadcast zeros over `len` bytes from `address`.
    Blank {
        /// Register address.
        address: u16,
        /// Number of bytes.
        len: u16,
    },
    /// Broadcast-write a 16 bit value.
    WriteU16 {
        /// Register address.
        address: u16,
        /// The value.
        value: u16,
    },
}

/// AL control register.
pub const REG_AL_CONTROL: u16 = 0x0120;
/// First FMMU register.
pub const REG_FMMU0: u16 = 0x0600;
/// First sync manager register.
pub const REG_SM0: u16 = 0x0800;
/// DC system time.
pub const REG_DC_SYSTEM_TIME: u16 = 0x0910;
/// DC system time offset.
pub const REG_DC_SYSTEM_TIME_OFFSET: u16 = 0x0920;
/// DC system time transmission delay.
pub const REG_DC_SYSTEM_TIME_TRANSMISSION_DELAY: u16 = 0x0928;
/// DC system time difference.
pub const REG_DC_SYSTEM_TIME_DIFFERENCE: u16 = 0x092C;
/// DC control loop parameter 1.
pub const REG_DC_CONTROL_LOOP_PARAM1: u16 = 0x0930;
/// DC control loop parameter 3.
pub const REG_DC_CONTROL_LOOP_PARAM3: u16 = 0x0934;
/// DC cyclic unit control.
pub const REG_DC_CYCLIC_UNIT_CONTROL: u16 = 0x0980;
/// DC sync activation.
pub const REG_DC_SYNC_ACTIVE: u16 = 0x0981;
/// DC sync start time.
pub const REG_DC_SYNC_START_TIME: u16 = 0x0990;
/// DC SYNC0 cycle time.
pub const REG_DC_SYNC0_CYCLE_TIME: u16 = 0x09A0;
/// DC SYNC1 cycle time.
pub const REG_DC_SYNC1_CYCLE_TIME: u16 = 0x09A4;

/// The writes that reset every SubDevice, in order: request INIT, clear the FMMU (0xff bytes) and
/// sync manager (0x7f bytes) sections, hand DC control back to EtherCAT and zero the DC times,
/// then set control loop parameter 3 to `0x0c00` and, after it, parameter 1 to `0x1000`
/// (ETG1020 Section 22.2.4).
pub open spec fn spec_reset_plan() -> Seq<ResetAction> {
    seq![
        ResetAction::WriteAlControl {
            address: REG_AL_CONTROL,
            value: AlControl {
                state: crate::subdevice_state::SubDeviceState::Init,
                error: true,
                id_request: false,
            },
        },
        ResetAction::Blank { address: REG_FMMU0, len: 0xff },
        ResetAction::Blank { address: REG_SM0, len: 0x7f },
        ResetAction::Blank { address: REG_DC_CYCLIC_UNIT_CONTROL, len: 1 },
        ResetAction::Blank { address: REG_DC_SYSTEM_TIME, len: 8 },
        ResetAction::Blank { address: REG_DC_SYSTEM_TIME_OFFSET, len: 8 },
        ResetAction::Blank { address: REG_DC_SYSTEM_TIME_TRANSMISSION_DELAY, len: 4 },
        ResetAction::Blank { address: REG_DC_SYSTEM_TIME_DIFFERENCE, len: 4 },
        ResetAction::Blank { address: REG_DC_SYNC_ACTIVE, len: 1 },
        ResetAction::Blank { address: REG_DC_SYNC_START_TIME, len: 4 },
        ResetAction::Blank { address: REG_DC_SYNC0_CYCLE_TIME, len: 4 },
        ResetAction::Blank { address: REG_DC_SYNC1_CYCLE_TIME, len: 4 },
        ResetAction::WriteU16 { address: REG_DC_CONTROL_LOOP_PARAM3, value: 0x0c00 },
        ResetAction::WriteU16 { address: REG_DC_CONTROL_LOOP_PARAM1, value: 0x1000 },
    ]
}

/// What reading the AL status tells a MainDevice waiting for a state.
#[derive(Debug, Copy, Clone, PartialEq, Eq, Structural)]
pub enum StateWait {
    /// A SubDevice reported an error: the transition failed.
    Failed,
    /// The desired state was reached.
    Reached,
    /// Neither yet: read the status again after a loop tick.
    Pending,
}

/// Decide what an AL status read while waiting for `desired` means. An error flag wins over the
/// state.
pub fn state_wait_step(status: &AlControl, desired: SubDeviceState) -> (r: StateWait)
    ensures
        r == (if status.error {
            StateWait::Failed
        } else if status.state == desired {
            StateWait::Reached
        } else {
            StateWait::Pending
        }),
{
    if status.error {
        StateWait::Failed
    } else if status.state == desired {
        StateWait::Reached
    } else {
        StateWait::Pending
    }
}

/// How many times the AL status is read after requesting a state of one SubDevice before giving
/// up: 200 ms, reading every 10 ms.
pub const STATE_REQUEST_ATTEMPTS: u8 = 20;

/// AL status register.
pub const REG_AL_STATUS: u16 = 0x0130;
/// AL status code register.
pub const REG_AL_STATUS_CODE: u16 = 0x0134;
/// DC receive time latch of port 0; the other ports follow.
pub const REG_DC_TIME_PORT0: u16 = 0x0900;
/// DC receive time of the processing unit.
pub const REG_DC_RECEIVE_TIME: u16 = 0x0918;

/// The MainDevice's record of the network.
#[derive(Debug, Copy, Clone, PartialEq, Eq, Structural)]
pub struct Client {
    /// The total number of discovered SubDevices.
    pub num_slaves: u16,
    /// Configured address of the DC reference SubDevice, or zero if there is none.
    pub dc_reference_configured_address: u16,
    /// Configuration.
    pub config: ClientConfig,
    /// The most data one frame carries.
    pub max_frame_data: usize,
}

impl Client {
    /// A MainDevice that has discovered nothing yet.
    pub fn new(config: ClientConfig, max_frame_data: usize) -> (r: Self)
        ensures
            r.num_slaves == 0,
            r.dc_reference_configured_address == 0,
            r.config == config,
            r.max_frame_data == max_frame_data,
    {
        Client { num_slaves: 0, dc_reference_configured_address: 0, config, max_frame_data }
    }

    /// The number of discovered SubDevices.
    pub fn num_slaves(&self) -> (r: usize)
        ensures
            r == self.num_slaves,
    {
        self.num_slaves as usize
    }

    /// The configured address of the DC reference SubDevice, if there is one.
    pub fn dc_ref_address(&self) -> (r: Option<u16>)
        ensures
            r == (if self.dc_reference_configured_address > 0 {
                Some(self.dc_reference_configured_address)
            } else {
                None
            }),
    {
        let addr = self.dc_reference_configured_address;
        if addr > 0 {
            Some(addr)
        } else {
            None
        }
    }

    /// The most data one frame carries.
    pub fn max_frame_data(&self) -> (r: usize)
        ensures
            r == self.max_frame_data,
    {
        self.max_frame_data
    }

    /// The chunks that zero `len` bytes of every SubDevice's memory from `start`, each small
    /// enough for one frame.
    pub fn blank_memory(&self, start: u16, len: u16) -> (r: Vec<(u16, u16)>)
        requires
            start + len <= u16::MAX,
        ensures
            r@ == blank_chunks(start as int, start + len, len as int, self.max_frame_data as int),
    {
        blank_mem_iter(start, len, self.max_frame_data)
    }

    /// The writes that reset every SubDevice, in order.
    pub fn reset_slaves(&self) -> (r: Vec<ResetAction>)
        ensures
            r@ == spec_reset_plan(),
    {
        let v = vec![
            ResetAction::WriteAlControl { address: REG_AL_CONTROL, value: AlControl::reset() },
            ResetAction::Blank { address: REG_FMMU0, len: 0xff },
            ResetAction::Blank { address: REG_SM0, len: 0x7f },
            ResetAction::Blank { address: REG_DC_CYCLIC_UNIT_CONTROL, len: 1 },
            ResetAction::Blank { address: REG_DC_SYSTEM_TIME, len: 8 },
            ResetAction::Blank { address: REG_DC_SYSTEM_TIME_OFFSET, len: 8 },
            ResetAction::Blank { address: REG_DC_SYSTEM_TIME_TRANSMISSION_DELAY, len: 4 },
            ResetAction::Blank { address: REG_DC_SYSTEM_TIME_DIFFERENCE, len: 4 },
            ResetAction::Blank { address: REG_DC_SYNC_ACTIVE, len: 1 },
            ResetAction::Blank { address: REG_DC_SYNC_START_TIME, len: 4 },
            ResetAction::Blank { address: REG_DC_SYNC0_CYCLE_TIME, len: 4 },
            ResetAction::Blank { address: REG_DC_SYNC1_CYCLE_TIME, len: 4 },
            ResetAction::WriteU16 { address: REG_DC_CONTROL_LOOP_PARAM3, value: 0x0c00 },
            ResetAction::WriteU16 { address: REG_DC_CONTROL_LOOP_PARAM1, value: 0x1000 },
        ];
        assert(v@ =~= spec_reset_plan());
        v
    }
}

} // verus!
