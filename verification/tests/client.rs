use ethercrab::al_control::AlControl;
use ethercrab::client::{
    blank_mem_iter, state_wait_step, Client, ResetAction, StateWait, REG_AL_CONTROL, REG_FMMU0,
    STATE_REQUEST_ATTEMPTS,
};
use ethercrab::subdevice_state::SubDeviceState;
use ethercrab::client_config::ClientConfig;

#[test]
fn blank_mem_fuzz() {
    let cases: [(u16, u16, u16); 9] = [
        (0, 0, 1),
        (0, 10, 3),
        (0x600, 0xff, 16),
        (100, 7, 7),
        (100, 7, 8),
        (65000, 535, 100),
        (5, 1, 1),
        (0, 1000, 1),
        (0, 65535, 65535),
    ];
    for (start, len, step) in cases {
        // For this test, anything that overflows we ignore.
        if u32::from(start) + u32::from(len) > u32::from(u16::MAX) {
            continue;
        }

        // Ensure we add another iteration for a partial final step
        let iterations = len.checked_div(step).unwrap_or(0) + (len % step).min(1);

        let step = usize::from(step);

        let end = start + len;

        let it = blank_mem_iter(start, len, step);

        assert_eq!(it.len(), usize::from(iterations));
        assert_eq!(
            it.last().map(|l| l.1),
            if iterations == 0 { None } else { Some(end) },
            "start {} end {} len {}",
            start,
            end,
            len
        );
    }
}

#[test]
fn blank_mem_chunks_exact() {
    assert_eq!(blank_mem_iter(0x600, 10, 4), vec![(0x600, 0x604), (0x604, 0x608), (0x608, 0x60a)]);
    assert_eq!(blank_mem_iter(10, 0, 4), vec![]);
    // a zero step gives nothing
    assert_eq!(blank_mem_iter(300, 20, 0), vec![]);
}

#[test]
fn client_state() {
    let c = Client::new(ClientConfig::default(), 1024);
    assert_eq!(c.num_slaves(), 0);
    assert_eq!(c.dc_ref_address(), None);
    let c = Client { num_slaves: 3, dc_reference_configured_address: 0x1001, ..c };
    assert_eq!(c.num_slaves(), 3);
    assert_eq!(c.dc_ref_address(), Some(0x1001));
    assert_eq!(c.blank_memory(0x600, 0xff).len(), 1);
    assert_eq!(ClientConfig::default().dc_static_sync_iterations, 10_000);
}

#[test]
fn reset_plan_order() {
    let c = Client::new(ClientConfig::default(), 64);
    let plan = c.reset_slaves();
    assert_eq!(plan.len(), 14);
    assert!(matches!(plan[0], ResetAction::WriteAlControl { address: REG_AL_CONTROL, .. }));
    assert_eq!(plan[1], ResetAction::Blank { address: REG_FMMU0, len: 0xff });
    assert!(matches!(plan[13], ResetAction::WriteU16 { address: 0x0930, value: 0x1000 }));
}

#[test]
fn state_wait_decisions() {
    let op = AlControl::new(SubDeviceState::Op);
    assert_eq!(state_wait_step(&op, SubDeviceState::Op), StateWait::Reached);
    assert_eq!(state_wait_step(&op, SubDeviceState::SafeOp), StateWait::Pending);
    let failed = AlControl { error: true, ..op };
    assert_eq!(state_wait_step(&failed, SubDeviceState::Op), StateWait::Failed);
    assert_eq!(STATE_REQUEST_ATTEMPTS, 20);
}
