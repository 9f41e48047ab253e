use ethercrab::dc::{assign_parent_relationships, configure_subdevice_offsets, find_subdevice_parent};
use ethercrab::ports::{Port, Ports, Topology};
use ethercrab::subdevice::{SubDevice, SupportFlags};

fn make_ports(active0: bool, active3: bool, active1: bool, active2: bool) -> Ports {
    Ports::new(active0, active3, active1, active2)
}

// A SubDevice in the middle of the chain
fn ports_passthrough() -> Ports {
    make_ports(true, true, false, false)
}

// EK1100 for example, with in/out ports and a bunch of SubDevices connected to it
fn ports_fork() -> Ports {
    make_ports(true, true, true, false)
}

// Last SubDevice in the network
fn ports_eol() -> Ports {
    make_ports(true, false, false, false)
}

fn defaults() -> SubDevice {
    SubDevice {
        configured_address: 0x0000,
        ports: Ports::default(),
        flags: SupportFlags::default(),
        dc_receive_time: 0,
        index: 0,
        parent_index: None,
        propagation_delay: 0,
    }
}

fn device(configured_address: u16, ports: Ports, index: u16) -> SubDevice {
    SubDevice { configured_address, ports, index, ..defaults() }
}

#[test]
fn parent_is_ek1100() {
    let parents = [
        device(0x1000, ports_passthrough(), 0),
        device(0x1100, ports_fork(), 1),
        device(0x2004, ports_passthrough(), 2),
        device(0x3004, ports_eol(), 3),
    ];

    let me = device(0x9252, ports_eol(), 4);

    let parent_index = find_subdevice_parent(&parents, &me);

    assert_eq!(parent_index.unwrap(), Some(1));
}

#[test]
fn two_ek1100() {
    let parents = [
        device(0x1100, ports_fork(), 1),
        device(0x2004, ports_passthrough(), 2),
        device(0x3004, ports_eol(), 3),
        device(0x1100, ports_fork(), 4),
        device(0x2004, ports_passthrough(), 5),
        device(0x3004, ports_eol(), 6),
    ];

    let ek1100_2_parents = &parents[0..3];
    let ek1100_2 = &parents[3];

    let el2828_parents = &parents[0..4];
    let el2828 = &parents[4];

    assert_eq!(
        find_subdevice_parent(ek1100_2_parents, ek1100_2).unwrap(),
        Some(1)
    );
    assert_eq!(
        find_subdevice_parent(el2828_parents, el2828).unwrap(),
        Some(ek1100_2.index)
    );
}

#[test]
fn first_in_chain() {
    let parents: [SubDevice; 0] = [];

    let me = SubDevice {
        configured_address: 0x1100,
        ports: ports_eol(),
        index: 4,
        ..defaults()
    };

    let parent_index = find_subdevice_parent(&parents, &me);

    assert_eq!(parent_index.unwrap(), None);
}

#[test]
fn p0_p1_times_only() {
    // From EC400 in test rig
    let ports = Ports([
        Port {
            active: true,
            dc_receive_time: 641524306,
            number: 0,
            downstream_to: None,
        },
        Port {
            active: false,
            dc_receive_time: 1413563250,
            number: 1,
            downstream_to: None,
        },
        Port {
            active: false,
            dc_receive_time: 0,
            number: 2,
            downstream_to: None,
        },
        Port {
            active: false,
            dc_receive_time: 0,
            number: 3,
            downstream_to: None,
        },
    ]);

    assert_eq!(ports.topology(), Topology::LineEnd);

    let mut subdevice = SubDevice {
        configured_address: 0x1000,
        ports,
        ..defaults()
    };

    let parents: [SubDevice; 0] = [];

    let mut delay_accum = 0u32;

    configure_subdevice_offsets(&mut subdevice, &parents, &mut delay_accum);

    assert_eq!(subdevice.dc_receive_time, 0u64);
}

/// Create a ports object with active flags and DC receive times.
#[allow(clippy::too_many_arguments)]
fn ports(
    active0: bool,
    t0: u32,
    active3: bool,
    t3: u32,
    active1: bool,
    t1: u32,
    active2: bool,
    t2: u32,
) -> Ports {
    let mut ports = Ports::new(active0, active3, active1, active2);

    ports.set_receive_times(t0, t3, t1, t2);

    ports
}

fn dc_device(index: u16, configured_address: u16, ports: Ports, dc_receive_time: u64) -> SubDevice {
    SubDevice {
        configured_address,
        index,
        ports,
        dc_receive_time,
        flags: SupportFlags { dc_supported: true },
        ..defaults()
    }
}

fn expected_after(
    subdevices: &[SubDevice],
    downstreams: &[([Option<u16>; 4], Option<u16>, u32)],
) -> Vec<SubDevice> {
    subdevices
        .iter()
        .zip(downstreams.iter())
        .map(|(subdevice, ([d0, d3, d1, d2], parent_index, propagation_delay))| {
            let mut subdevice = *subdevice;
            subdevice.ports.set_downstreams(*d0, *d3, *d1, *d2);
            subdevice.parent_index = *parent_index;
            subdevice.propagation_delay = *propagation_delay;
            subdevice
        })
        .collect()
}

// Test that SubDevice parent/child relationships are established, and that propagation delays
// are computed correctly.
#[test]
fn propagation_delay_calc_fork() {
    // EK1100
    // --> EK1122
    // --> EL9560
    // EK1914
    // --> EL1008
    let mut subdevices = [
        dc_device(0, 0x1000, ports(true, 3380373882, false, 1819436374, true, 3380374482, true, 3380375762), 402812332410),
        dc_device(1, 0x1001, ports(true, 3384116362, false, 1819436374, false, 1717989224, true, 3384116672), 402816074890),
        dc_device(2, 0x1002, ports(true, 3383862982, false, 1819436374, false, 1717989224, false, 0), 0),
        dc_device(3, 0x1003, ports(true, 3373883962, false, 1819436374, true, 3373884272, false, 0), 0),
        dc_device(4, 0x1004, ports(true, 3375060602, false, 1819436374, false, 1717989224, false, 0), 0),
    ];

    let downstreams = [
        // Index 0: EK1100 (Fork)
        ([None, None, Some(1), Some(3)], None, 0),
        // Index 1: EK1122 (Passthrough)
        ([None, None, None, Some(2)], Some(0), 145),
        // Index 2: EL9560 (LineEnd)
        ([None, None, None, None], Some(1), 300),
        // Index 3: EK1914 (Passthrough)
        ([None, None, Some(4), None], Some(0), 1085),
        // Index 4: EL1008 (LineEnd)
        ([None, None, None, None], Some(3), 1240),
    ];

    let expected = expected_after(&subdevices, &downstreams);

    assign_parent_relationships(&mut subdevices).expect("assign");

    assert_eq!(subdevices.to_vec(), expected);
}

#[test]
fn propagation_delay_calc_cross() {
    let mut subdevices = [
        dc_device(0, 0x1000, ports(true, 3493061450, false, 1819436374, true, 3493064460, false, 0), 3493061450),
        dc_device(1, 0x1001, ports(true, 3493293220, true, 3493294570, true, 3493295650, true, 3493295940), 3493293220),
        dc_device(2, 0x1002, ports(true, 3485337450, false, 1819436374, true, 3485337760, false, 0), 0),
        dc_device(3, 0x1003, ports(true, 3488375400, false, 1819436374, false, 1717989224, false, 0), 0),
        dc_device(4, 0x1004, ports(true, 3485087810, false, 1819436374, false, 1717989224, false, 0), 3485087810),
        dc_device(5, 0x1005, ports(true, 3494335890, false, 1819436374, false, 1717989224, false, 0), 0),
    ];

    let downstreams = [
        // Index 0: EK1100 (Passthrough)
        ([None, None, Some(1), None], None, 0),
        // Index 1: EK1122 (Cross)
        ([None, Some(2), Some(4), Some(5)], Some(0), 145),
        // Index 2: EK1914 (Passthrough)
        ([None, None, Some(3), None], Some(1), 665),
        // Index 3: EL1008 (LineEnd)
        ([None, None, None, None], Some(2), 820),
        // Index 4: EK1101 (LineEnd)
        ([None, None, None, None], Some(1), 2035),
        // Index 5: EL9560 (LineEnd)
        ([None, None, None, None], Some(1), 2720),
    ];

    let expected = expected_after(&subdevices, &downstreams);

    assign_parent_relationships(&mut subdevices).expect("assign");

    assert_eq!(subdevices.to_vec(), expected);
}

#[test]
fn parent_not_found_is_topology_error() {
    // Two line ends with no junction before them cannot be placed in the tree.
    let parents = [device(0x1000, ports_eol(), 0), device(0x1001, ports_eol(), 1)];
    let me = device(0x1002, ports_eol(), 2);

    assert_eq!(
        find_subdevice_parent(&parents, &me),
        Err(ethercrab::error::Error::Topology)
    );
}

#[test]
fn ports_entry_and_totals() {
    let p = ports(true, 100, true, 250, true, 130, false, 0);
    assert_eq!(p.open_ports(), 3);
    assert_eq!(p.topology(), Topology::Fork);
    assert_eq!(p.entry_port().number, 0);
    assert_eq!(p.total_propagation_time(), Some(150));
    assert_eq!(p.propagation_time_to(&p.0[2]), Some(150));
    assert_eq!(p.intermediate_propagation_time_to(&p.0[1]), 150);
    assert!(p.is_last_port(&p.0[2]));
}

#[test]
fn dc_helpers() {
    let mut devices = [defaults(), defaults(), defaults()];
    devices[1].flags.dc_supported = true;
    devices[2].flags.dc_supported = true;
    assert_eq!(ethercrab::dc::count_dc_supported(&devices), 2);
    assert_eq!(ethercrab::dc::first_dc_subdevice(&devices), Some(1));
    assert_eq!(ethercrab::dc::first_dc_subdevice(&devices[..1]), None);
    assert_eq!(ethercrab::dc::count_dc_supported(&[]), 0);

    let mut sub = device(0x1000, ports_fork(), 0);
    ethercrab::dc::store_dc_receive_times(&mut sub, 5000, [10, 20, 30, 40]);
    assert_eq!(sub.dc_receive_time, 5000);
    // Port numbers in order 0, 3, 1, 2
    assert_eq!(sub.ports.0[0].dc_receive_time, 10);
    assert_eq!(sub.ports.0[1].dc_receive_time, 40);
    assert_eq!(sub.ports.0[2].dc_receive_time, 20);
    assert_eq!(sub.ports.0[3].dc_receive_time, 30);

    assert_eq!(ethercrab::dc::system_time_offset(1000, 250), -750);
    assert_eq!(ethercrab::dc::system_time_offset(100, 350), 250);
    // Times are taken as signed: the all-ones time is -1.
    assert_eq!(ethercrab::dc::system_time_offset(u64::MAX, 5), 6);
}

#[test]
fn checked_parent_relationships() {
    let mut subdevices = [
        dc_device(0, 0x1000, ports(true, 3380373882, false, 1819436374, true, 3380374482, true, 3380375762), 402812332410),
        dc_device(1, 0x1001, ports(true, 3384116362, false, 1819436374, false, 1717989224, true, 3384116672), 402816074890),
        dc_device(2, 0x1002, ports(true, 3383862982, false, 1819436374, false, 1717989224, false, 0), 0),
        dc_device(3, 0x1003, ports(true, 3373883962, false, 1819436374, true, 3373884272, false, 0), 0),
        dc_device(4, 0x1004, ports(true, 3375060602, false, 1819436374, false, 1717989224, false, 0), 0),
    ];
    let mut unchecked = subdevices;
    assert!(ethercrab::dc::parent_relationships_defined(&subdevices));
    assert_eq!(ethercrab::dc::try_assign_parent_relationships(&mut subdevices), Some(Ok(())));
    assign_parent_relationships(&mut unchecked).unwrap();
    assert_eq!(subdevices, unchecked);

    // A passthrough parent whose loop takes less time than its child's cannot give a delay.
    let mut bad = [
        dc_device(0, 0x1000, ports(true, 100, true, 110, false, 0, false, 0), 0),
        dc_device(1, 0x1001, ports(true, 200, true, 300, false, 0, false, 0), 0),
    ];
    let before = bad;
    assert!(!ethercrab::dc::parent_relationships_defined(&bad));
    assert_eq!(ethercrab::dc::try_assign_parent_relationships(&mut bad), None);
    assert_eq!(bad, before);

    // A topology error is still reported: the search itself stays in range.
    let mut lost = [device(0x1000, ports_eol(), 0), device(0x1001, ports_eol(), 1)];
    assert_eq!(
        ethercrab::dc::try_assign_parent_relationships(&mut lost),
        Some(Err(ethercrab::error::Error::Topology))
    );
}
