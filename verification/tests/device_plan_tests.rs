use shurectl::device_plan::{
    choose_device, query_packet, state_queries, supported_devices, HidEntry, OpenChoice,
    StateQuery,
};
use shurectl::protocol::{
    cmd_get_eq_band_gain, cmd_get_gain, cmd_get_lock, cmd_get_mix, DeviceModel, MV6_PID, PID, VID,
};

#[test]
fn mvx2u_plan_reads_lock_settings_and_every_band() {
    let plan = state_queries(DeviceModel::Mvx2u);
    assert_eq!(plan.len(), 23);
    assert_eq!(plan[0], StateQuery::Lock);
    assert_eq!(plan[8], StateQuery::MonitorMix);
    assert_eq!(plan[12], StateQuery::EqEnable);
    assert_eq!(plan[13], StateQuery::EqBandEnable(0));
    assert_eq!(plan[22], StateQuery::EqBandGain(4));
}

#[test]
fn mv6_plan_reads_the_shared_settings() {
    assert_eq!(
        state_queries(DeviceModel::Mv6),
        vec![StateQuery::Gain, StateQuery::Mute, StateQuery::Hpf, StateQuery::Mode]
    );
}

#[test]
fn query_packets_are_the_get_commands() {
    assert_eq!(query_packet(StateQuery::Gain, 4), cmd_get_gain(4));
    assert_eq!(query_packet(StateQuery::Lock, 9), cmd_get_lock(9));
    assert_eq!(query_packet(StateQuery::MonitorMix, 1), cmd_get_mix(1));
    assert_eq!(query_packet(StateQuery::EqBandGain(3), 2), cmd_get_eq_band_gain(2, 3));
}

fn entry(vid: u16, pid: u16, path: &str) -> HidEntry {
    HidEntry { vendor_id: vid, product_id: pid, path: path.as_bytes().to_vec() }
}

#[test]
fn supported_devices_skip_others_and_repeated_paths() {
    let entries = vec![
        entry(0x046D, 0xC52B, "/dev/hidraw0"),
        entry(VID, PID, "/dev/hidraw1"),
        entry(VID, PID, "/dev/hidraw1"),
        entry(VID, MV6_PID, "/dev/hidraw2"),
        entry(VID, 0x9999, "/dev/hidraw3"),
    ];
    assert_eq!(supported_devices(&entries), vec![1, 3]);
}

#[test]
fn choose_device_cases() {
    assert_eq!(choose_device(&vec![]), OpenChoice::NoDevice);
    assert_eq!(
        choose_device(&vec![entry(VID, PID, "a"), entry(VID, PID, "a")]),
        OpenChoice::Open(0)
    );
    assert_eq!(
        choose_device(&vec![entry(VID, PID, "a"), entry(VID, MV6_PID, "b")]),
        OpenChoice::Ambiguous(2)
    );
}
