//! What the device layer decides without touching the device: which of the
//! enumerated HID interfaces are supported microphones, which one to open,
//! and which features to read, in which order, to learn a device's state.
use vstd::prelude::*;
use crate::protocol::{
    cmd_get_auto_gain, cmd_get_auto_position, cmd_get_auto_tone, cmd_get_compressor,
    cmd_get_eq_band_enable, cmd_get_eq_band_gain, cmd_get_eq_enable, cmd_get_gain, cmd_get_hpf,
    cmd_get_limiter, cmd_get_lock, cmd_get_mix, cmd_get_mode, cmd_get_mute, cmd_get_phantom,
    eq_enable_lo, eq_gain_lo, get_packet, packet, DeviceModel, CMD_GET_LOCK, EQ_BAND_COUNT,
    FEAT_AUTO, FEAT_AUTO_GAIN, FEAT_AUTO_POSITION, FEAT_AUTO_TONE, FEAT_COMP, FEAT_EQ, FEAT_GAIN,
    FEAT_HPF, FEAT_LIMITER, FEAT_LOCK, FEAT_MIX, FEAT_MUTE, FEAT_PHANTOM, MV6_PID, PID, VID,
};

verus! {

// ── Reading the state ────────────────────────────────────────────────────────
/// One feature read while learning a device's state.
#[derive(Debug, Clone, Copy, PartialEq, Eq, Structural)]
pub enum StateQuery {
    Lock,
    Gain,
    Mute,
    Phantom,
    Mode,
    AutoPosition,
    AutoTone,
    AutoGain,
    MonitorMix,
    Hpf,
    Limiter,
    Compressor,
    EqEnable,
    /// Band index 0–4.
    EqBandEnable(usize),
    /// Band index 0–4.
    EqBandGain(usize),
}

/// The query's band index is in range.
pub open spec fn query_ok(q: StateQuery) -> bool {
    match q {
        StateQuery::EqBandEnable(b) => b < 5,
        StateQuery::EqBandGain(b) => b < 5,
        _ => true,
    }
}

/// The GET packet of a query.
pub open spec fn query_packet_bytes(q: StateQuery, seq: u8) -> Seq<u8> {
    match q {
        StateQuery::Lock => packet(seq, CMD_GET_LOCK@, seq![0x06u8, FEAT_LOCK[0], FEAT_LOCK[1]]),
        StateQuery::Gain => get_packet(seq, 0, FEAT_GAIN[0], FEAT_GAIN[1]),
        StateQuery::Mute => get_packet(seq, 0, FEAT_MUTE[0], FEAT_MUTE[1]),
        StateQuery::Phantom => get_packet(seq, 0, FEAT_PHANTOM[0], FEAT_PHANTOM[1]),
        StateQuery::Mode => get_packet(seq, 0, FEAT_AUTO[0], FEAT_AUTO[1]),
        StateQuery::AutoPosition => get_packet(seq, 0, FEAT_AUTO_POSITION[0], FEAT_AUTO_POSITION[1]),
        StateQuery::AutoTone => get_packet(seq, 0, FEAT_AUTO_TONE[0], FEAT_AUTO_TONE[1]),
        StateQuery::AutoGain => get_packet(seq, 0, FEAT_AUTO_GAIN[0], FEAT_AUTO_GAIN[1]),
        StateQuery::MonitorMix => get_packet(seq, 1, FEAT_MIX[0], FEAT_MIX[1]),
        StateQuery::Hpf => get_packet(seq, 0, FEAT_HPF[0], FEAT_HPF[1]),
        StateQuery::Limiter => get_packet(seq, 0, FEAT_LIMITER[0], FEAT_LIMITER[1]),
        StateQuery::Compressor => get_packet(seq, 0, FEAT_COMP[0], FEAT_COMP[1]),
        StateQuery::EqEnable => get_packet(seq, 0, FEAT_EQ[0], FEAT_EQ[1]),
        StateQuery::EqBandEnable(b) => get_packet(seq, 0, 0x02, eq_enable_lo(b as int)),
        StateQuery::EqBandGain(b) => get_packet(seq, 0, 0x02, eq_gain_lo(b as int)),
    }
}

/// The GET packet that asks for one feature, with sequence number `seq`.
pub fn query_packet(q: StateQuery, seq: u8) -> (pkt: Vec<u8>)
    requires
        query_ok(q),
    ensures
        pkt@ == query_packet_bytes(q, seq),
{
    match q {
        StateQuery::Lock => cmd_get_lock(seq),
        StateQuery::Gain => cmd_get_gain(seq),
        StateQuery::Mute => cmd_get_mute(seq),
        StateQuery::Phantom => cmd_get_phantom(seq),
        StateQuery::Mode => cmd_get_mode(seq),
        StateQuery::AutoPosition => cmd_get_auto_position(seq),
        StateQuery::AutoTone => cmd_get_auto_tone(seq),
        StateQuery::AutoGain => cmd_get_auto_gain(seq),
        StateQuery::MonitorMix => cmd_get_mix(seq),
        StateQuery::Hpf => cmd_get_hpf(seq),
        StateQuery::Limiter => cmd_get_limiter(seq),
        StateQuery::Compressor => cmd_get_compressor(seq),
        StateQuery::EqEnable => cmd_get_eq_enable(seq),
        StateQuery::EqBandEnable(b) => cmd_get_eq_band_enable(seq, b),
        StateQuery::EqBandGain(b) => cmd_get_eq_band_gain(seq, b),
    }
}

/// The `i`-th feature read from an MVX2U: the lock state, the main-tab and
/// dynamics settings, the EQ switch, then each band's switch and gain.
pub open spec fn mvx2u_query(i: int) -> StateQuery {
    if i == 0 {
        StateQuery::Lock
    } else if i == 1 {
        StateQuery::Gain
    } else if i == 2 {
        StateQuery::Mute
    } else if i == 3 {
        StateQuery::Phantom
    } else if i == 4 {
        StateQuery::Mode
    } else if i == 5 {
        StateQuery::AutoPosition
    } else if i == 6 {
        StateQuery::AutoTone
    } else if i == 7 {
        StateQuery::AutoGain
    } else if i == 8 {
        StateQuery::MonitorMix
    } else if i == 9 {
        StateQuery::Hpf
    } else if i == 10 {
        StateQuery::Limiter
    } else if i == 11 {
        StateQuery::Compressor
    } else if i == 12 {
        StateQuery::EqEnable
    } else {
        let b = (i - 13) / 2;
        if (i - 13) % 2 == 0 {
            StateQuery::EqBandEnable(b as usize)
        } else {
            StateQuery::EqBandGain(b as usize)
        }
    }
}

/// The features read, in order, to learn the state of a device of `model`:
/// an MV6 answers for the settings it shares with the MVX2U (gain, mute,
/// high-pass filter, mode); every other model is read as an MVX2U, 23
/// features in all.
pub open spec fn state_plan(model: DeviceModel) -> Seq<StateQuery> {
    match model {
        DeviceModel::Mv6 => seq![
            StateQuery::Gain,
            StateQuery::Mute,
            StateQuery::Hpf,
            StateQuery::Mode,
        ],
        _ => Seq::new(23, |i: int| mvx2u_query(i)),
    }
}

/// The features to read, in order, to learn the state of a device of `model`.
pub fn state_queries(model: DeviceModel) -> (r: Vec<StateQuery>)
    ensures
        r@ == state_plan(model),
        forall|i: int| 0 <= i < r@.len() ==> query_ok(#[trigger] r@[i]),
{
    match model {
        DeviceModel::Mv6 => {
            let r = vec![StateQuery::Gain, StateQuery::Mute, StateQuery::Hpf, StateQuery::Mode];
            assert(r@ =~= state_plan(model));
            r
        },
        _ => {
            let mut r = vec![
                StateQuery::Lock,
                StateQuery::Gain,
                StateQuery::Mute,
                StateQuery::Phantom,
                StateQuery::Mode,
                StateQuery::AutoPosition,
                StateQuery::AutoTone,
                StateQuery::AutoGain,
                StateQuery::MonitorMix,
                StateQuery::Hpf,
                StateQuery::Limiter,
                StateQuery::Compressor,
                StateQuery::EqEnable,
            ];
            assert(r@ =~= Seq::new(13, |i: int| mvx2u_query(i)));
            let mut band: usize = 0;
            while band < EQ_BAND_COUNT
                invariant
                    band <= EQ_BAND_COUNT,
                    r@ =~= Seq::new((13 + 2 * band) as nat, |i: int| mvx2u_query(i)),
                decreases EQ_BAND_COUNT - band,
            {
                r.push(StateQuery::EqBandEnable(band));
                r.push(StateQuery::EqBandGain(band));
                assert(r@ =~= Seq::new((13 + 2 * (band + 1)) as nat, |i: int| mvx2u_query(i)));
                band = band + 1;
            }
            r
        },
    }
}

// ── Choosing the device ──────────────────────────────────────────────────────
/// One HID interface as enumerated: vendor and product ID and the bytes of
/// its device path.
pub struct HidEntry {
    pub vendor_id: u16,
    pub product_id: u16,
    pub path: Vec<u8>,
}

/// The interface belongs to a supported microphone.
pub open spec fn entry_supported(e: HidEntry) -> bool {
    e.vendor_id == VID && (e.product_id == PID || e.product_id == MV6_PID)
}

/// Entry `i` is a supported microphone whose path no earlier supported entry
/// has: a device exposing several HID interfaces under one path counts once.
pub open spec fn first_of_its_path(entries: Seq<HidEntry>, i: int) -> bool {
    &&& entry_supported(entries[i])
    &&& forall|j: int|
        0 <= j < i && entry_supported(#[trigger] entries[j]) ==> entries[j].path@ != entries[i].path@
}

/// How many distinct supported microphones the first `k` entries hold.
pub open spec fn device_count(entries: Seq<HidEntry>, k: int) -> nat
    decreases k,
{
    if k <= 0 {
        0
    } else if first_of_its_path(entries, k - 1) {
        device_count(entries, k - 1) + 1
    } else {
        device_count(entries, k - 1)
    }
}

/// Whether two byte strings are equal.
fn same_bytes(a: &Vec<u8>, b: &Vec<u8>) -> (r: bool)
    ensures
        r == (a@ == b@),
{
    if a.len() != b.len() {
        return false;
    }
    let mut i: usize = 0;
    while i < a.len()
        invariant
            a@.len() == b@.len(),
            i <= a@.len(),
            forall|k: int| 0 <= k < i ==> a@[k] == b@[k],
        decreases a@.len() - i,
    {
        if a[i] != b[i] {
            return false;
        }
        i = i + 1;
    }
    assert(a@ =~= b@);
    true
}

/// The positions, in enumeration order, of the supported microphones among
/// the enumerated interfaces, each physical device (path) once.
pub fn supported_devices(entries: &Vec<HidEntry>) -> (r: Vec<usize>)
    ensures
        forall|k: int| 0 <= k < r@.len() ==> (r@[k] as int) < entries@.len(),
        forall|k: int| 0 <= k < r@.len() ==> first_of_its_path(entries@, #[trigger] r@[k] as int),
        forall|i: int|
            0 <= i < entries@.len() && first_of_its_path(entries@, i) ==> r@.contains(i as usize),
        forall|k: int, l: int| 0 <= k < l < r@.len() ==> r@[k] < r@[l],
        r@.len() == device_count(entries@, entries@.len() as int),
{
    let mut r: Vec<usize> = Vec::new();
    let mut i: usize = 0;
    while i < entries.len()
        invariant
            i <= entries@.len(),
            forall|k: int| 0 <= k < r@.len() ==> (r@[k] as int) < i,
            forall|k: int| 0 <= k < r@.len() ==> first_of_its_path(entries@, #[trigger] r@[k] as int),
            forall|m: int| 0 <= m < i && first_of_its_path(entries@, m) ==> r@.contains(m as usize),
            forall|k: int, l: int| 0 <= k < l < r@.len() ==> r@[k] < r@[l],
            r@.len() == device_count(entries@, i as int),
        decreases entries@.len() - i,
    {
        let e = &entries[i];
        if e.vendor_id == VID && (e.product_id == PID || e.product_id == MV6_PID) {
            // Seen before: some earlier supported entry has the same path; the
            // first of them is in `r`.
            let mut seen = false;
            let mut k: usize = 0;
            while k < r.len()
                invariant
                    k <= r@.len(),
                    i < entries@.len(),
                    *e == entries@[i as int],
                    forall|x: int| 0 <= x < r@.len() ==> (r@[x] as int) < i,
                    !seen ==> forall|x: int| 0 <= x < k ==> entries@[r@[x] as int].path@ != entries@[i as int].path@,
                    seen ==> exists|x: int| 0 <= x < r@.len() && entries@[r@[x] as int].path@ == entries@[i as int].path@,
                decreases r@.len() - k,
            {
                if !seen && same_bytes(&entries[r[k]].path, &e.path) {
                    seen = true;
                }
                k = k + 1;
            }
            if !seen {
                proof {
                    assert forall|j: int|
                        0 <= j < i && entry_supported(#[trigger] entries@[j]) implies entries@[j].path@
                        != entries@[i as int].path@ by {
                        if entries@[j].path@ == entries@[i as int].path@ {
                            // The first supported entry with this path is in `r`.
                            let f = choose_first(entries@, j);
                            assert(first_of_its_path(entries@, f));
                            assert(r@.contains(f as usize));
                            let x = choose|x: int| 0 <= x < r@.len() && r@[x] == f as usize;
                            assert(entries@[r@[x] as int].path@ == entries@[i as int].path@);
                        }
                    }
                }
                let ghost old_r = r@;
                r.push(i);
                proof {
                    assert forall|m: int| 0 <= m < i + 1 && first_of_its_path(entries@, m) implies r@.contains(m as usize) by {
                        if m < i {
                            let x = choose|x: int| 0 <= x < old_r.len() && old_r[x] == m as usize;
                            assert(r@[x] == m as usize);
                        } else {
                            assert(r@[old_r.len() as int] == m as usize);
                        }
                    }
                }
            } else {
                proof {
                    let x = choose|x: int| 0 <= x < r@.len() && entries@[r@[x] as int].path@ == entries@[i as int].path@;
                    assert(first_of_its_path(entries@, r@[x] as int));
                    assert(!first_of_its_path(entries@, i as int));
                }
            }
        }
        i = i + 1;
    }
    r
}

/// Some supported entry at or before `j` with `j`'s path is the first of
/// its path.
proof fn lemma_first_exists(entries: Seq<HidEntry>, j: int)
    requires
        0 <= j < entries.len(),
        entry_supported(entries[j]),
    ensures
        exists|f: int| 0 <= f <= j && first_of_its_path(entries, f) && entries[f].path@ == entries[j].path@,
    decreases j,
{
    if !first_of_its_path(entries, j) {
        let g = choose|g: int|
            0 <= g < j && entry_supported(#[trigger] entries[g]) && entries[g].path@ == entries[j].path@;
        lemma_first_exists(entries, g);
    }
}

/// The first supported entry at or before `j` with `j`'s path.
proof fn choose_first(entries: Seq<HidEntry>, j: int) -> (f: int)
    requires
        0 <= j < entries.len(),
        entry_supported(entries[j]),
    ensures
        0 <= f <= j,
        first_of_its_path(entries, f),
        entries[f].path@ == entries[j].path@,
{
    lemma_first_exists(entries, j);
    choose|f: int| 0 <= f <= j && first_of_its_path(entries, f) && entries[f].path@ == entries[j].path@
}

/// A detected microphone, as listed for the user.
pub struct DeviceInfo {
    /// The HID device path, to pass back when opening it.
    pub path: String,
    pub serial: String,
    pub model: DeviceModel,
}

/// Which device to open when no path was given.
#[derive(Debug, Clone, Copy, PartialEq, Eq, Structural)]
pub enum OpenChoice {
    /// No supported microphone is connected.
    NoDevice,
    /// Exactly one: open it (its position among the enumerated interfaces).
    Open(usize),
    /// This many: the user has to name one.
    Ambiguous(usize),
}

/// Open the only supported microphone, or report that there is none or
/// that there are several.
pub fn choose_device(entries: &Vec<HidEntry>) -> (c: OpenChoice)
    ensures
        c is NoDevice <==> device_count(entries@, entries@.len() as int) == 0,
        c is NoDevice ==> forall|i: int| 0 <= i < entries@.len() ==> !first_of_its_path(entries@, i),
        c is Open <==> device_count(entries@, entries@.len() as int) == 1,
        c matches OpenChoice::Open(i) ==> (i as int) < entries@.len() && first_of_its_path(entries@, i as int)
            && forall|k: int| 0 <= k < entries@.len() && first_of_its_path(entries@, k) ==> k == i,
        c matches OpenChoice::Ambiguous(n) ==> n == device_count(entries@, entries@.len() as int)
            && n >= 2 && exists|a: int, b: int|
            0 <= a < b < entries@.len() && first_of_its_path(entries@, a) && first_of_its_path(entries@, b),
{
    let total = entries.len();
    let found = supported_devices(entries);
    if found.len() == 0 {
        proof {
            assert forall|i: int| 0 <= i < entries@.len() implies !first_of_its_path(entries@, i) by {
                if first_of_its_path(entries@, i) {
                    assert(found@.contains(i as usize));
                }
            }
        }
        OpenChoice::NoDevice
    } else if found.len() == 1 {
        proof {
            assert(first_of_its_path(entries@, found@[0] as int));
            assert forall|k: int| 0 <= k < entries@.len() && first_of_its_path(entries@, k) implies k == found@[0] by {
                assert(k < total);
                assert(found@.contains(k as usize));
                let x = choose|x: int| 0 <= x < found@.len() && found@[x] == k as usize;
                assert(x == 0);
            }
        }
        OpenChoice::Open(found[0])
    } else {
        proof {
            assert(first_of_its_path(entries@, found@[0] as int));
            assert(first_of_its_path(entries@, found@[1] as int));
        }
        OpenChoice::Ambiguous(found.len())
    }
}

} // verus!
