//! The per-tick heater control algorithm: hysteresis around the material's
//! target temperature, timed auto-shutoff, the idle sampling throttle, and
//! the composition of the status frame.
//!
//! The caller runs one tick per second: it locks the shared state, samples
//! the sensors when [`should_sample`] says so, calls [`tick`] with the
//! averaged reading, drives the relays to the returned positions, and renders
//! the frame from [`render_frame`] through the display driver. Temperatures
//! travel as centidegrees Celsius (hundredths of a degree) so that the dead
//! band of 1.5 degrees is the exact integer 150.

use crate::display::pad_line;
use crate::display::pad_line_spec;
use crate::display::DisplayState;
use crate::display::LINE_WIDTH;
use crate::dry_table::Material;
use crate::shared_data::SharedData;
use vstd::prelude::*;

verus! {

/// Whether a drying cycle has been committed.
#[derive(Clone, Copy, Debug, PartialEq, Eq, Structural)]
pub enum HeaterState {
    Idle,
    Running,
}

/// The logical relay positions after one tick; `true` means energized. The
/// relays are wired active-low, so the caller maps `true` to a low pin level.
#[derive(Clone, Copy, Debug, PartialEq, Eq, Structural)]
pub struct RelayOutputs {
    pub heater_on: bool,
    pub fan_on: bool,
}

/// How long the idle sampling throttle holds the last reading, in
/// milliseconds.
pub const IDLE_SAMPLE_INTERVAL_MS: u64 = 30000;

/// The hysteresis law with a dead band of 1.5 degrees (150 centidegrees)
/// either side of the target: below the band the heater turns on, above it
/// the heater turns off, and inside it the heater keeps its current state, so
/// the relay never chatters near the target.
pub open spec fn hysteresis_spec(was_on: bool, temp_centi: int, target_c: int) -> bool {
    if temp_centi < target_c * 100 - 150 {
        true
    } else if temp_centi > target_c * 100 + 150 {
        false
    } else {
        was_on
    }
}

/// Decides the heater relay for one tick from the averaged temperature (in
/// centidegrees) and the material's target (in whole degrees).
pub fn heater_decision(was_on: bool, temp_centi: i64, target_c: u32) -> (on: bool)
    ensures
        on == hysteresis_spec(was_on, temp_centi as int, target_c as int),
{
    let target: i64 = (target_c as i64) * 100;
    if temp_centi < target - 150 {
        true
    } else if temp_centi > target + 150 {
        false
    } else {
        was_on
    }
}

/// A cycle is active when it was committed and a material is still selected.
/// `Running` with no material is the transient safety state after an
/// auto-shutoff; it behaves like `Idle`.
pub open spec fn cycle_active(data: SharedData) -> bool {
    data.heater_state == HeaterState::Running && data.material != Material::Idle
}

/// The active cycle has used up its material's target duration.
pub open spec fn shutoff_due(data: SharedData, now_ms: u64) -> bool {
    now_ms - data.heater_started >= data.material.info_spec().time_secs * 1000
}

/// Whether this tick should resample the sensors: every tick while a cycle is
/// active, every 30 seconds while idle (to limit wear and noise), and never
/// in the transient `Running`-with-no-material state.
pub open spec fn should_sample_spec(data: SharedData, last_reading_ms: u64, now_ms: u64) -> bool {
    match data.heater_state {
        HeaterState::Idle => now_ms - last_reading_ms > IDLE_SAMPLE_INTERVAL_MS,
        HeaterState::Running => data.material != Material::Idle,
    }
}

/// Decides whether to resample the sensors this tick.
pub fn should_sample(data: &SharedData, last_reading_ms: u64, now_ms: u64) -> (r: bool)
    requires
        now_ms >= last_reading_ms,
    ensures
        r == should_sample_spec(*data, last_reading_ms, now_ms),
{
    match data.heater_state {
        HeaterState::Idle => now_ms - last_reading_ms > IDLE_SAMPLE_INTERVAL_MS,
        HeaterState::Running => !(data.material == Material::Idle),
    }
}

/// One decision cycle of the heater state machine.
///
/// With no active cycle both relays go to the safe de-energized position and
/// the state is untouched. With an active cycle the fan runs, the heater
/// follows the hysteresis law around the material's target, and once the
/// elapsed time since the cycle started reaches the material's target
/// duration, the active and hovered material reset to `Idle` (the heater
/// state stays `Running`; the next tick falls into the safety branch).
///
/// `heater_was_on` is the heater relay's current logical position and
/// `temp_centi` the averaged fresh reading; neither is read unless a cycle is
/// active.
pub fn tick(data: &mut SharedData, heater_was_on: bool, temp_centi: i64, now_ms: u64) -> (out:
    RelayOutputs)
    requires
        cycle_active(*old(data)) ==> now_ms >= old(data).heater_started,
    ensures
        !cycle_active(*old(data)) ==> *final(data) == *old(data) && out == (RelayOutputs {
            heater_on: false,
            fan_on: false,
        }),
        cycle_active(*old(data)) ==> out.fan_on && out.heater_on == hysteresis_spec(
            heater_was_on,
            temp_centi as int,
            old(data).material.info_spec().temp as int,
        ),
        cycle_active(*old(data)) && shutoff_due(*old(data), now_ms) ==> *final(data)
            == (SharedData {
            material: Material::Idle,
            hovered_material: Material::Idle,
            ..*old(data)
        }),
        cycle_active(*old(data)) && !shutoff_due(*old(data), now_ms) ==> *final(data) == *old(
            data,
        ),
{
    match data.heater_state {
        HeaterState::Idle => RelayOutputs { heater_on: false, fan_on: false },
        HeaterState::Running => {
            if data.material == Material::Idle {
                RelayOutputs { heater_on: false, fan_on: false }
            } else {
                let info = data.material.get();
                let heater_on = heater_decision(heater_was_on, temp_centi, info.temp);

                proof {
                    assert(info.time_secs <= 28800);
                }
                let duration_ms = info.time_secs * 1000;
                let elapsed_ms = now_ms - data.heater_started;
                if elapsed_ms >= duration_ms {
                    data.material = Material::Idle;
                    data.hovered_material = Material::Idle;
                }
                RelayOutputs { heater_on, fan_on: true }
            }
        },
    }
}

/// How long a rendered frame is held before the display refreshes, in
/// milliseconds.
pub const DISPLAY_REFRESH_MS: u64 = 1000;

/// Whether the display should be refreshed this tick: at most once per
/// second, however often the state changes.
pub fn display_refresh_due(last_update_ms: u64, now_ms: u64) -> (r: bool)
    requires
        now_ms >= last_update_ms,
    ensures
        r == (now_ms - last_update_ms > DISPLAY_REFRESH_MS),
{
    now_ms - last_update_ms > DISPLAY_REFRESH_MS
}

/// The decimal digit characters of `n`, most significant first, with no
/// leading zeros.
pub open spec fn dec_digits(n: nat) -> Seq<u8>
    decreases n,
{
    if n < 10 {
        seq![(48 + n) as u8]
    } else {
        dec_digits(n / 10) + seq![(48 + n % 10) as u8]
    }
}

/// Renders `n` in decimal.
pub fn dec_bytes(n: u64) -> (r: Vec<u8>)
    ensures
        r@ == dec_digits(n as nat),
    decreases n,
{
    if n < 10 {
        let mut v: Vec<u8> = Vec::new();
        v.push(48 + n as u8);
        proof {
            assert(v@ =~= dec_digits(n as nat));
        }
        v
    } else {
        let mut v = dec_bytes(n / 10);
        v.push(48 + (n % 10) as u8);
        proof {
            assert(v@ =~= dec_digits(n as nat));
        }
        v
    }
}

/// Two decimal digit characters, zero padded.
pub open spec fn two_digits(n: nat) -> Seq<u8> {
    seq![(48 + n / 10) as u8, (48 + n % 10) as u8]
}

/// Renders `n` as exactly two digits.
pub fn two_digit_bytes(n: u64) -> (r: Vec<u8>)
    requires
        n < 100,
    ensures
        r@ == two_digits(n as nat),
{
    let mut v: Vec<u8> = Vec::new();
    v.push(48 + (n / 10) as u8);
    v.push(48 + (n % 10) as u8);
    proof {
        assert(v@ =~= two_digits(n as nat));
    }
    v
}

/// The catalog name of a material, as the ASCII bytes shown on the display.
pub open spec fn name_bytes_spec(m: Material) -> Seq<u8> {
    match m {
        Material::Idle => seq![73u8, 68u8, 76u8, 69u8],
        Material::Demo => seq![68u8, 69u8, 77u8, 79u8],
        Material::Pla => seq![80u8, 76u8, 65u8],
        Material::Pvb => seq![80u8, 86u8, 66u8],
        Material::Petg => seq![80u8, 69u8, 84u8, 71u8],
        Material::Asa => seq![65u8, 83u8, 65u8],
        Material::Tpu => seq![84u8, 80u8, 85u8],
    }
}

/// Renders a material's catalog name.
pub fn name_bytes(m: Material) -> (r: Vec<u8>)
    ensures
        r@ == name_bytes_spec(m),
{
    let mut v: Vec<u8> = Vec::new();
    match m {
        Material::Idle => {
            v.push(73u8);
            v.push(68u8);
            v.push(76u8);
            v.push(69u8);
        },
        Material::Demo => {
            v.push(68u8);
            v.push(69u8);
            v.push(77u8);
            v.push(79u8);
        },
        Material::Pla => {
            v.push(80u8);
            v.push(76u8);
            v.push(65u8);
        },
        Material::Pvb => {
            v.push(80u8);
            v.push(86u8);
            v.push(66u8);
        },
        Material::Petg => {
            v.push(80u8);
            v.push(69u8);
            v.push(84u8);
            v.push(71u8);
        },
        Material::Asa => {
            v.push(65u8);
            v.push(83u8);
            v.push(65u8);
        },
        Material::Tpu => {
            v.push(84u8);
            v.push(80u8);
            v.push(85u8);
        },
    }
    proof {
        assert(v@ =~= name_bytes_spec(m));
    }
    v
}

/// First status line: "Idle" without an active material, else
/// "NAME: HH:MM:SS" counting down the remaining cycle time.
pub open spec fn idle_line1_spec(m: Material, remaining_secs: int) -> Seq<u8> {
    if m == Material::Idle {
        seq![73u8, 100u8, 108u8, 101u8]
    } else {
        name_bytes_spec(m) + seq![58u8, 32u8] + two_digits((remaining_secs / 3600) as nat) + seq![
            58u8,
        ] + two_digits(((remaining_secs % 3600) / 60) as nat) + seq![58u8] + two_digits(
            (remaining_secs % 60) as nat,
        )
    }
}

/// Renders the first status line. The bound on `remaining_secs` keeps the
/// hour count to two digits; every catalog duration is far below it.
pub fn render_idle_line1(m: Material, remaining_secs: u64) -> (r: Vec<u8>)
    requires
        remaining_secs < 360000,
    ensures
        r@ == idle_line1_spec(m, remaining_secs as int),
{
    if m == Material::Idle {
        let mut v: Vec<u8> = Vec::new();
        v.push(73u8);
        v.push(100u8);
        v.push(108u8);
        v.push(101u8);
        proof {
            assert(v@ =~= idle_line1_spec(m, remaining_secs as int));
        }
        v
    } else {
        let mut v = name_bytes(m);
        v.push(58u8);
        v.push(32u8);
        let mut hours = two_digit_bytes(remaining_secs / 3600);
        v.append(&mut hours);
        v.push(58u8);
        let mut minutes = two_digit_bytes((remaining_secs % 3600) / 60);
        v.append(&mut minutes);
        v.push(58u8);
        let mut seconds = two_digit_bytes(remaining_secs % 60);
        v.append(&mut seconds);
        proof {
            assert(v@ =~= idle_line1_spec(m, remaining_secs as int));
        }
        v
    }
}

/// Second status line: the averaged reading as "T.TTC H.HH%rh", both values
/// in hundredths.
pub open spec fn reading_line_spec(temp_centi: int, hum_centi: int) -> Seq<u8> {
    (if temp_centi < 0 {
        seq![45u8]
    } else {
        Seq::<u8>::empty()
    }) + dec_digits(((if temp_centi < 0 {
        -temp_centi
    } else {
        temp_centi
    }) / 100) as nat) + seq![46u8] + two_digits(((if temp_centi < 0 {
        -temp_centi
    } else {
        temp_centi
    }) % 100) as nat) + seq![67u8, 32u8] + dec_digits((hum_centi / 100) as nat) + seq![46u8]
        + two_digits((hum_centi % 100) as nat) + seq![37u8, 114u8, 104u8]
}

/// Renders the second status line. The bounds keep the text inside one
/// display row; the sensors' physical ranges lie far inside them.
pub fn render_reading_line(temp_centi: i64, hum_centi: u64) -> (r: Vec<u8>)
    requires
        -20000 <= temp_centi <= 20000,
        hum_centi <= 20000,
    ensures
        r@ == reading_line_spec(temp_centi as int, hum_centi as int),
{
    let mut v: Vec<u8> = Vec::new();
    let magnitude: u64 = if temp_centi < 0 {
        v.push(45u8);
        (-temp_centi) as u64
    } else {
        temp_centi as u64
    };
    let mut whole = dec_bytes(magnitude / 100);
    v.append(&mut whole);
    v.push(46u8);
    let mut frac = two_digit_bytes(magnitude % 100);
    v.append(&mut frac);
    v.push(67u8);
    v.push(32u8);
    let mut hum_whole = dec_bytes(hum_centi / 100);
    v.append(&mut hum_whole);
    v.push(46u8);
    let mut hum_frac = two_digit_bytes(hum_centi % 100);
    v.append(&mut hum_frac);
    v.push(37u8);
    v.push(114u8);
    v.push(104u8);
    proof {
        assert(v@ =~= reading_line_spec(temp_centi as int, hum_centi as int));
    }
    v
}

/// First menu line: the hovered material's name between the navigation
/// markers, "<   NAME     >".
pub open spec fn menu_line1_spec(m: Material) -> Seq<u8> {
    seq![60u8, 32u8, 32u8, 32u8] + name_bytes_spec(m) + seq![32u8, 32u8, 32u8, 32u8, 32u8, 62u8]
}

/// Renders the first menu line.
pub fn render_menu_line1(m: Material) -> (r: Vec<u8>)
    ensures
        r@ == menu_line1_spec(m),
{
    let mut v: Vec<u8> = Vec::new();
    v.push(60u8);
    v.push(32u8);
    v.push(32u8);
    v.push(32u8);
    let mut name = name_bytes(m);
    v.append(&mut name);
    v.push(32u8);
    v.push(32u8);
    v.push(32u8);
    v.push(32u8);
    v.push(32u8);
    v.push(62u8);
    proof {
        assert(v@ =~= menu_line1_spec(m));
    }
    v
}

/// Second menu line: the hovered material's target temperature and whole
/// hours, "TC Hhrs  ".
pub open spec fn menu_line2_spec(m: Material) -> Seq<u8> {
    dec_digits(m.info_spec().temp as nat) + seq![67u8, 32u8] + dec_digits(
        (m.info_spec().time_secs / 3600) as nat,
    ) + seq![104u8, 114u8, 115u8, 32u8, 32u8]
}

/// Renders the second menu line.
pub fn render_menu_line2(m: Material) -> (r: Vec<u8>)
    ensures
        r@ == menu_line2_spec(m),
{
    let info = m.get();
    let mut v = dec_bytes(info.temp as u64);
    v.push(67u8);
    v.push(32u8);
    let mut hours = dec_bytes(info.time_secs / 3600);
    v.append(&mut hours);
    v.push(104u8);
    v.push(114u8);
    v.push(115u8);
    v.push(32u8);
    v.push(32u8);
    proof {
        assert(v@ =~= menu_line2_spec(m));
    }
    v
}

/// Seconds left in the active cycle.
pub open spec fn remaining_secs_spec(data: SharedData, now_ms: u64) -> int {
    (data.material.info_spec().time_secs * 1000 - (now_ms - data.heater_started)) / 1000
}

/// The two frame lines for the current state, before padding: the status
/// screen shows the cycle and the live reading; the menu screen shows the
/// hovered material and its parameters.
pub open spec fn frame_lines_spec(
    data: SharedData,
    temp_centi: int,
    hum_centi: int,
    now_ms: u64,
) -> (Seq<u8>, Seq<u8>) {
    match data.display_state {
        DisplayState::Idle => (
            idle_line1_spec(data.material, remaining_secs_spec(data, now_ms)),
            reading_line_spec(temp_centi, hum_centi),
        ),
        DisplayState::Menu => (
            menu_line1_spec(data.hovered_material),
            menu_line2_spec(data.hovered_material),
        ),
    }
}

/// Composes the frame for this tick, each line padded to the display width.
/// On the status screen with an active cycle the caller must have run the
/// auto-shutoff check of [`tick`] first, so the remaining time is
/// nonnegative.
pub fn render_frame(data: &SharedData, temp_centi: i64, hum_centi: u64, now_ms: u64) -> (r: (
    Vec<u8>,
    Vec<u8>,
))
    requires
        -20000 <= temp_centi <= 20000,
        hum_centi <= 20000,
        data.display_state == DisplayState::Idle && data.material != Material::Idle ==> now_ms
            >= data.heater_started && !shutoff_due(*data, now_ms),
    ensures
        r.0@ == pad_line_spec(
            frame_lines_spec(*data, temp_centi as int, hum_centi as int, now_ms).0,
        ),
        r.1@ == pad_line_spec(
            frame_lines_spec(*data, temp_centi as int, hum_centi as int, now_ms).1,
        ),
        r.0@.len() == LINE_WIDTH,
        r.1@.len() == LINE_WIDTH,
{
    match data.display_state {
        DisplayState::Idle => {
            let line1 = if data.material == Material::Idle {
                render_idle_line1(data.material, 0)
            } else {
                let info = data.material.get();
                proof {
                    assert(info.time_secs <= 28800);
                }
                let duration_ms = info.time_secs * 1000;
                let elapsed_ms = now_ms - data.heater_started;
                let remaining_secs = (duration_ms - elapsed_ms) / 1000;
                render_idle_line1(data.material, remaining_secs)
            };
            let line2 = render_reading_line(temp_centi, hum_centi);
            (pad_line(line1), pad_line(line2))
        },
        DisplayState::Menu => {
            (
                pad_line(render_menu_line1(data.hovered_material)),
                pad_line(render_menu_line2(data.hovered_material)),
            )
        },
    }
}

/// Inside the dead band the hysteresis law never moves the relay: the heater
/// stays exactly as it was.
pub proof fn lemma_hysteresis_sticky(was_on: bool, temp_centi: int, target_c: int)
    requires
        target_c * 100 - 150 <= temp_centi <= target_c * 100 + 150,
    ensures
        hysteresis_spec(was_on, temp_centi, target_c) == was_on,
{
}

} // verus!
