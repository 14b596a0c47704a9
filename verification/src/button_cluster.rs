//! The decisions behind the four edge-triggered buttons. The caller owns the
//! hardware subscriptions (falling edge, 50 ms debounce) and, on each event,
//! calls [`handle_button`] under one acquisition of the shared-state lock,
//! with no bus traffic while the lock is held.

use crate::display::DisplayState;
use crate::dry_table::Material;
use crate::dryer::HeaterState;
use crate::shared_data::SharedData;
use vstd::prelude::*;

verus! {

/// One debounced falling-edge button press.
#[derive(Clone, Copy, Debug, PartialEq, Eq, Structural)]
pub enum ButtonEvent {
    Back,
    Confirm,
    Left,
    Right,
}

/// What the shared state becomes when `event` arrives at time `now_ms` (a
/// monotonic clock in milliseconds):
/// - Back opens the menu from the status screen and does nothing otherwise;
/// - Confirm, on the menu screen, commits the hovered material, starts the
///   heater, returns to the status screen and records the press time; on the
///   status screen it does nothing;
/// - Left and Right step the hovered material through the menu cycle
///   unconditionally, on either screen.
pub open spec fn button_step(data: SharedData, event: ButtonEvent, now_ms: u64) -> SharedData {
    match event {
        ButtonEvent::Back => if data.display_state == DisplayState::Idle {
            SharedData { display_state: DisplayState::Menu, ..data }
        } else {
            data
        },
        ButtonEvent::Confirm => if data.display_state == DisplayState::Menu {
            SharedData {
                material: data.hovered_material,
                heater_state: HeaterState::Running,
                display_state: DisplayState::Idle,
                heater_started: now_ms,
                ..data
            }
        } else {
            data
        },
        ButtonEvent::Right => SharedData {
            hovered_material: data.hovered_material.next_spec(),
            ..data
        },
        ButtonEvent::Left => SharedData { hovered_material: data.hovered_material.prev_spec(), ..data },
    }
}

/// Applies one button press to the shared state.
pub fn handle_button(data: &mut SharedData, event: ButtonEvent, now_ms: u64)
    ensures
        *final(data) == button_step(*old(data), event, now_ms),
{
    match event {
        ButtonEvent::Back => {
            if data.display_state == DisplayState::Idle {
                data.display_state = DisplayState::Menu;
            }
        },
        ButtonEvent::Confirm => {
            if data.display_state == DisplayState::Menu {
                data.material = data.hovered_material;
                data.heater_state = HeaterState::Running;
                data.display_state = DisplayState::Idle;
                data.heater_started = now_ms;
            }
        },
        ButtonEvent::Right => {
            data.hovered_material = data.hovered_material.next();
        },
        ButtonEvent::Left => {
            data.hovered_material = data.hovered_material.prev();
        },
    }
}

} // verus!
