//! The play/stop control and the paused status label.
use vstd::prelude::*;
use crate::controller::{ControllerView, PlaybackController};

verus! {

/// How the pointer meets the play/stop control this frame.
#[derive(Debug, Clone, Copy, PartialEq, Eq, Structural)]
pub enum ButtonInteraction {
    Clicked,
    Hovered,
    Idle,
}

/// Label of the play/stop control: "Stop" while running, "Play" while paused.
pub open spec fn label_of(running: bool) -> Seq<char> {
    if running {
        "Stop"@
    } else {
        "Play"@
    }
}

/// Label of the play/stop control for the given run state.
pub fn button_label(running: bool) -> (r: &'static str)
    ensures
        r@ == label_of(running),
{
    if running {
        "Stop"
    } else {
        "Play"
    }
}

/// The status label while paused; none while running, when the speed is shown.
pub fn paused_label(running: bool) -> (r: Option<&'static str>)
    ensures
        running <==> r is None,
        r matches Some(s) ==> s@ == "Paused"@,
{
    if running {
        None
    } else {
        Some("Paused")
    }
}

/// Reacts to the play/stop control: a click toggles running and leaves the
/// label as it is (`None`); hovering or leaving it changes nothing and gives
/// the label for the current run state.
pub fn on_button(controller: &mut PlaybackController, interaction: ButtonInteraction) -> (r: Option<
    &'static str,
>)
    ensures
        interaction == ButtonInteraction::Clicked ==> r is None && final(controller)@ == (
        ControllerView { running: !old(controller)@.running, ..old(controller)@ }),
        interaction != ButtonInteraction::Clicked ==> final(controller)@ == old(controller)@ && (
        r matches Some(s) && s@ == label_of(old(controller)@.running)),
{
    match interaction {
        ButtonInteraction::Clicked => {
            controller.toggle_running();
            None
        },
        _ => Some(button_label(controller.is_running())),
    }
}

} // verus!
