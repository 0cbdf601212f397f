//! What a click on a tile asks for.

use vstd::prelude::*;
use crate::error::DecodeError;
use crate::json::{same_text, Json, JsonView};
use crate::models::ThrowItemProperties;

verus! {

/// An action that a tile can trigger.
#[derive(Clone, Copy, Debug, PartialEq, Eq, Structural)]
pub enum Action {
    /// Throw the item that the properties name.
    ThrowItem(ThrowItemProperties),
}

impl Action {
    /// What an action identifier and the properties of its tile resolve to:
    /// nothing for an identifier that names no action; else the action, or why
    /// the properties do not describe one.
    pub open spec fn resolved(action_id: Seq<char>, properties: JsonView) -> Option<
        Result<Action, DecodeError>,
    > {
        if action_id == "throw_item"@ {
            Some(
                match ThrowItemProperties::decoded(properties) {
                    Ok(throw) => Ok(Action::ThrowItem(throw)),
                    Err(e) => Err(e),
                },
            )
        } else {
            None
        }
    }

    /// Resolves the click on a tile. Each kind of action is one identifier
    /// and one arm here; an identifier that names none of them gives `None`,
    /// whatever the properties hold.
    pub fn from_action(action_id: &str, properties: Json) -> (r: Option<Result<Action, DecodeError>>)
        ensures
            r == Self::resolved(action_id@, properties@),
            action_id@ != "throw_item"@ ==> r is None,
            action_id@ == "throw_item"@ ==> r is Some,
    {
        if same_text(action_id, "throw_item") {
            Some(
                match ThrowItemProperties::decode(&properties) {
                    Ok(throw) => Ok(Action::ThrowItem(throw)),
                    Err(e) => Err(e),
                },
            )
        } else {
            None
        }
    }
}

} // verus!
