//! Typed calls to a Hue light.

use crate::json::{
    bool_text, bool_value, insert_member, members, new_object, no_members, object_text,
    object_to_string, JsonObject,
};
use crate::nanoleaf::calls::{Action, Send};
use vstd::prelude::*;

verus! {

/// Turn the light on or off.
#[derive(Debug)]
pub struct On {
    on: JsonObject,
}

impl On {
    /// What the call holds.
    pub closed spec fn inner(&self) -> Map<Seq<char>, Seq<char>> {
        members(self.on)
    }

    pub fn new(status: bool) -> (call: On)
        ensures
            call.inner() == no_members().insert("on"@, bool_text(status)),
    {
        let mut map = new_object();
        insert_member(&mut map, "on", bool_value(status));

        On { on: map }
    }
}

impl Send for On {
    open spec fn json_spec(&self) -> Seq<char> {
        object_text(self.inner())
    }

    open spec fn url_spec(&self) -> Seq<char> {
        "state"@
    }

    open spec fn action_spec(&self) -> Action {
        Action::PUT
    }

    fn to_json(&self) -> (json: String) {
        object_to_string(&self.on)
    }

    fn send_url(&self) -> (url: &str) {
        "state"
    }

    fn action(&self) -> (action: Action) {
        Action::PUT
    }
}

} // verus!
