//! Actions passed to `mumu control`.
use vstd::prelude::*;

verus! {

/// Action passed to `mumu control`.
#[derive(Debug, Clone, Copy, PartialEq, Eq, Structural)]
pub enum ControlAction {
    Launch,
    Shutdown,
    Restart,
    ShowWindow,
    HideWindow,
}

impl ControlAction {
    /// The wire name of the action.
    pub open spec fn wire(self) -> Seq<char> {
        match self {
            ControlAction::Launch => "launch"@,
            ControlAction::Shutdown => "shutdown"@,
            ControlAction::Restart => "restart"@,
            ControlAction::ShowWindow => "show_window"@,
            ControlAction::HideWindow => "hide_window"@,
        }
    }

    /// The wire name of the action, as `mumu control` expects it.
    pub fn as_str(self) -> (r: &'static str)
        ensures
            r@ == self.wire(),
    {
        match self {
            ControlAction::Launch => "launch",
            ControlAction::Shutdown => "shutdown",
            ControlAction::Restart => "restart",
            ControlAction::ShowWindow => "show_window",
            ControlAction::HideWindow => "hide_window",
        }
    }
}

/// Each `ControlAction` is written as its own name, and no two share a wire value.
pub proof fn lemma_control_action_wire(a: ControlAction, b: ControlAction)
    ensures
        (a.wire() == b.wire()) <==> (a == b),
        ControlAction::Launch.wire() == "launch"@,
        ControlAction::Shutdown.wire() == "shutdown"@,
        ControlAction::Restart.wire() == "restart"@,
        ControlAction::ShowWindow.wire() == "show_window"@,
        ControlAction::HideWindow.wire() == "hide_window"@,
{
    reveal_strlit("launch");
    reveal_strlit("shutdown");
    reveal_strlit("restart");
    reveal_strlit("show_window");
    reveal_strlit("hide_window");
    assert("launch"@.len() == 6);
    assert("shutdown"@.len() == 8);
    assert("restart"@.len() == 7);
    assert("show_window"@.len() == 11);
    assert("hide_window"@.len() == 11);
    assert("show_window"@[0] != "hide_window"@[0]);
    match a {
        ControlAction::Launch => {
            match b {
                ControlAction::Launch => {},
                ControlAction::Shutdown => {},
                ControlAction::Restart => {},
                ControlAction::ShowWindow => {},
                ControlAction::HideWindow => {},
            }
        },
        ControlAction::Shutdown => {
            match b {
                ControlAction::Launch => {},
                ControlAction::Shutdown => {},
                ControlAction::Restart => {},
                ControlAction::ShowWindow => {},
                ControlAction::HideWindow => {},
            }
        },
        ControlAction::Restart => {
            match b {
                ControlAction::Launch => {},
                ControlAction::Shutdown => {},
                ControlAction::Restart => {},
                ControlAction::ShowWindow => {},
                ControlAction::HideWindow => {},
            }
        },
        ControlAction::ShowWindow => {
            match b {
                ControlAction::Launch => {},
                ControlAction::Shutdown => {},
                ControlAction::Restart => {},
                ControlAction::ShowWindow => {},
                ControlAction::HideWindow => {},
            }
        },
        ControlAction::HideWindow => {
            match b {
                ControlAction::Launch => {},
                ControlAction::Shutdown => {},
                ControlAction::Restart => {},
                ControlAction::ShowWindow => {},
                ControlAction::HideWindow => {},
            }
        },
    }
}

} // verus!
