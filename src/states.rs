use vstd::prelude::*;

verus! {

/// Which side the local player is on.
#[derive(Clone, Copy, Debug, PartialEq, Eq, Structural)]
pub enum Role {
    Haunter,
    Investigator,
}

/// The investigator's active tool.
#[derive(Clone, Copy, Debug, PartialEq, Eq, Structural)]
pub enum Equipment {
    Emf,
    Spiritbox,
}

/// The kind of ghost haunting the map, or a guess at it.
#[derive(Clone, Copy, Debug, PartialEq, Eq, Structural)]
pub enum GhostType {
    Spirit,
    Banshee,
    Onryo,
}

#[derive(Clone, Copy, Debug, PartialEq, Eq, Structural)]
pub struct RoleState {
    pub current: Role,
}

#[derive(Clone, Copy, Debug, PartialEq, Eq, Structural)]
pub struct MenuState {
    pub open: bool,
    pub selected_role: Role,
}

/// The screens of the start menu.
#[derive(Clone, Copy, Debug, PartialEq, Eq, Structural)]
pub enum MenuScreen {
    Start,
    RoleSelect,
    GhostDetails,
    InvestigatorDetails,
}

#[derive(Clone, Copy, Debug, PartialEq, Eq, Structural)]
pub struct MenuFlowState {
    pub screen: MenuScreen,
}

#[derive(Clone, Copy, Debug, PartialEq, Eq, Structural)]
pub struct JournalState {
    pub open: bool,
}

/// The ghost type picked in the menu, and the one in play this session.
#[derive(Clone, Copy, Debug, PartialEq, Eq, Structural)]
pub struct GhostTypeState {
    pub selected: GhostType,
    pub active: GhostType,
}

#[derive(Clone, Copy, Debug, PartialEq, Eq, Structural)]
pub struct SessionState {
    pub started: bool,
}

} // verus!
