use vstd::prelude::*;

use crate::protocol::Health;
use crate::states::Role;

verus! {

/// What the client knows of the server's health.
#[derive(Clone, Debug)]
pub struct HealthState {
    pub status: String,
}

impl HealthState {
    /// Before the first answer.
    pub fn loading() -> (r: HealthState)
        ensures
            r.status@ == "loading"@,
    {
        HealthState { status: "loading".to_owned() }
    }
}

/// The outcome of one health fetch: the reported status when the request
/// succeeded and its body was read, "error" otherwise.
pub fn health_from_response(http_success: bool, payload: Option<Health>) -> (r: HealthState)
    ensures
        r.status@ == if http_success && payload is Some {
            payload.unwrap().status@
        } else {
            "error"@
        },
{
    if !http_success {
        return HealthState { status: "error".to_owned() };
    }
    match payload {
        Some(p) => HealthState { status: p.status },
        None => HealthState { status: "error".to_owned() },
    }
}

/// Takes in the readings that arrived since the last tick: the latest wins,
/// and with none the state stays.
pub fn update_health(health: &mut HealthState, received: Vec<HealthState>)
    ensures
        received@.len() == 0 ==> final(health)@ == old(health)@,
        received@.len() > 0 ==> final(health)@ == received@.last()@,
{
    let mut pending = received;
    if let Some(latest) = pending.pop() {
        *health = latest;
    }
}

impl View for HealthState {
    type V = Seq<char>;

    open spec fn view(&self) -> Seq<char> {
        self.status@
    }
}

/// The side's name, as the window title shows it.
pub fn role_label(role: Role) -> (r: &'static str)
    ensures
        r@ == match role {
            Role::Haunter => "Ghost"@,
            Role::Investigator => "Investigator"@,
        },
{
    match role {
        Role::Haunter => "Ghost",
        Role::Investigator => "Investigator",
    }
}

} // verus!
