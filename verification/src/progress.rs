use vstd::prelude::*;

verus! {

/// Which progress callback is currently entitled to progress events.
///
/// The native engine supports only one fixed, process-wide progress
/// hook, so the callback in force must live in process-wide shared
/// state. This registry makes the attribution decision explicit: every
/// registration hands out a fresh token, at most one token is active at
/// a time, and a progress event is routed to the active token alone.
/// Registering for a new run overwrites the previous registration, so
/// runs that register sequentially can never receive one another's
/// events. The surrounding application keeps the actual closures in a
/// table keyed by token and consults [`ProgressRegistry::active_token`]
/// from inside the native hook.
#[derive(Clone, Copy, Debug, PartialEq, Eq, Structural)]
pub struct ProgressRegistry {
    /// Token of the registration currently in force, if any.
    pub active: Option<u64>,
    /// The next token to hand out; strictly greater than every token
    /// handed out so far.
    pub next_token: u64,
}

/// Whether the registry routes progress events to `token`.
pub open spec fn routes_to(r: ProgressRegistry, token: u64) -> bool {
    r.active == Some(token)
}

impl ProgressRegistry {
    /// The registry state and token that one registration produces.
    pub open spec fn register_spec(self) -> (ProgressRegistry, u64) {
        (
            ProgressRegistry {
                active: Some(self.next_token),
                next_token: (self.next_token + 1) as u64,
            },
            self.next_token,
        )
    }

    /// A registry with no registration in force.
    pub fn new() -> (r: Self)
        ensures
            r.active is None,
            r.next_token == 0,
    {
        ProgressRegistry { active: None, next_token: 0 }
    }

    /// Registers the progress callback of a new run, overwriting any
    /// previous registration, and returns the fresh token that the run's
    /// events will be routed to.
    pub fn register(&mut self) -> (token: u64)
        requires
            old(self).next_token < u64::MAX,
        ensures
            (*final(self), token) == old(self).register_spec(),
            token == old(self).next_token,
            routes_to(*final(self), token),
            final(self).next_token == token + 1,
    {
        let token = self.next_token;
        self.active = Some(token);
        self.next_token = token + 1;
        token
    }

    /// The token progress events are routed to right now, if any; the
    /// native hook consults this under the shared-state lock.
    pub fn active_token(&self) -> (t: Option<u64>)
        ensures
            t == self.active,
            t matches Some(tok) ==> routes_to(*self, tok),
    {
        self.active
    }

    /// Withdraws the registration in force, if any; later progress
    /// events are routed to no one.
    pub fn clear(&mut self)
        ensures
            final(self).active is None,
            final(self).next_token == old(self).next_token,
    {
        self.active = None;
    }
}

/// Sequential runs receive only their own progress events: when a second
/// run registers after a first one, the two tokens differ, every event
/// after the second registration is routed to the second token, and none
/// is routed to the first.
pub proof fn lemma_sequential_registration_isolated(r0: ProgressRegistry)
    requires
        r0.next_token + 2 <= u64::MAX,
    ensures
        ({
            let (r1, t1) = r0.register_spec();
            let (r2, t2) = r1.register_spec();
            &&& t1 != t2
            &&& routes_to(r1, t1)
            &&& routes_to(r2, t2)
            &&& !routes_to(r2, t1)
        }),
{
}

} // verus!
