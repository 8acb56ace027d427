//! Routing of outgoing messages to the channel that serves their kind.
use vstd::prelude::*;
use vstd::string::*;
use crate::agent::errors::ChannelError;
use crate::agent::messages::{
    mailbox_error_debug, DispatchOutgoingMessage, MailboxError, RegisterChannelRoute,
    UnregisterChannelRoute,
};
use crate::agent::model::{channel_kind_name, ChannelKind};

verus! {

/// Holds at most one route per channel kind. A route is whatever the
/// program uses to reach a channel (for an actor system, its mailbox
/// address).
///
/// The table has one optional slot per kind: there are as many kinds as
/// slots, so the slots are the map from kinds to routes, and the view below
/// reads them as exactly that `Map`.
pub struct ChannelDispatcher<R> {
    discord: Option<R>,
    cli: Option<R>,
}

/// The routing table after a registration of `recipient` for `kind`: a
/// kind that already has a route keeps it.
pub open spec fn registered<R>(routes: Map<ChannelKind, R>, kind: ChannelKind, recipient: R) -> Map<
    ChannelKind,
    R,
> {
    if routes.contains_key(kind) {
        routes
    } else {
        routes.insert(kind, recipient)
    }
}

/// The route a message of `kind` is sent on, if there is one.
pub open spec fn route_of<R>(routes: Map<ChannelKind, R>, kind: ChannelKind) -> Option<R> {
    if routes.contains_key(kind) {
        Some(routes[kind])
    } else {
        None
    }
}

/// The text of the error for a second registration of `kind`.
pub open spec fn already_registered_text(kind: ChannelKind) -> Seq<char> {
    "route for "@ + channel_kind_name(kind) + " is already registered"@
}

/// The text of the error for a message whose kind has no route.
pub open spec fn no_route_text(kind: ChannelKind) -> Seq<char> {
    "no route registered for "@ + channel_kind_name(kind)
}

/// The text of the error for a route whose mailbox could not be reached.
pub open spec fn unreachable_route_text(e: MailboxError) -> Seq<char> {
    "failed to communicate with route: "@ + mailbox_error_debug(e)
}

impl<R> View for ChannelDispatcher<R> {
    type V = Map<ChannelKind, R>;

    closed spec fn view(&self) -> Map<ChannelKind, R> {
        let with_discord = match self.discord {
            Some(r) => Map::<ChannelKind, R>::empty().insert(ChannelKind::Discord, r),
            None => Map::<ChannelKind, R>::empty(),
        };
        match self.cli {
            Some(r) => with_discord.insert(ChannelKind::Cli, r),
            None => with_discord,
        }
    }
}

impl<R> ChannelDispatcher<R> {
    proof fn lemma_view_slots(&self)
        ensures
            self@.dom().finite(),
            self@.contains_key(ChannelKind::Discord) <==> self.discord is Some,
            self@.contains_key(ChannelKind::Cli) <==> self.cli is Some,
            self.discord is Some ==> self@[ChannelKind::Discord] == self.discord->0,
            self.cli is Some ==> self@[ChannelKind::Cli] == self.cli->0,
            forall|k: ChannelKind| #[trigger]
                self@.contains_key(k) ==> k == ChannelKind::Discord || k == ChannelKind::Cli,
    {
    }

    /// A dispatcher without routes.
    pub fn new() -> (d: Self)
        ensures
            d@ == Map::<ChannelKind, R>::empty(),
    {
        let d = ChannelDispatcher { discord: None, cli: None };
        assert(d@ =~= Map::<ChannelKind, R>::empty());
        d
    }

    fn slot_is_set(&self, kind: ChannelKind) -> (r: bool)
        ensures
            r == self@.contains_key(kind),
    {
        proof {
            self.lemma_view_slots();
        }
        match kind {
            ChannelKind::Discord => self.discord.is_some(),
            ChannelKind::Cli => self.cli.is_some(),
        }
    }

    /// Registers `recipient` as the route for `kind`. A kind that already
    /// has a route keeps it, and the registration is refused.
    pub fn register_route(&mut self, kind: ChannelKind, recipient: R) -> (r: Result<
        (),
        ChannelError,
    >)
        ensures
            final(self)@ == registered(old(self)@, kind, recipient),
            old(self)@.contains_key(kind) <==> r is Err,
            r matches Err(e) ==> (e matches ChannelError::AlreadyRegistered(m) && m@
                == already_registered_text(kind)),
    {
        if self.slot_is_set(kind) {
            let m = String::from_str("route for ").concat(kind.name()).concat(
                " is already registered",
            );
            return Err(ChannelError::AlreadyRegistered(m));
        }
        let ghost before = self@;
        proof {
            self.lemma_view_slots();
        }
        match kind {
            ChannelKind::Discord => {
                self.discord = Some(recipient);
            },
            ChannelKind::Cli => {
                self.cli = Some(recipient);
            },
        }
        proof {
            self.lemma_view_slots();
            assert(self@ =~= before.insert(kind, recipient));
        }
        Ok(())
    }

    /// Removes the route for `kind`, if there is one.
    pub fn unregister_route(&mut self, kind: ChannelKind)
        ensures
            final(self)@ == old(self)@.remove(kind),
    {
        let ghost before = self@;
        proof {
            self.lemma_view_slots();
        }
        match kind {
            ChannelKind::Discord => {
                self.discord = None;
            },
            ChannelKind::Cli => {
                self.cli = None;
            },
        }
        proof {
            self.lemma_view_slots();
            assert(self@ =~= before.remove(kind));
        }
    }

    /// Answers a registration request.
    pub fn handle_register(&mut self, msg: RegisterChannelRoute<R>) -> (r: Result<(), ChannelError>)
        ensures
            final(self)@ == registered(old(self)@, msg.kind, msg.recipient),
            old(self)@.contains_key(msg.kind) <==> r is Err,
            r matches Err(e) ==> (e matches ChannelError::AlreadyRegistered(m) && m@
                == already_registered_text(msg.kind)),
    {
        self.register_route(msg.kind, msg.recipient)
    }

    /// Answers a request to remove a route; removing is never refused.
    pub fn handle_unregister(&mut self, msg: UnregisterChannelRoute) -> (r: Result<(), ChannelError>)
        ensures
            final(self)@ == old(self)@.remove(msg.kind),
            r is Ok,
    {
        self.unregister_route(msg.kind);
        Ok(())
    }

    /// The route for messages of `kind`.
    pub fn route(&self, kind: ChannelKind) -> (r: Result<&R, ChannelError>)
        ensures
            route_of(self@, kind) matches Some(x) ==> r == Ok::<&R, ChannelError>(&x),
            route_of(self@, kind) is None ==> (r matches Err(ChannelError::NotFound(m)) && m@
                == no_route_text(kind)),
    {
        proof {
            self.lemma_view_slots();
        }
        let slot = match kind {
            ChannelKind::Discord => &self.discord,
            ChannelKind::Cli => &self.cli,
        };
        match slot {
            Some(r) => Ok(r),
            None => {
                let m = String::from_str("no route registered for ").concat(kind.name());
                Err(ChannelError::NotFound(m))
            },
        }
    }

    /// The route an outgoing message is to be sent on: that of its kind.
    pub fn route_for(&self, msg: &DispatchOutgoingMessage) -> (r: Result<&R, ChannelError>)
        ensures
            route_of(self@, msg.message.kind) matches Some(x) ==> r == Ok::<&R, ChannelError>(&x),
            route_of(self@, msg.message.kind) is None ==> (r matches Err(ChannelError::NotFound(m))
                && m@ == no_route_text(msg.message.kind)),
    {
        self.route(msg.message.kind)
    }

    /// What a dispatch comes to once the route has answered, or once its
    /// mailbox could not be reached: the channel's own answer, or an error
    /// that names the mailbox failure.
    pub fn dispatch_message_result(sent: Result<Result<(), ChannelError>, MailboxError>) -> (r:
        Result<(), ChannelError>)
        ensures
            sent matches Ok(answer) ==> r == answer,
            sent matches Err(e) ==> (r matches Err(ChannelError::General(m)) && m@
                == unreachable_route_text(e)),
    {
        match sent {
            Ok(answer) => answer,
            Err(e) => {
                let m = String::from_str("failed to communicate with route: ").concat(
                    e.debug_text(),
                );
                Err(ChannelError::General(m))
            },
        }
    }
}

/// Once a kind without a route is registered, its messages go to the
/// recipient that was registered.
pub proof fn law_route_after_register<R>(routes: Map<ChannelKind, R>, kind: ChannelKind, recipient: R)
    requires
        !routes.contains_key(kind),
    ensures
        route_of(registered(routes, kind, recipient), kind) == Some(recipient),
{
}

/// A second registration for a kind changes nothing: the first route stays.
pub proof fn law_register_keeps_existing_route<R>(
    routes: Map<ChannelKind, R>,
    kind: ChannelKind,
    recipient: R,
)
    requires
        routes.contains_key(kind),
    ensures
        registered(routes, kind, recipient) == routes,
        route_of(registered(routes, kind, recipient), kind) == route_of(routes, kind),
{
}

/// After a kind is unregistered its messages have no route.
pub proof fn law_no_route_after_unregister<R>(routes: Map<ChannelKind, R>, kind: ChannelKind)
    ensures
        route_of(routes.remove(kind), kind) is None,
{
}

/// Unregistering a kind undoes its registration.
pub proof fn law_unregister_undoes_register<R>(
    routes: Map<ChannelKind, R>,
    kind: ChannelKind,
    recipient: R,
)
    requires
        !routes.contains_key(kind),
    ensures
        registered(routes, kind, recipient).remove(kind) == routes,
{
    assert(registered(routes, kind, recipient).remove(kind) =~= routes);
}

/// Once a kind is unregistered it can be registered again.
pub proof fn law_register_after_unregister<R>(
    routes: Map<ChannelKind, R>,
    kind: ChannelKind,
    recipient: R,
)
    ensures
        route_of(registered(routes.remove(kind), kind, recipient), kind) == Some(recipient),
{
}

/// Registering or unregistering one kind leaves the route of every other
/// kind as it was.
pub proof fn law_other_kinds_untouched<R>(
    routes: Map<ChannelKind, R>,
    kind: ChannelKind,
    other: ChannelKind,
    recipient: R,
)
    requires
        kind != other,
    ensures
        route_of(registered(routes, kind, recipient), other) == route_of(routes, other),
        route_of(routes.remove(kind), other) == route_of(routes, other),
{
}

impl<R> Default for ChannelDispatcher<R> {
    fn default() -> (d: Self)
        ensures
            d@ == Map::<ChannelKind, R>::empty(),
    {
        Self::new()
    }
}

} // verus!
