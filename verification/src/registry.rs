//! Routes channel events to registered endpoints: by channel for data and
//! channel events, by command byte for commands, with the parent as the
//! fallback.

use vstd::prelude::*;
use std::collections::HashMap;
use crate::demux::ChannelEvent;
use crate::qstate::QAttitude;

verus! {

/// An endpoint for a channel; it receives the parent along with each event.
///
/// Each implementation says, in `receives`, how an event changes the
/// endpoint and the parent, and which answer it gives (`should_enable`
/// answers; the other callbacks answer `false`). Implementations outside
/// this crate are not checked.
pub trait TelnetChannel<Parent> {
    /// Whether receiving `event` takes the endpoint from `before` to `after`
    /// and the parent from `parent_before` to `parent_after`, with the answer
    /// `answer`.
    spec fn receives(
        before: &Self,
        parent_before: Parent,
        event: ChannelEvent,
        after: &Self,
        parent_after: Parent,
        answer: bool,
    ) -> bool;

    fn on_data(&mut self, parent: &mut Parent, channel: Option<u8>, data: &[u8])
        ensures
            Self::receives(&*old(self), *old(parent), ChannelEvent::Data { channel, data: data@ }, &*final(self), *final(parent), false),
    ;

    fn on_command(&mut self, parent: &mut Parent, channel: Option<u8>, command: u8)
        ensures
            Self::receives(&*old(self), *old(parent), ChannelEvent::Command { channel, command }, &*final(self), *final(parent), false),
    ;

    fn on_enable(&mut self, parent: &mut Parent, channel: Option<u8>)
        ensures
            Self::receives(&*old(self), *old(parent), ChannelEvent::Enable(channel), &*final(self), *final(parent), false),
    ;

    fn on_disable(&mut self, parent: &mut Parent, channel: Option<u8>)
        ensures
            Self::receives(&*old(self), *old(parent), ChannelEvent::Disable(channel), &*final(self), *final(parent), false),
    ;

    fn on_focus(&mut self, parent: &mut Parent, channel: Option<u8>)
        ensures
            Self::receives(&*old(self), *old(parent), ChannelEvent::Focus(channel), &*final(self), *final(parent), false),
    ;

    fn on_blur(&mut self, parent: &mut Parent, channel: Option<u8>)
        ensures
            Self::receives(&*old(self), *old(parent), ChannelEvent::Blur(channel), &*final(self), *final(parent), false),
    ;

    fn should_enable(&mut self, parent: &mut Parent, channel: Option<u8>, attitude: QAttitude) -> (r: bool)
        ensures
            Self::receives(
                &*old(self),
                *old(parent),
                ChannelEvent::ShouldEnable { channel, attitude },
                &*final(self),
                *final(parent),
                r,
            ),
    ;
}

/// The fallback endpoint: passes every event on to the parent.
impl<Parent> TelnetChannel<Parent> for () where Parent: crate::demux::ChannelHandler {
    /// The parent handles the event, with the parent's answer.
    open spec fn receives(
        before: &(),
        parent_before: Parent,
        event: ChannelEvent,
        after: &(),
        parent_after: Parent,
        answer: bool,
    ) -> bool {
        Parent::handles(parent_before, event, parent_after, answer)
    }


    fn on_data(&mut self, parent: &mut Parent, channel: Option<u8>, data: &[u8])
        ensures
            Parent::handles(*old(parent), ChannelEvent::Data { channel, data: data@ }, *final(parent), false),
    {
        parent.on_data(channel, data)
    }

    fn on_command(&mut self, parent: &mut Parent, channel: Option<u8>, command: u8)
        ensures
            Parent::handles(*old(parent), ChannelEvent::Command { channel, command }, *final(parent), false),
    {
        parent.on_command(channel, command)
    }

    fn on_enable(&mut self, parent: &mut Parent, channel: Option<u8>)
        ensures
            Parent::handles(*old(parent), ChannelEvent::Enable(channel), *final(parent), false),
    {
        parent.on_enable(channel)
    }

    fn on_disable(&mut self, parent: &mut Parent, channel: Option<u8>)
        ensures
            Parent::handles(*old(parent), ChannelEvent::Disable(channel), *final(parent), false),
    {
        parent.on_disable(channel)
    }

    fn on_focus(&mut self, parent: &mut Parent, channel: Option<u8>)
        ensures
            Parent::handles(*old(parent), ChannelEvent::Focus(channel), *final(parent), false),
    {
        parent.on_focus(channel)
    }

    fn on_blur(&mut self, parent: &mut Parent, channel: Option<u8>)
        ensures
            Parent::handles(*old(parent), ChannelEvent::Blur(channel), *final(parent), false),
    {
        parent.on_blur(channel)
    }

    fn should_enable(&mut self, parent: &mut Parent, channel: Option<u8>, attitude: QAttitude) -> (r: bool)
        ensures
            Parent::handles(*old(parent), ChannelEvent::ShouldEnable { channel, attitude }, *final(parent), r),
    {
        parent.should_enable(channel, attitude)
    }
}

/// Where an event goes.
#[derive(Debug, Clone, Copy, PartialEq, Eq, Structural)]
pub enum Route {
    /// The main endpoint.
    Main,
    /// The registered endpoint with this index.
    Endpoint(usize),
    /// The fallback, which passes the event on to the parent.
    Parent,
}

/// Where a data or channel event goes: the main stream to the main endpoint
/// when there is one; a channel to the endpoint registered for it; anything
/// else to the parent.
pub open spec fn channel_route(has_main: bool, channels: Map<u8, usize>, channel: Option<u8>) -> Route {
    match channel {
        None => if has_main {
            Route::Main
        } else {
            Route::Parent
        },
        Some(ch) => if channels.contains_key(ch) {
            Route::Endpoint(channels[ch])
        } else {
            Route::Parent
        },
    }
}

/// Where a command goes: to the endpoint registered for the command byte,
/// else to the parent.
pub open spec fn command_route(commands: Map<u8, usize>, command: u8) -> Route {
    if commands.contains_key(command) {
        Route::Endpoint(commands[command])
    } else {
        Route::Parent
    }
}

/// A channel registration takes effect for that channel alone: events on
/// the channel go to the registered endpoint, events on every other channel
/// and on the main stream go where they went before.
pub proof fn lemma_channel_registration(
    has_main: bool,
    channels: Map<u8, usize>,
    channel: u8,
    id: usize,
    other: Option<u8>,
)
    ensures
        channel_route(has_main, channels.insert(channel, id), Some(channel)) == Route::Endpoint(id),
        other != Some(channel) ==> channel_route(has_main, channels.insert(channel, id), other)
            == channel_route(has_main, channels, other),
{
}

/// A command registration takes effect for that command byte alone.
pub proof fn lemma_command_registration(
    commands: Map<u8, usize>,
    command: u8,
    id: usize,
    other: u8,
)
    ensures
        command_route(commands.insert(command, id), command) == Route::Endpoint(id),
        other != command ==> command_route(commands.insert(command, id), other) == command_route(
            commands,
            other,
        ),
{
}

/// With nothing registered, every event goes to the parent.
pub proof fn lemma_empty_registry_routes_to_parent(channel: Option<u8>, command: u8)
    ensures
        channel_route(false, Map::<u8, usize>::empty(), channel) == Route::Parent,
        command_route(Map::<u8, usize>::empty(), command) == Route::Parent,
{
}

/// Where an event goes: a command by its command byte, every other event by
/// its channel.
pub open spec fn event_route(
    has_main: bool,
    channels: Map<u8, usize>,
    commands: Map<u8, usize>,
    event: ChannelEvent,
) -> Route {
    match event {
        ChannelEvent::Command { command, .. } => command_route(commands, command),
        ChannelEvent::Data { channel, .. } => channel_route(has_main, channels, channel),
        ChannelEvent::Enable(channel) => channel_route(has_main, channels, channel),
        ChannelEvent::Disable(channel) => channel_route(has_main, channels, channel),
        ChannelEvent::Focus(channel) => channel_route(has_main, channels, channel),
        ChannelEvent::Blur(channel) => channel_route(has_main, channels, channel),
        ChannelEvent::ShouldEnable { channel, .. } => channel_route(has_main, channels, channel),
    }
}

/// Data and every channel event (enable, disable, focus, blur, the question
/// whether to enable) go by their channel alone, whatever command bytes are
/// registered: the main stream to the main endpoint whenever one is set,
/// else to the parent; a channel to the endpoint registered for it, else to
/// the parent.
pub proof fn lemma_channel_events_route_by_channel(
    has_main: bool,
    channels: Map<u8, usize>,
    commands: Map<u8, usize>,
    channel: Option<u8>,
    data: Seq<u8>,
    attitude: QAttitude,
)
    ensures
        ({
            let expected = match channel {
                None => if has_main {
                    Route::Main
                } else {
                    Route::Parent
                },
                Some(ch) => if channels.contains_key(ch) {
                    Route::Endpoint(channels[ch])
                } else {
                    Route::Parent
                },
            };
            &&& event_route(has_main, channels, commands, ChannelEvent::Data { channel, data }) == expected
            &&& event_route(has_main, channels, commands, ChannelEvent::Enable(channel)) == expected
            &&& event_route(has_main, channels, commands, ChannelEvent::Disable(channel)) == expected
            &&& event_route(has_main, channels, commands, ChannelEvent::Focus(channel)) == expected
            &&& event_route(has_main, channels, commands, ChannelEvent::Blur(channel)) == expected
            &&& event_route(has_main, channels, commands, ChannelEvent::ShouldEnable { channel, attitude })
                == expected
        }),
{
}

/// With a main endpoint set, every event on the main stream but a command
/// goes to it.
pub proof fn lemma_main_stream_goes_to_main(
    channels: Map<u8, usize>,
    commands: Map<u8, usize>,
    event: ChannelEvent,
)
    requires
        event == ChannelEvent::Enable(None) || event == ChannelEvent::Disable(None) || event
            == ChannelEvent::Focus(None) || event == ChannelEvent::Blur(None) || (event matches ChannelEvent::Data {
            channel: None,
            ..
        }) || (event matches ChannelEvent::ShouldEnable { channel: None, .. }),
    ensures
        event_route(true, channels, commands, event) == Route::Main,
{
}

/// A command goes by its command byte alone: to the endpoint registered for
/// it, else to the parent, whatever its channel, the registered channels or
/// the main endpoint.
pub proof fn lemma_commands_route_by_command_byte(
    has_main: bool,
    channels: Map<u8, usize>,
    commands: Map<u8, usize>,
    channel: Option<u8>,
    command: u8,
    other_main: bool,
    other_channels: Map<u8, usize>,
    other_channel: Option<u8>,
)
    ensures
        commands.contains_key(command) ==> event_route(
            has_main,
            channels,
            commands,
            ChannelEvent::Command { channel, command },
        ) == Route::Endpoint(commands[command]),
        !commands.contains_key(command) ==> event_route(
            has_main,
            channels,
            commands,
            ChannelEvent::Command { channel, command },
        ) == Route::Parent,
        event_route(has_main, channels, commands, ChannelEvent::Command { channel, command })
            == event_route(
            other_main,
            other_channels,
            commands,
            ChannelEvent::Command { channel: other_channel, command },
        ),
{
}

/// Every index in the two maps names one of `count` endpoints.
spec fn indices_below(commands: Map<u8, usize>, channels: Map<u8, usize>, count: nat) -> bool {
    &&& forall|c: u8| #[trigger] commands.contains_key(c) ==> commands[c] < count
    &&& forall|c: u8| #[trigger] channels.contains_key(c) ==> channels[c] < count
}

/// The registrations and the endpoints that they name; its fields are
/// private, so that every registration keeps naming an existing endpoint.
#[verifier::reject_recursive_types(Endpoint)]
pub struct Routes<'parent, Endpoint: 'parent> {
    command_map: HashMap<u8, usize>,
    channel_map: HashMap<u8, usize>,
    endpoints: Vec<&'parent mut Endpoint>,
    main: Option<&'parent mut Endpoint>,
}

impl<'parent, Endpoint> Routes<'parent, Endpoint> {
    /// Every registration names an endpoint that exists.
    #[verifier::type_invariant]
    spec fn registrations_exist(&self) -> bool {
        indices_below(self.command_map@, self.channel_map@, self.endpoints@.len())
    }
}

/// Endpoints, the command bytes and channels that they are registered for,
/// and the main endpoint. Every registration names an endpoint that exists.
#[verifier::reject_recursive_types(Parent)]
#[verifier::reject_recursive_types(Endpoint)]
pub struct EndpointRegistry<'parent, Parent: 'parent, Endpoint: 'parent> {
    pub parent: &'parent mut Parent,
    pub routes: Routes<'parent, Endpoint>,
}

impl<'parent, Parent, Endpoint> EndpointRegistry<'parent, Parent, Endpoint> {
    /// The endpoint index registered for each command byte.
    pub closed spec fn commands(&self) -> Map<u8, usize> {
        self.routes.command_map@
    }

    /// The endpoint index registered for each channel.
    pub closed spec fn channels(&self) -> Map<u8, usize> {
        self.routes.channel_map@
    }

    /// The number of registered endpoints.
    pub closed spec fn endpoint_count(&self) -> nat {
        self.routes.endpoints@.len()
    }

    /// Whether a main endpoint is set.
    pub closed spec fn has_main(&self) -> bool {
        self.routes.main is Some
    }

    /// The parent as it stands now.
    pub closed spec fn parent_value(&self) -> Parent {
        *self.parent
    }

    /// The registered endpoints, as borrowed.
    pub closed spec fn endpoint_refs(&self) -> Seq<&'parent mut Endpoint> {
        self.routes.endpoints@
    }

    /// The main endpoint, as borrowed.
    pub closed spec fn main_ref(&self) -> Option<&'parent mut Endpoint> {
        self.routes.main
    }

    /// Moves the maps, the endpoints and the main endpoint out, leaving the
    /// registry empty, so that an endpoint can be borrowed on its own.
    fn take_routes(&mut self) -> (r: (
        HashMap<u8, usize>,
        HashMap<u8, usize>,
        Vec<&'parent mut Endpoint>,
        Option<&'parent mut Endpoint>,
    ))
        ensures
            r.0@ == old(self).routes.command_map@,
            r.1@ == old(self).routes.channel_map@,
            r.2@ == old(self).routes.endpoints@,
            r.3 == old(self).routes.main,
            indices_below(r.0@, r.1@, r.2@.len()),
            final(self).parent == old(self).parent,
    {
        let mut routes = Routes {
            command_map: HashMap::new(),
            channel_map: HashMap::new(),
            endpoints: Vec::new(),
            main: None,
        };
        std::mem::swap(&mut routes, &mut self.routes);
        proof {
            use_type_invariant(&routes);
        }
        let Routes { command_map, channel_map, endpoints, main } = routes;
        (command_map, channel_map, endpoints, main)
    }

    /// Moves maps, endpoints and a main endpoint back into the registry.
    fn put_routes(
        &mut self,
        commands: HashMap<u8, usize>,
        channels: HashMap<u8, usize>,
        endpoints: Vec<&'parent mut Endpoint>,
        main: Option<&'parent mut Endpoint>,
    )
        requires
            indices_below(commands@, channels@, endpoints@.len()),
        ensures
            final(self).routes.command_map@ == commands@,
            final(self).routes.channel_map@ == channels@,
            final(self).routes.endpoints@ == endpoints@,
            final(self).routes.main == main,
            final(self).parent == old(self).parent,
    {
        self.routes = Routes { command_map: commands, channel_map: channels, endpoints: endpoints, main: main };
    }
}

impl<'parent, Parent, Endpoint> EndpointRegistry<'parent, Parent, Endpoint> where
    Parent: crate::demux::ChannelHandler,
    Endpoint: TelnetChannel<Parent>,
 {
    /// A registry with no endpoints, no registrations and no main endpoint.
    pub fn new(parent: &'parent mut Parent) -> (r: EndpointRegistry<'parent, Parent, Endpoint>)
        ensures
            r.commands() == Map::<u8, usize>::empty(),
            r.channels() == Map::<u8, usize>::empty(),
            r.endpoint_count() == 0,
            !r.has_main(),
            r.parent_value() == *old(parent),
            *final(r.parent) == *final(parent),
    {
        EndpointRegistry {
            parent: parent,
            routes: Routes {
                command_map: HashMap::new(),
                channel_map: HashMap::new(),
                endpoints: Vec::new(),
                main: None,
            },
        }
    }

    /// Sets the main endpoint, which receives the main stream's data and
    /// channel events.
    pub fn set_main(&mut self, endpoint: &'parent mut Endpoint)
        ensures
            final(self).has_main(),
            *final(self).main_ref().unwrap() == *old(endpoint),
            *final(final(self).main_ref().unwrap()) == *final(endpoint),
            final(self).commands() == old(self).commands(),
            final(self).channels() == old(self).channels(),
            final(self).endpoint_refs() == old(self).endpoint_refs(),
            final(self).parent_value() == old(self).parent_value(),
            *final(final(self).parent) == *final(old(self).parent),
    {
        let (commands, channels, endpoints, _) = self.take_routes();
        self.put_routes(commands, channels, endpoints, Some(endpoint));
    }

    /// Adds an endpoint and returns its index.
    pub fn add_endpoint(&mut self, endpoint: &'parent mut Endpoint) -> (id: usize)
        ensures
            id == old(self).endpoint_count(),
            final(self).endpoint_count() == old(self).endpoint_count() + 1,
            final(self).endpoint_refs().drop_last() == old(self).endpoint_refs(),
            *final(self).endpoint_refs().last() == *old(endpoint),
            *final(final(self).endpoint_refs().last()) == *final(endpoint),
            final(self).commands() == old(self).commands(),
            final(self).channels() == old(self).channels(),
            final(self).has_main() == old(self).has_main(),
            final(self).main_ref() == old(self).main_ref(),
            final(self).parent_value() == old(self).parent_value(),
            *final(final(self).parent) == *final(old(self).parent),
    {
        let (commands, channels, mut endpoints, main) = self.take_routes();
        endpoints.push(endpoint);
        let id = endpoints.len() - 1;
        self.put_routes(commands, channels, endpoints, main);
        id
    }

    /// Registers the endpoint with index `id` for the command byte `command`,
    /// in place of any earlier registration of that byte.
    pub fn map_command(&mut self, command: u8, id: usize)
        requires
            id < old(self).endpoint_count(),
        ensures
            final(self).commands() == old(self).commands().insert(command, id),
            final(self).channels() == old(self).channels(),
            final(self).endpoint_refs() == old(self).endpoint_refs(),
            final(self).endpoint_count() == old(self).endpoint_count(),
            final(self).has_main() == old(self).has_main(),
            final(self).main_ref() == old(self).main_ref(),
            final(self).parent_value() == old(self).parent_value(),
            *final(final(self).parent) == *final(old(self).parent),
    {
        let (mut commands, channels, endpoints, main) = self.take_routes();
        commands.insert(command, id);
        self.put_routes(commands, channels, endpoints, main);
    }

    /// Registers the endpoint with index `id` for the channel `channel`, in
    /// place of any earlier registration of that channel.
    pub fn map_channel(&mut self, channel: u8, id: usize)
        requires
            id < old(self).endpoint_count(),
        ensures
            final(self).channels() == old(self).channels().insert(channel, id),
            final(self).commands() == old(self).commands(),
            final(self).endpoint_refs() == old(self).endpoint_refs(),
            final(self).endpoint_count() == old(self).endpoint_count(),
            final(self).has_main() == old(self).has_main(),
            final(self).main_ref() == old(self).main_ref(),
            final(self).parent_value() == old(self).parent_value(),
            *final(final(self).parent) == *final(old(self).parent),
    {
        let (commands, mut channels, endpoints, main) = self.take_routes();
        channels.insert(channel, id);
        self.put_routes(commands, channels, endpoints, main);
    }

    /// Where a data or channel event on `channel` goes.
    pub fn route_channel(&self, channel: Option<u8>) -> (r: Route)
        ensures
            r == channel_route(self.has_main(), self.channels(), channel),
            r matches Route::Endpoint(id) ==> id < self.endpoint_count(),
            channel is None ==> (r == Route::Main <==> self.has_main()) && (r == Route::Parent
                <==> !self.has_main()),
            channel matches Some(ch) ==> (self.channels().contains_key(ch) ==> r == Route::Endpoint(
                self.channels()[ch],
            )) && (!self.channels().contains_key(ch) ==> r == Route::Parent),
    {
        proof {
            use_type_invariant(&self.routes);
        }
        match channel {
            None => {
                if self.routes.main.is_some() {
                    Route::Main
                } else {
                    Route::Parent
                }
            },
            Some(ch) => {
                match self.routes.channel_map.get(&ch) {
                    Some(id) => Route::Endpoint(*id),
                    None => Route::Parent,
                }
            },
        }
    }

    /// Where the command `command` goes.
    pub fn route_command(&self, command: u8) -> (r: Route)
        ensures
            r == command_route(self.commands(), command),
            r matches Route::Endpoint(id) ==> id < self.endpoint_count(),
            self.commands().contains_key(command) ==> r == Route::Endpoint(self.commands()[command]),
            !self.commands().contains_key(command) ==> r == Route::Parent,
    {
        proof {
            use_type_invariant(&self.routes);
        }
        match self.routes.command_map.get(&command) {
            Some(id) => Route::Endpoint(*id),
            None => Route::Parent,
        }
    }
}

impl<'parent, Parent, Endpoint> crate::demux::ChannelHandler for EndpointRegistry<'parent, Parent, Endpoint> where
    Parent: crate::demux::ChannelHandler,
    Endpoint: TelnetChannel<Parent>,
 {
    /// An event leaves the registrations as they are, and goes where
    /// `event_route` sends it, which alone receives it with the parent and
    /// gives the answer: the parent itself (then every endpoint stays), the
    /// main endpoint (then the registered endpoints stay), or one registered
    /// endpoint (then the main endpoint and every other registered endpoint
    /// stay).
    open spec fn handles(
        before: EndpointRegistry<'parent, Parent, Endpoint>,
        event: ChannelEvent,
        after: EndpointRegistry<'parent, Parent, Endpoint>,
        answer: bool,
    ) -> bool {
        &&& after.commands() == before.commands()
        &&& after.channels() == before.channels()
        &&& after.endpoint_count() == before.endpoint_count()
        &&& after.has_main() == before.has_main()
        &&& match event_route(before.has_main(), before.channels(), before.commands(), event) {
            Route::Parent => {
                &&& Parent::handles(before.parent_value(), event, after.parent_value(), answer)
                &&& after.endpoint_refs() == before.endpoint_refs()
                &&& after.main_ref() == before.main_ref()
            },
            Route::Main => {
                &&& Endpoint::receives(
                    &*before.main_ref().unwrap(),
                    before.parent_value(),
                    event,
                    &*after.main_ref().unwrap(),
                    after.parent_value(),
                    answer,
                )
                &&& after.endpoint_refs() == before.endpoint_refs()
            },
            Route::Endpoint(id) => {
                &&& Endpoint::receives(
                    &*before.endpoint_refs()[id as int],
                    before.parent_value(),
                    event,
                    &*after.endpoint_refs()[id as int],
                    after.parent_value(),
                    answer,
                )
                &&& after.main_ref() == before.main_ref()
                &&& forall|j: int|
                    0 <= j < before.endpoint_refs().len() && j != id ==> #[trigger] after.endpoint_refs()[j]
                        == before.endpoint_refs()[j]
            },
        }
    }


    /// Routes by channel (see `route_channel`).
    fn on_data(&mut self, channel: Option<u8>, data: &[u8])
        ensures
            final(self).commands() == old(self).commands(),
            final(self).channels() == old(self).channels(),
            final(self).endpoint_count() == old(self).endpoint_count(),
            final(self).has_main() == old(self).has_main(),
            *final(final(self).parent) == *final(old(self).parent),
            old(self).has_main() ==> *final(final(self).main_ref().unwrap())
                == *final(old(self).main_ref().unwrap()),
            forall|j: int|
                0 <= j < old(self).endpoint_count() ==> *final(#[trigger] final(self).endpoint_refs()[j])
                    == *final(old(self).endpoint_refs()[j]),
    {
        let route = self.route_channel(channel);
        let (commands, channels, mut endpoints, mut main) = self.take_routes();
        match route {
            Route::Main => {
                match &mut main {
                    Some(endpoint) => endpoint.on_data(self.parent, channel, data),
                    None => {
                        // The route is `Main` only when there is one.
                        proof {
                            assert(false);
                        }
                        
                    },
                }
            },
            Route::Endpoint(id) => endpoints[id].on_data(self.parent, channel, data),
            Route::Parent => {
                let mut fallback = ();
                TelnetChannel::<Parent>::on_data(&mut fallback, self.parent, channel, data)
            },
        };
        self.put_routes(commands, channels, endpoints, main);
    }

    /// Routes by command byte (see `route_command`).
    fn on_command(&mut self, channel: Option<u8>, command: u8)
        ensures
            final(self).commands() == old(self).commands(),
            final(self).channels() == old(self).channels(),
            final(self).endpoint_count() == old(self).endpoint_count(),
            final(self).has_main() == old(self).has_main(),
            *final(final(self).parent) == *final(old(self).parent),
            old(self).has_main() ==> *final(final(self).main_ref().unwrap())
                == *final(old(self).main_ref().unwrap()),
            forall|j: int|
                0 <= j < old(self).endpoint_count() ==> *final(#[trigger] final(self).endpoint_refs()[j])
                    == *final(old(self).endpoint_refs()[j]),
    {
        let route = self.route_command(command);
        let (commands, channels, mut endpoints, mut main) = self.take_routes();
        match route {
            Route::Main => {
                // Commands never go to the main endpoint.
                proof {
                    assert(false);
                }
            },
            Route::Endpoint(id) => endpoints[id].on_command(self.parent, channel, command),
            Route::Parent => {
                let mut fallback = ();
                TelnetChannel::<Parent>::on_command(&mut fallback, self.parent, channel, command)
            },
        };
        self.put_routes(commands, channels, endpoints, main);
    }

    /// Routes by channel (see `route_channel`).
    fn on_enable(&mut self, channel: Option<u8>)
        ensures
            final(self).commands() == old(self).commands(),
            final(self).channels() == old(self).channels(),
            final(self).endpoint_count() == old(self).endpoint_count(),
            final(self).has_main() == old(self).has_main(),
            *final(final(self).parent) == *final(old(self).parent),
            old(self).has_main() ==> *final(final(self).main_ref().unwrap())
                == *final(old(self).main_ref().unwrap()),
            forall|j: int|
                0 <= j < old(self).endpoint_count() ==> *final(#[trigger] final(self).endpoint_refs()[j])
                    == *final(old(self).endpoint_refs()[j]),
    {
        let route = self.route_channel(channel);
        let (commands, channels, mut endpoints, mut main) = self.take_routes();
        match route {
            Route::Main => {
                match &mut main {
                    Some(endpoint) => endpoint.on_enable(self.parent, channel),
                    None => {
                        // The route is `Main` only when there is one.
                        proof {
                            assert(false);
                        }
                        
                    },
                }
            },
            Route::Endpoint(id) => endpoints[id].on_enable(self.parent, channel),
            Route::Parent => {
                let mut fallback = ();
                TelnetChannel::<Parent>::on_enable(&mut fallback, self.parent, channel)
            },
        };
        self.put_routes(commands, channels, endpoints, main);
    }

    /// Routes by channel (see `route_channel`).
    fn on_disable(&mut self, channel: Option<u8>)
        ensures
            final(self).commands() == old(self).commands(),
            final(self).channels() == old(self).channels(),
            final(self).endpoint_count() == old(self).endpoint_count(),
            final(self).has_main() == old(self).has_main(),
            *final(final(self).parent) == *final(old(self).parent),
            old(self).has_main() ==> *final(final(self).main_ref().unwrap())
                == *final(old(self).main_ref().unwrap()),
            forall|j: int|
                0 <= j < old(self).endpoint_count() ==> *final(#[trigger] final(self).endpoint_refs()[j])
                    == *final(old(self).endpoint_refs()[j]),
    {
        let route = self.route_channel(channel);
        let (commands, channels, mut endpoints, mut main) = self.take_routes();
        match route {
            Route::Main => {
                match &mut main {
                    Some(endpoint) => endpoint.on_disable(self.parent, channel),
                    None => {
                        // The route is `Main` only when there is one.
                        proof {
                            assert(false);
                        }
                        
                    },
                }
            },
            Route::Endpoint(id) => endpoints[id].on_disable(self.parent, channel),
            Route::Parent => {
                let mut fallback = ();
                TelnetChannel::<Parent>::on_disable(&mut fallback, self.parent, channel)
            },
        };
        self.put_routes(commands, channels, endpoints, main);
    }

    /// Routes by channel (see `route_channel`).
    fn on_focus(&mut self, channel: Option<u8>)
        ensures
            final(self).commands() == old(self).commands(),
            final(self).channels() == old(self).channels(),
            final(self).endpoint_count() == old(self).endpoint_count(),
            final(self).has_main() == old(self).has_main(),
            *final(final(self).parent) == *final(old(self).parent),
            old(self).has_main() ==> *final(final(self).main_ref().unwrap())
                == *final(old(self).main_ref().unwrap()),
            forall|j: int|
                0 <= j < old(self).endpoint_count() ==> *final(#[trigger] final(self).endpoint_refs()[j])
                    == *final(old(self).endpoint_refs()[j]),
    {
        let route = self.route_channel(channel);
        let (commands, channels, mut endpoints, mut main) = self.take_routes();
        match route {
            Route::Main => {
                match &mut main {
                    Some(endpoint) => endpoint.on_focus(self.parent, channel),
                    None => {
                        // The route is `Main` only when there is one.
                        proof {
                            assert(false);
                        }
                        
                    },
                }
            },
            Route::Endpoint(id) => endpoints[id].on_focus(self.parent, channel),
            Route::Parent => {
                let mut fallback = ();
                TelnetChannel::<Parent>::on_focus(&mut fallback, self.parent, channel)
            },
        };
        self.put_routes(commands, channels, endpoints, main);
    }

    /// Routes by channel (see `route_channel`).
    fn on_blur(&mut self, channel: Option<u8>)
        ensures
            final(self).commands() == old(self).commands(),
            final(self).channels() == old(self).channels(),
            final(self).endpoint_count() == old(self).endpoint_count(),
            final(self).has_main() == old(self).has_main(),
            *final(final(self).parent) == *final(old(self).parent),
            old(self).has_main() ==> *final(final(self).main_ref().unwrap())
                == *final(old(self).main_ref().unwrap()),
            forall|j: int|
                0 <= j < old(self).endpoint_count() ==> *final(#[trigger] final(self).endpoint_refs()[j])
                    == *final(old(self).endpoint_refs()[j]),
    {
        let route = self.route_channel(channel);
        let (commands, channels, mut endpoints, mut main) = self.take_routes();
        match route {
            Route::Main => {
                match &mut main {
                    Some(endpoint) => endpoint.on_blur(self.parent, channel),
                    None => {
                        // The route is `Main` only when there is one.
                        proof {
                            assert(false);
                        }
                        
                    },
                }
            },
            Route::Endpoint(id) => endpoints[id].on_blur(self.parent, channel),
            Route::Parent => {
                let mut fallback = ();
                TelnetChannel::<Parent>::on_blur(&mut fallback, self.parent, channel)
            },
        };
        self.put_routes(commands, channels, endpoints, main);
    }

    /// Routes by channel (see `route_channel`).
    fn should_enable(&mut self, channel: Option<u8>, attitude: QAttitude) -> (r: bool)
        ensures
            final(self).commands() == old(self).commands(),
            final(self).channels() == old(self).channels(),
            final(self).endpoint_count() == old(self).endpoint_count(),
            final(self).has_main() == old(self).has_main(),
            *final(final(self).parent) == *final(old(self).parent),
            old(self).has_main() ==> *final(final(self).main_ref().unwrap())
                == *final(old(self).main_ref().unwrap()),
            forall|j: int|
                0 <= j < old(self).endpoint_count() ==> *final(#[trigger] final(self).endpoint_refs()[j])
                    == *final(old(self).endpoint_refs()[j]),
    {
        let route = self.route_channel(channel);
        let (commands, channels, mut endpoints, mut main) = self.take_routes();
        let r = match route {
            Route::Main => {
                match &mut main {
                    Some(endpoint) => endpoint.should_enable(self.parent, channel, attitude),
                    None => {
                        // The route is `Main` only when there is one.
                        proof {
                            assert(false);
                        }
                        false
                    },
                }
            },
            Route::Endpoint(id) => endpoints[id].should_enable(self.parent, channel, attitude),
            Route::Parent => {
                let mut fallback = ();
                TelnetChannel::<Parent>::should_enable(&mut fallback, self.parent, channel, attitude)
            },
        };
        self.put_routes(commands, channels, endpoints, main);
        r
    }
}

} // verus!
