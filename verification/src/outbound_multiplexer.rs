use vstd::hash_map::StringHashMap;
use vstd::prelude::*;

verus! {

/// What the multiplexer holds for a session that has an entry.
pub enum Slot<C> {
    /// One caller is establishing the session's connection; nobody else may
    /// start a second one.
    Connecting,
    /// The session's connection, shared by every call of the session.
    Ready(C),
}

/// What a caller that asked for a session's connection has to do next.
#[derive(Clone, Copy, Debug, PartialEq, Eq, Structural)]
pub enum Resolution {
    /// The connection exists: fetch it with `get_client` and use it.
    Ready,
    /// There was no entry. The caller now owns the connection attempt: it
    /// connects to the destination and reports back with `add_client` or
    /// `connect_failed`.
    Connect,
    /// Another caller is connecting for this session: wait until it has
    /// reported, then ask again.
    Wait,
}

/// The multiplexer as contracts see it.
pub ghost struct MultiplexerView<C> {
    /// The one backend address that every connection goes to.
    pub destination: Seq<char>,
    /// The entry of each session that has one.
    pub slots: Map<Seq<char>, Slot<C>>,
}

/// The answer to a caller that asks for the connection of `session`.
pub open spec fn resolution_of<C>(slots: Map<Seq<char>, Slot<C>>, session: Seq<char>) -> Resolution {
    if !slots.contains_key(session) {
        Resolution::Connect
    } else if slots[session] is Ready {
        Resolution::Ready
    } else {
        Resolution::Wait
    }
}

/// The entries after a caller asked for the connection of `session`: a
/// session without an entry is marked as connecting, nothing else moves.
pub open spec fn after_resolve<C>(slots: Map<Seq<char>, Slot<C>>, session: Seq<char>) -> Map<
    Seq<char>,
    Slot<C>,
> {
    if slots.contains_key(session) {
        slots
    } else {
        slots.insert(session, Slot::Connecting)
    }
}

/// The entries after a connection attempt for `session` failed: the mark of
/// the attempt goes, an established connection stays.
pub open spec fn after_connect_failed<C>(
    slots: Map<Seq<char>, Slot<C>>,
    session: Seq<char>,
) -> Map<Seq<char>, Slot<C>> {
    if slots.contains_key(session) && slots[session] is Connecting {
        slots.remove(session)
    } else {
        slots
    }
}

/// The established connection of `session`, if it has one.
pub open spec fn ready_client<C>(slots: Map<Seq<char>, Slot<C>>, session: Seq<char>) -> Option<C> {
    if slots.contains_key(session) {
        match slots[session] {
            Slot::Ready(client) => Some(client),
            Slot::Connecting => None,
        }
    } else {
        None
    }
}

/// The address that a multiplexer made by `new` connects to.
pub open spec fn default_destination() -> Seq<char> {
    "http://[::1]:50051"@
}

/// Maps each session identifier to the one connection that serves it.
///
/// The multiplexer decides and records; it never connects. A caller asks with
/// `resolve`, does what the answer says outside of any lock that guards the
/// multiplexer, and reports the outcome. Session identifiers are opaque: two
/// identifiers name the same session exactly when they are equal.
#[verifier::reject_recursive_types(C)]
pub struct OutboundMultiplexer<C> {
    destination: String,
    clients: StringHashMap<Slot<C>>,
}

impl<C> View for OutboundMultiplexer<C> {
    type V = MultiplexerView<C>;

    closed spec fn view(&self) -> MultiplexerView<C> {
        MultiplexerView { destination: self.destination@, slots: self.clients@ }
    }
}

impl<C> OutboundMultiplexer<C> {
    /// A multiplexer without sessions that connects to the default
    /// destination.
    pub fn new() -> (muxer: Self)
        ensures
            muxer@.destination == default_destination(),
            muxer@.slots == Map::<Seq<char>, Slot<C>>::empty(),
    {
        OutboundMultiplexer { destination: "http://[::1]:50051".to_owned(), clients: StringHashMap::new() }
    }

    /// A multiplexer without sessions that connects to `destination`.
    pub fn with_destination(destination: String) -> (muxer: Self)
        ensures
            muxer@.destination == destination@,
            muxer@.slots == Map::<Seq<char>, Slot<C>>::empty(),
    {
        OutboundMultiplexer { destination, clients: StringHashMap::new() }
    }

    /// The address that connections are made to.
    pub fn destination(&self) -> (address: &str)
        ensures
            address@ == self@.destination,
    {
        self.destination.as_str()
    }

    /// Decides what a caller that needs the connection of `session_id` does
    /// next. The first caller of a session is told to connect, and the
    /// session is marked so that every later caller waits for that one
    /// attempt instead of starting its own.
    pub fn resolve(&mut self, session_id: &str) -> (next: Resolution)
        ensures
            next == resolution_of(old(self)@.slots, session_id@),
            final(self)@.slots == after_resolve(old(self)@.slots, session_id@),
            final(self)@.destination == old(self)@.destination,
    {
        match self.clients.get(session_id) {
            Some(Slot::Ready(_)) => Resolution::Ready,
            Some(Slot::Connecting) => Resolution::Wait,
            None => {
                self.clients.insert(session_id.to_owned(), Slot::Connecting);
                Resolution::Connect
            },
        }
    }

    /// The established connection of `session_id`: the very handle that was
    /// registered, for as long as the entry stays.
    pub fn get_client(&self, session_id: &str) -> (client: Option<&C>)
        ensures
            match client {
                Some(handle) => ready_client(self@.slots, session_id@) == Some(*handle),
                None => ready_client(self@.slots, session_id@).is_none(),
            },
    {
        match self.clients.get(session_id) {
            Some(Slot::Ready(handle)) => Some(handle),
            Some(Slot::Connecting) => None,
            None => None,
        }
    }

    /// Registers `client` as the connection of `session_id`.
    pub fn add_client(&mut self, session_id: String, client: C)
        ensures
            final(self)@.slots == old(self)@.slots.insert(session_id@, Slot::Ready(client)),
            final(self)@.destination == old(self)@.destination,
    {
        self.clients.insert(session_id, Slot::Ready(client));
    }

    /// Records that the connection attempt for `session_id` failed: no entry
    /// is left behind, so the next caller starts a new attempt.
    pub fn connect_failed(&mut self, session_id: &str)
        ensures
            final(self)@.slots == after_connect_failed(old(self)@.slots, session_id@),
            final(self)@.destination == old(self)@.destination,
    {
        let attempt_pending = match self.clients.get(session_id) {
            Some(Slot::Connecting) => true,
            _ => false,
        };
        if attempt_pending {
            self.clients.remove(session_id);
        }
    }

    /// Drops the entry of `session_id`, if there is one.
    pub fn remove_client(&mut self, session_id: &str)
        ensures
            final(self)@.slots == old(self)@.slots.remove(session_id@),
            final(self)@.destination == old(self)@.destination,
    {
        self.clients.remove(session_id);
    }

    /// Whether `session_id` has an entry, established or still connecting.
    pub fn has_session(&self, session_id: &str) -> (present: bool)
        ensures
            present == self@.slots.contains_key(session_id@),
    {
        self.clients.contains_key(session_id)
    }

    /// The number of sessions that have an entry.
    pub fn session_count(&self) -> (count: usize)
        ensures
            count == self@.slots.len(),
    {
        self.clients.len()
    }
}

/// Asking again never starts a second connection attempt: once a session has
/// been asked for, every further answer is to use the connection or to wait
/// for the one attempt, and asking changes nothing more.
pub proof fn resolve_never_connects_twice<C>(slots: Map<Seq<char>, Slot<C>>, session: Seq<char>)
    ensures
        resolution_of(after_resolve(slots, session), session) != Resolution::Connect,
        after_resolve(after_resolve(slots, session), session) == after_resolve(slots, session),
{
}

/// A session with an established connection is served by that connection
/// every time: asking answers `Ready`, leaves the entries as they are, and
/// the handle that is fetched afterwards is the same one.
pub proof fn repeated_resolve_same_connection<C>(
    slots: Map<Seq<char>, Slot<C>>,
    session: Seq<char>,
    client: C,
)
    requires
        ready_client(slots, session) == Some(client),
    ensures
        resolution_of(slots, session) == Resolution::Ready,
        after_resolve(slots, session) == slots,
        ready_client(after_resolve(slots, session), session) == Some(client),
        ready_client(after_resolve(after_resolve(slots, session), session), session) == Some(
            client,
        ),
{
}

/// The connection that the first caller registers is the one that every
/// later caller is given.
pub proof fn registered_connection_is_served<C>(
    slots: Map<Seq<char>, Slot<C>>,
    session: Seq<char>,
    client: C,
)
    ensures
        resolution_of(after_resolve(slots, session).insert(session, Slot::Ready(client)), session)
            == Resolution::Ready,
        ready_client(after_resolve(slots, session).insert(session, Slot::Ready(client)), session)
            == Some(client),
{
}

/// A failed attempt registers nothing: a session that had no entry has none
/// afterwards, and the next caller is told to connect.
pub proof fn failed_connect_leaves_no_entry<C>(slots: Map<Seq<char>, Slot<C>>, session: Seq<char>)
    requires
        !slots.contains_key(session),
    ensures
        after_connect_failed(after_resolve(slots, session), session) == slots,
        resolution_of(after_connect_failed(after_resolve(slots, session), session), session)
            == Resolution::Connect,
{
    assert(after_connect_failed(after_resolve(slots, session), session) =~= slots);
}

/// After its entry was dropped a session is connected anew: the next caller
/// is told to connect and no old handle can be fetched. Dropping is
/// idempotent, and dropping what is not there changes nothing.
pub proof fn evicted_session_reconnects<C>(slots: Map<Seq<char>, Slot<C>>, session: Seq<char>)
    ensures
        resolution_of(slots.remove(session), session) == Resolution::Connect,
        ready_client(slots.remove(session), session).is_none(),
        slots.remove(session).remove(session) == slots.remove(session),
        !slots.contains_key(session) ==> slots.remove(session) == slots,
{
    assert(slots.remove(session).remove(session) =~= slots.remove(session));
    if !slots.contains_key(session) {
        assert(slots.remove(session) =~= slots);
    }
}

/// Sessions do not touch each other: whatever happens to one session, a
/// caller of another session gets the same answer and the same connection as
/// before, so it never waits for a connection attempt that is not its own.
pub proof fn other_sessions_untouched<C>(
    slots: Map<Seq<char>, Slot<C>>,
    session: Seq<char>,
    other: Seq<char>,
    client: C,
)
    requires
        session != other,
    ensures
        resolution_of(after_resolve(slots, session), other) == resolution_of(slots, other),
        ready_client(after_resolve(slots, session), other) == ready_client(slots, other),
        resolution_of(slots.insert(session, Slot::Ready(client)), other) == resolution_of(
            slots,
            other,
        ),
        ready_client(slots.insert(session, Slot::Ready(client)), other) == ready_client(
            slots,
            other,
        ),
        resolution_of(after_connect_failed(slots, session), other) == resolution_of(slots, other),
        ready_client(after_connect_failed(slots, session), other) == ready_client(slots, other),
        resolution_of(slots.remove(session), other) == resolution_of(slots, other),
        ready_client(slots.remove(session), other) == ready_client(slots, other),
{
}

} // verus!
