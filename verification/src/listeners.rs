//! The listeners of a player, by the callbacks that registered them.
use dashmap::DashMap;
use vstd::prelude::*;

use crate::double::Double;
use crate::types;
use crate::types::{Button, Emission, MediaEvent};

verus! {

/// The concurrent map of the `dashmap` crate.
#[verifier::external_type_specification]
#[verifier::external_body]
#[verifier::reject_recursive_types(K)]
#[verifier::reject_recursive_types(V)]
#[verifier::reject_recursive_types(S)]
pub struct ExDashMap<K, V, S>(DashMap<K, V, S>);

/// The entries of a map: what it holds for each key.
pub uninterp spec fn map_entries(map: DashMap<usize, u64>) -> Map<usize, u64>;

/// A map without entries.
pub open spec fn no_listeners() -> Map<usize, u64> {
    Map::empty()
}

/// `DashMap::new` makes a map without entries.
#[verifier::external_body]
fn map_new() -> (map: DashMap<usize, u64>)
    ensures
        map_entries(map) == no_listeners(),
{
    DashMap::new()
}

/// `DashMap::contains_key` tells whether there is an entry for the key.
#[verifier::external_body]
fn map_contains_key(map: &DashMap<usize, u64>, key: usize) -> (r: bool)
    ensures
        r == map_entries(*map).contains_key(key),
{
    map.contains_key(&key)
}

/// `DashMap::insert` makes `value` the entry of `key`, and returns the entry that it replaced. The
/// map is borrowed exclusively, so no other thread changes it meanwhile.
#[verifier::external_body]
fn map_insert(map: &mut DashMap<usize, u64>, key: usize, value: u64) -> (r: Option<u64>)
    ensures
        map_entries(*final(map)) == map_entries(*old(map)).insert(key, value),
        r == if map_entries(*old(map)).contains_key(key) {
            Some(map_entries(*old(map))[key])
        } else {
            None
        },
{
    map.insert(key, value)
}

/// `DashMap::remove` takes the entry of `key` out of the map and returns it, if there was one.
#[verifier::external_body]
fn map_remove(map: &mut DashMap<usize, u64>, key: usize) -> (r: Option<(usize, u64)>)
    ensures
        map_entries(*final(map)) == map_entries(*old(map)).remove(key),
        r == if map_entries(*old(map)).contains_key(key) {
            Some((key, map_entries(*old(map))[key]))
        } else {
            None
        },
{
    map.remove(&key)
}

/// `DashMap::clear` takes every entry out of the map.
#[verifier::external_body]
fn map_clear(map: &mut DashMap<usize, u64>)
    ensures
        map_entries(*final(map)) == no_listeners(),
{
    map.clear()
}

/// Whether `entries` are those of the map, each of them once.
pub open spec fn are_entries_of(entries: Seq<(usize, u64)>, map: Map<usize, u64>) -> bool {
    &&& entries.no_duplicates()
    &&& forall|key: usize, value: u64|
        #![trigger entries.contains((key, value))]
        entries.contains((key, value)) <==> map.contains_key(key) && map[key] == value
}

/// `DashMap::iter` yields each entry once, in an order of its own.
#[verifier::external_body]
fn map_iter(map: &DashMap<usize, u64>) -> (r: Vec<(usize, u64)>)
    ensures
        are_entries_of(r@, map_entries(*map)),
{
    map.iter().map(|entry| (*entry.key(), *entry.value())).collect()
}

/// The listeners for one kind of event: for each callback, by its address, the handle by which it is
/// called.
pub struct Listeners {
    map: DashMap<usize, u64>,
}

impl View for Listeners {
    type V = Map<usize, u64>;

    closed spec fn view(&self) -> Map<usize, u64> {
        map_entries(self.map)
    }
}

/// The listeners after a callback was added: one that is there already keeps its handle.
pub open spec fn with_listener(
    listeners: Map<usize, u64>,
    callback: usize,
    handle: u64,
) -> Map<usize, u64> {
    if listeners.contains_key(callback) {
        listeners
    } else {
        listeners.insert(callback, handle)
    }
}

/// Whether `handles` are those of all listeners, one for each callback.
pub open spec fn are_handles_of(handles: Seq<u64>, listeners: Map<usize, u64>) -> bool {
    exists|callbacks: Seq<usize>|
        {
            &&& #[trigger] callbacks.no_duplicates()
            &&& callbacks.len() == handles.len()
            &&& forall|i: int|
                0 <= i < handles.len() ==> listeners.contains_key(#[trigger] callbacks[i])
                    && listeners[callbacks[i]] == handles[i]
            &&& forall|callback: usize|
                listeners.contains_key(callback) ==> #[trigger] callbacks.contains(callback)
        }
}

/// Adding a callback twice is adding it once.
pub proof fn law_add_twice(listeners: Map<usize, u64>, callback: usize, first: u64, second: u64)
    ensures
        with_listener(with_listener(listeners, callback, first), callback, second) == with_listener(
            listeners,
            callback,
            first,
        ),
{
}

/// Removing a callback undoes adding it.
pub proof fn law_remove_undoes_add(listeners: Map<usize, u64>, callback: usize, handle: u64)
    requires
        !listeners.contains_key(callback),
    ensures
        with_listener(listeners, callback, handle).remove(callback) == listeners,
{
    assert(listeners.insert(callback, handle).remove(callback) =~= listeners);
}

impl Listeners {
    pub fn new() -> (r: Self)
        ensures
            r@ == no_listeners(),
    {
        Listeners { map: map_new() }
    }

    /// Whether the callback is registered.
    pub fn contains(&self, callback: usize) -> (r: bool)
        ensures
            r == self@.contains_key(callback),
    {
        map_contains_key(&self.map, callback)
    }

    /// Adds a callback, unless it is there already; says whether it was added.
    pub fn insert(&mut self, callback: usize, handle: u64) -> (r: bool)
        ensures
            final(self)@ == with_listener(old(self)@, callback, handle),
            r == !old(self)@.contains_key(callback),
    {
        if map_contains_key(&self.map, callback) {
            return false;
        }
        map_insert(&mut self.map, callback, handle);
        true
    }

    /// Removes a callback; says by which handle it was called.
    pub fn remove(&mut self, callback: usize) -> (r: Option<u64>)
        ensures
            final(self)@ == old(self)@.remove(callback),
            r == if old(self)@.contains_key(callback) {
                Some(old(self)@[callback])
            } else {
                None
            },
    {
        match map_remove(&mut self.map, callback) {
            Some((_, handle)) => Some(handle),
            None => None,
        }
    }

    /// Removes all callbacks.
    pub fn clear(&mut self)
        ensures
            final(self)@ == no_listeners(),
    {
        map_clear(&mut self.map)
    }

    /// The handles to call: one for each callback.
    pub fn handles(&self) -> (r: Vec<u64>)
        ensures
            are_handles_of(r@, self@),
    {
        let entries = map_iter(&self.map);
        let mut r: Vec<u64> = Vec::new();
        let mut i: usize = 0;
        while i < entries.len()
            invariant
                i <= entries.len(),
                r.len() == i,
                forall|j: int| 0 <= j < i ==> r@[j] == (#[trigger] entries@[j]).1,
            decreases entries.len() - i,
        {
            r.push(entries[i].1);
            i = i + 1;
        }
        proof {
            let callbacks = entries@.map_values(|entry: (usize, u64)| entry.0);
            assert forall|j: int| 0 <= j < entries.len() implies self@.contains_key(
                #[trigger] callbacks[j],
            ) && self@[callbacks[j]] == r@[j] by {
                assert(entries@.contains((entries@[j].0, entries@[j].1)));
            }
            assert forall|callback: usize| self@.contains_key(callback) implies #[trigger] callbacks.contains(
            callback) by {
                assert(entries@.contains((callback, self@[callback])));
                let j = choose|j: int|
                    0 <= j < entries.len() && entries@[j] == (callback, self@[callback]);
                assert(callbacks[j] == callback);
            }
            assert(callbacks.no_duplicates()) by {
                assert forall|a: int, b: int|
                    0 <= a < callbacks.len() && 0 <= b < callbacks.len() && a
                        != b implies callbacks[a] != callbacks[b] by {
                    if callbacks[a] == callbacks[b] {
                        assert(self@[callbacks[a]] == r@[a]);
                        assert(self@[callbacks[b]] == r@[b]);
                        assert(entries@[a] == entries@[b]);
                    }
                }
            }
        }
        r
    }
}

/// The listeners of a player, for each kind of event.
pub struct EventListeners {
    pub button_pressed: Listeners,
    pub position_changed: Listeners,
    pub position_seeked: Listeners,
}

/// What `EventListeners` hold.
#[verifier::ext_equal]
pub struct EventListenersView {
    pub button_pressed: Map<usize, u64>,
    pub position_changed: Map<usize, u64>,
    pub position_seeked: Map<usize, u64>,
}

impl View for EventListeners {
    type V = EventListenersView;

    open spec fn view(&self) -> EventListenersView {
        EventListenersView {
            button_pressed: self.button_pressed@,
            position_changed: self.position_changed@,
            position_seeked: self.position_seeked@,
        }
    }
}

impl EventListenersView {
    pub open spec fn empty() -> Self {
        EventListenersView {
            button_pressed: no_listeners(),
            position_changed: no_listeners(),
            position_seeked: no_listeners(),
        }
    }

    /// The listeners for a kind of event.
    pub open spec fn of(self, event: MediaEvent) -> Map<usize, u64> {
        match event {
            MediaEvent::ButtonPressed => self.button_pressed,
            MediaEvent::PositionChanged => self.position_changed,
            MediaEvent::PositionSeeked => self.position_seeked,
        }
    }

    /// The listeners with those for one kind of event replaced.
    pub open spec fn with(self, event: MediaEvent, listeners: Map<usize, u64>) -> Self {
        match event {
            MediaEvent::ButtonPressed => EventListenersView { button_pressed: listeners, ..self },
            MediaEvent::PositionChanged => EventListenersView { position_changed: listeners, ..self },
            MediaEvent::PositionSeeked => EventListenersView { position_seeked: listeners, ..self },
        }
    }

    /// The listeners after a callback was added for the event with the given name. A name of no event
    /// changes nothing.
    pub open spec fn added(self, event_name: Seq<char>, callback: usize, handle: u64) -> Self {
        match MediaEvent::named_spec(event_name) {
            Some(event) => self.with(event, with_listener(self.of(event), callback, handle)),
            None => self,
        }
    }

    /// The listeners after a callback was removed for the event with the given name. A name of no
    /// event changes nothing.
    pub open spec fn removed(self, event_name: Seq<char>, callback: usize) -> Self {
        match MediaEvent::named_spec(event_name) {
            Some(event) => self.with(event, self.of(event).remove(callback)),
            None => self,
        }
    }
}

impl EventListeners {
    pub fn new() -> (r: Self)
        ensures
            r@ == EventListenersView::empty(),
    {
        EventListeners {
            button_pressed: Listeners::new(),
            position_changed: Listeners::new(),
            position_seeked: Listeners::new(),
        }
    }

    /// Whether a callback can be added for the event with the given name: there is such an event, and
    /// the callback does not listen to it yet.
    pub fn accepts(&self, event_name: &String, callback: usize) -> (r: bool)
        ensures
            r == (MediaEvent::named_spec(event_name@) matches Some(event) && !self@.of(
                event,
            ).contains_key(callback)),
    {
        match MediaEvent::named(event_name) {
            Some(MediaEvent::ButtonPressed) => !self.button_pressed.contains(callback),
            Some(MediaEvent::PositionChanged) => !self.position_changed.contains(callback),
            Some(MediaEvent::PositionSeeked) => !self.position_seeked.contains(callback),
            None => false,
        }
    }

    /// Adds a callback for the event with the given name; says whether it was added.
    pub fn add_event_listener(&mut self, event_name: &String, callback: usize, handle: u64) -> (r:
        bool)
        ensures
            final(self)@ == old(self)@.added(event_name@, callback, handle),
            r == (MediaEvent::named_spec(event_name@) matches Some(event) && !old(self)@.of(
                event,
            ).contains_key(callback)),
    {
        match MediaEvent::named(event_name) {
            Some(MediaEvent::ButtonPressed) => self.button_pressed.insert(callback, handle),
            Some(MediaEvent::PositionChanged) => self.position_changed.insert(callback, handle),
            Some(MediaEvent::PositionSeeked) => self.position_seeked.insert(callback, handle),
            None => false,
        }
    }

    /// Removes a callback for the event with the given name; says by which handle it was called.
    pub fn remove_event_listener(&mut self, event_name: &String, callback: usize) -> (r: Option<
        u64,
    >)
        ensures
            final(self)@ == old(self)@.removed(event_name@, callback),
            r == match MediaEvent::named_spec(event_name@) {
                Some(event) => if old(self)@.of(event).contains_key(callback) {
                    Some(old(self)@.of(event)[callback])
                } else {
                    None
                },
                None => None,
            },
    {
        match MediaEvent::named(event_name) {
            Some(MediaEvent::ButtonPressed) => self.button_pressed.remove(callback),
            Some(MediaEvent::PositionChanged) => self.position_changed.remove(callback),
            Some(MediaEvent::PositionSeeked) => self.position_seeked.remove(callback),
            None => None,
        }
    }

    /// Removes all callbacks.
    pub fn clear(&mut self)
        ensures
            final(self)@ == EventListenersView::empty(),
    {
        self.button_pressed.clear();
        self.position_changed.clear();
        self.position_seeked.clear();
    }

    /// The handles to call with an event: one for each callback that listens to its kind.
    pub fn recipients(&self, emission: Emission) -> (r: Vec<u64>)
        ensures
            are_handles_of(r@, self@.of(emission.kind_spec())),
    {
        match emission.kind() {
            MediaEvent::ButtonPressed => self.button_pressed.handles(),
            MediaEvent::PositionChanged => self.position_changed.handles(),
            MediaEvent::PositionSeeked => self.position_seeked.handles(),
        }
    }
}

/// The listeners for the three kinds of events are kept apart, each under its own name.
pub proof fn law_listeners_kept_apart(listeners: EventListeners)
    ensures
        listeners@.button_pressed == listeners.button_pressed@,
        listeners@.position_changed == listeners.position_changed@,
        listeners@.position_seeked == listeners.position_seeked@,
{
}

/// At first nobody listens.
pub proof fn law_nobody_listens_at_first(callback: usize)
    ensures
        !no_listeners().contains_key(callback),
        !EventListenersView::empty().button_pressed.contains_key(callback),
        !EventListenersView::empty().position_changed.contains_key(callback),
        !EventListenersView::empty().position_seeked.contains_key(callback),
{
}

/// An event reaches the listeners for its own kind.
pub proof fn law_events_reach_their_kind(
    listeners: EventListenersView,
    button: Button,
    seconds: Double,
)
    ensures
        listeners.of(Emission::ButtonPressed(button).kind_spec()) == listeners.button_pressed,
        listeners.of(Emission::PositionChanged(seconds).kind_spec()) == listeners.position_changed,
        listeners.of(Emission::PositionSeeked(seconds).kind_spec()) == listeners.position_seeked,
{
}

/// After an addition the callback listens, by its handle of before if it had one and by the new one
/// otherwise, and every other callback listens as before.
pub open spec fn one_added(
    before: Map<usize, u64>,
    after: Map<usize, u64>,
    callback: usize,
    handle: u64,
) -> bool {
    &&& after.contains_key(callback)
    &&& before.contains_key(callback) ==> after[callback] == before[callback]
    &&& !before.contains_key(callback) ==> after[callback] == handle
    &&& forall|other: usize|
        other != callback ==> (#[trigger] after.contains_key(other) <==> before.contains_key(other))
    &&& forall|other: usize|
        other != callback && before.contains_key(other) ==> #[trigger] after[other]
            == before[other]
}

/// After a removal the callback does not listen, and every other callback listens as before.
pub open spec fn one_removed(
    before: Map<usize, u64>,
    after: Map<usize, u64>,
    callback: usize,
) -> bool {
    &&& !after.contains_key(callback)
    &&& forall|other: usize|
        other != callback ==> (#[trigger] after.contains_key(other) <==> before.contains_key(other))
    &&& forall|other: usize|
        other != callback && before.contains_key(other) ==> #[trigger] after[other]
            == before[other]
}

/// Adding a callback for an event changes that event and that callback alone; a name of no event changes
/// nothing.
pub proof fn law_addition_is_local(
    before: EventListenersView,
    name: Seq<char>,
    callback: usize,
    handle: u64,
)
    ensures
        ({
            let after = before.added(name, callback, handle);
            &&& name == "buttonpressed"@ ==> one_added(
                before.button_pressed,
                after.button_pressed,
                callback,
                handle,
            )
            &&& name == "positionchanged"@ ==> one_added(
                before.position_changed,
                after.position_changed,
                callback,
                handle,
            )
            &&& name == "positionseeked"@ ==> one_added(
                before.position_seeked,
                after.position_seeked,
                callback,
                handle,
            )
            &&& name != "buttonpressed"@ ==> after.button_pressed == before.button_pressed
            &&& name != "positionchanged"@ ==> after.position_changed == before.position_changed
            &&& name != "positionseeked"@ ==> after.position_seeked == before.position_seeked
        }),
{
    types::law_event_names(name);
}

/// Removing a callback for an event changes that event and that callback alone: every other callback of
/// the event, and every callback of the other events, listens as before with its handle. A name of no
/// event changes nothing.
pub proof fn law_removal_is_local(before: EventListenersView, name: Seq<char>, callback: usize)
    ensures
        ({
            let after = before.removed(name, callback);
            &&& name == "buttonpressed"@ ==> one_removed(
                before.button_pressed,
                after.button_pressed,
                callback,
            )
            &&& name == "positionchanged"@ ==> one_removed(
                before.position_changed,
                after.position_changed,
                callback,
            )
            &&& name == "positionseeked"@ ==> one_removed(
                before.position_seeked,
                after.position_seeked,
                callback,
            )
            &&& name != "buttonpressed"@ ==> after.button_pressed == before.button_pressed
            &&& name != "positionchanged"@ ==> after.position_changed == before.position_changed
            &&& name != "positionseeked"@ ==> after.position_seeked == before.position_seeked
        }),
{
    types::law_event_names(name);
}

/// A call that adds a callback changes the listeners of the named event alone, and says whether the
/// callback did not listen to it before.
pub proof fn law_listener_added(
    listeners: &mut EventListeners,
    name: &String,
    callback: usize,
    handle: u64,
    r: bool,
)
    requires
        call_ensures(EventListeners::add_event_listener, (listeners, name, callback, handle), r),
    ensures
        name@ == "buttonpressed"@ ==> one_added(
            old(listeners).button_pressed@,
            final(listeners).button_pressed@,
            callback,
            handle,
        ) && r == !old(listeners).button_pressed@.contains_key(callback),
        name@ == "positionchanged"@ ==> one_added(
            old(listeners).position_changed@,
            final(listeners).position_changed@,
            callback,
            handle,
        ) && r == !old(listeners).position_changed@.contains_key(callback),
        name@ == "positionseeked"@ ==> one_added(
            old(listeners).position_seeked@,
            final(listeners).position_seeked@,
            callback,
            handle,
        ) && r == !old(listeners).position_seeked@.contains_key(callback),
        name@ != "buttonpressed"@ ==> final(listeners).button_pressed@ == old(
            listeners,
        ).button_pressed@,
        name@ != "positionchanged"@ ==> final(listeners).position_changed@ == old(
            listeners,
        ).position_changed@,
        name@ != "positionseeked"@ ==> final(listeners).position_seeked@ == old(
            listeners,
        ).position_seeked@,
        name@ != "buttonpressed"@ && name@ != "positionchanged"@ && name@ != "positionseeked"@
            ==> !r,
{
    types::law_event_names(name@);
    law_addition_is_local(old(listeners)@, name@, callback, handle);
}

/// A call that removes a callback changes the listeners of the named event alone: the callback does not
/// listen to it any more, and every other one does as before. The handle that it gives back is the one
/// by which the callback listened.
pub proof fn law_listener_removed(
    listeners: &mut EventListeners,
    name: &String,
    callback: usize,
    r: Option<u64>,
)
    requires
        call_ensures(EventListeners::remove_event_listener, (listeners, name, callback), r),
    ensures
        name@ == "buttonpressed"@ ==> one_removed(
            old(listeners).button_pressed@,
            final(listeners).button_pressed@,
            callback,
        ) && r == old(listeners).button_pressed@.get(callback),
        name@ == "positionchanged"@ ==> one_removed(
            old(listeners).position_changed@,
            final(listeners).position_changed@,
            callback,
        ) && r == old(listeners).position_changed@.get(callback),
        name@ == "positionseeked"@ ==> one_removed(
            old(listeners).position_seeked@,
            final(listeners).position_seeked@,
            callback,
        ) && r == old(listeners).position_seeked@.get(callback),
        name@ != "buttonpressed"@ ==> final(listeners).button_pressed@ == old(
            listeners,
        ).button_pressed@,
        name@ != "positionchanged"@ ==> final(listeners).position_changed@ == old(
            listeners,
        ).position_changed@,
        name@ != "positionseeked"@ ==> final(listeners).position_seeked@ == old(
            listeners,
        ).position_seeked@,
        name@ != "buttonpressed"@ && name@ != "positionchanged"@ && name@ != "positionseeked"@
            ==> r is None,
{
    types::law_event_names(name@);
    law_removal_is_local(old(listeners)@, name@, callback);
}

/// An event calls each callback that listens to its kind, and nobody else.
pub proof fn law_recipients(
    listeners: &EventListeners,
    button: Button,
    seconds: Double,
    r: Vec<u64>,
    handle: u64,
)
    ensures
        call_ensures(EventListeners::recipients, (listeners, Emission::ButtonPressed(button)), r)
            ==> (r@.contains(handle) <==> has_handle(listeners.button_pressed@, handle)),
        call_ensures(EventListeners::recipients, (listeners, Emission::PositionChanged(seconds)), r)
            ==> (r@.contains(handle) <==> has_handle(listeners.position_changed@, handle)),
        call_ensures(EventListeners::recipients, (listeners, Emission::PositionSeeked(seconds)), r)
            ==> (r@.contains(handle) <==> has_handle(listeners.position_seeked@, handle)),
{
    if are_handles_of(r@, listeners.button_pressed@) {
        law_everybody_is_called(r@, listeners.button_pressed@);
    }
    if are_handles_of(r@, listeners.position_changed@) {
        law_everybody_is_called(r@, listeners.position_changed@);
    }
    if are_handles_of(r@, listeners.position_seeked@) {
        law_everybody_is_called(r@, listeners.position_seeked@);
    }
}

/// Removing a callback that was just added leaves the listeners as they were.
pub proof fn law_removal_undoes_addition(
    before: EventListenersView,
    name: Seq<char>,
    callback: usize,
    handle: u64,
)
    requires
        !before.button_pressed.contains_key(callback),
        !before.position_changed.contains_key(callback),
        !before.position_seeked.contains_key(callback),
    ensures
        before.added(name, callback, handle).removed(name, callback) == before,
{
    types::law_event_names(name);
    law_remove_undoes_add(before.button_pressed, callback, handle);
    law_remove_undoes_add(before.position_changed, callback, handle);
    law_remove_undoes_add(before.position_seeked, callback, handle);
}

/// Whether somebody listens by the given handle.
pub open spec fn has_handle(listeners: Map<usize, u64>, handle: u64) -> bool {
    exists|callback: usize|
        #![trigger listeners.contains_key(callback)]
        listeners.contains_key(callback) && listeners[callback] == handle
}

/// Everybody who listens is called, nobody else is, and each callback once.
pub proof fn law_everybody_is_called(handles: Seq<u64>, listeners: Map<usize, u64>)
    requires
        are_handles_of(handles, listeners),
    ensures
        listeners.dom().finite(),
        handles.len() == listeners.dom().len(),
        forall|callback: usize|
            listeners.contains_key(callback) ==> handles.contains(#[trigger] listeners[callback]),
        forall|i: int| 0 <= i < handles.len() ==> has_handle(listeners, #[trigger] handles[i]),
{
    let callbacks = choose|callbacks: Seq<usize>|
        {
            &&& #[trigger] callbacks.no_duplicates()
            &&& callbacks.len() == handles.len()
            &&& forall|i: int|
                0 <= i < handles.len() ==> listeners.contains_key(#[trigger] callbacks[i])
                    && listeners[callbacks[i]] == handles[i]
            &&& forall|callback: usize|
                listeners.contains_key(callback) ==> #[trigger] callbacks.contains(callback)
        };
    callbacks.unique_seq_to_set();
    assert(callbacks.to_set() =~= listeners.dom()) by {
        assert forall|callback: usize| callbacks.to_set().contains(
            callback,
        ) implies #[trigger] listeners.dom().contains(callback) by {
            let i = callbacks.index_of(callback);
            assert(listeners.contains_key(callbacks[i]));
        }
        assert forall|callback: usize| #[trigger]
            listeners.dom().contains(callback) implies callbacks.to_set().contains(callback) by {
            assert(callbacks.contains(callback));
        }
    }
    assert forall|callback: usize| listeners.contains_key(callback) implies handles.contains(
        #[trigger] listeners[callback],
    ) by {
        assert(callbacks.contains(callback));
        let i = callbacks.index_of(callback);
        assert(handles[i] == listeners[callbacks[i]]);
    }
    assert forall|i: int| 0 <= i < handles.len() implies has_handle(
        listeners,
        #[trigger] handles[i],
    ) by {
        assert(listeners.contains_key(callbacks[i]));
    }
}

} // verus!
