//! The sessions that the host holds, each known to it by a handle.
//!
//! A handle is a number, never an address: zero is no handle, and the handle
//! of a session that was released is never given out again. So an operation
//! on a handle that is unknown, released, or busy with another operation can
//! be told from a sound one and refused.

use crate::config::{first_fault, map_config, settings_of, valid_record, ConfigError, EditorConfig};
use crate::engine::{config_settings, engine_defaults};
use crate::hooks::CustomHelper;
use rustyline::config::Config;
use vstd::prelude::*;

verus! {

/// What the table holds for one handle that it has given out.
pub enum Slot<S> {
    /// The session was released.
    Released,
    /// The session waits for its next operation.
    Idle(S),
    /// An operation has taken the session out and has not yet brought it back.
    Busy,
}

/// The sessions of one host. The slot of handle `h` stands at index `h - 1`.
pub struct SessionTable<S> {
    slots: Vec<Slot<S>>,
}

/// The handle was given out by a table with these slots.
pub open spec fn is_known<S>(slots: Seq<Slot<S>>, handle: u64) -> bool {
    1 <= handle <= slots.len()
}

/// The handle stands for a session that was not released.
pub open spec fn is_live<S>(slots: Seq<Slot<S>>, handle: u64) -> bool {
    is_known(slots, handle) && !(slots[handle - 1] is Released)
}

/// The handle stands for a session that waits for its next operation.
pub open spec fn is_idle<S>(slots: Seq<Slot<S>>, handle: u64) -> bool {
    is_known(slots, handle) && slots[handle - 1] is Idle
}

/// The handle stands for a session that an operation has taken out.
pub open spec fn is_busy<S>(slots: Seq<Slot<S>>, handle: u64) -> bool {
    is_known(slots, handle) && slots[handle - 1] is Busy
}

/// The handles of all sessions that were not released.
pub open spec fn live_handles<S>(slots: Seq<Slot<S>>) -> Set<u64> {
    Set::new(|handle: u64| is_live(slots, handle))
}

/// The handle that the next session gets.
pub open spec fn next_handle<S>(slots: Seq<Slot<S>>) -> u64 {
    (slots.len() + 1) as u64
}

/// The slots after a session was created.
pub open spec fn after_create<S>(slots: Seq<Slot<S>>, session: S) -> Seq<Slot<S>> {
    slots.push(Slot::Idle(session))
}

/// The slots after the handle's slot was given a new state.
pub open spec fn with_slot<S>(slots: Seq<Slot<S>>, handle: u64, slot: Slot<S>) -> Seq<Slot<S>> {
    slots.update(handle - 1, slot)
}

/// One step of a table: a session is created, or the slot of a known handle
/// goes from idle to released, from idle to busy, or from busy to idle.
pub open spec fn is_step<S>(before: Seq<Slot<S>>, after: Seq<Slot<S>>) -> bool {
    ||| exists|session: S| after == after_create(before, session)
    ||| exists|handle: u64|
        is_idle(before, handle) && after == with_slot(before, handle, Slot::<S>::Released)
    ||| exists|handle: u64|
        is_idle(before, handle) && after == with_slot(before, handle, Slot::<S>::Busy)
    ||| exists|handle: u64, session: S|
        is_busy(before, handle) && after == with_slot(before, handle, Slot::Idle(session))
}

impl<S> View for SessionTable<S> {
    type V = Seq<Slot<S>>;

    closed spec fn view(&self) -> Seq<Slot<S>> {
        self.slots@
    }
}

impl<S> SessionTable<S> {
    /// A table that has given out no handle.
    pub fn new() -> (table: Self)
        ensures
            table@.len() == 0,
    {
        SessionTable { slots: Vec::new() }
    }

    /// The number of handles given out so far.
    pub fn issued(&self) -> (n: usize)
        ensures
            n == self@.len(),
    {
        self.slots.len()
    }

    /// Tells whether the handle stands for a session that was not released.
    pub fn is_live(&self, handle: u64) -> (r: bool)
        ensures
            r == is_live(self@, handle),
    {
        if handle == 0 || handle > self.slots.len() as u64 {
            return false;
        }
        match &self.slots[(handle - 1) as usize] {
            Slot::Released => false,
            _ => true,
        }
    }

    /// Takes a new session in and gives out its handle: one that was never
    /// given out before. The session waits for its first operation. Fails,
    /// and hands the session back, only where no handle is left.
    pub fn create(&mut self, session: S) -> (r: Result<u64, S>)
        ensures
            old(self)@.len() < u64::MAX ==> r == Ok::<u64, S>(next_handle(old(self)@))
                && final(self)@ == after_create(old(self)@, session),
            old(self)@.len() >= u64::MAX ==> r == Err::<u64, S>(session) && final(self)@ == old(
                self,
            )@,
            final(self)@ == old(self)@ || is_step(old(self)@, final(self)@),
    {
        let issued = self.slots.len() as u64;
        if issued == u64::MAX {
            return Err(session);
        }
        self.slots.push(Slot::Idle(session));
        assert(self@ == after_create(old(self)@, session));
        Ok(issued + 1)
    }

    /// Puts a new state into the handle's slot and hands out the old one.
    fn exchange(&mut self, handle: u64, slot: Slot<S>) -> (r: Slot<S>)
        requires
            is_known(old(self)@, handle),
        ensures
            r == old(self)@[handle - 1],
            final(self)@ == with_slot(old(self)@, handle, slot),
    {
        let mut held = slot;
        assert(handle <= self.slots.len());
        let at = (handle - 1) as usize;
        std::mem::swap(&mut self.slots[at], &mut held);
        held
    }

    /// Tells whether the handle stands for a session that waits for its
    /// next operation.
    fn idle(&self, handle: u64) -> (r: bool)
        ensures
            r == is_idle(self@, handle),
    {
        if handle == 0 || handle > self.slots.len() as u64 {
            return false;
        }
        match &self.slots[(handle - 1) as usize] {
            Slot::Idle(_) => true,
            _ => false,
        }
    }

    /// Tells whether the handle stands for a session that an operation has
    /// taken out.
    fn busy(&self, handle: u64) -> (r: bool)
        ensures
            r == is_busy(self@, handle),
    {
        if handle == 0 || handle > self.slots.len() as u64 {
            return false;
        }
        match &self.slots[(handle - 1) as usize] {
            Slot::Busy => true,
            _ => false,
        }
    }

    /// Releases the session of a handle and hands it out, so that the
    /// caller can let go of it. Only a session that waits for its next
    /// operation can be released; for any other handle nothing changes.
    pub fn release(&mut self, handle: u64) -> (r: Option<S>)
        ensures
            is_idle(old(self)@, handle) ==> old(self)@[handle - 1] == Slot::Idle(r->Some_0)
                && r is Some && final(self)@ == with_slot(old(self)@, handle, Slot::Released),
            !is_idle(old(self)@, handle) ==> r is None && final(self)@ == old(self)@,
            final(self)@ == old(self)@ || is_step(old(self)@, final(self)@),
    {
        if !self.idle(handle) {
            return None;
        }
        let taken = self.exchange(handle, Slot::Released);
        assert(is_idle(old(self)@, handle) && self@ == with_slot(
            old(self)@,
            handle,
            Slot::<S>::Released,
        ));
        match taken {
            Slot::Idle(session) => Some(session),
            _ => None,
        }
    }

    /// Takes the session of a handle out for one operation. Until it is
    /// brought back the handle is busy, and neither a second operation nor a
    /// release can have the session. For a handle that is not idle nothing
    /// changes.
    pub fn begin(&mut self, handle: u64) -> (r: Option<S>)
        ensures
            is_idle(old(self)@, handle) ==> old(self)@[handle - 1] == Slot::Idle(r->Some_0)
                && r is Some && final(self)@ == with_slot(old(self)@, handle, Slot::Busy),
            !is_idle(old(self)@, handle) ==> r is None && final(self)@ == old(self)@,
            final(self)@ == old(self)@ || is_step(old(self)@, final(self)@),
    {
        if !self.idle(handle) {
            return None;
        }
        let taken = self.exchange(handle, Slot::Busy);
        assert(is_idle(old(self)@, handle) && self@ == with_slot(
            old(self)@,
            handle,
            Slot::<S>::Busy,
        ));
        match taken {
            Slot::Idle(session) => Some(session),
            _ => None,
        }
    }

    /// Brings a session back after its operation. Only a busy handle takes
    /// a session; for any other the session is handed back and nothing
    /// changes.
    pub fn end(&mut self, handle: u64, session: S) -> (r: Result<(), S>)
        ensures
            is_busy(old(self)@, handle) ==> r is Ok && final(self)@ == with_slot(
                old(self)@,
                handle,
                Slot::Idle(session),
            ),
            !is_busy(old(self)@, handle) ==> r == Err::<(), S>(session) && final(self)@ == old(
                self,
            )@,
            final(self)@ == old(self)@ || is_step(old(self)@, final(self)@),
    {
        if !self.busy(handle) {
            return Err(session);
        }
        let _ = self.exchange(handle, Slot::Idle(session));
        assert(is_busy(old(self)@, handle) && self@ == with_slot(
            old(self)@,
            handle,
            Slot::Idle(session),
        ));
        Ok(())
    }
}

/// Works out what a new session is made of: the engine configuration, and
/// the hook set, which is empty but for the value that the host wants
/// passed to its hooks.
///
/// Without a record the engine's defaults apply. With a record, the
/// configuration holds what the record asks for; a record with a code out of
/// range makes no session, and the error names its first such field.
pub fn new_editor_with_config(cfg: Option<&EditorConfig>, k_callback_holder: usize) -> (r: Result<
    (Config, CustomHelper),
    ConfigError,
>)
    ensures
        cfg is None ==> r is Ok && engine_defaults(config_settings(r->Ok_0.0)),
        cfg matches Some(record) ==> {
            &&& r is Ok <==> valid_record(*record)
            &&& r matches Ok(parts) ==> config_settings(parts.0) == settings_of(*record)
            &&& r matches Err(fault) ==> first_fault(*record) == Some(fault)
        },
        r matches Ok(parts) ==> parts.1 == (CustomHelper {
            completer_cb: 0,
            hint_highlighter_cb: 0,
            prompt_highlighter_cb: 0,
            candidate_highlighter_cb: 0,
            k_callback_holder,
        }),
{
    let config = match cfg {
        None => Config::builder().build(),
        Some(record) => match map_config(record) {
            Ok(config) => config,
            Err(fault) => { return Err(fault); },
        },
    };
    Ok((config, CustomHelper::new(k_callback_holder)))
}

/// A session that is created and released at once leaves nothing behind:
/// the release hands out the very session that came in, the handles that are
/// live are those that were live before, and every older slot is as it was.
pub proof fn lemma_create_then_release<S>(slots: Seq<Slot<S>>, session: S)
    requires
        slots.len() < u64::MAX,
    ensures
        ({
            let handle = next_handle(slots);
            let created = after_create(slots, session);
            let released = with_slot(created, handle, Slot::<S>::Released);
            &&& !is_known(slots, handle)
            &&& is_idle(created, handle)
            &&& created[handle - 1] == Slot::Idle(session)
            &&& !is_live(released, handle)
            &&& live_handles(released) == live_handles(slots)
            &&& released.take(slots.len() as int) == slots
        }),
{
    let handle = next_handle(slots);
    let created = after_create(slots, session);
    let released = with_slot(created, handle, Slot::<S>::Released);
    assert(released.take(slots.len() as int) =~= slots);
    assert forall|h: u64| is_live(released, h) == is_live(slots, h) by {
        if is_known(slots, h) {
            assert(released[h - 1] == slots[h - 1]);
        }
    }
    assert(live_handles(released) =~= live_handles(slots));
}

/// No step brings a released session back, and no step forgets a handle:
/// what was released stays released, and what was known stays known.
pub proof fn lemma_release_is_final<S>(before: Seq<Slot<S>>, after: Seq<Slot<S>>, handle: u64)
    requires
        is_step(before, after),
        is_known(before, handle),
    ensures
        is_known(after, handle),
        before[handle - 1] is Released ==> after[handle - 1] is Released,
{
}

/// Creating a session, or changing the slot of one handle, leaves the slot
/// of every other known handle as it was.
pub proof fn lemma_other_sessions_untouched<S>(
    slots: Seq<Slot<S>>,
    handle: u64,
    slot: Slot<S>,
    session: S,
    other: u64,
)
    requires
        is_known(slots, other),
        other != handle,
    ensures
        after_create(slots, session)[other - 1] == slots[other - 1],
        is_known(slots, handle) ==> with_slot(slots, handle, slot)[other - 1] == slots[other - 1],
{
}

} // verus!
