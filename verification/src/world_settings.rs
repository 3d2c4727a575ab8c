//! Events of a match that the world reports, and where the world generator
//! places harbours.
use vstd::prelude::*;

verus! {

/// Something that happened in the world, naming the ships involved.
pub enum WorldEvent {
    /// The first ship sank the second with its cannons.
    PlayerSunkByCannon(String, String),
    /// The first ship rammed the second until it sank.
    PlayerSunkByRamming(String, String),
    /// The ship sank by running into an obstacle.
    PlayerSunkByAccident(String),
}

/// What a [`WorldEvent`] says, with the names as characters.
pub enum WorldEventView {
    PlayerSunkByCannon(Seq<char>, Seq<char>),
    PlayerSunkByRamming(Seq<char>, Seq<char>),
    PlayerSunkByAccident(Seq<char>),
}

impl View for WorldEvent {
    type V = WorldEventView;

    open spec fn view(&self) -> WorldEventView {
        match self {
            WorldEvent::PlayerSunkByCannon(a, b) => WorldEventView::PlayerSunkByCannon(a@, b@),
            WorldEvent::PlayerSunkByRamming(a, b) => WorldEventView::PlayerSunkByRamming(a@, b@),
            WorldEvent::PlayerSunkByAccident(a) => WorldEventView::PlayerSunkByAccident(a@),
        }
    }
}

/// The chat line announcing an event.
pub open spec fn event_text(e: WorldEventView) -> Seq<char> {
    match e {
        WorldEventView::PlayerSunkByCannon(a, b) => a + " sunk "@ + b + " with a cannon shot!"@,
        WorldEventView::PlayerSunkByRamming(a, b) => a + " sunk "@ + b + " by ramming!"@,
        WorldEventView::PlayerSunkByAccident(a) => a + " sunk their own ship by accident!"@,
    }
}

impl WorldEvent {
    /// The chat line announcing this event.
    pub fn describe(&self) -> (s: String)
        ensures
            s@ == event_text(self@),
    {
        match self {
            WorldEvent::PlayerSunkByCannon(a, b) => {
                let mut s = a.clone();
                s.append(" sunk ");
                s.append(b.as_str());
                s.append(" with a cannon shot!");
                s
            },
            WorldEvent::PlayerSunkByRamming(a, b) => {
                let mut s = a.clone();
                s.append(" sunk ");
                s.append(b.as_str());
                s.append(" by ramming!");
                s
            },
            WorldEvent::PlayerSunkByAccident(a) => {
                let mut s = a.clone();
                s.append(" sunk their own ship by accident!");
                s
            },
        }
    }
}

pub open spec fn events_view(events: Seq<WorldEvent>) -> Seq<WorldEventView> {
    events.map_values(|e: WorldEvent| e@)
}

/// The world's events that have not been reported yet.
pub struct WorldSettings {
    events: Vec<WorldEvent>,
}

impl View for WorldSettings {
    type V = Seq<WorldEventView>;

    closed spec fn view(&self) -> Seq<WorldEventView> {
        events_view(self.events@)
    }
}

impl WorldSettings {
    pub fn new() -> (w: WorldSettings)
        ensures
            w@ == Seq::<WorldEventView>::empty(),
    {
        let w = WorldSettings { events: Vec::new() };
        assert(w@ =~= Seq::<WorldEventView>::empty());
        w
    }

    /// Records an event after those already waiting.
    pub fn add_event(&mut self, event: WorldEvent)
        ensures
            final(self)@ == old(self)@.push(event@),
    {
        let ghost old_events = self.events@;
        self.events.push(event);
        assert(events_view(self.events@) =~= events_view(old_events).push(event@));
    }

    /// Hands over all waiting events, oldest first, and forgets them.
    pub fn flush_events(&mut self) -> (events: Vec<WorldEvent>)
        ensures
            events_view(events@) == old(self)@,
            final(self)@ == Seq::<WorldEventView>::empty(),
    {
        let mut events: Vec<WorldEvent> = Vec::new();
        std::mem::swap(&mut events, &mut self.events);
        assert(self@ =~= Seq::<WorldEventView>::empty());
        events
    }
}

/// Events are reported once each, in the order they happened: what a flush
/// hands over after a series of additions is exactly that series.
pub proof fn lemma_events_in_order(before: Seq<WorldEventView>, added: WorldEventView)
    ensures
        before.push(added).len() == before.len() + 1,
        before.push(added).last() == added,
        before.push(added).drop_last() == before,
{
    assert(before.push(added).drop_last() =~= before);
}

/// Whether the world generator puts a harbour on a harbour tile in column
/// `curr_col`: at most two harbours are placed, each at least a quarter of
/// the columns after the previous one.
pub open spec fn harbour_allowed(harbours: u32, harbour_col: u32, total_cols: u32, curr_col: u32) -> bool {
    !(harbours >= 2 || curr_col - harbour_col < total_cols / 4)
}

/// Decides about a harbour tile in column `curr_col` and, when a harbour is
/// placed, counts it and remembers its column.
pub fn place_harbour(harbours: &mut u32, harbour_col: &mut u32, total_cols: u32, curr_col: u32) -> (placed: bool)
    requires
        curr_col >= *old(harbour_col),
    ensures
        placed == harbour_allowed(*old(harbours), *old(harbour_col), total_cols, curr_col),
        placed ==> *final(harbours) == *old(harbours) + 1 && *final(harbour_col) == curr_col,
        !placed ==> *final(harbours) == *old(harbours) && *final(harbour_col) == *old(harbour_col),
{
    if *harbours >= 2 || (curr_col - *harbour_col) < (total_cols / 4) {
        return false;
    }
    *harbours = *harbours + 1;
    *harbour_col = curr_col;
    true
}

/// A world never gets a third harbour.
pub proof fn lemma_at_most_two_harbours(harbours: u32, harbour_col: u32, total_cols: u32, curr_col: u32)
    requires
        harbour_allowed(harbours, harbour_col, total_cols, curr_col),
    ensures
        harbours + 1 <= 2,
{
}

} // verus!
