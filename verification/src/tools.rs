use vstd::prelude::*;

verus! {

/// A span of chart ticks: it starts at `y` and lasts `l` ticks.
#[derive(Debug, Clone, Copy, PartialEq, Eq, Structural)]
pub struct Interval {
    pub y: u32,
    pub l: u32,
}

/// The span between two ticks, whichever comes first.
pub open spec fn span_between(a: u32, b: u32) -> Interval {
    if b > a {
        Interval { y: a, l: (b - a) as u32 }
    } else {
        Interval { y: b, l: (a - b) as u32 }
    }
}

/// The span from `start` to `tick`, empty when `tick` is not after `start`.
pub open spec fn span_from(start: u32, tick: u32) -> Interval {
    Interval { y: start, l: if start >= tick { 0 } else { (tick - start) as u32 } }
}

/// The range selection tool of the chart editor.
#[derive(Debug, Clone, Copy, PartialEq, Eq, Structural)]
pub struct RangeSelect {
    pub selected: Interval,
    /// The tick the current drag started at; `u32::MAX` when no drag is going on.
    pub start_tick: u32,
}

impl Default for RangeSelect {
    /// Nothing selected and no drag going on.
    fn default() -> (r: Self)
        ensures
            r == (RangeSelect { selected: Interval { y: 0, l: 0 }, start_tick: u32::MAX }),
    {
        RangeSelect { selected: Interval { y: 0, l: 0 }, start_tick: u32::MAX }
    }
}

impl RangeSelect {
    /// A drag starts at `tick`: the selection shrinks to that tick.
    pub fn drag_start(&mut self, tick: u32)
        ensures
            *final(self) == (RangeSelect { selected: Interval { y: tick, l: 0 }, start_tick: tick }),
    {
        self.selected.l = 0;
        self.selected.y = tick;
        self.start_tick = tick;
    }

    /// The cursor moves to `tick`: during a drag the selection spans from the drag's
    /// start to the cursor.
    pub fn update(&mut self, tick: u32)
        ensures
            old(self).start_tick == u32::MAX ==> *final(self) == *old(self),
            old(self).start_tick != u32::MAX ==> *final(self) == (RangeSelect {
                selected: span_between(old(self).start_tick, tick),
                ..*old(self)
            }),
    {
        if self.start_tick == u32::MAX {
            return;
        }
        if tick > self.start_tick {
            self.selected.l = tick - self.start_tick;
            self.selected.y = self.start_tick;
        } else {
            self.selected.y = tick;
            self.selected.l = self.start_tick - tick;
        }
    }

    /// The drag ends at `tick`: the selection spans from the drag's start to `tick`, and
    /// no drag is going on any more.
    pub fn drag_end(&mut self, tick: u32)
        ensures
            *final(self) == (RangeSelect {
                selected: span_between(old(self).start_tick, tick),
                start_tick: u32::MAX,
            }),
    {
        if tick > self.start_tick {
            self.selected.l = tick - self.start_tick;
            self.selected.y = self.start_tick;
        } else {
            self.selected.y = tick;
            self.selected.l = self.start_tick - tick;
        }
        self.start_tick = u32::MAX;
    }

    /// The ticks a mirror or randomize of the selection covers, both ends included.
    pub fn selected_range(&self) -> (r: (u32, u32))
        requires
            self.selected.y + self.selected.l <= u32::MAX,
        ensures
            r == (self.selected.y, (self.selected.y + self.selected.l) as u32),
    {
        (self.selected.y, self.selected.y + self.selected.l)
    }
}

/// A selection made by dragging covers exactly the ticks between the two ends of the
/// drag, in whichever direction it went, and never reaches past `u32::MAX`.
pub proof fn law_selection_between_ends(a: u32, b: u32)
    ensures
        span_between(a, b) == span_between(b, a) || a == b,
        span_between(a, b).y <= a && span_between(a, b).y <= b,
        span_between(a, b).y + span_between(a, b).l == if a >= b { a } else { b },
        span_between(a, b).y + span_between(a, b).l <= u32::MAX,
{
}

/// The edit to the chart that finishing a note drag asks for.
#[derive(Debug, Clone, Copy, PartialEq, Eq, Structural)]
pub struct NoteAdd {
    pub fx: bool,
    pub lane: usize,
    pub interval: Interval,
}

/// The BT or FX note tool of the chart editor: while the button is down, the note
/// being drawn.
#[derive(Debug, Clone, Copy, PartialEq, Eq, Structural)]
pub struct ButtonInterval {
    pub pressed: bool,
    pub fx: bool,
    pub interval: Interval,
    pub lane: usize,
}

/// The BT lane under the cursor from the lane column it is in (columns 1 to 4 hold the
/// BT lanes; anything left or right of them counts as the nearest lane).
pub open spec fn bt_lane_of_column(column: usize) -> usize {
    if column < 1 {
        0
    } else if column > 4 {
        3
    } else {
        (column - 1) as usize
    }
}

/// The BT lane under the cursor from the lane column it is in.
pub fn bt_lane_index(column: usize) -> (lane: usize)
    ensures
        lane == bt_lane_of_column(column),
        lane < 4,
{
    let c = if column < 1 {
        1
    } else if column > 4 {
        4
    } else {
        column
    };
    c - 1
}

impl ButtonInterval {
    /// The tool for BT notes, or FX notes when `fx`.
    pub fn new(fx: bool) -> (t: Self)
        ensures
            t == (ButtonInterval { pressed: false, fx, interval: Interval { y: 0, l: 0 }, lane: 0 }),
    {
        ButtonInterval { pressed: false, fx, interval: Interval { y: 0, l: 0 }, lane: 0 }
    }

    /// The button goes down at `tick` over lane `lane` (already chosen for the tool's
    /// kind of note): a note starts there.
    pub fn drag_start(&mut self, tick: u32, lane: usize)
        ensures
            *final(self) == (ButtonInterval {
                pressed: true,
                lane,
                interval: Interval { y: tick, ..old(self).interval },
                ..*old(self)
            }),
    {
        self.pressed = true;
        self.lane = lane;
        self.interval.y = tick;
    }

    /// The cursor moves to `tick` over lane `lane`: before the button goes down the
    /// note follows the cursor; the note stretches from its start to the cursor.
    pub fn update(&mut self, tick: u32, lane: usize)
        ensures
            !old(self).pressed ==> *final(self) == (ButtonInterval {
                interval: span_from(tick, tick),
                lane,
                ..*old(self)
            }),
            old(self).pressed ==> *final(self) == (ButtonInterval {
                interval: span_from(old(self).interval.y, tick),
                ..*old(self)
            }),
    {
        if !self.pressed {
            self.interval.y = tick;
            self.lane = lane;
        }
        if self.interval.y >= tick {
            self.interval.l = 0;
        } else {
            self.interval.l = tick - self.interval.y;
        }
    }

    /// The button goes up at `tick`: the drawn note, from its start to `tick`, is to be
    /// added to its lane, and the tool is ready for the next note. Without a press
    /// nothing happens.
    pub fn drag_end(&mut self, tick: u32) -> (add: Option<NoteAdd>)
        ensures
            !old(self).pressed ==> add is None && *final(self) == *old(self),
            old(self).pressed ==> add == Some(
                NoteAdd {
                    fx: old(self).fx,
                    lane: old(self).lane,
                    interval: span_from(old(self).interval.y, tick),
                },
            ) && *final(self) == ButtonInterval::new_spec(old(self).fx),
    {
        if !self.pressed {
            return None;
        }
        let l = if self.interval.y >= tick {
            0
        } else {
            tick - self.interval.y
        };
        let v = Interval { y: self.interval.y, l };
        self.interval = Interval { y: 0, l: 0 };
        let add = NoteAdd { fx: self.fx, lane: self.lane, interval: v };
        self.pressed = false;
        self.lane = 0;
        Some(add)
    }

    pub open spec fn new_spec(fx: bool) -> ButtonInterval {
        ButtonInterval { pressed: false, fx, interval: Interval { y: 0, l: 0 }, lane: 0 }
    }
}

/// A note drawn by a drag starts where the drag started and ends where it ended (or is
/// a single tick when the drag went backwards), and never reaches past `u32::MAX`.
pub proof fn law_drawn_note_spans_drag(start: u32, end: u32)
    ensures
        span_from(start, end).y == start,
        start <= end ==> span_from(start, end).y + span_from(start, end).l == end,
        start >= end ==> span_from(start, end).l == 0,
{
}

/// Something placed on the chart at a tick (or, for time signatures, at a measure):
/// what orders the entries of a lane or a list of changes.
pub trait ChartEvent: Copy {
    spec fn tick_spec(&self) -> u32;

    fn tick(&self) -> (t: u32)
        ensures
            t == self.tick_spec(),
    ;
}

impl ChartEvent for Interval {
    open spec fn tick_spec(&self) -> u32 {
        self.y
    }

    fn tick(&self) -> (t: u32) {
        self.y
    }
}

/// `s` with `x` placed after the last run of entries that start after it, that is right
/// behind the last entry (from the end) that starts no later than `x`.
pub open spec fn insert_by_start<T: ChartEvent>(s: Seq<T>, x: T) -> Seq<T>
    decreases s.len(),
{
    if s.len() == 0 {
        seq![x]
    } else if s.last().tick_spec() <= x.tick_spec() {
        s.push(x)
    } else {
        insert_by_start(s.drop_last(), x).push(s.last())
    }
}

/// `s` ordered by start tick, entries with the same start keeping their order: each
/// entry in turn is placed behind the entries before it that start no later.
pub open spec fn sort_by_start<T: ChartEvent>(s: Seq<T>) -> Seq<T>
    decreases s.len(),
{
    if s.len() == 0 {
        s
    } else {
        insert_by_start(sort_by_start(s.drop_last()), s.last())
    }
}

/// Whether the entries are ordered by start tick.
pub open spec fn sorted_by_start<T: ChartEvent>(s: Seq<T>) -> bool {
    forall|i: int, j: int| 0 <= i < j < s.len() ==> #[trigger] s[i].tick_spec() <= #[trigger] s[j].tick_spec()
}

/// Inserting at `j` is what `insert_by_start` does when every entry from `j` on starts
/// after `x` and the entry before `j`, if any, does not.
proof fn lemma_insert_at<T: ChartEvent>(s: Seq<T>, x: T, j: int)
    requires
        0 <= j <= s.len(),
        j > 0 ==> s[j - 1].tick_spec() <= x.tick_spec(),
        forall|k: int| j <= k < s.len() ==> #[trigger] s[k].tick_spec() > x.tick_spec(),
    ensures
        insert_by_start(s, x) == s.take(j).push(x) + s.skip(j),
    decreases s.len(),
{
    if s.len() == 0 {
        assert(s.take(j).push(x) + s.skip(j) =~= seq![x]);
    } else if j == s.len() {
        assert(s.take(j) =~= s);
        assert(s.take(j).push(x) + s.skip(j) =~= s.push(x));
    } else {
        let init = s.drop_last();
        assert forall|k: int| j <= k < init.len() implies #[trigger] init[k].tick_spec() > x.tick_spec() by {
            assert(init[k] == s[k]);
        }
        lemma_insert_at(init, x, j);
        assert(init.take(j) =~= s.take(j));
        assert(init.skip(j).push(s.last()) =~= s.skip(j));
        assert((init.take(j).push(x) + init.skip(j)).push(s.last()) =~= s.take(j).push(x)
            + s.skip(j));
    }
}

/// Inserting keeps an ordered sequence ordered and adds exactly the one entry.
pub proof fn law_insert_keeps_order<T: ChartEvent>(s: Seq<T>, x: T)
    requires
        sorted_by_start(s),
    ensures
        sorted_by_start(insert_by_start(s, x)),
        insert_by_start(s, x).to_multiset() == s.to_multiset().insert(x),
    decreases s.len(),
{
    broadcast use vstd::seq_lib::group_to_multiset_ensures;

    if s.len() == 0 {
        assert(seq![x] =~= Seq::<T>::empty().push(x));
    } else if s.last().tick_spec() <= x.tick_spec() {
    } else {
        let init = s.drop_last();
        assert(sorted_by_start(init)) by {
            assert forall|i: int, j: int| 0 <= i < j < init.len() implies #[trigger] init[i].tick_spec()
                <= #[trigger] init[j].tick_spec() by {
                assert(init[i] == s[i]);
                assert(init[j] == s[j]);
            }
        }
        law_insert_keeps_order(init, x);
        let r = insert_by_start(init, x);
        assert forall|k: int| 0 <= k < r.len() implies #[trigger] r[k].tick_spec() <= s.last().tick_spec() by {
            assert(r.to_multiset().count(r[k]) > 0);
            assert(init.to_multiset().insert(x).count(r[k]) > 0);
            if r[k] != x {
                assert(init.to_multiset().count(r[k]) > 0);
                assert(init.contains(r[k]));
                let m = choose|m: int| 0 <= m < init.len() && init[m] == r[k];
                assert(s[m] == init[m]);
                assert(s[m].tick_spec() <= s[s.len() - 1].tick_spec());
            }
        }
        assert(s =~= init.push(s.last()));
    }
}

/// Ordering by start tick gives an ordered sequence of the same entries.
pub proof fn law_sort_orders<T: ChartEvent>(s: Seq<T>)
    ensures
        sorted_by_start(sort_by_start(s)),
        sort_by_start(s).to_multiset() == s.to_multiset(),
    decreases s.len(),
{
    broadcast use vstd::seq_lib::group_to_multiset_ensures;

    if s.len() > 0 {
        law_sort_orders(s.drop_last());
        law_insert_keeps_order(sort_by_start(s.drop_last()), s.last());
        assert(s =~= s.drop_last().push(s.last()));
    }
}

/// An ordered lane is left as it is by ordering it again.
pub proof fn law_sorted_lane_unchanged<T: ChartEvent>(s: Seq<T>)
    requires
        sorted_by_start(s),
    ensures
        sort_by_start(s) == s,
    decreases s.len(),
{
    if s.len() > 0 {
        let init = s.drop_last();
        assert(sorted_by_start(init)) by {
            assert forall|i: int, j: int| 0 <= i < j < init.len() implies #[trigger] init[i].tick_spec()
                <= #[trigger] init[j].tick_spec() by {
                assert(init[i] == s[i]);
                assert(init[j] == s[j]);
            }
        }
        law_sorted_lane_unchanged(init);
        if init.len() > 0 {
            assert(init.last() == s[s.len() - 2]);
        }
        assert(init.push(s.last()) =~= s);
    }
}

/// Adding a note to an ordered lane puts it behind the notes that start no later than it,
/// keeps the lane ordered, and adds exactly that note.
pub proof fn law_add_note_to_ordered_lane<T: ChartEvent>(s: Seq<T>, x: T)
    requires
        sorted_by_start(s),
    ensures
        sort_by_start(s.push(x)) == insert_by_start(s, x),
        sorted_by_start(sort_by_start(s.push(x))),
        sort_by_start(s.push(x)).to_multiset() == s.to_multiset().insert(x),
{
    law_sorted_lane_unchanged(s);
    assert(s.push(x).drop_last() =~= s);
    law_insert_keeps_order(s, x);
}

/// Orders the notes of a lane by start tick; notes that start together keep their order.
pub fn sort_lane<T: ChartEvent>(lane: &mut Vec<T>)
    ensures
        final(lane)@ == sort_by_start(old(lane)@),
{
    let ghost orig = lane@;
    let mut out: Vec<T> = Vec::new();
    let mut i: usize = 0;
    let n = lane.len();
    while i < n
        invariant
            n == orig.len(),
            lane@ == orig,
            i <= n,
            out@ == sort_by_start(orig.take(i as int)),
        decreases n - i,
    {
        let x = lane[i];
        let mut j = out.len();
        while j > 0 && out[j - 1].tick() > x.tick()
            invariant
                j <= out@.len(),
                forall|k: int| j <= k < out@.len() ==> #[trigger] out@[k].tick_spec() > x.tick_spec(),
            decreases j,
        {
            j = j - 1;
        }
        proof {
            lemma_insert_at(out@, x, j as int);
            assert(orig.take(i + 1).drop_last() =~= orig.take(i as int));
            assert(orig.take(i + 1).last() == x);
        }
        out.insert(j, x);
        assert(out@ =~= sort_by_start(orig.take(i as int)).take(j as int).push(x) + sort_by_start(
            orig.take(i as int),
        ).skip(j as int));
        i = i + 1;
    }
    assert(orig.take(n as int) =~= orig);
    *lane = out;
}

/// Adds a drawn note to its lane: the note goes after the lane's notes and the lane is
/// ordered by start tick again.
pub fn add_note(lane: &mut Vec<Interval>, note: Interval)
    ensures
        final(lane)@ == sort_by_start(old(lane)@.push(note)),
{
    lane.push(note);
    sort_lane(lane);
}

impl ChartEvent for u32 {
    open spec fn tick_spec(&self) -> u32 {
        *self
    }

    fn tick(&self) -> (t: u32) {
        *self
    }
}

/// A time signature: beats per measure and the note value of a beat.
#[derive(Debug, Clone, Copy, PartialEq, Eq, Structural)]
pub struct TimeSignature(pub u32, pub u32);

/// A change of time signature at the start of a measure.
#[derive(Debug, Clone, Copy, PartialEq, Eq, Structural)]
pub struct TimeSigChange {
    pub measure: u32,
    pub sig: TimeSignature,
}

impl ChartEvent for TimeSigChange {
    open spec fn tick_spec(&self) -> u32 {
        self.measure
    }

    fn tick(&self) -> (t: u32) {
        self.measure
    }
}

/// The first entry placed at `key`.
pub open spec fn first_at<T: ChartEvent>(s: Seq<T>, key: u32) -> Option<int>
    decreases s.len(),
{
    if s.len() == 0 {
        None
    } else {
        match first_at(s.drop_last(), key) {
            Some(i) => Some(i),
            None => if s.last().tick_spec() == key {
                Some(s.len() - 1)
            } else {
                None
            },
        }
    }
}

proof fn lemma_first_at_found<T: ChartEvent>(s: Seq<T>, i: int, key: u32)
    requires
        0 <= i < s.len(),
        s[i].tick_spec() == key,
        forall|k: int| 0 <= k < i ==> #[trigger] s[k].tick_spec() != key,
    ensures
        first_at(s, key) == Some(i),
    decreases s.len(),
{
    if i < s.len() - 1 {
        assert(s.drop_last()[i] == s[i]);
        assert forall|k: int| 0 <= k < i implies #[trigger] s.drop_last()[k].tick_spec() != key by {
            assert(s.drop_last()[k] == s[k]);
        }
        lemma_first_at_found(s.drop_last(), i, key);
    } else {
        lemma_first_at_absent(s.drop_last(), key);
    }
}

pub proof fn lemma_first_at_absent<T: ChartEvent>(s: Seq<T>, key: u32)
    requires
        forall|k: int| 0 <= k < s.len() ==> #[trigger] s[k].tick_spec() != key,
    ensures
        first_at(s, key) is None,
    decreases s.len(),
{
    if s.len() > 0 {
        assert forall|k: int| 0 <= k < s.drop_last().len() implies #[trigger] s.drop_last()[
            k].tick_spec() != key by {
            assert(s.drop_last()[k] == s[k]);
        }
        lemma_first_at_absent(s.drop_last(), key);
    }
}

/// The first change placed at `key`, if there is one.
pub fn find_change<T: ChartEvent>(changes: &Vec<T>, key: u32) -> (r: Option<usize>)
    ensures
        r matches Some(i) ==> first_at(changes@, key) == Some(i as int),
        r is None ==> first_at(changes@, key) is None,
{
    let mut i: usize = 0;
    while i < changes.len()
        invariant
            i <= changes@.len(),
            forall|k: int| 0 <= k < i ==> #[trigger] changes@[k].tick_spec() != key,
        decreases changes@.len() - i,
    {
        if changes[i].tick() == key {
            proof {
                lemma_first_at_found(changes@, i as int, key);
            }
            return Some(i);
        }
        i = i + 1;
    }
    proof {
        lemma_first_at_absent(changes@, key);
    }
    None
}

/// What a change tool is doing: nothing, adding a change at a tick (or measure), or
/// editing the change at an index.
#[derive(Debug, Clone, Copy, PartialEq, Eq, Structural)]
pub enum CursorToolState {
    Idle,
    Add(u32),
    Edit(usize),
}

/// The state a change tool goes to on a click at `key`: editing the first change placed
/// there, or adding one there. A tool that is busy stays as it is.
pub open spec fn clicked_state(state: CursorToolState, keys: Seq<u32>, key: u32) -> CursorToolState {
    if state is Idle {
        match first_at(keys, key) {
            Some(i) => CursorToolState::Edit(i as usize),
            None => CursorToolState::Add(key),
        }
    } else {
        state
    }
}

/// The tempo tool of the chart editor; the tempo being typed is kept by the interface.
#[derive(Debug, Clone, Copy, PartialEq, Eq, Structural)]
pub struct BpmTool {
    pub state: CursorToolState,
    pub cursor_tick: u32,
}

impl BpmTool {
    pub fn new() -> (t: Self)
        ensures
            t == (BpmTool { state: CursorToolState::Idle, cursor_tick: 0 }),
    {
        BpmTool { state: CursorToolState::Idle, cursor_tick: 0 }
    }

    /// A click at `tick`, with the ticks of the chart's tempo changes: starts editing the
    /// change at that tick, or adding one there.
    pub fn primary_click(&mut self, tick: u32, change_ticks: &Vec<u32>)
        ensures
            final(self).state == clicked_state(old(self).state, change_ticks@, tick),
            final(self).cursor_tick == old(self).cursor_tick,
    {
        if let CursorToolState::Idle = self.state {
            self.state = match find_change(change_ticks, tick) {
                Some(i) => CursorToolState::Edit(i),
                None => CursorToolState::Add(tick),
            };
        }
    }

    /// The tempo change a middle click at `tick` removes: the one at that tick.
    pub fn middle_click(&self, tick: u32, change_ticks: &Vec<u32>) -> (r: Option<usize>)
        ensures
            r matches Some(i) ==> first_at(change_ticks@, tick) == Some(i as int),
            r is None ==> first_at(change_ticks@, tick) is None,
    {
        find_change(change_ticks, tick)
    }

    /// The cursor moves to `tick`; the cursor line follows it while the tool is idle.
    pub fn update(&mut self, tick: u32)
        ensures
            final(self).state == old(self).state,
            final(self).cursor_tick == if old(self).state is Idle {
                tick
            } else {
                old(self).cursor_tick
            },
    {
        if let CursorToolState::Idle = self.state {
            self.cursor_tick = tick;
        }
    }

    /// The dialog is confirmed or cancelled: returns what the tool was doing and goes
    /// back to idle.
    pub fn finish(&mut self) -> (was: CursorToolState)
        ensures
            was == old(self).state,
            final(self).state is Idle,
            final(self).cursor_tick == old(self).cursor_tick,
    {
        let was = self.state;
        self.state = CursorToolState::Idle;
        was
    }
}

/// An edit of a chart's time signature changes.
#[derive(Debug, Clone, Copy, PartialEq, Eq, Structural)]
pub enum TimeSigEdit {
    Add { measure: u32, sig: TimeSignature },
    Edit { index: usize, sig: TimeSignature },
    Remove { index: usize },
}

/// Why an edit of the time signature changes failed.
#[derive(Debug, Clone, Copy, PartialEq, Eq, Structural)]
pub enum TimeSigEditError {
    /// The change to edit does not exist (any more).
    MissingChange,
}

impl TimeSigEdit {
    /// Applies the edit: an added change goes behind the changes at or before its
    /// measure and the list is ordered by measure again; an edit replaces the signature
    /// of an existing change; a removal takes the change out.
    pub fn apply(&self, changes: &mut Vec<TimeSigChange>) -> (r: Result<(), TimeSigEditError>)
        requires
            self matches TimeSigEdit::Remove { index } ==> index < old(changes)@.len(),
        ensures
            match *self {
                TimeSigEdit::Add { measure, sig } => r is Ok && final(changes)@ == sort_by_start(
                    old(changes)@.push(TimeSigChange { measure, sig }),
                ),
                TimeSigEdit::Edit { index, sig } => if index < old(changes)@.len() {
                    r is Ok && final(changes)@ == old(changes)@.update(
                        index as int,
                        TimeSigChange { measure: old(changes)@[index as int].measure, sig },
                    )
                } else {
                    r == Err::<(), TimeSigEditError>(TimeSigEditError::MissingChange)
                        && final(changes)@ == old(changes)@
                },
                TimeSigEdit::Remove { index } => r is Ok && final(changes)@ == old(
                    changes,
                )@.remove(index as int),
            },
    {
        match *self {
            TimeSigEdit::Add { measure, sig } => {
                changes.push(TimeSigChange { measure, sig });
                sort_lane(changes);
                Ok(())
            },
            TimeSigEdit::Edit { index, sig } => {
                if index < changes.len() {
                    let measure = changes[index].measure;
                    changes.set(index, TimeSigChange { measure, sig });
                    Ok(())
                } else {
                    Err(TimeSigEditError::MissingChange)
                }
            },
            TimeSigEdit::Remove { index } => {
                changes.remove(index);
                Ok(())
            },
        }
    }
}

/// The time signature tool of the chart editor.
#[derive(Debug, Clone, Copy, PartialEq, Eq, Structural)]
pub struct TimeSigTool {
    pub ts: TimeSignature,
    pub state: CursorToolState,
    pub cursor_tick: u32,
}

impl TimeSigTool {
    pub fn new() -> (t: Self)
        ensures
            t == (TimeSigTool {
                ts: TimeSignature(4, 4),
                state: CursorToolState::Idle,
                cursor_tick: 0,
            }),
    {
        TimeSigTool { ts: TimeSignature(4, 4), state: CursorToolState::Idle, cursor_tick: 0 }
    }

    /// A click in measure `measure`: starts editing the change of that measure, showing
    /// its signature, or adding one there, starting from 4/4.
    pub fn primary_click(&mut self, measure: u32, changes: &Vec<TimeSigChange>)
        ensures
            old(self).state is Idle ==> match first_at(changes@, measure) {
                Some(i) => final(self).state == CursorToolState::Edit(i as usize)
                    && final(self).ts == changes@[i].sig,
                None => final(self).state == CursorToolState::Add(measure) && final(self).ts
                    == TimeSignature(4, 4),
            },
            !(old(self).state is Idle) ==> *final(self) == *old(self),
            final(self).cursor_tick == old(self).cursor_tick,
    {
        if let CursorToolState::Idle = self.state {
            match find_change(changes, measure) {
                Some(i) => {
                    proof {
                        lemma_first_at_in_range(changes@, measure);
                    }
                    self.state = CursorToolState::Edit(i);
                    self.ts = changes[i].sig;
                },
                None => {
                    self.state = CursorToolState::Add(measure);
                    self.ts = TimeSignature(4, 4);
                },
            }
        }
    }

    /// The change a middle click in measure `measure` removes: the one of that measure.
    pub fn middle_click(&self, measure: u32, changes: &Vec<TimeSigChange>) -> (r: Option<
        TimeSigEdit,
    >)
        ensures
            r matches Some(e) ==> exists|i: int|
                first_at(changes@, measure) == Some(i) && e == (TimeSigEdit::Remove {
                    index: i as usize,
                }),
            r is None ==> first_at(changes@, measure) is None,
    {
        match find_change(changes, measure) {
            Some(i) => Some(TimeSigEdit::Remove { index: i }),
            None => None,
        }
    }

    /// The cursor moves to `tick`; the cursor line follows it while the tool is idle.
    pub fn update(&mut self, tick: u32)
        ensures
            final(self).state == old(self).state,
            final(self).ts == old(self).ts,
            final(self).cursor_tick == if old(self).state is Idle {
                tick
            } else {
                old(self).cursor_tick
            },
    {
        if let CursorToolState::Idle = self.state {
            self.cursor_tick = tick;
        }
    }

    /// The dialog is confirmed with signature `ts`: the edit to record, if the tool was
    /// adding or editing; the tool goes back to idle.
    pub fn confirm(&mut self, ts: TimeSignature) -> (e: Option<TimeSigEdit>)
        ensures
            e == match old(self).state {
                CursorToolState::Idle => None,
                CursorToolState::Add(measure) => Some(TimeSigEdit::Add { measure, sig: ts }),
                CursorToolState::Edit(index) => Some(TimeSigEdit::Edit { index, sig: ts }),
            },
            final(self).state is Idle,
            final(self).ts == ts,
    {
        self.ts = ts;
        let e = match self.state {
            CursorToolState::Idle => None,
            CursorToolState::Add(measure) => Some(TimeSigEdit::Add { measure, sig: ts }),
            CursorToolState::Edit(index) => Some(TimeSigEdit::Edit { index, sig: ts }),
        };
        self.state = CursorToolState::Idle;
        e
    }

    /// The dialog is cancelled: the tool goes back to idle.
    pub fn cancel(&mut self)
        ensures
            final(self).state is Idle,
            final(self).ts == old(self).ts,
            final(self).cursor_tick == old(self).cursor_tick,
    {
        self.state = CursorToolState::Idle;
    }
}

pub proof fn lemma_first_at_in_range<T: ChartEvent>(s: Seq<T>, key: u32)
    ensures
        first_at(s, key) matches Some(i) ==> 0 <= i < s.len() && s[i].tick_spec() == key,
    decreases s.len(),
{
    if s.len() > 0 {
        lemma_first_at_in_range(s.drop_last(), key);
        if first_at(s.drop_last(), key) is Some {
            let i = first_at(s.drop_last(), key)->0;
            assert(s.drop_last()[i] == s[i]);
        }
    }
}

/// Confirming an edit of an existing change and applying it changes only that change's
/// signature; its measure and the other changes stay.
pub proof fn law_edit_keeps_measures(s: Seq<TimeSigChange>, index: int, sig: TimeSignature)
    requires
        0 <= index < s.len(),
    ensures
        ({
            let t = s.update(index, TimeSigChange { measure: s[index].measure, sig });
            &&& t.len() == s.len()
            &&& forall|k: int| 0 <= k < s.len() ==> #[trigger] t[k].measure == s[k].measure
            &&& t[index].sig == sig
            &&& forall|k: int| 0 <= k < s.len() && k != index ==> #[trigger] t[k] == s[k]
        }),
{
}

} // verus!
