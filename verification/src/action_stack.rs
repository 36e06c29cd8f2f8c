use vstd::prelude::*;
use vstd::pervasive::strictly_cloned;

verus! {

#[verifier::external_type_specification]
#[verifier::external_body]
pub struct ExAnyhowError(anyhow::Error);

/// One recorded edit: the identifier the stack gave it, a description for the
/// user interface, and the edit itself.
pub struct Action<F> {
    id: u32,
    pub description: String,
    pub action: F,
}

impl<F> Action<F> {
    /// The identifier the stack gave this action when it was recorded.
    pub closed spec fn id(&self) -> u32 {
        self.id
    }

    /// The edit this action performs.
    pub closed spec fn edit(&self) -> F {
        self.action
    }

    /// The description shown for this action.
    pub closed spec fn text(&self) -> Seq<char> {
        self.description@
    }
}

/// `f` can be applied to every value without violating its precondition.
pub open spec fn callable<T, F: Fn(&mut T) -> Result<(), anyhow::Error>>(f: F) -> bool {
    forall|a: &mut T| #[trigger] f.requires((a,))
}

/// Cloning a value of `T` gives back an equal value.
pub open spec fn clone_exact<T: Clone>() -> bool {
    forall|x: T, y: T| #[trigger] strictly_cloned(x, y) ==> y == x
}

/// Cloning equal values of `T` gives equal values.
pub open spec fn clone_deterministic<T: Clone>() -> bool {
    forall|x: T, y1: T, y2: T|
        #[trigger] strictly_cloned(x, y1) && #[trigger] strictly_cloned(x, y2) ==> y1 == y2
}

/// The abstract state of an [`ActionStack`]: the document before any recorded edit,
/// the edits that are applied (oldest first), the edits that were undone (the most
/// recently undone last), the identifier of the edit that was current when the
/// document was saved, and the identifier the next edit will get.
pub struct ActionStackModel<T, F> {
    pub original: T,
    pub undo: Seq<Action<F>>,
    pub redo: Seq<Action<F>>,
    pub saved: Option<u32>,
    pub next_id: u32,
}

impl<T, F> ActionStackModel<T, F> {
    /// Every recorded edit has an identifier below `next_id`, no two recorded edits
    /// share an identifier, and a saved identifier is below `next_id` too.
    pub closed spec fn wf(self) -> bool {
        let all = self.undo + self.redo;
        &&& forall|i: int| 0 <= i < all.len() ==> (#[trigger] all[i]).id() < self.next_id
        &&& forall|i: int, j: int|
            0 <= i < j < all.len() ==> (#[trigger] all[i]).id() != (#[trigger] all[j]).id()
        &&& (self.saved matches Some(s) ==> s < self.next_id)
    }

    /// All applied edits can be called on any value.
    pub open spec fn replayable(self) -> bool
        where F: Fn(&mut T) -> Result<(), anyhow::Error>
    {
        forall|i: int| 0 <= i < self.undo.len() ==> callable(#[trigger] self.undo[i].edit())
    }

    /// The state after recording a new edit.
    pub closed spec fn recorded(self, description: String, action: F) -> Self {
        ActionStackModel {
            original: self.original,
            undo: self.undo.push(Action { id: self.next_id, description, action }),
            redo: Seq::empty(),
            saved: self.saved,
            next_id: (self.next_id + 1) as u32,
        }
    }

    /// The state after undoing the most recent edit (unchanged when there is none).
    pub open spec fn undone(self) -> Self {
        if self.undo.len() == 0 {
            self
        } else {
            ActionStackModel {
                original: self.original,
                undo: self.undo.drop_last(),
                redo: self.redo.push(self.undo.last()),
                saved: self.saved,
                next_id: self.next_id,
            }
        }
    }

    /// The state after redoing the most recently undone edit (unchanged when there is none).
    pub open spec fn redone(self) -> Self {
        if self.redo.len() == 0 {
            self
        } else {
            ActionStackModel {
                original: self.original,
                undo: self.undo.push(self.redo.last()),
                redo: self.redo.drop_last(),
                saved: self.saved,
                next_id: self.next_id,
            }
        }
    }

    /// The state after starting over from `origin` with no history.
    pub open spec fn reset_to(self, origin: T) -> Self {
        ActionStackModel {
            original: origin,
            undo: Seq::empty(),
            redo: Seq::empty(),
            saved: None,
            next_id: self.next_id,
        }
    }

    /// The state after marking the current edit as saved.
    pub open spec fn marked_saved(self) -> Self {
        ActionStackModel {
            original: self.original,
            undo: self.undo,
            redo: self.redo,
            saved: if self.undo.len() == 0 {
                None
            } else {
                Some(self.undo.last().id())
            },
            next_id: self.next_id,
        }
    }

    /// Whether the document is reported as saved.
    pub open spec fn is_saved(self) -> bool {
        if self.undo.len() == 0 {
            true
        } else {
            match self.saved {
                Some(s) => self.undo.last().id() == s,
                None => false,
            }
        }
    }
}

/// Moving recorded edits between the two histories, as described by the injective
/// index map `f`, keeps the model well formed.
proof fn lemma_wf_moved<T, F>(m1: ActionStackModel<T, F>, m2: ActionStackModel<T, F>, f: spec_fn(int) -> int)
    requires
        m1.wf(),
        m2.next_id == m1.next_id,
        m2.saved == m1.saved,
        (m2.undo + m2.redo).len() == (m1.undo + m1.redo).len(),
        forall|k: int| 0 <= k < (m2.undo + m2.redo).len() ==> 0 <= #[trigger] f(k) < (m1.undo + m1.redo).len(),
        forall|k: int, l: int| 0 <= k < l < (m2.undo + m2.redo).len() ==> #[trigger] f(k) != #[trigger] f(l),
        forall|k: int| 0 <= k < (m2.undo + m2.redo).len() ==> (#[trigger] (m2.undo + m2.redo)[k]) == (m1.undo + m1.redo)[f(k)],
    ensures
        m2.wf(),
{
    let all = m2.undo + m2.redo;
    let pall = m1.undo + m1.redo;
    assert forall|i: int| 0 <= i < all.len() implies (#[trigger] all[i]).id() < m2.next_id by {
        assert(all[i] == pall[f(i)]);
    }
    assert forall|i: int, j: int| 0 <= i < j < all.len() implies (#[trigger] all[i]).id()
        != (#[trigger] all[j]).id() by {
        assert(all[i] == pall[f(i)]);
        assert(all[j] == pall[f(j)]);
        assert(f(i) != f(j));
        if f(i) < f(j) {
            assert(pall[f(i)].id() != pall[f(j)].id());
        } else {
            assert(pall[f(j)].id() != pall[f(i)].id());
        }
    }
}

/// What recording an edit does to the model: the original document and the saved mark
/// stay, nothing is left to redo, the edit goes on top of the applied edits with the next
/// identifier, and the identifier counter moves up by one.
pub proof fn lemma_recorded<T, F>(m: ActionStackModel<T, F>, description: String, action: F)
    requires
        m.next_id < u32::MAX,
    ensures
        m.recorded(description, action).original == m.original,
        m.recorded(description, action).saved == m.saved,
        m.recorded(description, action).redo.len() == 0,
        m.recorded(description, action).undo.len() == m.undo.len() + 1,
        m.recorded(description, action).undo.drop_last() == m.undo,
        m.recorded(description, action).undo.last().id() == m.next_id,
        m.recorded(description, action).undo.last().text() == description@,
        m.recorded(description, action).undo.last().edit() == action,
        m.recorded(description, action).next_id == m.next_id + 1,
{
    assert(m.recorded(description, action).undo.drop_last() =~= m.undo);
}

/// An undo/redo history of edits on a document of type `T`.
pub struct ActionStack<T, F> {
    original: T,
    undo_stack: Vec<Action<F>>,
    redo_stack: Vec<Action<F>>,
    saved: Option<u32>,
    next_id: u32,
}

impl<T, F> View for ActionStack<T, F> {
    type V = ActionStackModel<T, F>;

    closed spec fn view(&self) -> ActionStackModel<T, F> {
        ActionStackModel {
            original: self.original,
            undo: self.undo_stack@,
            redo: self.redo_stack@,
            saved: self.saved,
            next_id: self.next_id,
        }
    }
}

impl<T: Clone, F: Fn(&mut T) -> Result<(), anyhow::Error>> ActionStack<T, F> {
    /// A history with no edits over `original`.
    pub fn new(original: T) -> (s: Self)
        ensures
            s@ == (ActionStackModel::<T, F> {
                original,
                undo: Seq::empty(),
                redo: Seq::empty(),
                saved: None,
                next_id: 0,
            }),
            s@.wf(),
    {
        let s = ActionStack {
            original,
            undo_stack: Vec::new(),
            redo_stack: Vec::new(),
            saved: None,
            next_id: 0,
        };
        proof {
            assert(s@.undo + s@.redo =~= Seq::<Action<F>>::empty());
        }
        s
    }

    /// Records a new edit after the current one and forgets every undone edit.
    /// The new edit gets the next identifier.
    pub fn new_action(&mut self, description: String, action: F)
        requires
            old(self)@.wf(),
            old(self)@.next_id < u32::MAX,
        ensures
            final(self)@ == old(self)@.recorded(description, action),
            final(self)@.original == old(self)@.original,
            final(self)@.saved == old(self)@.saved,
            final(self)@.redo.len() == 0,
            final(self)@.undo.len() == old(self)@.undo.len() + 1,
            final(self)@.undo.drop_last() == old(self)@.undo,
            final(self)@.next_id == old(self)@.next_id + 1,
            forall|i: int|
                0 <= i < (old(self)@.undo + old(self)@.redo).len() ==> (#[trigger] (old(self)@.undo
                    + old(self)@.redo)[i]).id() != old(self)@.next_id,
            final(self)@.undo.last().id() == old(self)@.next_id,
            final(self)@.undo.last().text() == description@,
            final(self)@.undo.last().edit() == action,
            final(self)@.wf(),
    {
        let ghost pre = self@;
        self.undo_stack.push(Action { description, action, id: self.next_id });
        self.next_id = self.next_id + 1;
        self.redo_stack.clear();
        proof {
            let all = self@.undo + self@.redo;
            assert(all =~= self@.undo);
            assert forall|i: int| 0 <= i < all.len() implies (#[trigger] all[i]).id()
                < self@.next_id by {
                if i < pre.undo.len() {
                    assert(all[i] == (pre.undo + pre.redo)[i]);
                }
            }
            assert forall|i: int, j: int| 0 <= i < j < all.len() implies (#[trigger] all[i]).id()
                != (#[trigger] all[j]).id() by {
                assert(all[i] == (pre.undo + pre.redo)[i]);
                if j < pre.undo.len() {
                    assert(all[j] == (pre.undo + pre.redo)[j]);
                }
            }
            assert(self@.undo =~= pre.recorded(description, action).undo);
            lemma_recorded(pre, description, action);
        }
    }

    /// Moves the most recent edit to the redo history, if there is one.
    pub fn undo(&mut self)
        requires
            old(self)@.wf(),
        ensures
            final(self)@ == old(self)@.undone(),
            final(self)@.wf(),
    {
        let ghost pre = self@;
        if let Some(action) = self.undo_stack.pop() {
            self.redo_stack.push(action);
            proof {
                let all = self@.undo + self@.redo;
                let pall = pre.undo + pre.redo;
                let u = pre.undo.len() - 1;
                let last = pall.len() - 1;
                let f = |k: int| if k < u { k } else if k == last { u } else { k + 1 };
                assert forall|k: int| 0 <= k < all.len() implies #[trigger] all[k] == pall[f(k)] by {}
                lemma_wf_moved(pre, self@, f);
            }
        }
    }

    /// Moves the most recently undone edit back to the applied edits, if there is one.
    pub fn redo(&mut self)
        requires
            old(self)@.wf(),
        ensures
            final(self)@ == old(self)@.redone(),
            final(self)@.wf(),
    {
        let ghost pre = self@;
        if let Some(action) = self.redo_stack.pop() {
            self.undo_stack.push(action);
            proof {
                let all = self@.undo + self@.redo;
                let pall = pre.undo + pre.redo;
                let u = pre.undo.len() as int;
                let last = pall.len() - 1;
                let f = |k: int| if k < u { k } else if k == u { last } else { k - 1 };
                assert forall|k: int| 0 <= k < all.len() implies #[trigger] all[k] == pall[f(k)] by {}
                lemma_wf_moved(pre, self@, f);
            }
        }
    }

    /// Starts over from `origin`, forgetting the whole history and the saved mark.
    pub fn reset(&mut self, origin: T)
        requires
            old(self)@.wf(),
        ensures
            final(self)@ == old(self)@.reset_to(origin),
            final(self)@.wf(),
    {
        self.original = origin;
        self.redo_stack.clear();
        self.undo_stack.clear();
        self.saved = None;
        proof {
            assert(self@.undo + self@.redo =~= Seq::<Action<F>>::empty());
        }
    }

    /// Folds every applied edit into the original document and clears the history.
    /// When an edit fails, nothing changes.
    pub fn apply(&mut self)
        requires
            old(self)@.wf(),
            old(self)@.replayable(),
        ensures
            final(self)@.wf(),
            ({
            ||| exists|states: Seq<T>|
                #![trigger states.len()]
                states.len() == old(self)@.undo.len() + 1 && strictly_cloned(
                    old(self)@.original,
                    states[0],
                ) && final(self)@ == old(self)@.reset_to(states.last()) && forall|i: int|
                    0 <= i < old(self)@.undo.len() ==> exists|a: &mut T|
                        *a == #[trigger] states[i] && *final(a) == states[i + 1]
                            && old(self)@.undo[i].edit().ensures((a,), Ok(()))
            ||| final(self)@ == old(self)@ && exists|states: Seq<T>|
                #![trigger states.len()]
                states.len() < old(self)@.undo.len() + 1 && states.len() >= 1 && strictly_cloned(
                    old(self)@.original,
                    states[0],
                ) && (forall|i: int|
                    0 <= i < states.len() - 1 ==> exists|a: &mut T|
                        *a == #[trigger] states[i] && *final(a) == states[i + 1]
                            && old(self)@.undo[i].edit().ensures((a,), Ok(())))
                    && exists|a: &mut T, e: anyhow::Error|
                    *a == states.last() && old(self)@.undo[states.len()
                        - 1].edit().ensures((a,), Err(e))
            }),
    {
        let r = self.get_current();
        if let Ok(current) = r {
            self.reset(current);
        }
    }

    /// The description of the edit that `redo` would bring back.
    pub fn next_action_desc(&self) -> (d: Option<String>)
        ensures
            d matches Some(s) ==> self@.redo.len() > 0 && s@ == self@.redo.last().text(),
            d is None ==> self@.redo.len() == 0,
    {
        match self.redo_stack.last() {
            Some(next) => Some(next.description.clone()),
            None => None,
        }
    }

    /// The description of the edit that `undo` would take back.
    pub fn prev_action_desc(&self) -> (d: Option<String>)
        ensures
            d matches Some(s) ==> self@.undo.len() > 0 && s@ == self@.undo.last().text(),
            d is None ==> self@.undo.len() == 0,
    {
        match self.undo_stack.last() {
            Some(next) => Some(next.description.clone()),
            None => None,
        }
    }

    /// Replays every applied edit, oldest first, on a clone of the original document.
    /// Stops at the first edit that fails and returns its error.
    pub fn get_current(&mut self) -> (r: Result<T, anyhow::Error>)
        requires
            old(self)@.replayable(),
        ensures
            final(self)@ == old(self)@,
            r matches Ok(c) ==> exists|states: Seq<T>|
                #![trigger states.len()]
                states.len() == old(self)@.undo.len() + 1 && strictly_cloned(
                    old(self)@.original,
                    states[0],
                ) && states.last() == c && forall|i: int|
                    0 <= i < old(self)@.undo.len() ==> exists|a: &mut T|
                        *a == #[trigger] states[i] && *final(a) == states[i + 1]
                            && old(self)@.undo[i].edit().ensures((a,), Ok(())),
            r matches Err(e) ==> exists|states: Seq<T>|
                #![trigger states.len()]
                states.len() < old(self)@.undo.len() + 1 && states.len() >= 1 && strictly_cloned(
                    old(self)@.original,
                    states[0],
                ) && (forall|i: int|
                    0 <= i < states.len() - 1 ==> exists|a: &mut T|
                        *a == #[trigger] states[i] && *final(a) == states[i + 1]
                            && old(self)@.undo[i].edit().ensures((a,), Ok(())))
                    && exists|a: &mut T|
                    *a == states.last() && old(self)@.undo[states.len()
                        - 1].edit().ensures((a,), Err(e)),
    {
        let mut current = self.original.clone();
        let ghost states: Seq<T> = seq![current];
        let mut i: usize = 0;
        while i < self.undo_stack.len()
            invariant
                self@.replayable(),
                0 <= i <= self.undo_stack.len(),
                states.len() == i + 1,
                strictly_cloned(self@.original, states[0]),
                states.last() == current,
                forall|j: int|
                    0 <= j < i ==> exists|a: &mut T|
                        *a == #[trigger] states[j] && *final(a) == states[j + 1]
                            && self@.undo[j].edit().ensures((a,), Ok(())),
            decreases self.undo_stack.len() - i,
        {
            let ghost before = current;
            let ghost f = self@.undo[i as int].edit();
            assert(f == self.undo_stack@[i as int].action);
            assert(callable(f));
            let r = (self.undo_stack[i].action)(&mut current);
            assert(exists|a: &mut T| *a == before && *final(a) == current && f.ensures((a,), r));
            if let Err(e) = r {
                proof {
                    let after = current;
                    assert(exists|a: &mut T|
                        *a == states.last() && *final(a) == after && self@.undo[states.len()
                            - 1].edit().ensures((a,), Err(e)));
                }
                return Err(e);
            }
            assert(r->Ok_0 == ());
            proof {
                let old_states = states;
                states = states.push(current);
                assert forall|j: int| 0 <= j < i + 1 implies exists|a: &mut T|
                    *a == #[trigger] states[j] && *final(a) == states[j + 1]
                        && self@.undo[j].edit().ensures((a,), Ok(())) by {
                    if j < i {
                        assert(old_states[j] == states[j]);
                        assert(old_states[j + 1] == states[j + 1]);
                    } else {
                        assert(states[j] == before);
                        assert(states[j + 1] == current);
                    }
                }
            }
            i = i + 1;
        }
        Ok(current)
    }

    /// Marks the current edit (or the original document, when no edit is applied)
    /// as the saved one.
    pub fn save(&mut self)
        requires
            old(self)@.wf(),
        ensures
            final(self)@ == old(self)@.marked_saved(),
            final(self)@.wf(),
    {
        match self.undo_stack.last() {
            Some(a) => self.saved = Some(a.id),
            None => self.saved = None,
        }
        proof {
            let all = self@.undo + self@.redo;
            if self@.undo.len() > 0 {
                assert(all[self@.undo.len() - 1] == self@.undo.last());
            }
        }
    }

    /// Whether the document is in the state it was in when it was last saved.
    pub fn saved(&self) -> (b: bool)
        ensures
            b == self@.is_saved(),
    {
        match (self.undo_stack.last(), self.saved) {
            (Some(a), Some(saved)) => a.id == saved,
            (Some(_), None) => false,
            _ => true,
        }
    }
}


/// Undoing an edit and then redoing it gives back the same history.
pub proof fn law_undo_then_redo<T, F>(m: ActionStackModel<T, F>)
    requires
        m.undo.len() > 0,
    ensures
        m.undone().redone() == m,
{
    assert(m.undone().redone().undo =~= m.undo);
    assert(m.undone().redone().redo =~= m.redo);
}

/// Redoing an undone edit and then undoing it again gives back the same history.
pub proof fn law_redo_then_undo<T, F>(m: ActionStackModel<T, F>)
    requires
        m.redo.len() > 0,
    ensures
        m.redone().undone() == m,
{
    assert(m.redone().undone().undo =~= m.undo);
    assert(m.redone().undone().redo =~= m.redo);
}

/// Recording a new edit leaves nothing to redo, and undoing it brings back the history
/// before it, except that the undone edits are replaced by the new one.
pub proof fn law_new_action_clears_redo<T, F>(m: ActionStackModel<T, F>, description: String, action: F)
    ensures
        m.recorded(description, action).redone() == m.recorded(description, action),
        m.recorded(description, action).undone().undo == m.undo,
        m.recorded(description, action).undone().redo.len() == 1,
{
    assert(m.recorded(description, action).undone().undo =~= m.undo);
}

/// Right after saving, the document is reported as saved.
pub proof fn law_saved_after_save<T, F>(m: ActionStackModel<T, F>)
    ensures
        m.marked_saved().is_saved(),
{
}

/// Recording an edit after saving makes the document unsaved.
pub proof fn law_new_action_unsaves<T, F>(m: ActionStackModel<T, F>, description: String, action: F)
    requires
        m.wf(),
    ensures
        !m.marked_saved().recorded(description, action).is_saved(),
        !m.recorded(description, action).is_saved(),
{
    if m.undo.len() > 0 {
        let all = m.undo + m.redo;
        assert(all[m.undo.len() - 1] == m.undo.last());
    }
}

/// Undoing an edit after saving makes the document unsaved, as long as an earlier
/// edit remains applied.
pub proof fn law_undo_after_save_unsaves<T, F>(m: ActionStackModel<T, F>)
    requires
        m.wf(),
        m.undo.len() >= 2,
    ensures
        !m.marked_saved().undone().is_saved(),
{
    let all = m.undo + m.redo;
    let n = m.undo.len() as int;
    assert(all[n - 1] == m.undo[n - 1]);
    assert(all[n - 2] == m.undo[n - 2]);
    assert(m.undo.drop_last().last() == m.undo[n - 2]);
}

/// Saving, recording an edit and undoing it again gets back to the saved state.
pub proof fn law_save_edit_undo_is_saved<T, F>(m: ActionStackModel<T, F>, description: String, action: F)
    requires
        m.next_id < u32::MAX,
    ensures
        m.marked_saved().recorded(description, action).undone().is_saved(),
        m.marked_saved().recorded(description, action).undone().undo == m.undo,
{
    lemma_recorded(m.marked_saved(), description, action);
}

/// An edit recorded in a well-formed history gets an identifier that no edit in the
/// history has, so the history stays well formed.
pub proof fn law_new_id_is_fresh<T, F>(m: ActionStackModel<T, F>, description: String, action: F)
    requires
        m.wf(),
        m.next_id < u32::MAX,
    ensures
        forall|i: int| 0 <= i < (m.undo + m.redo).len() ==> (#[trigger] (m.undo + m.redo)[i]).id() != m.next_id,
        m.recorded(description, action).wf(),
{
    lemma_recorded(m, description, action);
    let r = m.recorded(description, action);
    let all = r.undo + r.redo;
    let pall = m.undo + m.redo;
    assert(all =~= r.undo);
    assert forall|i: int| 0 <= i < all.len() implies (#[trigger] all[i]).id() < r.next_id by {
        if i < m.undo.len() {
            assert(all[i] == r.undo.drop_last()[i]);
            assert(pall[i] == m.undo[i]);
        }
    }
    assert forall|i: int, j: int| 0 <= i < j < all.len() implies (#[trigger] all[i]).id()
        != (#[trigger] all[j]).id() by {
        assert(all[i] == r.undo.drop_last()[i]);
        assert(pall[i] == m.undo[i]);
        if j < m.undo.len() {
            assert(all[j] == r.undo.drop_last()[j]);
            assert(pall[j] == m.undo[j]);
        }
    }
}

/// Undoing and redoing do not change whether the document is reported as saved.
pub proof fn law_undo_redo_keeps_saved_status<T, F>(m: ActionStackModel<T, F>)
    requires
        m.undo.len() > 0,
    ensures
        m.undone().redone().is_saved() == m.is_saved(),
{
    law_undo_then_redo(m);
}

/// Starting over leaves nothing to undo or redo and counts as saved.
pub proof fn law_reset_is_clean<T, F>(m: ActionStackModel<T, F>, origin: T)
    ensures
        m.reset_to(origin).undo.len() == 0,
        m.reset_to(origin).redo.len() == 0,
        m.reset_to(origin).is_saved(),
        m.reset_to(origin).undone() == m.reset_to(origin),
        m.reset_to(origin).redone() == m.reset_to(origin),
{
}

/// Two replays of the applied edits of `m` agree at every step both reach, when each
/// edit gives the same result on equal documents and cloning is deterministic.
proof fn lemma_replays_agree<T: Clone, F: Fn(&mut T) -> Result<(), anyhow::Error>>(
    m: ActionStackModel<T, F>,
    s1: Seq<T>,
    s2: Seq<T>,
    k: int,
)
    requires
        clone_deterministic::<T>(),
        forall|i: int, a1: &mut T, a2: &mut T, r1: Result<(), anyhow::Error>, r2: Result<(), anyhow::Error>|
            0 <= i < m.undo.len() && *a1 == *a2 && #[trigger] m.undo[i].edit().ensures((a1,), r1)
                && #[trigger] m.undo[i].edit().ensures((a2,), r2) ==> r1 == r2 && (r1 is Ok
                ==> *final(a1) == *final(a2)),
        1 <= s1.len() <= m.undo.len() + 1,
        1 <= s2.len() <= m.undo.len() + 1,
        strictly_cloned(m.original, s1[0]),
        strictly_cloned(m.original, s2[0]),
        forall|i: int|
            0 <= i < s1.len() - 1 ==> exists|a: &mut T|
                *a == #[trigger] s1[i] && *final(a) == s1[i + 1] && m.undo[i].edit().ensures((a,), Ok(())),
        forall|i: int|
            0 <= i < s2.len() - 1 ==> exists|a: &mut T|
                *a == #[trigger] s2[i] && *final(a) == s2[i + 1] && m.undo[i].edit().ensures((a,), Ok(())),
        0 <= k < s1.len(),
        k < s2.len(),
    ensures
        s1[k] == s2[k],
    decreases k,
{
    if k > 0 {
        lemma_replays_agree(m, s1, s2, k - 1);
        assert(s1[k - 1] == s2[k - 1]);
        let a1 = choose|a: &mut T|
            *a == s1[k - 1] && *final(a) == s1[k] && m.undo[k - 1].edit().ensures((a,), Ok(()));
        let a2 = choose|a: &mut T|
            *a == s2[k - 1] && *final(a) == s2[k] && m.undo[k - 1].edit().ensures((a,), Ok(()));
        assert(m.undo[k - 1].edit().ensures((a1,), Ok(())));
        assert(m.undo[k - 1].edit().ensures((a2,), Ok(())));
    }
}

/// When each applied edit gives the same result on equal documents and cloning is
/// deterministic, replaying the history has a single outcome: `get_current` cannot give
/// two different documents, nor a document on one call and an error on another.
pub proof fn law_replay_has_one_outcome<T: Clone, F: Fn(&mut T) -> Result<(), anyhow::Error>>(
    m: ActionStackModel<T, F>,
    c1: T,
    c2: T,
    e: anyhow::Error,
)
    requires
        clone_deterministic::<T>(),
        forall|i: int, a1: &mut T, a2: &mut T, r1: Result<(), anyhow::Error>, r2: Result<(), anyhow::Error>|
            0 <= i < m.undo.len() && *a1 == *a2 && #[trigger] m.undo[i].edit().ensures((a1,), r1)
                && #[trigger] m.undo[i].edit().ensures((a2,), r2) ==> r1 == r2 && (r1 is Ok
                ==> *final(a1) == *final(a2)),
    ensures
        (exists|states: Seq<T>|
            #![trigger states.len()]
            states.len() == m.undo.len() + 1 && strictly_cloned(m.original, states[0]) && states.last() == c1
                && forall|i: int|
                0 <= i < m.undo.len() ==> exists|a: &mut T|
                    *a == #[trigger] states[i] && *final(a) == states[i + 1]
                        && m.undo[i].edit().ensures((a,), Ok(()))) && (exists|states: Seq<T>|
            #![trigger states.len()]
            states.len() == m.undo.len() + 1 && strictly_cloned(m.original, states[0]) && states.last() == c2
                && forall|i: int|
                0 <= i < m.undo.len() ==> exists|a: &mut T|
                    *a == #[trigger] states[i] && *final(a) == states[i + 1]
                        && m.undo[i].edit().ensures((a,), Ok(()))) ==> c1 == c2,
        (exists|states: Seq<T>|
            #![trigger states.len()]
            states.len() == m.undo.len() + 1 && strictly_cloned(m.original, states[0]) && states.last() == c1
                && forall|i: int|
                0 <= i < m.undo.len() ==> exists|a: &mut T|
                    *a == #[trigger] states[i] && *final(a) == states[i + 1]
                        && m.undo[i].edit().ensures((a,), Ok(()))) ==> !(exists|states: Seq<T>|
            #![trigger states.len()]
            states.len() < m.undo.len() + 1 && states.len() >= 1 && strictly_cloned(m.original, states[0])
                && (forall|i: int|
                0 <= i < states.len() - 1 ==> exists|a: &mut T|
                    *a == #[trigger] states[i] && *final(a) == states[i + 1]
                        && m.undo[i].edit().ensures((a,), Ok(()))) && exists|a: &mut T|
                *a == states.last() && m.undo[states.len() - 1].edit().ensures((a,), Err(e))),
{
    if (exists|states: Seq<T>|
            #![trigger states.len()]
            states.len() == m.undo.len() + 1 && strictly_cloned(m.original, states[0]) && states.last() == c1
                && forall|i: int|
                0 <= i < m.undo.len() ==> exists|a: &mut T|
                    *a == #[trigger] states[i] && *final(a) == states[i + 1]
                        && m.undo[i].edit().ensures((a,), Ok(()))) {
        let s1 = choose|states: Seq<T>|
            #![trigger states.len()]
            states.len() == m.undo.len() + 1 && strictly_cloned(m.original, states[0]) && states.last() == c1
                && forall|i: int|
                0 <= i < m.undo.len() ==> exists|a: &mut T|
                    *a == #[trigger] states[i] && *final(a) == states[i + 1]
                        && m.undo[i].edit().ensures((a,), Ok(()));
        if (exists|states: Seq<T>|
            #![trigger states.len()]
            states.len() == m.undo.len() + 1 && strictly_cloned(m.original, states[0]) && states.last() == c2
                && forall|i: int|
                0 <= i < m.undo.len() ==> exists|a: &mut T|
                    *a == #[trigger] states[i] && *final(a) == states[i + 1]
                        && m.undo[i].edit().ensures((a,), Ok(()))) {
            let s2 = choose|states: Seq<T>|
                #![trigger states.len()]
                states.len() == m.undo.len() + 1 && strictly_cloned(m.original, states[0]) && states.last() == c2
                    && forall|i: int|
                    0 <= i < m.undo.len() ==> exists|a: &mut T|
                        *a == #[trigger] states[i] && *final(a) == states[i + 1]
                            && m.undo[i].edit().ensures((a,), Ok(()));
            lemma_replays_agree(m, s1, s2, m.undo.len() as int);
        }
        if (exists|states: Seq<T>|
            #![trigger states.len()]
            states.len() < m.undo.len() + 1 && states.len() >= 1 && strictly_cloned(m.original, states[0])
                && (forall|i: int|
                0 <= i < states.len() - 1 ==> exists|a: &mut T|
                    *a == #[trigger] states[i] && *final(a) == states[i + 1]
                        && m.undo[i].edit().ensures((a,), Ok(()))) && exists|a: &mut T|
                *a == states.last() && m.undo[states.len() - 1].edit().ensures((a,), Err(e))) {
            let s2 = choose|states: Seq<T>|
                #![trigger states.len()]
                states.len() < m.undo.len() + 1 && states.len() >= 1 && strictly_cloned(m.original, states[0])
                    && (forall|i: int|
                    0 <= i < states.len() - 1 ==> exists|a: &mut T|
                        *a == #[trigger] states[i] && *final(a) == states[i + 1]
                            && m.undo[i].edit().ensures((a,), Ok(()))) && exists|a: &mut T|
                    *a == states.last() && m.undo[states.len() - 1].edit().ensures((a,), Err(e));
            let k = s2.len() - 1;
            lemma_replays_agree(m, s1, s2, k);
            let a2 = choose|a: &mut T| *a == s2.last() && m.undo[k].edit().ensures((a,), Err(e));
            assert(s1[k] == s2[k]);
            let a1 = choose|a: &mut T|
                *a == s1[k] && *final(a) == s1[k + 1] && m.undo[k].edit().ensures((a,), Ok(()));
            assert(m.undo[k].edit().ensures((a1,), Ok(())));
            assert(m.undo[k].edit().ensures((a2,), Err(e)));
        }
    }
}

/// Undoing an edit right after recording it gives back the history before it: the
/// same applied edits over the same original document, so `get_current` gives the
/// document it gave before (when edits give the same result on equal documents and
/// cloning is deterministic), and the recorded edit is the one `redo` would bring back.
pub proof fn law_undo_reverts_new_action<T: Clone, F: Fn(&mut T) -> Result<(), anyhow::Error>>(
    m: ActionStackModel<T, F>,
    description: String,
    action: F,
    v: T,
    v2: T,
    e: anyhow::Error,
)
    requires
        clone_deterministic::<T>(),
        forall|i: int, a1: &mut T, a2: &mut T, r1: Result<(), anyhow::Error>, r2: Result<(), anyhow::Error>|
            0 <= i < m.undo.len() && *a1 == *a2 && #[trigger] m.undo[i].edit().ensures((a1,), r1)
                && #[trigger] m.undo[i].edit().ensures((a2,), r2) ==> r1 == r2 && (r1 is Ok
                ==> *final(a1) == *final(a2)),
        exists|states: Seq<T>|
            #![trigger states.len()]
            states.len() == m.undo.len() + 1 && strictly_cloned(m.original, states[0]) && states.last() == v
                && forall|i: int|
                0 <= i < m.undo.len() ==> exists|a: &mut T|
                    *a == #[trigger] states[i] && *final(a) == states[i + 1]
                        && m.undo[i].edit().ensures((a,), Ok(())),
    ensures
        m.recorded(description, action).undone().original == m.original,
        m.recorded(description, action).undone().undo == m.undo,
        m.recorded(description, action).undone().redo.len() == 1,
        m.recorded(description, action).undone().redo.last().text() == description@,
        (exists|states: Seq<T>|
            #![trigger states.len()]
            states.len() == m.recorded(description, action).undone().undo.len() + 1 && strictly_cloned(m.recorded(description, action).undone().original, states[0]) && states.last() == v2
                && forall|i: int|
                0 <= i < m.recorded(description, action).undone().undo.len() ==> exists|a: &mut T|
                    *a == #[trigger] states[i] && *final(a) == states[i + 1]
                        && m.recorded(description, action).undone().undo[i].edit().ensures((a,), Ok(()))) ==> v2 == v,
        !(exists|states: Seq<T>|
            #![trigger states.len()]
            states.len() < m.recorded(description, action).undone().undo.len() + 1 && states.len() >= 1 && strictly_cloned(m.recorded(description, action).undone().original, states[0])
                && (forall|i: int|
                0 <= i < states.len() - 1 ==> exists|a: &mut T|
                    *a == #[trigger] states[i] && *final(a) == states[i + 1]
                        && m.recorded(description, action).undone().undo[i].edit().ensures((a,), Ok(()))) && exists|a: &mut T|
                *a == states.last() && m.recorded(description, action).undone().undo[states.len() - 1].edit().ensures((a,), Err(e))),
{
    let m2 = m.recorded(description, action).undone();
    assert(m2.undo =~= m.undo);
    law_replay_has_one_outcome(m, v, v2, e);
}

/// Folding the history into the document keeps the current document: when a replay
/// ends in `c` (edits giving the same result on equal documents, cloning being
/// deterministic), `apply` starts over from `c` with an empty, saved history, and
/// `get_current` then gives a clone of `c`, which is `c` itself when cloning copies
/// exactly.
pub proof fn law_apply_keeps_current<T: Clone, F: Fn(&mut T) -> Result<(), anyhow::Error>>(
    m: ActionStackModel<T, F>,
    m2: ActionStackModel<T, F>,
    c: T,
    c2: T,
)
    requires
        clone_deterministic::<T>(),
        forall|i: int, a1: &mut T, a2: &mut T, r1: Result<(), anyhow::Error>, r2: Result<(), anyhow::Error>|
            0 <= i < m.undo.len() && *a1 == *a2 && #[trigger] m.undo[i].edit().ensures((a1,), r1)
                && #[trigger] m.undo[i].edit().ensures((a2,), r2) ==> r1 == r2 && (r1 is Ok
                ==> *final(a1) == *final(a2)),
        exists|states: Seq<T>|
            #![trigger states.len()]
            states.len() == m.undo.len() + 1 && strictly_cloned(m.original, states[0]) && states.last() == c
                && forall|i: int|
                0 <= i < m.undo.len() ==> exists|a: &mut T|
                    *a == #[trigger] states[i] && *final(a) == states[i + 1]
                        && m.undo[i].edit().ensures((a,), Ok(())),
        ({
        ||| exists|states: Seq<T>|
            #![trigger states.len()]
            states.len() == m.undo.len() + 1 && strictly_cloned(m.original, states[0]) && m2 == m.reset_to(
                states.last(),
            ) && forall|i: int|
                0 <= i < m.undo.len() ==> exists|a: &mut T|
                    *a == #[trigger] states[i] && *final(a) == states[i + 1]
                        && m.undo[i].edit().ensures((a,), Ok(()))
        ||| m2 == m && exists|states: Seq<T>|
            #![trigger states.len()]
            states.len() < m.undo.len() + 1 && states.len() >= 1 && strictly_cloned(m.original, states[0])
                && (forall|i: int|
                0 <= i < states.len() - 1 ==> exists|a: &mut T|
                    *a == #[trigger] states[i] && *final(a) == states[i + 1]
                        && m.undo[i].edit().ensures((a,), Ok(()))) && exists|a: &mut T, e: anyhow::Error|
                *a == states.last() && m.undo[states.len() - 1].edit().ensures((a,), Err(e))
        }),
    ensures
        m2 == m.reset_to(c),
        m2.undo.len() == 0,
        m2.redo.len() == 0,
        m2.is_saved(),
        (exists|states: Seq<T>|
            #![trigger states.len()]
            states.len() == m2.undo.len() + 1 && strictly_cloned(m2.original, states[0]) && states.last() == c2
                && forall|i: int|
                0 <= i < m2.undo.len() ==> exists|a: &mut T|
                    *a == #[trigger] states[i] && *final(a) == states[i + 1]
                        && m2.undo[i].edit().ensures((a,), Ok(()))) ==> strictly_cloned(c, c2) && (
        clone_exact::<T>() ==> c2 == c),
{
    if (exists|states: Seq<T>|
            #![trigger states.len()]
            states.len() == m.undo.len() + 1 && strictly_cloned(m.original, states[0]) && m2 == m.reset_to(
                states.last(),
            ) && forall|i: int|
                0 <= i < m.undo.len() ==> exists|a: &mut T|
                    *a == #[trigger] states[i] && *final(a) == states[i + 1]
                        && m.undo[i].edit().ensures((a,), Ok(()))) {
        let s = choose|states: Seq<T>|
            #![trigger states.len()]
            states.len() == m.undo.len() + 1 && strictly_cloned(m.original, states[0]) && m2 == m.reset_to(
                states.last(),
            ) && forall|i: int|
                0 <= i < m.undo.len() ==> exists|a: &mut T|
                    *a == #[trigger] states[i] && *final(a) == states[i + 1]
                        && m.undo[i].edit().ensures((a,), Ok(()));
        assert(s.len() == s.len());
        law_replay_has_one_outcome(m, c, s.last(), arbitrary());
    } else {
        let s = choose|states: Seq<T>|
            #![trigger states.len()]
            states.len() < m.undo.len() + 1 && states.len() >= 1 && strictly_cloned(m.original, states[0])
                && (forall|i: int|
                0 <= i < states.len() - 1 ==> exists|a: &mut T|
                    *a == #[trigger] states[i] && *final(a) == states[i + 1]
                        && m.undo[i].edit().ensures((a,), Ok(()))) && exists|a: &mut T, e: anyhow::Error|
                *a == states.last() && m.undo[states.len() - 1].edit().ensures((a,), Err(e));
        let (a, e) = choose|a: &mut T, e: anyhow::Error|
            *a == s.last() && m.undo[s.len() - 1].edit().ensures((a,), Err(e));
        assert(s.len() == s.len());
        law_replay_has_one_outcome(m, c, c, e);
    }
    if (exists|states: Seq<T>|
            #![trigger states.len()]
            states.len() == m2.undo.len() + 1 && strictly_cloned(m2.original, states[0]) && states.last() == c2
                && forall|i: int|
                0 <= i < m2.undo.len() ==> exists|a: &mut T|
                    *a == #[trigger] states[i] && *final(a) == states[i + 1]
                        && m2.undo[i].edit().ensures((a,), Ok(()))) {
        let s = choose|states: Seq<T>|
            #![trigger states.len()]
            states.len() == m2.undo.len() + 1 && strictly_cloned(m2.original, states[0]) && states.last() == c2
                && forall|i: int|
                0 <= i < m2.undo.len() ==> exists|a: &mut T|
                    *a == #[trigger] states[i] && *final(a) == states[i + 1]
                        && m2.undo[i].edit().ensures((a,), Ok(()));
        assert(strictly_cloned(c, s[0]));
    }
}

/// When a replay of the history fails (edits giving the same result on equal
/// documents, cloning being deterministic), `apply` leaves the history as it was.
pub proof fn law_failed_apply_changes_nothing<T: Clone, F: Fn(&mut T) -> Result<(), anyhow::Error>>(
    m: ActionStackModel<T, F>,
    m2: ActionStackModel<T, F>,
    e: anyhow::Error,
)
    requires
        clone_deterministic::<T>(),
        forall|i: int, a1: &mut T, a2: &mut T, r1: Result<(), anyhow::Error>, r2: Result<(), anyhow::Error>|
            0 <= i < m.undo.len() && *a1 == *a2 && #[trigger] m.undo[i].edit().ensures((a1,), r1)
                && #[trigger] m.undo[i].edit().ensures((a2,), r2) ==> r1 == r2 && (r1 is Ok
                ==> *final(a1) == *final(a2)),
        exists|states: Seq<T>|
            #![trigger states.len()]
            states.len() < m.undo.len() + 1 && states.len() >= 1 && strictly_cloned(m.original, states[0])
                && (forall|i: int|
                0 <= i < states.len() - 1 ==> exists|a: &mut T|
                    *a == #[trigger] states[i] && *final(a) == states[i + 1]
                        && m.undo[i].edit().ensures((a,), Ok(()))) && exists|a: &mut T|
                *a == states.last() && m.undo[states.len() - 1].edit().ensures((a,), Err(e)),
        ({
        ||| exists|states: Seq<T>|
            #![trigger states.len()]
            states.len() == m.undo.len() + 1 && strictly_cloned(m.original, states[0]) && m2 == m.reset_to(
                states.last(),
            ) && forall|i: int|
                0 <= i < m.undo.len() ==> exists|a: &mut T|
                    *a == #[trigger] states[i] && *final(a) == states[i + 1]
                        && m.undo[i].edit().ensures((a,), Ok(()))
        ||| m2 == m && exists|states: Seq<T>|
            #![trigger states.len()]
            states.len() < m.undo.len() + 1 && states.len() >= 1 && strictly_cloned(m.original, states[0])
                && (forall|i: int|
                0 <= i < states.len() - 1 ==> exists|a: &mut T|
                    *a == #[trigger] states[i] && *final(a) == states[i + 1]
                        && m.undo[i].edit().ensures((a,), Ok(()))) && exists|a: &mut T, e: anyhow::Error|
                *a == states.last() && m.undo[states.len() - 1].edit().ensures((a,), Err(e))
        }),
    ensures
        m2 == m,
{
    if (exists|states: Seq<T>|
            #![trigger states.len()]
            states.len() == m.undo.len() + 1 && strictly_cloned(m.original, states[0]) && m2 == m.reset_to(
                states.last(),
            ) && forall|i: int|
                0 <= i < m.undo.len() ==> exists|a: &mut T|
                    *a == #[trigger] states[i] && *final(a) == states[i + 1]
                        && m.undo[i].edit().ensures((a,), Ok(()))) {
        let s = choose|states: Seq<T>|
            #![trigger states.len()]
            states.len() == m.undo.len() + 1 && strictly_cloned(m.original, states[0]) && m2 == m.reset_to(
                states.last(),
            ) && forall|i: int|
                0 <= i < m.undo.len() ==> exists|a: &mut T|
                    *a == #[trigger] states[i] && *final(a) == states[i + 1]
                        && m.undo[i].edit().ensures((a,), Ok(()));
        assert(s.len() == s.len());
        law_replay_has_one_outcome(m, s.last(), s.last(), e);
    }
}

/// When each applied edit, called on equal documents, gives the same result, and
/// cloning is deterministic, a failing replay always stops at the same edit with the
/// same error: `get_current` reports the error of the first edit that fails.
pub proof fn law_replay_fails_alike<T: Clone, F: Fn(&mut T) -> Result<(), anyhow::Error>>(
    m: ActionStackModel<T, F>,
    e1: anyhow::Error,
    e2: anyhow::Error,
)
    requires
        clone_deterministic::<T>(),
        forall|i: int, a1: &mut T, a2: &mut T, r1: Result<(), anyhow::Error>, r2: Result<(), anyhow::Error>|
            0 <= i < m.undo.len() && *a1 == *a2 && #[trigger] m.undo[i].edit().ensures((a1,), r1)
                && #[trigger] m.undo[i].edit().ensures((a2,), r2) ==> r1 == r2 && (r1 is Ok
                ==> *final(a1) == *final(a2)),
    ensures
        (exists|states: Seq<T>|
            #![trigger states.len()]
            states.len() < m.undo.len() + 1 && states.len() >= 1 && strictly_cloned(m.original, states[0])
                && (forall|i: int|
                0 <= i < states.len() - 1 ==> exists|a: &mut T|
                    *a == #[trigger] states[i] && *final(a) == states[i + 1]
                        && m.undo[i].edit().ensures((a,), Ok(()))) && exists|a: &mut T|
                *a == states.last() && m.undo[states.len() - 1].edit().ensures((a,), Err(e1))) && (exists|states: Seq<T>|
            #![trigger states.len()]
            states.len() < m.undo.len() + 1 && states.len() >= 1 && strictly_cloned(m.original, states[0])
                && (forall|i: int|
                0 <= i < states.len() - 1 ==> exists|a: &mut T|
                    *a == #[trigger] states[i] && *final(a) == states[i + 1]
                        && m.undo[i].edit().ensures((a,), Ok(()))) && exists|a: &mut T|
                *a == states.last() && m.undo[states.len() - 1].edit().ensures((a,), Err(e2))) ==> e1 == e2,
{
    if (exists|states: Seq<T>|
            #![trigger states.len()]
            states.len() < m.undo.len() + 1 && states.len() >= 1 && strictly_cloned(m.original, states[0])
                && (forall|i: int|
                0 <= i < states.len() - 1 ==> exists|a: &mut T|
                    *a == #[trigger] states[i] && *final(a) == states[i + 1]
                        && m.undo[i].edit().ensures((a,), Ok(()))) && exists|a: &mut T|
                *a == states.last() && m.undo[states.len() - 1].edit().ensures((a,), Err(e1))) && (exists|states: Seq<T>|
            #![trigger states.len()]
            states.len() < m.undo.len() + 1 && states.len() >= 1 && strictly_cloned(m.original, states[0])
                && (forall|i: int|
                0 <= i < states.len() - 1 ==> exists|a: &mut T|
                    *a == #[trigger] states[i] && *final(a) == states[i + 1]
                        && m.undo[i].edit().ensures((a,), Ok(()))) && exists|a: &mut T|
                *a == states.last() && m.undo[states.len() - 1].edit().ensures((a,), Err(e2))) {
        let s1 = choose|states: Seq<T>|
            #![trigger states.len()]
            states.len() < m.undo.len() + 1 && states.len() >= 1 && strictly_cloned(m.original, states[0])
                && (forall|i: int|
                0 <= i < states.len() - 1 ==> exists|a: &mut T|
                    *a == #[trigger] states[i] && *final(a) == states[i + 1]
                        && m.undo[i].edit().ensures((a,), Ok(()))) && exists|a: &mut T|
                *a == states.last() && m.undo[states.len() - 1].edit().ensures((a,), Err(e1));
        let s2 = choose|states: Seq<T>|
            #![trigger states.len()]
            states.len() < m.undo.len() + 1 && states.len() >= 1 && strictly_cloned(m.original, states[0])
                && (forall|i: int|
                0 <= i < states.len() - 1 ==> exists|a: &mut T|
                    *a == #[trigger] states[i] && *final(a) == states[i + 1]
                        && m.undo[i].edit().ensures((a,), Ok(()))) && exists|a: &mut T|
                *a == states.last() && m.undo[states.len() - 1].edit().ensures((a,), Err(e2));
        let k1 = s1.len() - 1;
        let k2 = s2.len() - 1;
        let a1 = choose|a: &mut T| *a == s1.last() && m.undo[k1].edit().ensures((a,), Err(e1));
        let a2 = choose|a: &mut T| *a == s2.last() && m.undo[k2].edit().ensures((a,), Err(e2));
        assert(m.undo[k1].edit().ensures((a1,), Err(e1)));
        assert(m.undo[k2].edit().ensures((a2,), Err(e2)));
        if k1 < k2 {
            lemma_replays_agree(m, s1, s2, k1);
            let b = choose|a: &mut T|
                *a == s2[k1] && *final(a) == s2[k1 + 1] && m.undo[k1].edit().ensures((a,), Ok(()));
            assert(m.undo[k1].edit().ensures((b,), Ok(())));
        } else if k2 < k1 {
            lemma_replays_agree(m, s1, s2, k2);
            let b = choose|a: &mut T|
                *a == s1[k2] && *final(a) == s1[k2 + 1] && m.undo[k2].edit().ensures((a,), Ok(()));
            assert(m.undo[k2].edit().ensures((b,), Ok(())));
        } else {
            lemma_replays_agree(m, s1, s2, k1);
        }
    }
}

} // verus!
