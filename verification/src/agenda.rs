//! What a room still wants done. Answers to an action may bring up new actions, which go
//! before everything that was waiting.

use crate::room::Action;
use vstd::prelude::*;

verus! {

/// Actions that wait, the next one on top.
pub struct Agenda {
    stack: Vec<Action>,
}

impl View for Agenda {
    type V = Seq<Action>;

    /// The actions in the order in which they are to be done.
    closed spec fn view(&self) -> Seq<Action> {
        self.stack@.reverse()
    }
}

impl Agenda {
    pub fn new() -> (r: Self)
        ensures
            r@ == Seq::<Action>::empty(),
    {
        let r = Agenda { stack: Vec::new() };
        assert(r@ =~= Seq::<Action>::empty());
        r
    }

    /// Puts actions before those that wait.
    pub fn put(&mut self, actions: Vec<Action>)
        ensures
            final(self)@ == actions@ + old(self)@,
    {
        let mut rest = actions;
        assert(actions@ + self@ =~= rest@ + self@);
        while rest.len() > 0
            invariant
                rest@ + self@ == actions@ + old(self)@,
            decreases rest.len(),
        {
            let ghost before = rest@;
            let ghost waiting = self@;
            match rest.pop() {
                Some(action) => {
                    self.stack.push(action);
                    assert(rest@ + self@ =~= before + waiting);
                },
                None => {},
            }
        }
        assert(rest@ + self@ =~= self@);
    }

    /// Takes the next action off.
    pub fn next(&mut self) -> (r: Option<Action>)
        ensures
            match r {
                Some(action) => old(self)@.len() > 0 && action == old(self)@[0] && final(self)@
                    == old(self)@.drop_first(),
                None => old(self)@.len() == 0 && final(self)@ == old(self)@,
            },
    {
        let ghost before = self@;
        let r = self.stack.pop();
        assert(r is Some ==> self@ =~= before.drop_first());
        assert(r is None ==> self@ =~= before);
        r
    }
}

/// Answers come first, in their order: what is put on an agenda is taken off it before anything
/// that waited, and what waited keeps its order behind it.
pub proof fn law_answers_come_first(
    agenda: &mut Agenda,
    actions: Vec<Action>,
    later: &mut Agenda,
    r: Option<Action>,
)
    requires
        call_ensures(Agenda::put, (agenda, actions), ()),
        *old(later) == *final(agenda),
        call_ensures(Agenda::next, (later,), r),
    ensures
        final(agenda)@.len() == actions@.len() + old(agenda)@.len(),
        forall|i: int| 0 <= i < actions@.len() ==> final(agenda)@[i] == #[trigger] actions@[i],
        forall|i: int|
            0 <= i < old(agenda)@.len() ==> final(agenda)@[actions@.len() + i]
                == #[trigger] old(agenda)@[i],
        r is None <==> actions@.len() == 0 && old(agenda)@.len() == 0,
        actions@.len() > 0 ==> r == Some(actions@[0]),
        actions@.len() == 0 && old(agenda)@.len() > 0 ==> r == Some(old(agenda)@[0]),
        r is Some ==> final(later)@.len() + 1 == final(agenda)@.len(),
        r is Some ==> forall|i: int|
            0 <= i < final(later)@.len() ==> #[trigger] final(later)@[i] == final(agenda)@[i + 1],
        r is None ==> final(later)@.len() == 0,
{
}

/// A new agenda holds nothing.
pub proof fn law_a_new_agenda_holds_nothing(agenda: Agenda)
    requires
        call_ensures(Agenda::new, (), agenda),
    ensures
        agenda@.len() == 0,
{
}

} // verus!
