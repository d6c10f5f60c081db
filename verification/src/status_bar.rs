//! The status bar's message stack: one slot per message kind, the most
//! recently pushed kind on top; rendering the top message is the
//! presentation layer's work.

use vstd::prelude::*;
use vstd::pervasive::VecAdditionalExecFns;

verus! {

/// Keeping every message that is not of one kind.
pub open spec fn spec_not_kind(kind: AxessStatusBarMessageKind) -> spec_fn(
    (AxessStatusBarMessageKind, String),
) -> bool {
    |m: (AxessStatusBarMessageKind, String)| m.0 != kind
}

/// The kinds of messages the status bar distinguishes.
#[derive(Debug, Clone, Copy, PartialEq, Eq, Structural)]
pub enum AxessStatusBarMessageKind {
    Default,
    Connected,
    Progress,
}

/// The pending status messages, at most one per kind.
#[derive(Debug, Clone, Default)]
pub struct AxessStatusBar {
    pub messages: Vec<(AxessStatusBarMessageKind, String)>,
}

impl AxessStatusBar {
    pub fn new() -> (r: Self)
        ensures
            r.messages@.len() == 0,
    {
        AxessStatusBar { messages: Vec::new() }
    }

    /// Replaces the message of an already-present kind, or appends the
    /// kind with its message.
    pub fn push_message(&mut self, message_kind: AxessStatusBarMessageKind, message: String)
        ensures
            (exists|i: int|
                0 <= i < old(self).messages@.len() && (#[trigger] old(self).messages@[i]).0
                    == message_kind) ==> exists|i: int|
                {
                    &&& 0 <= i < old(self).messages@.len()
                    &&& (#[trigger] old(self).messages@[i]).0 == message_kind
                    &&& forall|j: int| 0 <= j < i ==> (old(self).messages@[j]).0 != message_kind
                    &&& final(self).messages@ == old(self).messages@.update(
                        i,
                        (message_kind, message),
                    )
                },
            (forall|i: int|
                0 <= i < old(self).messages@.len() ==> (#[trigger] old(self).messages@[i]).0
                    != message_kind) ==> final(self).messages@ == old(self).messages@.push(
                (message_kind, message),
            ),
    {
        let mut i: usize = 0;
        while i < self.messages.len()
            invariant
                i <= self.messages@.len(),
                self.messages@ == old(self).messages@,
                forall|j: int| 0 <= j < i ==> (self.messages@[j]).0 != message_kind,
            decreases self.messages@.len() - i,
        {
            if self.messages[i].0 == message_kind {
                self.messages.set(i, (message_kind, message));
                return ;
            }
            i = i + 1;
        }
        self.messages.push((message_kind, message));
    }

    /// Drops every message of one kind.
    pub fn pop_message(&mut self, message_kind: AxessStatusBarMessageKind)
        ensures
            forall|j: int|
                0 <= j < final(self).messages@.len() ==> (#[trigger] final(self).messages@[j]).0
                    != message_kind,
            final(self).messages@ == old(self).messages@.filter(spec_not_kind(message_kind)),
    {
        let ghost pred = spec_not_kind(message_kind);
        let mut kept: Vec<(AxessStatusBarMessageKind, String)> = Vec::new();
        let mut i: usize = 0;
        proof {
            reveal_with_fuel(Seq::<(AxessStatusBarMessageKind, String)>::filter, 1);
            assert(old(self).messages@.take(0) =~= Seq::<
                (AxessStatusBarMessageKind, String),
            >::empty());
            assert(kept@ =~= old(self).messages@.take(0).filter(pred));
        }
        while i < self.messages.len()
            invariant
                i <= self.messages@.len(),
                self.messages@ == old(self).messages@,
                kept@ == old(self).messages@.take(i as int).filter(
                    spec_not_kind(message_kind),
                ),
                forall|j: int| 0 <= j < kept@.len() ==> (#[trigger] kept@[j]).0 != message_kind,
            decreases self.messages@.len() - i,
        {
            let ghost t = self.messages@;
            proof {
                reveal_with_fuel(Seq::<(AxessStatusBarMessageKind, String)>::filter, 2);
                assert(t.take(i + 1).drop_last() =~= t.take(i as int));
                assert(t.take(i + 1).last() == t[i as int]);
                assert(t.take(i + 1).len() == i + 1);
            }
            let keep = !(self.messages[i].0 == message_kind);
            if keep {
                let entry = (self.messages[i].0, self.messages[i].1.clone());
                proof {
                    assert(entry.1 == t[i as int].1);
                    assert(entry == t[i as int]);
                }
                kept.push(entry);
            }
            i = i + 1;
        }
        proof {
            assert(self.messages@.take(self.messages@.len() as int) =~= self.messages@);
        }
        self.messages = kept;
    }
}

} // verus!
