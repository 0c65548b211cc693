use std::rc::Rc;
use vstd::prelude::*;
use crate::combat_core::combat_event::CombatEvent;

verus! {

/// Where the history of a combat log continues: nowhere, in one earlier log,
/// or in several earlier logs that were merged (the first holding the full
/// history, the others only their own events).
#[derive(Debug, Clone)]
pub enum CombatLogParent {
    Empty,
    Single(Rc<CombatLog>),
    Many(Vec<Rc<CombatLog>>),
}

impl CombatLogParent {
    /// Whether there is no parent.
    pub fn is_empty(&self) -> (r: bool)
        ensures
            r == (*self is Empty),
    {
        if let CombatLogParent::Empty = self {
            true
        } else {
            false
        }
    }

    /// Whether there is a parent.
    pub fn is_present(&self) -> (r: bool)
        ensures
            r == !(*self is Empty),
    {
        !self.is_empty()
    }

    /// Whether there is exactly one parent.
    pub fn is_single(&self) -> (r: bool)
        ensures
            r == (*self is Single),
    {
        if let CombatLogParent::Single(_) = self {
            true
        } else {
            false
        }
    }

    /// Whether the parent is a merge of several logs.
    pub fn is_many(&self) -> (r: bool)
        ensures
            r == (*self is Many),
    {
        if let CombatLogParent::Many(_) = self {
            true
        } else {
            false
        }
    }
}

/// The events of a combat, kept as the events recorded here and the logs
/// that came before.
#[derive(Debug, Clone)]
pub struct CombatLog {
    parent: CombatLogParent,
    events: Vec<CombatEvent>,
}

/// The logs a parent points to, in order.
pub open spec fn parent_logs(p: CombatLogParent) -> Seq<Rc<CombatLog>> {
    match p {
        CombatLogParent::Empty => Seq::empty(),
        CombatLogParent::Single(x) => seq![x],
        CombatLogParent::Many(v) => v@,
    }
}

/// The parent that a log contributes to a merge: the log itself when it
/// recorded events, else its own parent.
pub open spec fn merge_side(cl: CombatLog) -> CombatLogParent {
    if cl.local_view().len() > 0 {
        CombatLogParent::Single(Rc::new(cl))
    } else {
        cl.parent_view()
    }
}

/// The parent of two merged sides: none when both have none, one side's
/// when the other has none and it is single, else a merge of all their logs.
pub open spec fn merged_parent_shape(l: CombatLogParent, r: CombatLogParent, m: CombatLogParent) -> bool {
    &&& parent_logs(m) == parent_logs(l) + parent_logs(r)
    &&& (m is Empty) == (l is Empty && r is Empty)
    &&& (m is Single) == ((l is Single && r is Empty) || (l is Empty && r is Single))
}

/// The history of a log whose parent is a merge of `logs`: the full history
/// of the first merged log, then the own events of the others.
pub open spec fn merged_history(logs: Seq<Rc<CombatLog>>) -> Seq<CombatEvent> {
    if logs.len() == 0 {
        Seq::empty()
    } else {
        (*logs[0]).history() + locals_of(logs.drop_first())
    }
}

/// The last event of a log whose parent is a merge of `logs`: the last
/// event of the last merged log.
pub open spec fn merged_last_event(logs: Seq<Rc<CombatLog>>) -> Option<CombatEvent> {
    if logs.len() == 0 {
        None
    } else {
        (*logs.last()).last_event()
    }
}

/// The logs that merging `r` into `l` makes the parent: those of the left
/// side, then those of the right side.
pub open spec fn merged_logs(l: CombatLog, r: CombatLog) -> Seq<Rc<CombatLog>> {
    parent_logs(merge_side(l)) + parent_logs(merge_side(r))
}

/// The local events of the logs, one after the other.
pub open spec fn locals_of(v: Seq<Rc<CombatLog>>) -> Seq<CombatEvent>
    decreases v.len(),
{
    if v.len() == 0 {
        Seq::empty()
    } else {
        locals_of(v.drop_last()) + v.last().local_view()
    }
}

impl CombatLog {
    /// The events recorded in this log itself.
    pub closed spec fn local_view(self) -> Seq<CombatEvent> {
        self.events@
    }

    /// The parent of this log.
    pub closed spec fn parent_view(self) -> CombatLogParent {
        self.parent
    }

    /// The log is well formed: every merge has at least one log, at any depth.
    pub closed spec fn wf(self) -> bool
        decreases self,
    {
        match self.parent {
            CombatLogParent::Empty => true,
            CombatLogParent::Single(p) => (*p).wf(),
            CombatLogParent::Many(v) => {
                &&& v@.len() > 0
                &&& forall|i: int| 0 <= i < v@.len() ==> {
                    proof {
                        vstd::std_specs::vec::axiom_vec_decreases_to_view(v);
                    }
                    (*v@[i]).wf()
                }
            },
        }
    }

    /// The whole history: the history before this log, then its own events.
    /// After a merge, the history before is the full history of the first
    /// merged log followed by the own events of the others.
    pub closed spec fn history(self) -> Seq<CombatEvent>
        decreases self, 1int,
    {
        self.history_before() + self.events@
    }

    /// The history before the events recorded in this log.
    pub closed spec fn history_before(self) -> Seq<CombatEvent>
        decreases self, 0int,
    {
        match self.parent {
            CombatLogParent::Empty => Seq::empty(),
            CombatLogParent::Single(p) => (*p).history(),
            CombatLogParent::Many(v) => if v@.len() > 0 {
                proof {
                    vstd::std_specs::vec::axiom_vec_decreases_to_view(v);
                }
                (*v@[0]).history() + locals_of(v@.drop_first())
            } else {
                Seq::empty()
            },
        }
    }

    /// The last event: the last one recorded here if any, else the last event
    /// of the parent (of the last merged log, after a merge).
    pub closed spec fn last_event(self) -> Option<CombatEvent>
        decreases self,
    {
        if self.events@.len() > 0 {
            Some(self.events@.last())
        } else {
            match self.parent {
                CombatLogParent::Empty => None,
                CombatLogParent::Single(p) => (*p).last_event(),
                CombatLogParent::Many(v) => if v@.len() > 0 {
                    proof {
                        vstd::std_specs::vec::axiom_vec_decreases_to_view(v);
                    }
                    (*v@.last()).last_event()
                } else {
                    None
                },
            }
        }
    }

    /// The log was never merged: its parents form a single chain.
    pub closed spec fn unmerged(self) -> bool
        decreases self,
    {
        match self.parent {
            CombatLogParent::Empty => true,
            CombatLogParent::Single(p) => (*p).unmerged(),
            CombatLogParent::Many(_) => false,
        }
    }

    /// A log with no parent and no events.
    pub fn new() -> (r: Self)
        ensures
            r.wf(),
            r.unmerged(),
            r.parent_view() is Empty,
            r.local_view() == Seq::<CombatEvent>::empty(),
            r.history() == Seq::<CombatEvent>::empty(),
    {
        let r = CombatLog { parent: CombatLogParent::Empty, events: Vec::new() };
        assert(r.history() =~= Seq::<CombatEvent>::empty());
        r
    }

    /// Records an event.
    pub fn push(&mut self, ce: CombatEvent)
        ensures
            final(self).wf() == old(self).wf(),
            final(self).unmerged() == old(self).unmerged(),
            final(self).parent_view() == old(self).parent_view(),
            final(self).local_view() == old(self).local_view().push(ce),
            final(self).history() == old(self).history().push(ce),
            final(self).last_event() == Some(ce),
    {
        self.events.push(ce);
        assert(self.history() =~= old(self).history().push(ce));
    }

    /// The events recorded in this log itself.
    pub fn get_local_events(&self) -> (r: &Vec<CombatEvent>)
        ensures
            r@ == self.local_view(),
    {
        &self.events
    }

    /// The whole history of the combat up to this log.
    pub fn get_all_events(&self) -> (r: Vec<CombatEvent>)
        requires
            self.wf(),
        ensures
            r@ == self.history(),
        decreases self,
    {
        let mut all_events: Vec<CombatEvent> = Vec::new();
        match &self.parent {
            CombatLogParent::Empty => {},
            CombatLogParent::Single(p) => {
                all_events = p.get_all_events();
            },
            CombatLogParent::Many(vec) => {
                proof {
                    vstd::std_specs::vec::axiom_vec_decreases_to_view(*vec);
                }
                all_events = vec[0].get_all_events();
                let n = vec.len();
                let mut i: usize = 1;
                while i < n
                    invariant
                        n == vec@.len(),
                        1 <= i <= n,
                        all_events@ == (*vec@[0]).history() + locals_of(vec@.subrange(1, i as int)),
                    decreases n - i,
                {
                    let ghost before = all_events@;
                    let local = vec[i].get_local_events();
                    let m = local.len();
                    let mut j: usize = 0;
                    while j < m
                        invariant
                            m == local@.len(),
                            j <= m,
                            all_events@ == before + local@.take(j as int),
                        decreases m - j,
                    {
                        all_events.push(local[j]);
                        j = j + 1;
                        assert(all_events@ =~= before + local@.take(j as int));
                    }
                    proof {
                        assert(local@.take(m as int) =~= local@);
                        assert(vec@.subrange(1, i + 1).drop_last() =~= vec@.subrange(1, i as int));
                        assert(vec@.subrange(1, i + 1).last() == vec@[i as int]);
                        assert(all_events@ =~= (*vec@[0]).history() + locals_of(vec@.subrange(1, i + 1)));
                    }
                    i = i + 1;
                }
                assert(vec@.subrange(1, n as int) =~= vec@.drop_first());
            },
        }
        let ghost before = all_events@;
        let m = self.events.len();
        let mut j: usize = 0;
        while j < m
            invariant
                m == self.events@.len(),
                j <= m,
                all_events@ == before + self.events@.take(j as int),
            decreases m - j,
        {
            all_events.push(self.events[j]);
            j = j + 1;
            assert(all_events@ =~= before + self.events@.take(j as int));
        }
        assert(self.events@.take(m as int) =~= self.events@);
        all_events
    }

    /// Whether the log continues an earlier one.
    pub fn has_parent(&self) -> (r: bool)
        ensures
            r == !(self.parent_view() is Empty),
    {
        self.parent.is_present()
    }

    /// The parent, or the first of the merged logs.
    pub fn get_first_parent(&self) -> (r: Option<&Rc<CombatLog>>)
        ensures
            r == match self.parent_view() {
                CombatLogParent::Empty => None,
                CombatLogParent::Single(p) => Some(&p),
                CombatLogParent::Many(v) => if v@.len() > 0 { Some(&v@[0]) } else { None },
            },
    {
        match &self.parent {
            CombatLogParent::Empty => None,
            CombatLogParent::Single(p) => Some(p),
            CombatLogParent::Many(vec) => vec.first(),
        }
    }

    /// The last event of the combat so far.
    pub fn get_last_event(&self) -> (r: Option<CombatEvent>)
        ensures
            r == self.last_event(),
        decreases self,
    {
        if self.events.len() > 0 {
            Some(self.events[self.events.len() - 1])
        } else {
            match &self.parent {
                CombatLogParent::Empty => None,
                CombatLogParent::Single(cl) => cl.get_last_event(),
                CombatLogParent::Many(cl_vec) => {
                    if cl_vec.len() > 0 {
                        proof {
                            vstd::std_specs::vec::axiom_vec_decreases_to_view(*cl_vec);
                        }
                        cl_vec[cl_vec.len() - 1].get_last_event()
                    } else {
                        None
                    }
                },
            }
        }
    }

    /// A new, empty log that continues this one.
    pub fn into_child(self) -> (r: Self)
        ensures
            r.wf() == self.wf(),
            r.unmerged() == self.unmerged(),
            r.parent_view() == CombatLogParent::Single(Rc::new(self)),
            r.local_view() == Seq::<CombatEvent>::empty(),
            r.history() == self.history(),
            r.last_event() == self.last_event(),
    {
        let r = CombatLog { parent: CombatLogParent::Single(Rc::new(self)), events: Vec::new() };
        assert(r.history() =~= self.history());
        r
    }

    /// Whether this log and `other` reached the same point of the combat:
    /// both last events are the same combat timing.
    pub fn is_transposition(&self, other: &Self) -> (r: bool)
        ensures
            r == (self.last_event() matches Some(CombatEvent::Timing(_)) && self.last_event() == other.last_event()),
    {
        if let Some(CombatEvent::Timing(_)) = self.get_last_event() {
            let a = self.get_last_event();
            let b = other.get_last_event();
            match (a, b) {
                (Some(x), Some(y)) => x == y,
                _ => false,
            }
        } else {
            false
        }
    }

    /// Merges `other` into this log: the parents of both sides (each side
    /// being the log itself if it recorded events, else its parent) become
    /// the parent, in order, and no local events are left.
    pub fn merge_left(&mut self, other: Self)
        requires
            old(self).wf(),
            other.wf(),
        ensures
            final(self).wf(),
            final(self).local_view() == Seq::<CombatEvent>::empty(),
            merged_parent_shape(merge_side(*old(self)), merge_side(other), final(self).parent_view()),
            final(self).history() == merged_history(merged_logs(*old(self), other)),
            final(self).last_event() == merged_last_event(merged_logs(*old(self), other)),
            old(self).local_view().len() > 0 && other.local_view().len() > 0 ==> {
                &&& final(self).history() == old(self).history() + other.local_view()
                &&& final(self).last_event() == other.last_event()
            },
    {
        let ghost old_self = *self;
        let ghost old_other = other;
        let mut cur = CombatLog::new();
        std::mem::swap(self, &mut cur);
        let left = if cur.events.len() > 0 { cur.into_child() } else { cur };
        let right = if other.events.len() > 0 { other.into_child() } else { other };
        let ghost lp = left.parent;
        let ghost rp = right.parent;
        let new_parent = match (left.parent, right.parent) {
            (CombatLogParent::Empty, CombatLogParent::Empty) => CombatLogParent::Empty,
            (CombatLogParent::Empty, CombatLogParent::Single(p)) => CombatLogParent::Single(p),
            (CombatLogParent::Empty, CombatLogParent::Many(v)) => CombatLogParent::Many(v),
            (CombatLogParent::Single(p), CombatLogParent::Empty) => CombatLogParent::Single(p),
            (CombatLogParent::Single(p), CombatLogParent::Single(q)) => {
                let mut v = Vec::with_capacity(2);
                v.push(p);
                v.push(q);
                CombatLogParent::Many(v)
            },
            (CombatLogParent::Single(p), CombatLogParent::Many(mut v)) => {
                v.insert(0, p);
                CombatLogParent::Many(v)
            },
            (CombatLogParent::Many(v), CombatLogParent::Empty) => CombatLogParent::Many(v),
            (CombatLogParent::Many(mut v), CombatLogParent::Single(p)) => {
                v.push(p);
                CombatLogParent::Many(v)
            },
            (CombatLogParent::Many(mut v1), CombatLogParent::Many(mut v2)) => {
                v1.append(&mut v2);
                CombatLogParent::Many(v1)
            },
        };
        proof {
            assert(parent_logs(new_parent) =~= parent_logs(lp) + parent_logs(rp));
        }
        self.parent = new_parent;
        self.events = Vec::new();
        proof {
            let logs = merged_logs(old_self, old_other);
            assert(parent_logs(self.parent) == logs);
            assert(self.history() =~= self.history_before());
            if self.parent is Single {
                assert(logs.drop_first() =~= Seq::<Rc<CombatLog>>::empty());
                assert(self.history() =~= merged_history(logs));
            }
            if old_self.local_view().len() > 0 && old_other.local_view().len() > 0 {
                assert(logs =~= seq![Rc::new(old_self), Rc::new(old_other)]);
                assert(logs.drop_first() =~= seq![Rc::new(old_other)]);
                assert(seq![Rc::new(old_other)].drop_last() =~= Seq::<Rc<CombatLog>>::empty());
                let one = seq![Rc::new(old_other)];
                assert(locals_of(Seq::<Rc<CombatLog>>::empty()) == Seq::<CombatEvent>::empty());
                assert(one.last() == Rc::new(old_other));
                assert(locals_of(one) == locals_of(one.drop_last()) + (*one.last()).local_view());
                assert(locals_of(one) =~= old_other.local_view());
            }
            assert(self.wf()) by {
                assert forall|i: int| 0 <= i < parent_logs(new_parent).len() implies (*parent_logs(new_parent)[i]).wf() by {
                    if i < parent_logs(lp).len() {
                        assert(parent_logs(new_parent)[i] == parent_logs(lp)[i]);
                    } else {
                        assert(parent_logs(new_parent)[i] == parent_logs(rp)[i - parent_logs(lp).len()]);
                    }
                }
            }
        }
    }
}


/// The local events of two runs of logs are those of the first, then those of the second.
pub proof fn lemma_locals_of_append(a: Seq<Rc<CombatLog>>, b: Seq<Rc<CombatLog>>)
    ensures
        locals_of(a + b) == locals_of(a) + locals_of(b),
    decreases b.len(),
{
    if b.len() == 0 {
        assert(a + b =~= a);
        assert(locals_of(a) + locals_of(b) =~= locals_of(a));
    } else {
        lemma_locals_of_append(a, b.drop_last());
        assert((a + b).drop_last() =~= a + b.drop_last());
        assert((a + b).last() == b.last());
        assert(locals_of(a + b) =~= locals_of(a) + locals_of(b));
    }
}

/// Merging keeps the history of the log merged into: after a merge (so that
/// the merged log records nothing itself and its parent is made of both
/// sides' parents), the history begins with the old history of the left
/// side, as long as that side had anything to contribute.
pub proof fn lemma_merge_keeps_history(l: CombatLog, r: CombatLog, m: CombatLog)
    requires
        l.wf(),
        r.wf(),
        m.local_view() == Seq::<CombatEvent>::empty(),
        merged_parent_shape(merge_side(l), merge_side(r), m.parent_view()),
        !(merge_side(l) is Empty),
    ensures
        l.history().is_prefix_of(m.history()),
{
    let lp = merge_side(l);
    let rp = merge_side(r);
    let all = parent_logs(m.parent_view());
    assert(m.history() =~= m.history_before());
    assert(l.local_view().len() == 0 ==> l.history() =~= l.history_before());
    match m.parent_view() {
        CombatLogParent::Empty => {},
        CombatLogParent::Single(x) => {
            assert(all[0] == x);
            assert(parent_logs(lp).len() == 1);
            assert(parent_logs(lp)[0] == all[0]);
        },
        CombatLogParent::Many(v) => {
            assert(all == v@);
            assert(parent_logs(lp).len() >= 1);
            assert(v@[0] == parent_logs(lp)[0]);
            match lp {
                CombatLogParent::Many(w) => {
                    assert(v@.drop_first() =~= w@.drop_first() + parent_logs(rp));
                    lemma_locals_of_append(w@.drop_first(), parent_logs(rp));
                },
                _ => {},
            }
        },
    }
}

/// An empty log (no events, no parent) is an identity of merging, on either
/// side: the merged log has the other log's history and last event.
pub proof fn lemma_merge_with_empty_log(cl: CombatLog, empty: CombatLog)
    requires
        empty.local_view() == Seq::<CombatEvent>::empty(),
        empty.parent_view() is Empty,
    ensures
        merged_history(merged_logs(cl, empty)) == cl.history(),
        merged_last_event(merged_logs(cl, empty)) == cl.last_event(),
        merged_history(merged_logs(empty, cl)) == cl.history(),
        merged_last_event(merged_logs(empty, cl)) == cl.last_event(),
{
    let side = parent_logs(merge_side(cl));
    assert(parent_logs(merge_side(empty)) =~= Seq::<Rc<CombatLog>>::empty());
    assert(merged_logs(cl, empty) =~= side);
    assert(merged_logs(empty, cl) =~= side);
    assert(locals_of(Seq::<Rc<CombatLog>>::empty()) == Seq::<CombatEvent>::empty());
    if cl.local_view().len() > 0 {
        assert(side.drop_first() =~= Seq::<Rc<CombatLog>>::empty());
        assert(merged_history(side) =~= cl.history());
    } else {
        assert(cl.history() =~= cl.history_before());
        if cl.parent_view() is Single {
            assert(side.drop_first() =~= Seq::<Rc<CombatLog>>::empty());
            assert(merged_history(side) =~= cl.history());
        }
    }
}

/// In a log that was never merged, the last event is the last event of the
/// whole history (none when the history is empty).
pub proof fn lemma_last_event_ends_history(cl: CombatLog)
    requires
        cl.unmerged(),
    ensures
        cl.last_event() == if cl.history().len() > 0 { Some(cl.history().last()) } else { None },
    decreases cl,
{
    lemma_last_event_ends_history_rec(&cl);
}

proof fn lemma_last_event_ends_history_rec(cl: &CombatLog)
    requires
        cl.unmerged(),
    ensures
        cl.last_event() == if cl.history().len() > 0 { Some(cl.history().last()) } else { None },
    decreases cl,
{
    match cl.parent_view() {
        CombatLogParent::Single(p) => {
            if cl.local_view().len() == 0 {
                lemma_last_event_ends_history_rec(&*p);
                assert(cl.history() =~= (*p).history());
            }
        },
        _ => {},
    }
}

} // verus!
