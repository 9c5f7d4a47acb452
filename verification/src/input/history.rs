//! The history of sent lines, browsed with the arrow keys.
use vstd::prelude::*;

verus! {

/// The abstract content of an `InputHistory`.
pub struct HistoryView {
    /// Sent lines, oldest first.
    pub entries: Seq<Seq<char>>,
    /// The most entries kept.
    pub max_size: nat,
    /// The entry being shown while browsing, if any.
    pub index: Option<int>,
    /// What was typed before browsing started.
    pub saved: Seq<char>,
}

/// `s` with the occurrence of `e` taken out, where there is one.
pub open spec fn without(s: Seq<Seq<char>>, e: Seq<char>) -> Seq<Seq<char>> {
    if s.contains(e) {
        s.remove(s.index_of(e))
    } else {
        s
    }
}

impl HistoryView {
    /// No entry is empty or occurs twice, there are at most `max_size`, and
    /// the browsing position points at an entry.
    pub open spec fn wf(self) -> bool {
        &&& forall|i: int| 0 <= i < self.entries.len() ==> #[trigger] self.entries[i].len() > 0
        &&& forall|i: int, j: int|
            0 <= i < j < self.entries.len() ==> #[trigger] self.entries[i] != #[trigger] self.entries[j]
        &&& self.entries.len() <= self.max_size
        &&& self.index matches Some(i) ==> 0 <= i < self.entries.len()
    }

    /// The history after sending `e`: an empty line changes nothing;
    /// otherwise `e` moves to (or joins at) the newest end, the oldest entry
    /// is dropped if that makes too many, and browsing stops.
    pub open spec fn after_push(self, e: Seq<char>) -> HistoryView {
        if e.len() == 0 {
            self
        } else {
            let kept = without(self.entries, e).push(e);
            HistoryView {
                entries: if kept.len() > self.max_size {
                    kept.drop_first()
                } else {
                    kept
                },
                max_size: self.max_size,
                index: None,
                saved: Seq::empty(),
            }
        }
    }

    /// The history after one step towards older entries, `current` being the
    /// text in the input line.  The first step saves `current` and shows the
    /// newest entry; at the oldest entry the position stays.
    pub open spec fn after_up(self, current: Seq<char>) -> HistoryView {
        if self.entries.len() == 0 {
            self
        } else {
            match self.index {
                None => HistoryView {
                    entries: self.entries,
                    max_size: self.max_size,
                    index: Some(self.entries.len() - 1),
                    saved: current,
                },
                Some(i) => if i == 0 {
                    self
                } else {
                    HistoryView {
                        entries: self.entries,
                        max_size: self.max_size,
                        index: Some(i - 1),
                        saved: self.saved,
                    }
                },
            }
        }
    }

    /// The entry shown after a step towards older entries: none when the
    /// history is empty.
    pub open spec fn up_result(self, current: Seq<char>) -> Option<Seq<char>> {
        if self.entries.len() == 0 {
            None
        } else {
            Some(self.entries[self.after_up(current).index->0])
        }
    }

    /// The history after one step towards newer entries: past the newest
    /// entry browsing stops.
    pub open spec fn after_down(self) -> HistoryView {
        match self.index {
            None => self,
            Some(i) => HistoryView {
                entries: self.entries,
                max_size: self.max_size,
                index: if i + 1 >= self.entries.len() {
                    None
                } else {
                    Some(i + 1)
                },
                saved: self.saved,
            },
        }
    }

    /// The text shown after a step towards newer entries: the next newer
    /// entry, or the saved input when browsing stops; nothing when not
    /// browsing.
    pub open spec fn down_result(self) -> Option<Seq<char>> {
        match self.index {
            None => None,
            Some(i) => if i + 1 >= self.entries.len() {
                Some(self.saved)
            } else {
                Some(self.entries[i + 1])
            },
        }
    }
}

/// Sent lines, newest last, without repeats, at most `max_size` of them,
/// with a browsing position for recalling them into the input line.
pub struct InputHistory {
    entries: Vec<String>,
    max_size: usize,
    current_index: Option<usize>,
    temp_input: String,
}

impl View for InputHistory {
    type V = HistoryView;

    closed spec fn view(&self) -> HistoryView {
        HistoryView {
            entries: self.entries@.map_values(|s: String| s@),
            max_size: self.max_size as nat,
            index: match self.current_index {
                Some(i) => Some(i as int),
                None => None,
            },
            saved: self.temp_input@,
        }
    }
}

/// Where `e` stands in `entries`, if anywhere.
fn position_of(entries: &Vec<String>, e: &String) -> (r: Option<usize>)
    ensures
        r matches Some(p) ==> p < entries@.len() && entries@[p as int]@ == e@,
        r is None ==> !entries@.map_values(|s: String| s@).contains(e@),
{
    let mut k: usize = 0;
    while k < entries.len()
        invariant
            k <= entries@.len(),
            forall|j: int| 0 <= j < k ==> entries@[j]@ != e@,
        decreases entries.len() - k,
    {
        if entries[k] == *e {
            return Some(k);
        }
        k += 1;
    }
    proof {
        let m = entries@.map_values(|s: String| s@);
        assert forall|j: int| 0 <= j < m.len() implies m[j] != e@ by {
            assert(m[j] == entries@[j]@);
        }
    }
    None
}

impl InputHistory {
    pub fn new(max_size: usize) -> (h: Self)
        ensures
            h@.entries == Seq::<Seq<char>>::empty(),
            h@.max_size == max_size,
            h@.index is None,
            h@.saved == Seq::<char>::empty(),
            h@.wf(),
    {
        let h = InputHistory {
            entries: Vec::new(),
            max_size,
            current_index: None,
            temp_input: String::new(),
        };
        assert(h@.entries =~= Seq::<Seq<char>>::empty());
        h
    }

    /// Records a sent line (see `HistoryView::after_push`).
    pub fn push(&mut self, entry: String)
        requires
            old(self)@.wf(),
        ensures
            final(self)@ == old(self)@.after_push(entry@),
            final(self)@.wf(),
    {
        if entry.as_str().is_empty() {
            return;
        }
        let ghost model = self@.entries;
        let ghost e = entry@;
        let found = position_of(&self.entries, &entry);
        if let Some(p) = found {
            self.entries.remove(p);
            proof {
                assert(model[p as int] == e);
                assert(model.contains(e));
                let q = model.index_of(e);
                assert(model[q] == e);
                assert(q == p);
                assert(self.entries@.map_values(|s: String| s@) =~= model.remove(p as int));
            }
        }
        let ghost middle = self.entries@.map_values(|s: String| s@);
        proof {
            assert(middle == without(model, e));
        }
        self.entries.push(entry);
        proof {
            assert(self.entries@.map_values(|s: String| s@) =~= middle.push(e));
        }
        if self.entries.len() > self.max_size {
            self.entries.remove(0);
            proof {
                assert(self.entries@.map_values(|s: String| s@) =~= middle.push(e).drop_first());
            }
        }
        self.current_index = None;
        self.temp_input = String::new();
        proof {
            let kept = middle.push(e);
            assert forall|i: int, j: int|
                0 <= i < j < kept.len() implies kept[i] != kept[j] by {
                if j == kept.len() - 1 {
                    if model.contains(e) {
                        assert(middle[i] == model.remove(model.index_of(e))[i]);
                    }
                    assert(kept[i] == middle[i]);
                    assert(middle.contains(middle[i]));
                    if model.contains(e) {
                        let q = model.index_of(e);
                        if i < q {
                            assert(middle[i] == model[i]);
                        } else {
                            assert(middle[i] == model[i + 1]);
                        }
                    } else {
                        assert(middle[i] == model[i]);
                    }
                } else {
                    if model.contains(e) {
                        let q = model.index_of(e);
                        let a = if i < q { i } else { i + 1 };
                        let b = if j < q { j } else { j + 1 };
                        assert(middle[i] == model[a]);
                        assert(middle[j] == model[b]);
                    }
                }
            }
            assert forall|i: int| 0 <= i < kept.len() implies #[trigger] kept[i].len() > 0 by {
                if i < kept.len() - 1 && model.contains(e) {
                    let q = model.index_of(e);
                    if i < q {
                        assert(middle[i] == model[i]);
                    } else {
                        assert(middle[i] == model[i + 1]);
                    }
                }
            }
        }
    }

    /// Steps towards older entries and returns the entry now shown (see
    /// `HistoryView::after_up`).
    pub fn navigate_up(&mut self, current_input: &str) -> (r: Option<&str>)
        requires
            old(self)@.wf(),
        ensures
            final(self)@ == old(self)@.after_up(current_input@),
            final(self)@.wf(),
            match r {
                Some(s) => old(self)@.up_result(current_input@) == Some(s@),
                None => old(self)@.up_result(current_input@) is None,
            },
    {
        if self.entries.len() == 0 {
            return None;
        }
        match self.current_index {
            None => {
                self.temp_input = current_input.to_owned();
                self.current_index = Some(self.entries.len() - 1);
            },
            Some(i) => {
                if i > 0 {
                    self.current_index = Some(i - 1);
                }
            },
        }
        let i = match self.current_index {
            Some(i) => i,
            None => 0,
        };
        proof {
            assert(self@.entries[i as int] == self.entries@[i as int]@);
        }
        Some(self.entries[i].as_str())
    }

    /// Steps towards newer entries and returns the text now shown (see
    /// `HistoryView::after_down`).
    pub fn navigate_down(&mut self) -> (r: Option<&str>)
        requires
            old(self)@.wf(),
        ensures
            final(self)@ == old(self)@.after_down(),
            final(self)@.wf(),
            match r {
                Some(s) => old(self)@.down_result() == Some(s@),
                None => old(self)@.down_result() is None,
            },
    {
        match self.current_index {
            None => None,
            Some(i) => {
                if i + 1 >= self.entries.len() {
                    self.current_index = None;
                    Some(self.temp_input.as_str())
                } else {
                    self.current_index = Some(i + 1);
                    proof {
                        assert(self@.entries[i + 1] == self.entries@[i + 1]@);
                    }
                    Some(self.entries[i + 1].as_str())
                }
            },
        }
    }

    /// Stops browsing and forgets the saved input.
    pub fn reset(&mut self)
        requires
            old(self)@.wf(),
        ensures
            final(self)@ == (HistoryView {
                entries: old(self)@.entries,
                max_size: old(self)@.max_size,
                index: None,
                saved: Seq::empty(),
            }),
            final(self)@.wf(),
    {
        self.current_index = None;
        self.temp_input = String::new();
    }
}


/// After a non-empty line is sent it is the newest entry and occurs once;
/// the history stays within its size (when that allows any entry) and
/// browsing stops.
pub proof fn law_push_newest(h: HistoryView, e: Seq<char>)
    requires
        h.wf(),
        e.len() > 0,
        h.max_size > 0,
    ensures
        h.after_push(e).entries.last() == e,
        h.after_push(e).entries.len() <= h.max_size,
        forall|i: int|
            0 <= i < h.after_push(e).entries.len() - 1 ==> #[trigger] h.after_push(e).entries[i] != e,
        h.after_push(e).index is None,
{
    let kept = without(h.entries, e).push(e);
    let mid = without(h.entries, e);
    assert(!mid.contains(e)) by {
        if h.entries.contains(e) {
            let q = h.entries.index_of(e);
            if mid.contains(e) {
                let j = choose|j: int| 0 <= j < mid.len() && mid[j] == e;
                if j < q {
                    assert(mid[j] == h.entries[j]);
                } else {
                    assert(mid[j] == h.entries[j + 1]);
                }
            }
        }
    }
    let after = h.after_push(e);
    assert forall|i: int| 0 <= i < after.entries.len() - 1 implies #[trigger] after.entries[i] != e by {
        if kept.len() > h.max_size {
            assert(after.entries[i] == kept[i + 1]);
            assert(kept[i + 1] == mid[i + 1]);
        } else {
            assert(after.entries[i] == mid[i]);
        }
    }
}

/// Browsing: the first step back after a line is sent shows that line.
pub proof fn law_up_after_push_shows_sent(h: HistoryView, e: Seq<char>, typed: Seq<char>)
    requires
        h.wf(),
        e.len() > 0,
        h.max_size > 0,
    ensures
        h.after_push(e).up_result(typed) == Some(e),
{
    law_push_newest(h, e);
}

/// Browsing: one step back and one step forward give back what was being
/// typed, and leave browsing.
pub proof fn law_up_then_down_restores(h: HistoryView, typed: Seq<char>)
    requires
        h.wf(),
        h.index is None,
        h.entries.len() > 0,
    ensures
        h.after_up(typed).down_result() == Some(typed),
        h.after_up(typed).after_down().index is None,
{
}

/// Browsing back never goes past the oldest entry.
pub proof fn law_up_stops_at_oldest(h: HistoryView, typed: Seq<char>)
    requires
        h.wf(),
        h.index == Some(0int),
    ensures
        h.after_up(typed) == h,
        h.up_result(typed) == Some(h.entries[0]),
{
}

} // verus!

verus! {

/// Sending a line keeps the other entries in their order: before the newest
/// entry stand the old entries without the sent line, in their old order,
/// less the oldest one when the history was full.
pub proof fn law_push_keeps_order(h: HistoryView, e: Seq<char>)
    requires
        h.wf(),
        e.len() > 0,
        h.max_size > 0,
    ensures
        ({
            let others = without(h.entries, e);
            let kept = h.after_push(e).entries.drop_last();
            kept == others || kept == others.drop_first()
        }),
{
    let others = without(h.entries, e);
    let all = others.push(e);
    if all.len() > h.max_size {
        assert(all.drop_first().drop_last() =~= others.drop_first());
    } else {
        assert(all.drop_last() =~= others);
    }
}

} // verus!
