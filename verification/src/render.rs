//! Renderer planning: from a registry snapshot to the list of launcher
//! entries the GUI layer builds, one per record with a non-empty title, each
//! with its resolved icon. The strip is rebuilt from scratch on every pass;
//! an empty registry simply yields zero entries.

use vstd::prelude::*;

use crate::icons::{get_icon_for_app, icon_spec, lower_of};
use crate::tree::{RecordView, WindowRecord};

verus! {

/// One entry of the launcher strip: the window to focus on click, the label
/// text, and the icon name.
#[derive(Debug)]
pub struct DockEntry {
    pub id: i64,
    pub title: String,
    pub icon: String,
}

/// Mathematical image of a `DockEntry`.
pub struct EntryView {
    pub id: int,
    pub title: Seq<char>,
    pub icon: Seq<char>,
}

impl View for DockEntry {
    type V = EntryView;

    open spec fn view(&self) -> EntryView {
        EntryView { id: self.id as int, title: self.title@, icon: self.icon@ }
    }
}

/// The entry a record yields.
pub open spec fn entry_of(r: RecordView) -> EntryView {
    EntryView { id: r.id, title: r.title, icon: icon_spec(lower_of(r.app_id)) }
}

/// The launcher entries for a record list, in order: records with empty
/// titles are skipped, every other record yields exactly one entry.
pub open spec fn plan_spec(rs: Seq<RecordView>) -> Seq<EntryView>
    decreases rs,
{
    if rs.len() == 0 {
        Seq::<EntryView>::empty()
    } else {
        (if rs[0].title.len() > 0 {
            seq![entry_of(rs[0])]
        } else {
            Seq::<EntryView>::empty()
        }) + plan_spec(rs.drop_first())
    }
}

/// The mathematical image of an entry list.
pub open spec fn entries_view(v: Seq<DockEntry>) -> Seq<EntryView> {
    v.map_values(|e: DockEntry| e@)
}

/// Planning one more record appends its entries (one or none).
pub proof fn lemma_plan_take_succ(rs: Seq<RecordView>, i: int)
    requires
        0 <= i < rs.len(),
    ensures
        plan_spec(rs.take(i + 1)) == plan_spec(rs.take(i)) + (if rs[i].title.len() > 0 {
            seq![entry_of(rs[i])]
        } else {
            Seq::<EntryView>::empty()
        }),
    decreases i,
{
    if i == 0 {
        let one = rs.take(1);
        assert(one[0] == rs[0]);
        assert(one.drop_first() =~= Seq::<RecordView>::empty());
        assert(plan_spec(one.drop_first()) == Seq::<EntryView>::empty());
        assert(rs.take(0int) =~= Seq::<RecordView>::empty());
        assert(plan_spec(one) =~= plan_spec(rs.take(0int)) + (if rs[0].title.len() > 0 {
            seq![entry_of(rs[0])]
        } else {
            Seq::<EntryView>::empty()
        }));
    } else {
        lemma_plan_take_succ(rs.drop_first(), i - 1);
        assert(rs.take(i + 1).drop_first() =~= rs.drop_first().take(i));
        assert(rs.take(i).drop_first() =~= rs.drop_first().take(i - 1));
        assert(rs.take(i + 1)[0] == rs[0]);
        assert(rs.take(i)[0] == rs[0]);
        assert(rs.drop_first()[i - 1] == rs[i]);
        let head: Seq<EntryView> = if rs[0].title.len() > 0 {
            seq![entry_of(rs[0])]
        } else {
            Seq::<EntryView>::empty()
        };
        let tail_new: Seq<EntryView> = if rs[i].title.len() > 0 {
            seq![entry_of(rs[i])]
        } else {
            Seq::<EntryView>::empty()
        };
        assert(plan_spec(rs.take(i + 1)) == head + (plan_spec(rs.drop_first().take(i - 1))
            + tail_new));
        assert(head + (plan_spec(rs.drop_first().take(i - 1)) + tail_new) =~= (head + plan_spec(
            rs.drop_first().take(i - 1),
        )) + tail_new);
    }
}

/// Build the launcher plan for a registry snapshot: one entry per record with
/// a non-empty title, in registry order, each entry carrying the record's
/// identifier, its title, and the icon its application identifier resolves
/// to.
pub fn plan_dock_entries(windows: &Vec<WindowRecord>) -> (entries: Vec<DockEntry>)
    ensures
        entries_view(entries@) == plan_spec(crate::extract::records_view(windows@)),
{
    let ghost rs: Seq<RecordView> = crate::extract::records_view(windows@);
    let mut entries: Vec<DockEntry> = Vec::new();
    let mut i: usize = 0;
    proof {
        assert(entries_view(entries@) =~= plan_spec(rs.take(0int)));
    }
    while i < windows.len()
        invariant
            i <= windows.len(),
            rs == crate::extract::records_view(windows@),
            entries_view(entries@) == plan_spec(rs.take(i as int)),
        decreases windows.len() - i,
    {
        proof {
            assert(rs.len() == windows@.len());
            assert(rs[i as int] == windows@[i as int]@);
        }
        let w = &windows[i];
        if !w.title.as_str().is_empty() {
            let ghost prev = entries@;
            let title = w.title.clone();
            let icon = get_icon_for_app(w.app_id.as_str());
            entries.push(DockEntry { id: w.id, title, icon });
            proof {
                lemma_plan_take_succ(rs, i as int);
                assert(entries_view(prev).len() == prev.len());
                assert forall|t: int| 0 <= t < entries@.len() implies entries_view(entries@)[t]
                    == plan_spec(rs.take(i + 1))[t] by {
                    if t < prev.len() {
                        assert(entries_view(prev)[t] == plan_spec(rs.take(i as int))[t]);
                        assert(entries@[t] == prev[t]);
                    }
                }
                assert(entries_view(entries@) =~= plan_spec(rs.take(i + 1)));
            }
        } else {
            proof {
                lemma_plan_take_succ(rs, i as int);
                assert(plan_spec(rs.take(i + 1)) =~= plan_spec(rs.take(i as int)));
            }
        }
        i += 1;
    }
    proof {
        assert(rs.take(rs.len() as int) =~= rs);
    }
    entries
}

} // verus!
