use vstd::prelude::*;

verus! {

/// One shader binding inside a bind group: the location index inside the
/// group, and the id of the asset bound there.
#[derive(Clone, Copy, PartialEq, Eq, Structural, Debug)]
pub struct BindingEntry {
    pub location: u32,
    pub asset: u64,
}

/// One bind group of a brush: its group index and the bindings it holds.
#[derive(PartialEq, Eq, Debug)]
pub struct BindingGroup {
    pub index: u32,
    pub entries: Vec<BindingEntry>,
}

/// The bindings of one group, as the map from location to bound asset; of two
/// entries for one location the later one counts.
pub open spec fn entries_view(s: Seq<BindingEntry>) -> Map<u32, u64>
    decreases s.len(),
{
    if s.len() == 0 {
        Map::empty()
    } else {
        entries_view(s.drop_last()).insert(s.last().location, s.last().asset)
    }
}

/// No two entries of the sequence bind the same location.
pub open spec fn entries_wf(s: Seq<BindingEntry>) -> bool {
    forall|i: int, j: int| 0 <= i < j < s.len() ==> s[i].location != s[j].location
}

/// The bindings of a whole brush, as the map from group index to that group's
/// own map; of two groups with one index the later one counts.
pub open spec fn groups_view(s: Seq<BindingGroup>) -> Map<u32, Map<u32, u64>>
    decreases s.len(),
{
    if s.len() == 0 {
        Map::empty()
    } else {
        groups_view(s.drop_last()).insert(s.last().index, entries_view(s.last().entries@))
    }
}

/// Group indices strictly ascend, so in particular no index occurs twice.
pub open spec fn groups_sorted(s: Seq<BindingGroup>) -> bool {
    forall|i: int, j: int| 0 <= i < j < s.len() ==> s[i].index < s[j].index
}

/// Every group's entries bind pairwise distinct locations.
pub open spec fn groups_entries_wf(s: Seq<BindingGroup>) -> bool {
    forall|k: int| 0 <= k < s.len() ==> entries_wf(#[trigger] s[k].entries@)
}

proof fn lemma_entries_view_push(s: Seq<BindingEntry>, e: BindingEntry)
    ensures
        entries_view(s.push(e)) == entries_view(s).insert(e.location, e.asset),
{
    assert(s.push(e).drop_last() =~= s);
}

proof fn lemma_entries_view_update(s: Seq<BindingEntry>, k: int, e: BindingEntry)
    requires
        0 <= k < s.len(),
        entries_wf(s),
        s[k].location == e.location,
    ensures
        entries_view(s.update(k, e)) == entries_view(s).insert(e.location, e.asset),
    decreases s.len(),
{
    let t = s.update(k, e);
    if k == s.len() - 1 {
        assert(t.drop_last() =~= s.drop_last());
        assert(t.last() == e);
        assert(entries_view(s).insert(e.location, e.asset) =~= entries_view(
            s.drop_last(),
        ).insert(e.location, e.asset));
    } else {
        assert(t.drop_last() =~= s.drop_last().update(k, e));
        assert(t.last() == s.last());
        assert(entries_wf(s.drop_last()));
        lemma_entries_view_update(s.drop_last(), k, e);
        // the two keys differ, so the two inserts commute
        assert(s.last().location != e.location);
        assert(entries_view(s.drop_last()).insert(e.location, e.asset).insert(
            s.last().location,
            s.last().asset,
        ) =~= entries_view(s.drop_last()).insert(s.last().location, s.last().asset).insert(
            e.location,
            e.asset,
        ));
    }
}

proof fn lemma_groups_view_insert(s: Seq<BindingGroup>, k: int, g: BindingGroup)
    requires
        0 <= k <= s.len(),
        forall|j: int| 0 <= j < s.len() ==> (#[trigger] s[j].index) != g.index,
    ensures
        groups_view(s.insert(k, g)) == groups_view(s).insert(g.index, entries_view(g.entries@)),
    decreases s.len(),
{
    let t = s.insert(k, g);
    if k == s.len() {
        assert(t.drop_last() =~= s);
        assert(t.last() == g);
    } else {
        assert(t.drop_last() =~= s.drop_last().insert(k, g));
        assert(t.last() == s.last());
        lemma_groups_view_insert(s.drop_last(), k, g);
        assert(s.last().index != g.index);
        assert(groups_view(s.drop_last()).insert(g.index, entries_view(g.entries@)).insert(
            s.last().index,
            entries_view(s.last().entries@),
        ) =~= groups_view(s.drop_last()).insert(
            s.last().index,
            entries_view(s.last().entries@),
        ).insert(g.index, entries_view(g.entries@)));
    }
}

proof fn lemma_groups_view_update(s: Seq<BindingGroup>, k: int, g: BindingGroup)
    requires
        0 <= k < s.len(),
        groups_sorted(s),
        s[k].index == g.index,
    ensures
        groups_view(s.update(k, g)) == groups_view(s).insert(g.index, entries_view(g.entries@)),
    decreases s.len(),
{
    let t = s.update(k, g);
    if k == s.len() - 1 {
        assert(t.drop_last() =~= s.drop_last());
        assert(t.last() == g);
        assert(groups_view(s).insert(g.index, entries_view(g.entries@)) =~= groups_view(
            s.drop_last(),
        ).insert(g.index, entries_view(g.entries@)));
    } else {
        assert(t.drop_last() =~= s.drop_last().update(k, g));
        assert(t.last() == s.last());
        assert(groups_sorted(s.drop_last())) by {
            assert(forall|i: int, j: int|
                0 <= i < j < s.drop_last().len() ==> (#[trigger] s.drop_last()[i]).index < (
                #[trigger] s.drop_last()[j]).index) by {
                assert(forall|i: int| 0 <= i < s.drop_last().len() ==> #[trigger] s.drop_last()[i]
                    == s[i]);
            }
        }
        lemma_groups_view_update(s.drop_last(), k, g);
        assert(s.last().index != s[k].index);
        assert(groups_view(s.drop_last()).insert(g.index, entries_view(g.entries@)).insert(
            s.last().index,
            entries_view(s.last().entries@),
        ) =~= groups_view(s.drop_last()).insert(
            s.last().index,
            entries_view(s.last().entries@),
        ).insert(g.index, entries_view(g.entries@)));
    }
}

proof fn lemma_groups_view_lookup(s: Seq<BindingGroup>, k: int)
    requires
        0 <= k < s.len(),
        groups_sorted(s),
    ensures
        groups_view(s).contains_key(s[k].index),
        groups_view(s)[s[k].index] == entries_view(s[k].entries@),
    decreases s.len(),
{
    if k == s.len() - 1 {
    } else {
        assert(groups_sorted(s.drop_last())) by {
            assert(forall|i: int| 0 <= i < s.drop_last().len() ==> #[trigger] s.drop_last()[i]
                == s[i]);
        }
        lemma_groups_view_lookup(s.drop_last(), k);
        assert(s.drop_last()[k] == s[k]);
        assert(s.last().index != s[k].index);
    }
}

proof fn lemma_groups_view_absent(s: Seq<BindingGroup>, index: u32)
    requires
        forall|j: int| 0 <= j < s.len() ==> (#[trigger] s[j].index) != index,
    ensures
        !groups_view(s).contains_key(index),
    decreases s.len(),
{
    if s.len() > 0 {
        assert(forall|j: int| 0 <= j < s.drop_last().len() ==> #[trigger] s.drop_last()[j]
            == s[j]);
        lemma_groups_view_absent(s.drop_last(), index);
    }
}

/// Used to tell the GPU how to draw the shapes provided: a shader together
/// with the assets bound to its bind groups. This side of the brush keeps the
/// bookkeeping — which asset hangs at which group and location, and whether
/// the render pipeline built from them is stale — while the GPU objects
/// themselves stay with the caller.
pub struct Brush {
    groups: Vec<BindingGroup>,
    needs_update: bool,
}

impl Brush {
    /// The bind groups, in ascending group-index order.
    pub closed spec fn spec_groups(&self) -> Seq<BindingGroup> {
        self.groups@
    }

    /// Whether the brush has been modified since the pipeline was last built.
    pub closed spec fn spec_needs_update(&self) -> bool {
        self.needs_update
    }

    /// Groups sorted by index, and no location bound twice inside one group.
    pub open spec fn wf(&self) -> bool {
        groups_sorted(self.spec_groups()) && groups_entries_wf(self.spec_groups())
    }

    /// All bindings of the brush: group index to location to asset.
    pub open spec fn spec_bindings(&self) -> Map<u32, Map<u32, u64>> {
        groups_view(self.spec_groups())
    }

    /// The bindings of one group; a group never bound to is empty.
    pub open spec fn spec_group_bindings(&self, group_index: u32) -> Map<u32, u64> {
        if self.spec_bindings().contains_key(group_index) {
            self.spec_bindings()[group_index]
        } else {
            Map::empty()
        }
    }

    /// A fresh brush binds nothing and must update the GPU before it draws.
    pub fn new() -> (b: Brush)
        ensures
            b.wf(),
            b.spec_bindings() == Map::<u32, Map<u32, u64>>::empty(),
            b.spec_needs_update(),
    {
        Brush { groups: Vec::new(), needs_update: true }
    }

    /// Returns if brush has been modified and needs to update the GPU with
    /// new data.
    pub fn needs_update(&self) -> (r: bool)
        ensures
            r == self.spec_needs_update(),
    {
        self.needs_update
    }

    /// The position where a group with the given index stands, or where it
    /// would have to be put to keep the groups sorted.
    fn find_group_slot(groups: &Vec<BindingGroup>, group_index: u32) -> (pos: usize)
        requires
            groups_sorted(groups@),
        ensures
            pos <= groups@.len(),
            forall|j: int| 0 <= j < pos ==> (#[trigger] groups@[j].index) < group_index,
            pos < groups@.len() ==> groups@[pos as int].index >= group_index,
    {
        let mut pos: usize = 0;
        while pos < groups.len() && groups[pos].index < group_index
            invariant
                pos <= groups@.len(),
                forall|j: int| 0 <= j < pos ==> (#[trigger] groups@[j].index) < group_index,
                groups_sorted(groups@),
            decreases groups@.len() - pos,
        {
            pos = pos + 1;
        }
        pos
    }

    /// The position of the entry binding the given location, if there is one.
    fn find_entry_slot(entries: &Vec<BindingEntry>, loc_index: u32) -> (pos: Option<usize>)
        ensures
            match pos {
                Some(k) => k < entries@.len() && entries@[k as int].location == loc_index,
                None => forall|j: int|
                    0 <= j < entries@.len() ==> (#[trigger] entries@[j].location) != loc_index,
            },
    {
        let mut k: usize = 0;
        while k < entries.len()
            invariant
                k <= entries@.len(),
                forall|j: int| 0 <= j < k ==> (#[trigger] entries@[j].location) != loc_index,
            decreases entries@.len() - k,
        {
            if entries[k].location == loc_index {
                return Some(k);
            }
            k = k + 1;
        }
        None
    }

    /// Bind asset given a group and location index. Both indices need to
    /// match the shader's, or the pipeline will refuse them when the brush is
    /// baked and linked. Binding an already-bound location replaces that
    /// binding; any other binding stays as it was.
    pub fn bind(&mut self, group_index: u32, loc_index: u32, asset: u64)
        requires
            old(self).wf(),
        ensures
            final(self).wf(),
            final(self).spec_bindings() == old(self).spec_bindings().insert(
                group_index,
                old(self).spec_group_bindings(group_index).insert(loc_index, asset),
            ),
            final(self).spec_needs_update(),
    {
        let ghost old_groups = self.groups@;
        self.needs_update = true;
        let pos = Self::find_group_slot(&self.groups, group_index);
        if pos < self.groups.len() && self.groups[pos].index == group_index {
            proof {
                lemma_groups_view_lookup(old_groups, pos as int);
                assert(entries_wf(old_groups[pos as int].entries@));
            }
            let mut g = self.groups.remove(pos);
            let e = BindingEntry { location: loc_index, asset };
            match Self::find_entry_slot(&g.entries, loc_index) {
                Some(k) => {
                    proof {
                        lemma_entries_view_update(g.entries@, k as int, e);
                    }
                    let ghost old_entries = g.entries@;
                    g.entries[k] = e;
                    proof {
                        assert(entries_wf(g.entries@)) by {
                            assert(forall|i: int|
                                0 <= i < g.entries@.len() ==> (#[trigger] g.entries@[i]).location
                                    == old_entries[i].location);
                        }
                    }
                },
                None => {
                    proof {
                        lemma_entries_view_push(g.entries@, e);
                    }
                    g.entries.push(e);
                },
            }
            self.groups.insert(pos, g);
            proof {
                assert(self.groups@ =~= old_groups.update(pos as int, self.groups@[pos as int]));
                lemma_groups_view_update(old_groups, pos as int, self.groups@[pos as int]);
                assert(groups_sorted(self.groups@)) by {
                    assert(forall|i: int|
                        0 <= i < self.groups@.len() ==> (#[trigger] self.groups@[i]).index
                            == old_groups[i].index);
                }
                assert(groups_entries_wf(self.groups@)) by {
                    assert(forall|k: int|
                        0 <= k < self.groups@.len() && k != pos ==> #[trigger] self.groups@[k]
                            == old_groups[k]);
                }
            }
        } else {
            let mut entries: Vec<BindingEntry> = Vec::new();
            entries.push(BindingEntry { location: loc_index, asset });
            let ghost ng = BindingGroup { index: group_index, entries: entries };
            proof {
                // in this branch no group carries this index yet
                assert(forall|j: int|
                    0 <= j < old_groups.len() ==> (#[trigger] old_groups[j].index)
                        != group_index) by {
                    assert(forall|j: int|
                        pos <= j < old_groups.len() ==> (#[trigger] old_groups[j].index)
                            >= old_groups[pos as int].index);
                }
                lemma_groups_view_absent(old_groups, group_index);
            }
            self.groups.insert(pos, BindingGroup { index: group_index, entries });
            proof {
                assert(self.groups@[pos as int].entries@ =~= seq![
                    BindingEntry { location: loc_index, asset },
                ]);
                lemma_groups_view_insert(old_groups, pos as int, self.groups@[pos as int]);
                assert(entries_view(self.groups@[pos as int].entries@) =~= Map::<
                    u32,
                    u64,
                >::empty().insert(loc_index, asset)) by {
                    reveal_with_fuel(entries_view, 3);
                    assert(self.groups@[pos as int].entries@.drop_last() =~= Seq::<
                        BindingEntry,
                    >::empty());
                }
                assert(groups_sorted(self.groups@)) by {
                    assert(forall|j: int|
                        0 <= j < pos ==> #[trigger] self.groups@[j] == old_groups[j]);
                    assert(forall|j: int|
                        pos < j < self.groups@.len() ==> #[trigger] self.groups@[j]
                            == old_groups[j - 1]);
                    assert(forall|j: int|
                        pos <= j < old_groups.len() ==> (#[trigger] old_groups[j].index)
                            > group_index);
                }
                assert(groups_entries_wf(self.groups@)) by {
                    assert(forall|j: int|
                        0 <= j < pos ==> #[trigger] self.groups@[j] == old_groups[j]);
                    assert(forall|j: int|
                        pos < j < self.groups@.len() ==> #[trigger] self.groups@[j]
                            == old_groups[j - 1]);
                    assert(entries_wf(self.groups@[pos as int].entries@));
                }
            }
        }
    }

    /// Record that the GPU now holds pipeline and bind groups built from the
    /// current bindings; nothing else changes.
    pub fn mark_updated(&mut self)
        ensures
            final(self).spec_groups() == old(self).spec_groups(),
            !final(self).spec_needs_update(),
    {
        self.needs_update = false;
    }

    /// The bind groups the pipeline is to be built from, in ascending
    /// group-index order, each group's map of bindings matching the brush's.
    pub fn groups(&self) -> (r: &Vec<BindingGroup>)
        ensures
            r@ == self.spec_groups(),
    {
        &self.groups
    }
}

} // verus!
