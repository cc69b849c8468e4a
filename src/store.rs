//! The property store: for each feature group, the last known value of each
//! of its properties. A group that is absent is not known (or the device is
//! disconnected); clearing the store tells observers that the link is down.

use vstd::prelude::*;

use crate::handler::PropertyUpdate;

verus! {

/// The map of an association list whose keys are distinct.
pub open spec fn assoc<V>(s: Seq<(Seq<char>, V)>) -> Map<Seq<char>, V>
    decreases s.len(),
{
    if s.len() == 0 {
        Map::empty()
    } else {
        assoc(s.drop_last()).insert(s.last().0, s.last().1)
    }
}

/// The keys of an association list are distinct.
pub open spec fn distinct_keys<V>(s: Seq<(Seq<char>, V)>) -> bool {
    forall|i: int, j: int| 0 <= i < j < s.len() ==> s[i].0 != s[j].0
}

proof fn lemma_assoc_domain<V>(s: Seq<(Seq<char>, V)>, k: Seq<char>)
    ensures
        assoc(s).contains_key(k) <==> exists|i: int| 0 <= i < s.len() && s[i].0 == k,
    decreases s.len(),
{
    if s.len() > 0 {
        lemma_assoc_domain(s.drop_last(), k);
        if exists|i: int| 0 <= i < s.len() && s[i].0 == k {
            let i = choose|i: int| 0 <= i < s.len() && s[i].0 == k;
            if i < s.len() - 1 {
                assert(s.drop_last()[i].0 == k);
            }
        }
        if exists|i: int| 0 <= i < s.len() - 1 && s.drop_last()[i].0 == k {
            let i = choose|i: int| 0 <= i < s.len() - 1 && s.drop_last()[i].0 == k;
            assert(s[i].0 == k);
        }
    }
}

proof fn lemma_assoc_at<V>(s: Seq<(Seq<char>, V)>, i: int)
    requires
        distinct_keys(s),
        0 <= i < s.len(),
    ensures
        assoc(s).contains_key(s[i].0),
        assoc(s)[s[i].0] == s[i].1,
    decreases s.len(),
{
    if i < s.len() - 1 {
        lemma_assoc_at(s.drop_last(), i);
    }
}

proof fn lemma_assoc_update<V>(s: Seq<(Seq<char>, V)>, i: int, v: V)
    requires
        distinct_keys(s),
        0 <= i < s.len(),
    ensures
        distinct_keys(s.update(i, (s[i].0, v))),
        assoc(s.update(i, (s[i].0, v))) == assoc(s).insert(s[i].0, v),
    decreases s.len(),
{
    let t = s.update(i, (s[i].0, v));
    if i == s.len() - 1 {
        assert(t.drop_last() =~= s.drop_last());
        assert(assoc(t) =~= assoc(s).insert(s[i].0, v));
    } else {
        lemma_assoc_update(s.drop_last(), i, v);
        assert(t.drop_last() =~= s.drop_last().update(i, (s[i].0, v)));
        assert(assoc(t) =~= assoc(s).insert(s[i].0, v));
    }
}

proof fn lemma_assoc_push<V>(s: Seq<(Seq<char>, V)>, k: Seq<char>, v: V)
    requires
        distinct_keys(s),
        forall|i: int| 0 <= i < s.len() ==> s[i].0 != k,
    ensures
        distinct_keys(s.push((k, v))),
        assoc(s.push((k, v))) == assoc(s).insert(k, v),
{
    assert(s.push((k, v)).drop_last() =~= s);
}

/// A map with updates applied in order: a later update of a property
/// replaces an earlier one.
pub open spec fn apply_updates(m: Map<Seq<char>, Seq<char>>, u: Seq<(Seq<char>, Seq<char>)>) -> Map<
    Seq<char>,
    Seq<char>,
>
    decreases u.len(),
{
    if u.len() == 0 {
        m
    } else {
        apply_updates(m, u.drop_last()).insert(u.last().0, u.last().1)
    }
}

/// The views of the properties of a group.
pub open spec fn props_view(s: Seq<(String, String)>) -> Seq<(Seq<char>, Seq<char>)> {
    s.map_values(|p: (String, String)| (p.0@, p.1@))
}

/// The views of the groups.
pub open spec fn groups_view(s: Seq<(String, Vec<(String, String)>)>) -> Seq<
    (Seq<char>, Map<Seq<char>, Seq<char>>),
> {
    s.map_values(|g: (String, Vec<(String, String)>)| (g.0@, assoc(props_view(g.1@))))
}

/// The views of property updates.
pub open spec fn updates_of(u: Seq<PropertyUpdate>) -> Seq<(Seq<char>, Seq<char>)> {
    u.map_values(|p: PropertyUpdate| (p.0@, p.1@))
}

/// Sets a property in a list of distinct properties.
fn set_prop(props: &mut Vec<(String, String)>, k: String, v: String)
    requires
        distinct_keys(props_view(old(props)@)),
    ensures
        distinct_keys(props_view(final(props)@)),
        assoc(props_view(final(props)@)) == assoc(props_view(old(props)@)).insert(k@, v@),
{
    let mut j: usize = 0;
    while j < props.len()
        invariant
            props@ == old(props)@,
            distinct_keys(props_view(old(props)@)),
            j <= props@.len(),
            forall|x: int| 0 <= x < j ==> props@[x].0@ != k@,
        decreases props@.len() - j,
    {
        if props[j].0 == k {
            let ghost before = props@;
            let _ = props.remove(j);
            props.insert(j, (k, v));
            proof {
                assert(props@ =~= before.update(j as int, (k, v)));
                assert(props_view(props@) =~= props_view(before).update(
                    j as int,
                    (props_view(before)[j as int].0, v@),
                ));
                lemma_assoc_update(props_view(before), j as int, v@);
            }
            return;
        }
        j += 1;
    }
    let ghost before = props@;
    proof {
        assert forall|x: int| 0 <= x < before.len() implies props_view(before)[x].0 != k@ by {
            assert(props_view(before)[x].0 == before[x].0@);
        }
        lemma_assoc_push(props_view(before), k@, v@);
    }
    props.push((k, v));
    assert(props_view(props@) =~= props_view(before).push((k@, v@)));
}

/// Group name to property name to value.
pub struct PropertyStore {
    groups: Vec<(String, Vec<(String, String)>)>,
}

impl PropertyStore {
    /// What the store holds.
    pub closed spec fn view(&self) -> Map<Seq<char>, Map<Seq<char>, Seq<char>>> {
        assoc(groups_view(self.groups@))
    }

    /// No group or property is held twice.
    pub closed spec fn wf(&self) -> bool {
        &&& distinct_keys(groups_view(self.groups@))
        &&& forall|i: int|
            0 <= i < self.groups@.len() ==> #[trigger] distinct_keys(
                props_view(self.groups@[i].1@),
            )
    }

    /// An empty store.
    pub fn new() -> (r: Self)
        ensures
            r.wf(),
            r.view() == Map::<Seq<char>, Map<Seq<char>, Seq<char>>>::empty(),
    {
        let r = PropertyStore { groups: Vec::new() };
        assert(groups_view(r.groups@) =~= Seq::empty());
        r
    }

    /// Forgets every group.
    pub fn clear(&mut self)
        ensures
            final(self).wf(),
            final(self).view() == Map::<Seq<char>, Map<Seq<char>, Seq<char>>>::empty(),
    {
        self.groups = Vec::new();
        assert(groups_view(self.groups@) =~= Seq::empty());
    }

    /// The properties of a group as they stand, or none.
    pub open spec fn group_or_empty(&self, group: Seq<char>) -> Map<Seq<char>, Seq<char>> {
        if self.view().contains_key(group) {
            self.view()[group]
        } else {
            Map::empty()
        }
    }

    /// Merges property updates into a group, creating the group if it is
    /// absent: each update in turn sets its property; other groups and the
    /// group's other properties are left as they were.
    pub fn put_properties(&mut self, group: &str, values: &Vec<PropertyUpdate>)
        requires
            old(self).wf(),
        ensures
            final(self).wf(),
            final(self).view() == old(self).view().insert(
                group@,
                apply_updates(old(self).group_or_empty(group@), updates_of(values@)),
            ),
    {
        let gi = match self.find_group(group) {
            Some(i) => {
                proof {
                    lemma_assoc_at(groups_view(self.groups@), i as int);
                    assert(groups_view(self.groups@)[i as int].0 == group@);
                }
                i
            },
            None => {
                proof {
                    assert forall|j: int| 0 <= j < self.groups@.len() implies groups_view(
                        self.groups@,
                    )[j].0 != group@ by {
                        assert(groups_view(self.groups@)[j].0 == self.groups@[j].0@);
                    }
                    lemma_assoc_domain(groups_view(self.groups@), group@);
                    lemma_assoc_push(
                        groups_view(self.groups@),
                        group@,
                        Map::<Seq<char>, Seq<char>>::empty(),
                    );
                }
                let ghost before = self.groups@;
                self.groups.push((group.to_owned(), Vec::new()));
                proof {
                    assert(props_view(Seq::<(String, String)>::empty()) =~= Seq::empty());
                    assert(groups_view(self.groups@) =~= groups_view(before).push(
                        (group@, Map::<Seq<char>, Seq<char>>::empty()),
                    ));
                    assert(distinct_keys(props_view(self.groups@.last().1@)));
                    assert forall|i: int| 0 <= i < self.groups@.len() implies #[trigger] distinct_keys(
                        props_view(self.groups@[i].1@),
                    ) by {
                        if i < before.len() {
                            assert(self.groups@[i] == before[i]);
                        }
                    }
                    lemma_assoc_at(groups_view(self.groups@), before.len() as int);
                }
                self.groups.len() - 1
            },
        };
        let ghost mid = self.groups@;
        let ghost start = self.view();
        assert(start.contains_key(group@));
        assert(start[group@] == old(self).group_or_empty(group@));
        let (name, mut props) = self.groups.remove(gi);
        assert(distinct_keys(props_view(mid[gi as int].1@)));
        let mut i: usize = 0;
        while i < values.len()
            invariant
                i <= values@.len(),
                distinct_keys(props_view(props@)),
                assoc(props_view(props@)) == apply_updates(
                    start[group@],
                    updates_of(values@).subrange(0, i as int),
                ),
            decreases values@.len() - i,
        {
            let k = values[i].0.clone();
            let v = values[i].1.clone();
            set_prop(&mut props, k, v);
            i += 1;
            assert(updates_of(values@).subrange(0, i as int).drop_last() =~= updates_of(
                values@,
            ).subrange(0, i - 1));
        }
        assert(updates_of(values@).subrange(0, i as int) =~= updates_of(values@));
        let ghost newv = props;
        let ghost newp = props@;
        self.groups.insert(gi, (name, props));
        proof {
            assert(self.groups@ =~= mid.update(gi as int, (name, newv)));
            lemma_assoc_update(groups_view(mid), gi as int, assoc(props_view(newp)));
            assert(groups_view(self.groups@) =~= groups_view(mid).update(
                gi as int,
                (groups_view(mid)[gi as int].0, assoc(props_view(newp))),
            ));
            assert forall|j: int| 0 <= j < self.groups@.len() implies #[trigger] distinct_keys(
                props_view(self.groups@[j].1@),
            ) by {
                if j != gi {
                    assert(self.groups@[j] == mid[j]);
                }
            }
            assert(self.view() =~= old(self).view().insert(
                group@,
                apply_updates(old(self).group_or_empty(group@), updates_of(values@)),
            ));
        }
    }

    fn find_group(&self, group: &str) -> (r: Option<usize>)
        ensures
            match r {
                Some(i) => i < self.groups@.len() && self.groups@[i as int].0@ == group@,
                None => forall|i: int| 0 <= i < self.groups@.len() ==> self.groups@[i].0@ != group@,
            },
    {
        let mut i: usize = 0;
        while i < self.groups.len()
            invariant
                i <= self.groups@.len(),
                forall|j: int| 0 <= j < i ==> self.groups@[j].0@ != group@,
            decreases self.groups@.len() - i,
        {
            if self.groups[i].0.as_str().to_owned() == group.to_owned() {
                return Some(i);
            }
            i += 1;
        }
        None
    }

    /// The value of a property of a group, if known.
    pub fn get(&self, group: &str, prop: &str) -> (r: Option<String>)
        requires
            self.wf(),
        ensures
            match r {
                Some(v) => self.view().contains_key(group@) && self.view()[group@].contains_key(
                    prop@,
                ) && self.view()[group@][prop@] == v@,
                None => !self.view().contains_key(group@) || !self.view()[group@].contains_key(
                    prop@,
                ),
            },
    {
        match self.find_group(group) {
            None => {
                proof {
                    lemma_assoc_domain(groups_view(self.groups@), group@);
                    assert forall|j: int| 0 <= j < self.groups@.len() implies groups_view(
                        self.groups@,
                    )[j].0 != group@ by {
                        assert(groups_view(self.groups@)[j].0 == self.groups@[j].0@);
                    }
                }
                None
            },
            Some(gi) => {
                proof {
                    lemma_assoc_at(groups_view(self.groups@), gi as int);
                    assert(groups_view(self.groups@)[gi as int].0 == group@);
                }
                let props = &self.groups[gi].1;
                assert(distinct_keys(props_view(self.groups@[gi as int].1@)));
                let mut i: usize = 0;
                while i < props.len()
                    invariant
                        i <= props@.len(),
                        gi < self.groups@.len(),
                        props@ == self.groups@[gi as int].1@,
                        distinct_keys(props_view(props@)),
                        self.view().contains_key(group@),
                        self.view()[group@] == assoc(props_view(props@)),
                        forall|j: int| 0 <= j < i ==> props@[j].0@ != prop@,
                    decreases props@.len() - i,
                {
                    if props[i].0.as_str().to_owned() == prop.to_owned() {
                        proof {
                            lemma_assoc_at(props_view(props@), i as int);
                            assert(props_view(props@)[i as int].0 == prop@);
                        }
                        return Some(props[i].1.clone());
                    }
                    i += 1;
                }
                proof {
                    lemma_assoc_domain(props_view(props@), prop@);
                    assert forall|j: int| 0 <= j < props@.len() implies props_view(props@)[j].0
                        != prop@ by {
                        assert(props_view(props@)[j].0 == props@[j].0@);
                    }
                }
                None
            },
        }
    }
}

} // verus!
