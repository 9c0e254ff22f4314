use vstd::prelude::*;

use std::collections::BTreeMap;

use crate::schema::{RelationField, ScalarField};

use vstd::std_specs::btree::{increasing_seq, spec_keys_iter};
use vstd::std_specs::iter::IteratorSpec;

verus! {

/// A field together with the conditions that link records through it.
///
/// `C` is the type of a condition on a scalar field.
#[derive(Debug)]
pub struct ConditionalLink<C> {
    field: ScalarField,
    conditions: Vec<C>,
}

impl<C> ConditionalLink<C> {
    pub closed spec fn spec_field(&self) -> ScalarField {
        self.field
    }

    pub closed spec fn spec_conditions(&self) -> Seq<C> {
        self.conditions@
    }

    pub fn new(field: ScalarField, conditions: Vec<C>) -> (r: Self)
        ensures
            r.spec_field() == field,
            r.spec_conditions() == conditions@,
    {
        Self { field, conditions }
    }

    pub fn field(&self) -> (r: &ScalarField)
        ensures
            *r == self.spec_field(),
    {
        &self.field
    }

    pub fn into_field_and_conditions(self) -> (r: (ScalarField, Vec<C>))
        ensures
            r.0 == self.spec_field(),
            r.1@ == self.spec_conditions(),
    {
        (self.field, self.conditions)
    }
}

/// The conditions that a sequence of links puts on each field, by field id: where
/// a field occurs in several links, the last of them counts.
pub open spec fn links_conditions<C>(links: Seq<ConditionalLink<C>>) -> Map<u64, Seq<C>>
    decreases links.len(),
{
    if links.len() == 0 {
        Map::empty()
    } else {
        links_conditions(links.drop_last()).insert(
            links.last().spec_field().id,
            links.last().spec_conditions(),
        )
    }
}

/// The fields that a sequence of links puts conditions on are exactly the
/// fields of the links.
pub proof fn lemma_links_conditions_fields<C>(links: Seq<ConditionalLink<C>>, id: u64)
    ensures
        links_conditions(links).contains_key(id) <==> exists|i: int|
            0 <= i < links.len() && (#[trigger] links[i]).spec_field().id == id,
    decreases links.len(),
{
    if links.len() > 0 {
        let init = links.drop_last();
        lemma_links_conditions_fields(init, id);
        if links_conditions(init).contains_key(id) {
            let i = choose|i: int| 0 <= i < init.len() && (#[trigger] init[i]).spec_field().id == id;
            assert(links[i] == init[i]);
        }
        if exists|i: int| 0 <= i < links.len() && (#[trigger] links[i]).spec_field().id == id {
            let i = choose|i: int| 0 <= i < links.len() && (#[trigger] links[i]).spec_field().id == id;
            if i < links.len() - 1 {
                assert(init[i] == links[i]);
            }
        }
    }
}

/// The conditions that a sequence of links puts on a field are those of the
/// last link for that field.
pub proof fn lemma_links_conditions_last_wins<C>(links: Seq<ConditionalLink<C>>, i: int)
    requires
        0 <= i < links.len(),
        forall|j: int| i < j < links.len() ==> (#[trigger] links[j]).spec_field().id != links[i].spec_field().id,
    ensures
        links_conditions(links).contains_key(links[i].spec_field().id),
        links_conditions(links)[links[i].spec_field().id] == links[i].spec_conditions(),
    decreases links.len(),
{
    if i < links.len() - 1 {
        let init = links.drop_last();
        assert forall|j: int| i < j < init.len() implies (#[trigger] init[j]).spec_field().id != init[i].spec_field().id by {
            assert(init[j] == links[j]);
        }
        lemma_links_conditions_last_wins(init, i);
        assert(links.last() == links[links.len() - 1]);
    }
}

/// Whether a sequence of numbers is strictly increasing.
pub open spec fn strictly_increasing(s: Seq<u64>) -> bool {
    forall|i: int, j: int| 0 <= i < j < s.len() ==> s[i] < s[j]
}

/// The keys of a map, as its key iterator yields them, are strictly increasing.
proof fn lemma_keys_strictly_increasing<V>(m: &BTreeMap<u64, V>)
    ensures
        strictly_increasing(spec_keys_iter(m).remaining().map_values(|k: &u64| *k)),
{
    let r = spec_keys_iter(m).remaining();
    let s = r.map_values(|k: &u64| *k);
    assert(increasing_seq(r));
    assert(vstd::laws_cmp::obeys_cmp::<&u64>());
    assert forall|i: int, j: int| 0 <= i < j < s.len() implies s[i] < s[j] by {
        assert(vstd::std_specs::cmp::OrdSpec::cmp_spec(&r[i], &r[j]) is Less);
    }
}

/// A relation field together with the conditions, by scalar field, under which
/// records are linked through it.
#[derive(Debug)]
pub struct RelationLinkage<C> {
    parent_field: RelationField,
    conditions: BTreeMap<u64, Vec<C>>,
}

impl<C> RelationLinkage<C> {
    pub closed spec fn spec_parent_field(&self) -> RelationField {
        self.parent_field
    }

    /// The conditions on each scalar field, by field id.
    pub closed spec fn condition_map(&self) -> Map<u64, Seq<C>> {
        self.conditions@.map_values(|v: Vec<C>| v@)
    }

    pub fn new(field: RelationField, links: Vec<ConditionalLink<C>>) -> (r: Self)
        ensures
            r.spec_parent_field() == field,
            r.condition_map() == links_conditions(links@),
    {
        let ghost all = links@;
        let mut links = links;
        let mut conditions: BTreeMap<u64, Vec<C>> = BTreeMap::new();
        // Links are taken from the back; the last link for a field is the one
        // that counts, so a field already present keeps its conditions.
        while links.len() > 0
            invariant
                links@ == all.take(links.len() as int),
                links.len() <= all.len(),
                links_conditions(all) == links_conditions(links@).union_prefer_right(
                    conditions@.map_values(|v: Vec<C>| v@),
                ),
            decreases links.len(),
        {
            let ghost before = conditions@;
            let ghost rest = links@;
            let link = links.pop().unwrap();
            let (field_of_link, conds) = link.into_field_and_conditions();
            if !conditions.contains_key(&field_of_link.id) {
                conditions.insert(field_of_link.id, conds);
            }
            proof {
                assert(rest.drop_last() =~= links@);
                assert(links@ =~= all.take(links.len() as int));
                assert(links_conditions(rest) == links_conditions(links@).insert(
                    field_of_link.id,
                    conds@,
                ));
                assert(links_conditions(all) =~= links_conditions(links@).union_prefer_right(
                    conditions@.map_values(|v: Vec<C>| v@),
                ));
            }
        }
        proof {
            assert(links_conditions(links@) =~= Map::empty());
            assert(links_conditions(all) =~= conditions@.map_values(|v: Vec<C>| v@));
        }
        Self { parent_field: field, conditions }
    }

    pub fn parent_field(&self) -> (r: &RelationField)
        ensures
            *r == self.spec_parent_field(),
    {
        &self.parent_field
    }

    /// Add a condition on a field, after the conditions that the field already
    /// has.
    pub fn add_condition(&mut self, field: ScalarField, condition: C)
        ensures
            final(self).spec_parent_field() == old(self).spec_parent_field(),
            final(self).condition_map() == old(self).condition_map().insert(
                field.id,
                (if old(self).condition_map().contains_key(field.id) {
                    old(self).condition_map()[field.id]
                } else {
                    Seq::empty()
                }).push(condition),
            ),
    {
        let mut list = match self.conditions.remove(&field.id) {
            Some(list) => list,
            None => Vec::new(),
        };
        list.push(condition);
        self.conditions.insert(field.id, list);
        proof {
            assert(self.condition_map() =~= old(self).condition_map().insert(
                field.id,
                (if old(self).condition_map().contains_key(field.id) {
                    old(self).condition_map()[field.id]
                } else {
                    Seq::empty()
                }).push(condition),
            ));
        }
    }

    /// The relation field, and each field with its conditions in increasing
    /// order of field id.
    pub fn into_parent_field_and_conditions(self) -> (r: (RelationField, Vec<(ScalarField, Vec<C>)>))
        ensures
            r.0 == self.spec_parent_field(),
            r.1.len() == self.condition_map().dom().len(),
            strictly_increasing(r.1@.map_values(|p: (ScalarField, Vec<C>)| p.0.id)),
            forall|k: u64|
                self.condition_map().contains_key(k) <==> exists|i: int|
                    0 <= i < r.1.len() && #[trigger] r.1@[i].0.id == k,
            forall|i: int|
                0 <= i < r.1.len() ==> self.condition_map().contains_key(#[trigger] r.1@[i].0.id)
                    && self.condition_map()[r.1@[i].0.id] == r.1@[i].1@,
    {
        let ghost start = self.conditions@;
        let ghost cmap = self.condition_map();
        let mut conditions = self.conditions;
        let ghost key_seq = spec_keys_iter(&conditions).remaining().map_values(|k: &u64| *k);
        let mut keys: Vec<u64> = Vec::new();
        for k in it: conditions.keys()
            invariant
                it.seq() == spec_keys_iter(&conditions).remaining(),
                keys@ == it.seq().take(it.index() as int).map_values(|k: &u64| *k),
        {
            keys.push(*k);
        }
        proof {
            assert(keys@ =~= key_seq);
            assert(key_seq.to_set() =~= start.dom()) by {
                assert(spec_keys_iter(&conditions).remaining().unref() =~= key_seq);
            }
            assert(key_seq.no_duplicates()) by {
                assert(spec_keys_iter(&conditions).remaining().no_duplicates());
            }
            lemma_keys_strictly_increasing(&conditions);
            assert(cmap.dom() =~= start.dom());
        }
        let mut out: Vec<(ScalarField, Vec<C>)> = Vec::new();
        let n = keys.len();
        for i in 0..n
            invariant
                n == keys.len(),
                keys@ == key_seq,
                key_seq.no_duplicates(),
                key_seq.to_set() == start.dom(),
                out.len() == i,
                forall|j: int| 0 <= j < i ==> #[trigger] out@[j].0.id == keys@[j],
                forall|j: int|
                    0 <= j < i ==> start.contains_key(keys@[j]) && start[keys@[j]]@
                        == #[trigger] out@[j].1@,
                forall|j: int|
                    i <= j < n ==> conditions@.contains_key(#[trigger] keys@[j])
                        && conditions@[keys@[j]] == start[keys@[j]],
        {
            let k = keys[i];
            let v = conditions.remove(&k).unwrap();
            out.push((ScalarField { id: k }, v));
        }
        proof {
            assert forall|k: u64| cmap.contains_key(k) implies exists|i: int|
                0 <= i < out.len() && #[trigger] out@[i].0.id == k by {
                assert(key_seq.to_set().contains(k));
                let j = choose|j: int| 0 <= j < key_seq.len() && key_seq[j] == k;
                assert(out@[j].0.id == k);
            }
            assert forall|i: int| 0 <= i < out.len() implies cmap.contains_key(
                #[trigger] out@[i].0.id,
            ) by {
                assert(key_seq.to_set().contains(key_seq[i]));
            }
        }
        (self.parent_field, out)
    }

    /// The relation and model that the linkage belongs to, written
    /// `relation@model`.
    pub fn to_string(&self) -> (r: String)
        ensures
            r@ == self.spec_parent_field().relation_name@ + seq!['@'] + self.spec_parent_field().model_name@,
    {
        let mut out = String::new();
        out.append(self.parent_field.relation_name.as_str());
        proof {
            reveal_strlit("@");
            assert("@"@ =~= seq!['@']);
        }
        out.append("@");
        out.append(self.parent_field.model_name.as_str());
        proof {
            assert(out@ =~= self.spec_parent_field().relation_name@ + seq!['@'] + self.spec_parent_field().model_name@);
        }
        out
    }
}

} // verus!
