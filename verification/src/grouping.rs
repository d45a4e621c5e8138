//! Rows that come from the store one by one, gathered under what they belong
//! to.

use vstd::prelude::*;
use vstd::string::StringExecFns;
use crate::schema::{
    IncredientFilterObjectNoName,
    IngredientFilterList,
    IngredientsForDrink,
    LinkedRecipeTag,
    RecipePart,
    RecipePartNoId,
};
use crate::text::join;

verus! {

/// The place of the group of `id` among `groups`, if there is one.
pub open spec fn group_at<V>(groups: Seq<(i32, Seq<V>)>, id: i32) -> Option<int>
    decreases groups.len(),
{
    if groups.len() == 0 {
        None
    } else {
        match group_at(groups.drop_last(), id) {
            Some(k) => Some(k),
            None => if groups.last().0 == id {
                Some(groups.len() - 1)
            } else {
                None
            },
        }
    }
}

/// The rows gathered by their id: a row goes to the end of the group of its
/// id, and opens a group behind the others where there is none yet.
pub open spec fn grouped<V>(rows: Seq<(i32, V)>) -> Seq<(i32, Seq<V>)>
    decreases rows.len(),
{
    if rows.len() == 0 {
        Seq::empty()
    } else {
        let before = grouped(rows.drop_last());
        let (id, value) = rows.last();
        match group_at(before, id) {
            Some(k) => before.update(k, (id, before[k].1.push(value))),
            None => before.push((id, seq![value])),
        }
    }
}

/// The values of `rows` that stand under `id`, in their order.
pub open spec fn values_of<V>(rows: Seq<(i32, V)>, id: i32) -> Seq<V>
    decreases rows.len(),
{
    if rows.len() == 0 {
        Seq::empty()
    } else if rows.last().0 == id {
        values_of(rows.drop_last(), id).push(rows.last().1)
    } else {
        values_of(rows.drop_last(), id)
    }
}

/// Where `group_at` finds a group, it is a group of that id, and the first of
/// them; where it finds none, there is none.
pub proof fn lemma_group_at<V>(groups: Seq<(i32, Seq<V>)>, id: i32)
    ensures
        match group_at(groups, id) {
            Some(k) => 0 <= k < groups.len() && groups[k].0 == id && forall|j: int|
                0 <= j < k ==> (#[trigger] groups[j]).0 != id,
            None => forall|j: int| 0 <= j < groups.len() ==> (#[trigger] groups[j]).0 != id,
        },
    decreases groups.len(),
{
    if groups.len() > 0 {
        lemma_group_at(groups.drop_last(), id);
        assert forall|j: int| 0 <= j < groups.len() - 1 implies groups[j]
            == groups.drop_last()[j] by {}
    }
}

/// No values stand under an id that no row carries.
pub proof fn lemma_values_absent<V>(rows: Seq<(i32, V)>, id: i32)
    requires
        forall|r: int| 0 <= r < rows.len() ==> (#[trigger] rows[r]).0 != id,
    ensures
        values_of(rows, id) == Seq::<V>::empty(),
    decreases rows.len(),
{
    if rows.len() > 0 {
        assert forall|r: int| 0 <= r < rows.len() - 1 implies (#[trigger] rows.drop_last()[r]).0
            != id by {
            assert(rows.drop_last()[r] == rows[r]);
        }
        lemma_values_absent(rows.drop_last(), id);
    }
}

/// Gathering loses and invents nothing: no id heads two groups, every group
/// holds exactly the values of the rows of its id, in their order, and every
/// row's id heads a group.
pub proof fn law_grouped<V>(rows: Seq<(i32, V)>)
    ensures
        forall|i: int, j: int|
            0 <= i < j < grouped(rows).len() ==> (#[trigger] grouped(rows)[i]).0 != (
            #[trigger] grouped(rows)[j]).0,
        forall|i: int|
            0 <= i < grouped(rows).len() ==> (#[trigger] grouped(rows)[i]).1 == values_of(
                rows,
                grouped(rows)[i].0,
            ),
        forall|r: int| 0 <= r < rows.len() ==> group_at(grouped(rows), (#[trigger] rows[r]).0) is Some,
    decreases rows.len(),
{
    if rows.len() > 0 {
        let before = grouped(rows.drop_last());
        let (id, value) = rows.last();
        law_grouped(rows.drop_last());
        lemma_group_at(before, id);
        let now = grouped(rows);
        assert forall|i: int| 0 <= i < now.len() implies (#[trigger] now[i]).1 == values_of(
            rows,
            now[i].0,
        ) by {
            if i < before.len() {
                assert(before[i].1 == values_of(rows.drop_last(), before[i].0));
                match group_at(before, id) {
                    Some(k) => {
                        if i != k {
                            assert(before[i].0 != before[k].0);
                        }
                    },
                    None => {},
                }
            } else {
                assert(group_at(before, id) is None);
                assert forall|r: int| 0 <= r < rows.drop_last().len() implies (
                #[trigger] rows.drop_last()[r]).0 != id by {
                    if rows.drop_last()[r].0 == id {
                        assert(group_at(before, rows.drop_last()[r].0) is Some);
                    }
                }
                lemma_values_absent(rows.drop_last(), id);
            }
        }
        assert forall|r: int| 0 <= r < rows.len() implies group_at(
            now,
            (#[trigger] rows[r]).0,
        ) is Some by {
            let wanted = rows[r].0;
            lemma_group_at(now, wanted);
            if r < rows.len() - 1 {
                assert(rows.drop_last()[r] == rows[r]);
                lemma_group_at(before, wanted);
                let k = group_at(before, wanted)->0;
                assert(now[k].0 == wanted);
            } else {
                match group_at(before, id) {
                    Some(k) => {
                        assert(now[k].0 == id);
                    },
                    None => {
                        assert(now[now.len() - 1].0 == id);
                    },
                }
            }
        }
    }
}

/// The values of the groups of a vector of groups.
pub open spec fn groups_view<V>(groups: Seq<(i32, Vec<V>)>) -> Seq<(i32, Seq<V>)> {
    Seq::new(groups.len(), |i: int| (groups[i].0, groups[i].1@))
}

/// Gathers rows by their id, keeping the order in which ids first occur and
/// the order of the rows under each id.
pub fn group_by_id<V>(rows: Vec<(i32, V)>) -> (groups: Vec<(i32, Vec<V>)>)
    ensures
        groups_view(groups@) == grouped(rows@),
{
    let ghost all = rows@;
    let mut rows = rows;
    let mut reversed: Vec<(i32, V)> = Vec::new();
    while rows.len() > 0
        invariant
            rows@.len() + reversed@.len() == all.len(),
            forall|i: int| 0 <= i < rows@.len() ==> rows@[i] == all[i],
            forall|i: int|
                0 <= i < reversed@.len() ==> reversed@[i] == all[all.len() - 1 - i],
        decreases rows@.len(),
    {
        let row = rows.pop().unwrap();
        reversed.push(row);
    }
    let mut groups: Vec<(i32, Vec<V>)> = Vec::new();
    assert(all.take(0) =~= Seq::empty());
    assert(groups_view(groups@) =~= grouped(all.take(0)));
    while reversed.len() > 0
        invariant
            reversed@.len() <= all.len(),
            forall|i: int|
                0 <= i < reversed@.len() ==> reversed@[i] == all[all.len() - 1 - i],
            groups_view(groups@) == grouped(all.take(all.len() - reversed@.len())),
        decreases reversed@.len(),
    {
        let ghost done = all.len() - reversed@.len();
        let ghost before = groups_view(groups@);
        let row = reversed.pop().unwrap();
        assert(row == all[done]);
        let id = row.0;
        let value = row.1;
        proof {
            assert(all.take(done + 1).drop_last() =~= all.take(done));
            assert(all.take(done + 1).last() == all[done]);
            lemma_group_at(before, id);
        }
        let mut k: usize = 0;
        let mut found = false;
        while k < groups.len() && !found
            invariant
                k <= groups@.len(),
                before == groups_view(groups@),
                forall|j: int| 0 <= j < k && !(found && j == k - 1) ==> (#[trigger] before[j]).0 != id,
                found ==> 0 < k && before[k - 1].0 == id,
            decreases groups@.len() - k + if found { 0int } else { 1int },
        {
            if groups[k].0 == id {
                assert(before[k as int].0 == id);
                found = true;
            }
            k = k + 1;
        }
        if found {
            let at: usize = k - 1;
            assert(group_at(before, id) == Some(at as int));
            let mut values: Vec<V> = Vec::new();
            let slot = &mut groups[at];
            core::mem::swap(&mut slot.1, &mut values);
            values.push(value);
            groups.set(at, (id, values));
            assert(groups_view(groups@) =~= before.update(
                at as int,
                (id, before[at as int].1.push(value)),
            ));
        } else {
            assert(group_at(before, id) is None);
            let mut values: Vec<V> = Vec::new();
            values.push(value);
            groups.push((id, values));
            assert(groups_view(groups@) =~= before.push((id, seq![value])));
        }
    }
    assert(all.take(all.len() as int) =~= all);
    groups
}

/// The rows of the product filters as pairs of ingredient and product.
pub open spec fn filter_rows(rows: Seq<IncredientFilterObjectNoName>) -> Seq<(i32, i32)> {
    Seq::new(rows.len(), |i: int| (rows[i].incredient_id, rows[i].product_id))
}

/// The ingredients and products of a sequence of filter lists.
pub open spec fn filter_lists_view(lists: Seq<IngredientFilterList>) -> Seq<(i32, Seq<i32>)> {
    Seq::new(lists.len(), |i: int| (lists[i].ingredient_id, lists[i].product_ids@))
}

/// Gathers the rows of the product filters into one list of products for each
/// ingredient. The ingredients stand in the order in which the rows first
/// name them, the products of each in the order of the rows.
pub fn gather_product_filters(rows: &Vec<IncredientFilterObjectNoName>) -> (lists: Vec<
    IngredientFilterList,
>)
    ensures
        filter_lists_view(lists@) == grouped(filter_rows(rows@)),
{
    let mut pairs: Vec<(i32, i32)> = Vec::new();
    let mut i: usize = 0;
    while i < rows.len()
        invariant
            i <= rows@.len(),
            pairs@ == filter_rows(rows@).take(i as int),
        decreases rows@.len() - i,
    {
        pairs.push((rows[i].incredient_id, rows[i].product_id));
        assert(pairs@ =~= filter_rows(rows@).take(i + 1));
        i = i + 1;
    }
    assert(filter_rows(rows@).take(rows@.len() as int) =~= filter_rows(rows@));
    let mut groups = group_by_id(pairs);
    let ghost wanted = groups_view(groups@);
    let mut reversed: Vec<IngredientFilterList> = Vec::new();
    while groups.len() > 0
        invariant
            groups@.len() + reversed@.len() == wanted.len(),
            forall|j: int|
                0 <= j < groups@.len() ==> (groups@[j].0, groups@[j].1@) == #[trigger] wanted[j],
            forall|j: int|
                0 <= j < reversed@.len() ==> ((#[trigger] reversed@[j]).ingredient_id, reversed@[j].product_ids@)
                    == wanted[wanted.len() - 1 - j],
        decreases groups@.len(),
    {
        let group = groups.pop().unwrap();
        reversed.push(IngredientFilterList { ingredient_id: group.0, product_ids: group.1 });
    }
    let mut lists: Vec<IngredientFilterList> = Vec::new();
    while reversed.len() > 0
        invariant
            lists@.len() + reversed@.len() == wanted.len(),
            forall|j: int|
                0 <= j < reversed@.len() ==> ((#[trigger] reversed@[j]).ingredient_id, reversed@[j].product_ids@)
                    == wanted[wanted.len() - 1 - j],
            forall|j: int|
                0 <= j < lists@.len() ==> ((#[trigger] lists@[j]).ingredient_id, lists@[j].product_ids@)
                    == wanted[j],
        decreases reversed@.len(),
    {
        let list = reversed.pop().unwrap();
        lists.push(list);
    }
    assert(filter_lists_view(lists@) =~= wanted);
    lists
}

/// The parts of recipes as pairs of the recipe and the part without it.
pub open spec fn part_rows(rows: Seq<RecipePart>) -> Seq<(i32, RecipePartNoId)> {
    Seq::new(
        rows.len(),
        |i: int|
            (
                rows[i].recipe_id,
                RecipePartNoId {
                    ingredient_id: rows[i].incredient_id,
                    amount: rows[i].amount,
                    name: rows[i].name,
                    unit: rows[i].unit,
                },
            ),
    )
}

/// The recipes and parts of a sequence of lists of ingredients.
pub open spec fn drinks_view(drinks: Seq<IngredientsForDrink>) -> Seq<(i32, Seq<RecipePartNoId>)> {
    Seq::new(drinks.len(), |i: int| (drinks[i].recipe_id, drinks[i].recipe_parts@))
}

/// Gathers the parts of all recipes into one list of parts for each recipe.
/// The recipes stand in the order in which the rows first name them, the
/// parts of each in the order of the rows.
pub fn gather_recipe_parts(rows: &Vec<RecipePart>) -> (drinks: Vec<IngredientsForDrink>)
    ensures
        drinks_view(drinks@) == grouped(part_rows(rows@)),
{
    let mut pairs: Vec<(i32, RecipePartNoId)> = Vec::new();
    let mut i: usize = 0;
    while i < rows.len()
        invariant
            i <= rows@.len(),
            pairs@ == part_rows(rows@).take(i as int),
        decreases rows@.len() - i,
    {
        let row = &rows[i];
        pairs.push(
            (
                row.recipe_id,
                RecipePartNoId {
                    ingredient_id: row.incredient_id,
                    amount: row.amount,
                    name: row.name.clone(),
                    unit: row.unit,
                },
            ),
        );
        assert(pairs@ =~= part_rows(rows@).take(i + 1));
        i = i + 1;
    }
    assert(part_rows(rows@).take(rows@.len() as int) =~= part_rows(rows@));
    let mut groups = group_by_id(pairs);
    let ghost wanted = groups_view(groups@);
    let mut reversed: Vec<IngredientsForDrink> = Vec::new();
    while groups.len() > 0
        invariant
            groups@.len() + reversed@.len() == wanted.len(),
            forall|j: int|
                0 <= j < groups@.len() ==> (groups@[j].0, groups@[j].1@) == #[trigger] wanted[j],
            forall|j: int|
                0 <= j < reversed@.len() ==> ((#[trigger] reversed@[j]).recipe_id, reversed@[j].recipe_parts@)
                    == wanted[wanted.len() - 1 - j],
        decreases groups@.len(),
    {
        let group = groups.pop().unwrap();
        reversed.push(IngredientsForDrink { recipe_id: group.0, recipe_parts: group.1 });
    }
    let mut drinks: Vec<IngredientsForDrink> = Vec::new();
    while reversed.len() > 0
        invariant
            drinks@.len() + reversed@.len() == wanted.len(),
            forall|j: int|
                0 <= j < reversed@.len() ==> ((#[trigger] reversed@[j]).recipe_id, reversed@[j].recipe_parts@)
                    == wanted[wanted.len() - 1 - j],
            forall|j: int|
                0 <= j < drinks@.len() ==> ((#[trigger] drinks@[j]).recipe_id, drinks@[j].recipe_parts@)
                    == wanted[j],
        decreases reversed@.len(),
    {
        let drink = reversed.pop().unwrap();
        drinks.push(drink);
    }
    assert(drinks_view(drinks@) =~= wanted);
    drinks
}

/// The names of a sequence of tags of a recipe.
pub open spec fn tag_names(tags: Seq<LinkedRecipeTag>) -> Seq<Seq<char>> {
    Seq::new(tags.len(), |i: int| tags[i].tag_name@)
}

/// The tags of a recipe as the recipe's row keeps them: their names with a
/// bar between each two.
pub fn tag_list(tags: &Vec<LinkedRecipeTag>) -> (text: String)
    ensures
        text@ == join(tag_names(tags@), "|"@),
{
    let mut text = String::new();
    let mut i: usize = 0;
    assert(tag_names(tags@).take(0) =~= Seq::<Seq<char>>::empty());
    while i < tags.len()
        invariant
            i <= tags@.len(),
            text@ == join(tag_names(tags@).take(i as int), "|"@),
        decreases tags@.len() - i,
    {
        let ghost before = text@;
        let ghost upto = tag_names(tags@).take(i + 1);
        if i > 0 {
            text.append("|");
        }
        text.append(tags[i].tag_name.as_str());
        proof {
            assert(upto.drop_last() =~= tag_names(tags@).take(i as int));
            assert(upto.last() == tags@[i as int].tag_name@);
            if i == 0 {
                assert(text@ =~= upto[0]);
            } else {
                assert(text@ =~= before + "|"@ + upto.last());
            }
        }
        i = i + 1;
    }
    assert(tag_names(tags@).take(tags@.len() as int) =~= tag_names(tags@));
    text
}

/// One owner's share of a mixer in a cabinet. The amount is not known for
/// every share.
#[derive(Clone, Copy, Debug, PartialEq, Eq, Structural)]
pub struct MixerShare {
    pub incredient_id: i32,
    pub owner_id: i32,
    pub amount: Option<i32>,
}

/// A mixer in a cabinet with all who own some of it.
#[derive(Debug)]
pub struct MixerOwners {
    pub incredient_id: i32,
    /// The owners, in the order of their shares.
    pub owners: Vec<i32>,
    /// The shares whose amount counts, in their order: the first share, and
    /// every later one of a known amount.
    pub shares: Vec<(i32, Option<i32>)>,
    /// The amount at hand, if it is known.
    pub amount: Option<i32>,
}

/// The mathematical value of a [`MixerOwners`].
pub ghost struct Owners {
    pub incredient_id: i32,
    pub owners: Seq<i32>,
    pub shares: Seq<(i32, Option<i32>)>,
    pub amount: Option<i32>,
}

impl View for MixerOwners {
    type V = Owners;

    open spec fn view(&self) -> Owners {
        Owners {
            incredient_id: self.incredient_id,
            owners: self.owners@,
            shares: self.shares@,
            amount: self.amount,
        }
    }
}

/// The values of a sequence of mixers with their owners.
pub open spec fn owners_view(mixers: Seq<MixerOwners>) -> Seq<Owners> {
    Seq::new(mixers.len(), |i: int| mixers[i]@)
}

impl Owners {
    /// The mixer of which `share` is the first share.
    pub open spec fn opened(share: MixerShare) -> Owners {
        Owners {
            incredient_id: share.incredient_id,
            owners: seq![share.owner_id],
            shares: seq![(share.owner_id, share.amount)],
            amount: share.amount,
        }
    }

    /// The amount at hand once a further share is counted: a share of an
    /// unknown amount leaves the amount unknown; a share of a known amount is
    /// added to the amount, or becomes the amount where that was unknown.
    pub open spec fn total(self, share: MixerShare) -> Option<int> {
        match share.amount {
            None => None,
            Some(amount) => match self.amount {
                Some(before) => Some(before + amount),
                None => Some(amount as int),
            },
        }
    }

    /// The mixer once a further share is counted, or `None` where the amount
    /// would not fit in 32 bits.
    pub open spec fn joined(self, share: MixerShare) -> Option<Owners> {
        let total = self.total(share);
        if total is Some && !(i32::MIN <= total->0 <= i32::MAX) {
            None
        } else {
            Some(
                Owners {
                    incredient_id: self.incredient_id,
                    owners: self.owners.push(share.owner_id),
                    shares: if share.amount is Some {
                        self.shares.push((share.owner_id, share.amount))
                    } else {
                        self.shares
                    },
                    amount: match total {
                        Some(t) => Some(t as i32),
                        None => None,
                    },
                },
            )
        }
    }
}

/// The place of the mixer of `id` among `mixers`, if it is there.
pub open spec fn mixer_at(mixers: Seq<Owners>, id: i32) -> Option<int>
    decreases mixers.len(),
{
    if mixers.len() == 0 {
        None
    } else {
        match mixer_at(mixers.drop_last(), id) {
            Some(k) => Some(k),
            None => if mixers.last().incredient_id == id {
                Some(mixers.len() - 1)
            } else {
                None
            },
        }
    }
}

/// The shares gathered into mixers with their owners: a share joins the
/// mixer of its ingredient, or opens one behind the others. `None` where an
/// amount does not fit in 32 bits on the way.
pub open spec fn owned(shares: Seq<MixerShare>) -> Option<Seq<Owners>>
    decreases shares.len(),
{
    if shares.len() == 0 {
        Some(Seq::empty())
    } else {
        match owned(shares.drop_last()) {
            None => None,
            Some(before) => match mixer_at(before, shares.last().incredient_id) {
                None => Some(before.push(Owners::opened(shares.last()))),
                Some(k) => match before[k].joined(shares.last()) {
                    Some(grown) => Some(before.update(k, grown)),
                    None => None,
                },
            },
        }
    }
}

/// Where `mixer_at` finds a mixer, it is the first of that ingredient; where
/// it finds none, there is none.
pub proof fn lemma_mixer_at(mixers: Seq<Owners>, id: i32)
    ensures
        match mixer_at(mixers, id) {
            Some(k) => 0 <= k < mixers.len() && mixers[k].incredient_id == id && forall|j: int|
                0 <= j < k ==> (#[trigger] mixers[j]).incredient_id != id,
            None => forall|j: int|
                0 <= j < mixers.len() ==> (#[trigger] mixers[j]).incredient_id != id,
        },
    decreases mixers.len(),
{
    if mixers.len() > 0 {
        lemma_mixer_at(mixers.drop_last(), id);
        assert forall|j: int| 0 <= j < mixers.len() - 1 implies mixers[j]
            == mixers.drop_last()[j] by {}
    }
}

/// What the optional result of a gathering stands for.
pub open spec fn owned_view(mixers: Option<Vec<MixerOwners>>) -> Option<Seq<Owners>> {
    match mixers {
        Some(mixers) => Some(owners_view(mixers@)),
        None => None,
    }
}

/// Gathers the shares of the mixers of a cabinet into one entry for each
/// mixer, with its owners and the amount at hand. `None` where an amount does
/// not fit in 32 bits on the way.
pub fn list_cabinet_mixers(shares: &Vec<MixerShare>) -> (mixers: Option<Vec<MixerOwners>>)
    ensures
        owned_view(mixers) == owned(shares@),
{
    let mut mixers: Vec<MixerOwners> = Vec::new();
    let mut i: usize = 0;
    assert(shares@.take(0) =~= Seq::<MixerShare>::empty());
    assert(owners_view(mixers@) =~= Seq::<Owners>::empty());
    while i < shares.len()
        invariant
            i <= shares@.len(),
            owned(shares@.take(i as int)) == Some(owners_view(mixers@)),
        decreases shares@.len() - i,
    {
        let share = shares[i];
        let ghost before = owners_view(mixers@);
        proof {
            assert(shares@.take(i + 1).drop_last() =~= shares@.take(i as int));
            assert(shares@.take(i + 1).last() == share);
            lemma_mixer_at(before, share.incredient_id);
        }
        let mut k: usize = 0;
        let mut found = false;
        while k < mixers.len() && !found
            invariant
                k <= mixers@.len(),
                before == owners_view(mixers@),
                forall|j: int|
                    0 <= j < k && !(found && j == k - 1) ==> (#[trigger] before[j]).incredient_id
                        != share.incredient_id,
                found ==> 0 < k && before[k - 1].incredient_id == share.incredient_id,
            decreases mixers@.len() - k + if found { 0int } else { 1int },
        {
            if mixers[k].incredient_id == share.incredient_id {
                assert(before[k as int].incredient_id == share.incredient_id);
                found = true;
            }
            k = k + 1;
        }
        if found {
            let at: usize = k - 1;
            assert(mixer_at(before, share.incredient_id) == Some(at as int));
            assert(before[at as int] == mixers@[at as int]@);
            let amount = match share.amount {
                None => None,
                Some(amount) => match mixers[at].amount {
                    Some(sum) => match sum.checked_add(amount) {
                        Some(total) => Some(total),
                        None => {
                            proof {
                                assert(before[at as int].joined(share) is None);
                                assert(shares@.take(shares@.len() as int) =~= shares@);
                                lemma_owned_fails_on(shares@, i + 1);
                            }
                            return None;
                        },
                    },
                    None => Some(amount),
                },
            };
            let mut empty = MixerOwners {
                incredient_id: share.incredient_id,
                owners: Vec::new(),
                shares: Vec::new(),
                amount: None,
            };
            core::mem::swap(&mut mixers[at], &mut empty);
            let mut mixer = empty;
            mixer.owners.push(share.owner_id);
            if share.amount.is_some() {
                mixer.shares.push((share.owner_id, share.amount));
            }
            mixer.amount = amount;
            assert(Some(mixer@) == before[at as int].joined(share));
            mixers.set(at, mixer);
            assert(owners_view(mixers@) =~= before.update(at as int, mixer@));
        } else {
            assert(mixer_at(before, share.incredient_id) is None);
            let mut owners: Vec<i32> = Vec::new();
            owners.push(share.owner_id);
            let mut entries: Vec<(i32, Option<i32>)> = Vec::new();
            entries.push((share.owner_id, share.amount));
            let mixer = MixerOwners {
                incredient_id: share.incredient_id,
                owners,
                shares: entries,
                amount: share.amount,
            };
            assert(mixer@.owners =~= Owners::opened(share).owners);
            assert(mixer@.shares =~= Owners::opened(share).shares);
            mixers.push(mixer);
            assert(owners_view(mixers@) =~= before.push(Owners::opened(share)));
        }
        i = i + 1;
    }
    assert(shares@.take(shares@.len() as int) =~= shares@);
    Some(mixers)
}

/// Once the gathering has failed on the first shares, it fails on all.
pub proof fn lemma_owned_fails_on(shares: Seq<MixerShare>, upto: int)
    requires
        0 <= upto <= shares.len(),
        owned(shares.take(upto)) is None,
    ensures
        owned(shares) is None,
    decreases shares.len() - upto,
{
    if upto < shares.len() {
        assert(shares.take(upto + 1).drop_last() =~= shares.take(upto));
        lemma_owned_fails_on(shares, upto + 1);
    } else {
        assert(shares.take(upto) =~= shares);
    }
}

} // verus!
