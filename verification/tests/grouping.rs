use barkeep::grouping::{gather_product_filters, gather_recipe_parts, group_by_id, tag_list};
use barkeep::schema::{IncredientFilterObjectNoName, LinkedRecipeTag, RecipePart, UnitType};

#[test]
fn rows_gathered_by_id() {
    let rows = vec![(3, 'a'), (1, 'b'), (3, 'c'), (2, 'd'), (1, 'e'), (3, 'f')];
    assert_eq!(
        group_by_id(rows),
        vec![(3, vec!['a', 'c', 'f']), (1, vec!['b', 'e']), (2, vec!['d'])]
    );
    assert_eq!(group_by_id(Vec::<(i32, u8)>::new()), vec![]);
    assert_eq!(group_by_id(vec![(i32::MIN, 1u8)]), vec![(i32::MIN, vec![1])]);
}

#[test]
fn gathering_loses_and_invents_nothing() {
    let rows: Vec<(i32, usize)> = (0..200).map(|i| (((i * 7) % 13) as i32, i)).collect();
    let groups = group_by_id(rows.clone());
    assert_eq!(groups.len(), 13);
    for (i, (id, values)) in groups.iter().enumerate() {
        assert!(groups.iter().skip(i + 1).all(|(other, _)| other != id));
        let expected: Vec<usize> =
            rows.iter().filter(|(row_id, _)| row_id == id).map(|(_, v)| *v).collect();
        assert_eq!(values, &expected);
    }
}

#[test]
fn product_filters_by_ingredient() {
    let row = |incredient_id, product_id| IncredientFilterObjectNoName { incredient_id, product_id };
    let lists = gather_product_filters(&vec![row(1, 10), row(2, 20), row(1, 11), row(1, 10)]);
    let seen: Vec<(i32, Vec<i32>)> =
        lists.into_iter().map(|l| (l.ingredient_id, l.product_ids)).collect();
    assert_eq!(seen, vec![(1, vec![10, 11, 10]), (2, vec![20])]);
    assert!(gather_product_filters(&vec![]).is_empty());
}

#[test]
fn recipe_parts_by_recipe() {
    let part = |recipe_id, incredient_id, name: &str| RecipePart {
        recipe_id,
        incredient_id,
        amount: incredient_id * 2,
        unit: UnitType::Ml,
        name: name.to_string(),
    };
    let drinks = gather_recipe_parts(&vec![part(9, 1, "rum"), part(8, 2, "gin"), part(9, 3, "lime")]);
    assert_eq!(drinks.len(), 2);
    assert_eq!(drinks[0].recipe_id, 9);
    let first: Vec<(i32, i32, &str, UnitType)> = drinks[0]
        .recipe_parts
        .iter()
        .map(|p| (p.ingredient_id, p.amount, p.name.as_str(), p.unit))
        .collect();
    assert_eq!(first, vec![(1, 2, "rum", UnitType::Ml), (3, 6, "lime", UnitType::Ml)]);
    assert_eq!(drinks[1].recipe_id, 8);
    assert_eq!(drinks[1].recipe_parts.len(), 1);
    assert_eq!(drinks[1].recipe_parts[0].name, "gin");
}

#[test]
fn tags_of_a_recipe_as_one_text() {
    let tag = |name: &str| LinkedRecipeTag { recipe_id: 1, tag_id: 2, tag_name: name.to_string() };
    assert_eq!(tag_list(&vec![]), "");
    assert_eq!(tag_list(&vec![tag("IBA")]), "IBA");
    assert_eq!(tag_list(&vec![tag("IBA"), tag(""), tag("Sour")]), "IBA||Sour");
}

fn share(incredient_id: i32, owner_id: i32, amount: Option<i32>) -> barkeep::grouping::MixerShare {
    barkeep::grouping::MixerShare { incredient_id, owner_id, amount }
}

#[test]
fn mixers_with_their_owners() {
    let shares = vec![
        share(1, 10, Some(5)),
        share(2, 10, None),
        share(1, 11, Some(7)),
        share(2, 12, Some(3)),
        share(1, 12, None),
        share(1, 13, Some(2)),
        share(3, 10, Some(1)),
    ];
    let mixers = barkeep::grouping::list_cabinet_mixers(&shares).unwrap();
    let seen: Vec<(i32, Vec<i32>, Vec<(i32, Option<i32>)>, Option<i32>)> = mixers
        .into_iter()
        .map(|m| (m.incredient_id, m.owners, m.shares, m.amount))
        .collect();
    assert_eq!(
        seen,
        vec![
            (1, vec![10, 11, 12, 13], vec![(10, Some(5)), (11, Some(7)), (13, Some(2))], Some(2)),
            (2, vec![10, 12], vec![(10, None), (12, Some(3))], Some(3)),
            (3, vec![10], vec![(10, Some(1))], Some(1)),
        ]
    );
    assert!(barkeep::grouping::list_cabinet_mixers(&vec![]).unwrap().is_empty());
}

#[test]
fn amounts_of_a_mixer_are_added() {
    let shares = vec![share(1, 1, Some(5)), share(1, 2, Some(-7)), share(1, 3, Some(40))];
    let mixers = barkeep::grouping::list_cabinet_mixers(&shares).unwrap();
    assert_eq!(mixers.len(), 1);
    assert_eq!(mixers[0].amount, Some(38));
    assert_eq!(mixers[0].owners, vec![1, 2, 3]);
}

#[test]
fn amount_that_does_not_fit() {
    let shares = vec![share(1, 1, Some(i32::MAX)), share(2, 1, Some(1)), share(1, 2, Some(1))];
    assert!(barkeep::grouping::list_cabinet_mixers(&shares).is_none());
    let shares = vec![share(1, 1, Some(i32::MAX)), share(1, 2, Some(1)), share(1, 3, None)];
    assert!(barkeep::grouping::list_cabinet_mixers(&shares).is_none());
    let shares = vec![share(1, 1, Some(i32::MAX)), share(1, 2, None), share(1, 3, Some(1))];
    assert_eq!(barkeep::grouping::list_cabinet_mixers(&shares).unwrap()[0].amount, Some(1));
    let shares = vec![share(1, 1, Some(i32::MIN)), share(1, 2, Some(-1))];
    assert!(barkeep::grouping::list_cabinet_mixers(&shares).is_none());
    let shares = vec![share(1, 1, Some(i32::MAX)), share(1, 2, Some(0))];
    assert_eq!(barkeep::grouping::list_cabinet_mixers(&shares).unwrap()[0].amount, Some(i32::MAX));
}
