use barkeep::schema::UnitType;
use barkeep::srs::{StandardRecipePart, StandardRecipeSyntax};

fn parse(line: &str) -> Result<StandardRecipeSyntax, String> {
    StandardRecipeSyntax::try_from(line.to_string()).map_err(|e| e.info)
}

fn parts(recipe: &StandardRecipeSyntax) -> Vec<(i32, UnitType, &str)> {
    recipe.parts.iter().map(|p| (p.amount, p.unit, p.incredient_name.as_str())).collect()
}

#[test]
fn recipe_with_parts_and_tags() {
    let line = "Sex On The Beach|2|cl|vodka|2|cl|Persikkalikööri|4|cl|Karpalomehu|8|cl|Appelsiinimehu#IBA/Experimental";
    let recipe = parse(line).unwrap();
    assert_eq!(recipe.name, "Sex On The Beach");
    assert_eq!(
        parts(&recipe),
        vec![
            (2, UnitType::Cl, "vodka"),
            (2, UnitType::Cl, "Persikkalikööri"),
            (4, UnitType::Cl, "Karpalomehu"),
            (8, UnitType::Cl, "Appelsiinimehu"),
        ]
    );
    assert_eq!(recipe.tags, vec!["IBA", "Experimental"]);
    assert_eq!(recipe.into_string(), line);
}

#[test]
fn line_without_tags_has_one_empty_tag() {
    let recipe = parse("Shot|4|cl|Vodka").unwrap();
    assert_eq!(recipe.name, "Shot");
    assert_eq!(parts(&recipe), vec![(4, UnitType::Cl, "Vodka")]);
    assert_eq!(recipe.tags, vec![""]);
    assert_eq!(recipe.into_string(), "Shot|4|cl|Vodka#");
}

#[test]
fn line_without_a_bar_is_no_recipe() {
    assert_eq!(parse("").err().unwrap(), "Invalid syntax");
    assert_eq!(parse("Name only").err().unwrap(), "Invalid syntax");
    assert_eq!(parse("Name#a|b").err().unwrap(), "Invalid syntax");
}

#[test]
fn amount_that_is_no_number() {
    assert_eq!(parse("N|two|cl|Vodka").err().unwrap(), "Invalid syntax; Invalid amount");
    assert_eq!(parse("N|").err().unwrap(), "Invalid syntax; Invalid amount");
    assert_eq!(parse("N|2|cl|Vodka|x").err().unwrap(), "Invalid syntax; Invalid amount");
    assert_eq!(parse("N|2147483648|cl|V").err().unwrap(), "Invalid syntax; Invalid amount");
}

#[test]
fn unit_that_is_none() {
    assert_eq!(parse("N|2|litre|Vodka").err().unwrap(), "Invalid syntax; Invalid unit");
    assert_eq!(parse("N|2|").err().unwrap(), "Invalid syntax; Invalid unit");
    assert_eq!(parse("N|2|cl|V|3|CL").err().unwrap(), "Invalid syntax; Invalid unit");
}

#[test]
fn first_fault_is_reported() {
    assert_eq!(parse("N|x|litre|V").err().unwrap(), "Invalid syntax; Invalid amount");
    assert_eq!(parse("N|1|litre|V|x|cl|W").err().unwrap(), "Invalid syntax; Invalid unit");
}

#[test]
fn fields_left_over_are_dropped() {
    let recipe = parse("N|2|cl|Vodka|3").unwrap();
    assert_eq!(parts(&recipe), vec![(2, UnitType::Cl, "Vodka")]);
    let recipe = parse("N|2|cl|Vodka|3|ml").unwrap();
    assert_eq!(parts(&recipe), vec![(2, UnitType::Cl, "Vodka")]);
    let recipe = parse("N|2").unwrap();
    assert!(recipe.parts.is_empty());
    let recipe = parse("N|2|tl").unwrap();
    assert!(recipe.parts.is_empty());
}

#[test]
fn only_what_follows_the_first_hash_holds_tags() {
    let recipe = parse("N|-2|dash|Bitters#a/b#c/d").unwrap();
    assert_eq!(parts(&recipe), vec![(-2, UnitType::Dash, "Bitters")]);
    assert_eq!(recipe.tags, vec!["a", "b"]);
    let recipe = parse("N|1|oz|Gin#").unwrap();
    assert_eq!(recipe.tags, vec![""]);
    let recipe = parse("N|1|kpl|Egg#/a//").unwrap();
    assert_eq!(recipe.tags, vec!["", "a", "", ""]);
}

#[test]
fn recipe_written_as_one_line() {
    let recipe = StandardRecipeSyntax {
        name: "Gin Tonic".to_string(),
        parts: vec![
            StandardRecipePart { amount: 4, unit: UnitType::Cl, incredient_name: "Gin".to_string() },
            StandardRecipePart {
                amount: 12,
                unit: UnitType::Cl,
                incredient_name: "Tonic".to_string(),
            },
        ],
        tags: vec![],
    };
    assert_eq!(recipe.into_string(), "Gin Tonic|4|cl|Gin|12|cl|Tonic");
    let tagged = StandardRecipeSyntax {
        name: "Water".to_string(),
        parts: vec![],
        tags: vec!["plain".to_string(), "free".to_string(), "cold".to_string()],
    };
    assert_eq!(tagged.into_string(), "Water#plain/free/cold");
}

#[test]
fn written_lines_are_read_back() {
    let lines = [
        "Mojito|4|cl|Rum|2|cl|Lime juice|-1|dash|Bitters|12|kpl|Mint#IBA/Fresh",
        "A|0|tl|b#",
        "Long Island|2147483647|oz|Everything|-2147483648|ml|Nothing#x",
    ];
    for line in lines {
        let recipe = parse(line).unwrap();
        assert_eq!(recipe.into_string(), line);
    }
}
