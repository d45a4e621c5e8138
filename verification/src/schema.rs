//! The rows and the closed vocabularies of the catalogue.

use vstd::prelude::*;
use vstd::string::StringExecFns;
use crate::error::TypeError;
use crate::text::{decimal, decimal_i64, same_text};

verus! {

pub type Uuid = i32;

/// What a text is taken for where a word of a closed vocabulary is expected:
/// `None` stands for a value that is no text at all.
pub open spec fn parsed<V>(text: Option<Seq<char>>, known: spec_fn(Seq<char>) -> Option<V>)
    -> Result<V, Seq<char>> {
    match text {
        Some(word) => match known(word) {
            Some(v) => Ok(v),
            None => Err("Invalid variant"@),
        },
        None => Err("Failed to parse value as string"@),
    }
}

/// What a parser returned, with the error taken by its text.
pub open spec fn outcome_view<V>(outcome: Result<V, TypeError>) -> Result<V, Seq<char>> {
    match outcome {
        Ok(v) => Ok(v),
        Err(e) => Err(e@),
    }
}

/// The value type of the `serde_json` crate. Nothing inside it is visible
/// here.
#[verifier::external_type_specification]
#[verifier::external_body]
pub struct ExJsonValue(serde_json::Value);

/// The text that a JSON value holds: what `serde_json::Value::as_str` returns
/// for it, the text where the value is a string and `None` where it is
/// anything else.
pub uninterp spec fn json_text_of(value: serde_json::Value) -> Option<Seq<char>>;

/// What `serde_json::Value::as_str` returns for `value`, as an owned string.
/// It depends on the value alone, which is all that is claimed.
#[verifier::external_body]
fn json_text(value: &serde_json::Value) -> (text: Option<String>)
    ensures
        crate::text::opt_text(text) == json_text_of(*value),
{
    value.as_str().map(str::to_owned)
}

#[derive(Clone, Copy, Debug, PartialEq, Eq, Structural, PartialOrd, Ord, Hash)]
pub enum UserRole {
    User,
    Creator,
    Admin,
}

#[derive(Clone, Copy, Debug, PartialEq, Eq, Structural, PartialOrd, Ord, Hash)]
pub enum ProductType {
    LightAlcoholProduct,
    StrongAlcoholProduct,
    Common,
    Mixer,
    Grocery,
    Generated,
}

impl ProductType {
    /// The product type that a word names. `Generated` has no name.
    pub open spec fn named(word: Seq<char>) -> Option<ProductType> {
        if word == "light_alcohol_product"@ {
            Some(ProductType::LightAlcoholProduct)
        } else if word == "strong_alcohol_product"@ {
            Some(ProductType::StrongAlcoholProduct)
        } else if word == "common"@ {
            Some(ProductType::Common)
        } else if word == "mixer"@ {
            Some(ProductType::Mixer)
        } else if word == "grocery"@ {
            Some(ProductType::Grocery)
        } else {
            None
        }
    }

    /// What is read from a value that should be a text and name one of
    /// these: `None` stands for a value that is no text.
    pub open spec fn read(text: Option<Seq<char>>) -> Result<ProductType, Seq<char>> {
        parsed(text, |w: Seq<char>| ProductType::named(w))
    }

    /// Reads a product type from a value that should be a text.
    pub fn from_text(value: Option<&str>) -> (outcome: Result<ProductType, TypeError>)
        ensures
            outcome_view(outcome) == ProductType::read(
                match value {
                    Some(s) => Some(s@),
                    None => None,
                },
            ),
    {
        match value {
            Some(value) => {
                if same_text(value, "light_alcohol_product") {
                    Ok(ProductType::LightAlcoholProduct)
                } else if same_text(value, "strong_alcohol_product") {
                    Ok(ProductType::StrongAlcoholProduct)
                } else if same_text(value, "common") {
                    Ok(ProductType::Common)
                } else if same_text(value, "mixer") {
                    Ok(ProductType::Mixer)
                } else if same_text(value, "grocery") {
                    Ok(ProductType::Grocery)
                } else {
                    Err(TypeError::new("Invalid variant"))
                }
            },
            None => Err(TypeError::new("Failed to parse value as string")),
        }
    }

    /// Reads it from a JSON value, by [`ProductType::from_text`] on the text that
    /// the value holds, if it holds one.
    pub fn try_from(value: serde_json::Value) -> (outcome: Result<ProductType, TypeError>)
        ensures
            outcome_view(outcome) == ProductType::read(json_text_of(value)),
    {
        let text = json_text(&value);
        let outcome = match &text {
            Some(t) => ProductType::from_text(Some(t.as_str())),
            None => ProductType::from_text(None),
        };
        outcome
    }
}

#[derive(Clone, Copy, Debug, PartialEq, Eq, Structural, PartialOrd, Ord, Hash)]
pub enum RecipeType {
    Cocktail,
    Shot,
    Punch,
    Generated,
}

impl RecipeType {
    /// The recipe type that a word names. `Generated` has no name.
    pub open spec fn named(word: Seq<char>) -> Option<RecipeType> {
        if word == "cocktail"@ {
            Some(RecipeType::Cocktail)
        } else if word == "shot"@ {
            Some(RecipeType::Shot)
        } else if word == "punch"@ {
            Some(RecipeType::Punch)
        } else {
            None
        }
    }

    /// What is read from a value that should be a text and name one of
    /// these: `None` stands for a value that is no text.
    pub open spec fn read(text: Option<Seq<char>>) -> Result<RecipeType, Seq<char>> {
        parsed(text, |w: Seq<char>| RecipeType::named(w))
    }

    /// Reads the recipe type from a value that should be a text.
    pub fn from_text(value: Option<&str>) -> (outcome: Result<RecipeType, TypeError>)
        ensures
            outcome_view(outcome) == RecipeType::read(
                match value {
                    Some(s) => Some(s@),
                    None => None,
                },
            ),
    {
        match value {
            Some(value) => {
                if same_text(value, "cocktail") {
                    Ok(RecipeType::Cocktail)
                } else if same_text(value, "shot") {
                    Ok(RecipeType::Shot)
                } else if same_text(value, "punch") {
                    Ok(RecipeType::Punch)
                } else {
                    Err(TypeError::new("Invalid variant"))
                }
            },
            None => Err(TypeError::new("Failed to parse value as string")),
        }
    }

    /// Reads it from a JSON value, by [`RecipeType::from_text`] on the text that
    /// the value holds, if it holds one.
    pub fn try_from(value: serde_json::Value) -> (outcome: Result<RecipeType, TypeError>)
        ensures
            outcome_view(outcome) == RecipeType::read(json_text_of(value)),
    {
        let text = json_text(&value);
        let outcome = match &text {
            Some(t) => RecipeType::from_text(Some(t.as_str())),
            None => RecipeType::from_text(None),
        };
        outcome
    }
}

#[derive(Clone, Copy, Debug, PartialEq, Eq, Structural, PartialOrd, Ord, Hash)]
pub enum UnitType {
    Cl,
    Ml,
    Oz,
    Kpl,
    Tl,
    Dash,
}

impl UnitType {
    /// The unit that a word names.
    pub open spec fn named(word: Seq<char>) -> Option<UnitType> {
        if word == "cl"@ {
            Some(UnitType::Cl)
        } else if word == "ml"@ {
            Some(UnitType::Ml)
        } else if word == "oz"@ {
            Some(UnitType::Oz)
        } else if word == "kpl"@ {
            Some(UnitType::Kpl)
        } else if word == "tl"@ {
            Some(UnitType::Tl)
        } else if word == "dash"@ {
            Some(UnitType::Dash)
        } else {
            None
        }
    }

    /// What is read from a value that should be a text and name one of
    /// these: `None` stands for a value that is no text.
    pub open spec fn read(text: Option<Seq<char>>) -> Result<UnitType, Seq<char>> {
        parsed(text, |w: Seq<char>| UnitType::named(w))
    }

    /// Reads the unit from a value that should be a text.
    pub fn from_text(value: Option<&str>) -> (outcome: Result<UnitType, TypeError>)
        ensures
            outcome_view(outcome) == UnitType::read(
                match value {
                    Some(s) => Some(s@),
                    None => None,
                },
            ),
    {
        match value {
            Some(value) => {
                if same_text(value, "cl") {
                    Ok(UnitType::Cl)
                } else if same_text(value, "ml") {
                    Ok(UnitType::Ml)
                } else if same_text(value, "oz") {
                    Ok(UnitType::Oz)
                } else if same_text(value, "kpl") {
                    Ok(UnitType::Kpl)
                } else if same_text(value, "tl") {
                    Ok(UnitType::Tl)
                } else if same_text(value, "dash") {
                    Ok(UnitType::Dash)
                } else {
                    Err(TypeError::new("Invalid variant"))
                }
            },
            None => Err(TypeError::new("Failed to parse value as string")),
        }
    }

    /// Reads it from a JSON value, by [`UnitType::from_text`] on the text that
    /// the value holds, if it holds one.
    pub fn try_from(value: serde_json::Value) -> (outcome: Result<UnitType, TypeError>)
        ensures
            outcome_view(outcome) == UnitType::read(json_text_of(value)),
    {
        let text = json_text(&value);
        let outcome = match &text {
            Some(t) => UnitType::from_text(Some(t.as_str())),
            None => UnitType::from_text(None),
        };
        outcome
    }
}

#[derive(Clone, Copy, Debug, PartialEq, Eq, Structural, PartialOrd, Ord, Hash)]
pub enum IncredientOrder {
    Alphabetical,
    AbvAsc,
    AbvDesc,
    PriceSuperalkoAsc,
    PriceSuperalkoDesc,
    PriceAlkoAsc,
    PriceAlkoDesc,
}

impl IncredientOrder {
    /// The order of ingredients that a word names. The name of `AbvAsc` ends in a blank.
    pub open spec fn named(word: Seq<char>) -> Option<IncredientOrder> {
        if word == "alphabetical"@ {
            Some(IncredientOrder::Alphabetical)
        } else if word == "abv_asc "@ {
            Some(IncredientOrder::AbvAsc)
        } else if word == "abv_desc"@ {
            Some(IncredientOrder::AbvDesc)
        } else if word == "price_superalko_asc"@ {
            Some(IncredientOrder::PriceSuperalkoAsc)
        } else if word == "price_superalko_desc"@ {
            Some(IncredientOrder::PriceSuperalkoDesc)
        } else if word == "price_alko_asc"@ {
            Some(IncredientOrder::PriceAlkoAsc)
        } else if word == "price_alko_desc"@ {
            Some(IncredientOrder::PriceAlkoDesc)
        } else {
            None
        }
    }

    /// What is read from a value that should be a text and name one of
    /// these: `None` stands for a value that is no text.
    pub open spec fn read(text: Option<Seq<char>>) -> Result<IncredientOrder, Seq<char>> {
        parsed(text, |w: Seq<char>| IncredientOrder::named(w))
    }

    /// Reads the order of ingredients from a value that should be a text.
    pub fn from_text(value: Option<&str>) -> (outcome: Result<IncredientOrder, TypeError>)
        ensures
            outcome_view(outcome) == IncredientOrder::read(
                match value {
                    Some(s) => Some(s@),
                    None => None,
                },
            ),
    {
        match value {
            Some(value) => {
                if same_text(value, "alphabetical") {
                    Ok(IncredientOrder::Alphabetical)
                } else if same_text(value, "abv_asc ") {
                    Ok(IncredientOrder::AbvAsc)
                } else if same_text(value, "abv_desc") {
                    Ok(IncredientOrder::AbvDesc)
                } else if same_text(value, "price_superalko_asc") {
                    Ok(IncredientOrder::PriceSuperalkoAsc)
                } else if same_text(value, "price_superalko_desc") {
                    Ok(IncredientOrder::PriceSuperalkoDesc)
                } else if same_text(value, "price_alko_asc") {
                    Ok(IncredientOrder::PriceAlkoAsc)
                } else if same_text(value, "price_alko_desc") {
                    Ok(IncredientOrder::PriceAlkoDesc)
                } else {
                    Err(TypeError::new("Invalid variant"))
                }
            },
            None => Err(TypeError::new("Failed to parse value as string")),
        }
    }

    /// Reads it from a JSON value, by [`IncredientOrder::from_text`] on the text that
    /// the value holds, if it holds one.
    pub fn try_from(value: serde_json::Value) -> (outcome: Result<IncredientOrder, TypeError>)
        ensures
            outcome_view(outcome) == IncredientOrder::read(json_text_of(value)),
    {
        let text = json_text(&value);
        let outcome = match &text {
            Some(t) => IncredientOrder::from_text(Some(t.as_str())),
            None => IncredientOrder::from_text(None),
        };
        outcome
    }
}

#[derive(Clone, Copy, Debug, PartialEq, Eq, Structural, PartialOrd, Ord, Hash)]
pub enum RecipeOrder {
    Alphabetical,
    AbvAsc,
    AbvDesc,
    ServingsAsc,
    ServingsDesc,
    AerAlkoAsc,
    AerAlkoDesc,
    AerSuperalkoAsc,
    AerSuperalkoDesc,
    PriceSuperalkoAsc,
    PriceSuperalkoDesc,
    PriceAlkoAsc,
    PriceAlkoDesc,
}

impl RecipeOrder {
    /// The order of recipes that a word names.
    pub open spec fn named(word: Seq<char>) -> Option<RecipeOrder> {
        if word == "alphabetical"@ {
            Some(RecipeOrder::Alphabetical)
        } else if word == "abv_asc"@ {
            Some(RecipeOrder::AbvAsc)
        } else if word == "abv_desc"@ {
            Some(RecipeOrder::AbvDesc)
        } else if word == "servings_asc"@ {
            Some(RecipeOrder::ServingsAsc)
        } else if word == "servings_desc"@ {
            Some(RecipeOrder::ServingsDesc)
        } else if word == "aer_alko_asc"@ {
            Some(RecipeOrder::AerAlkoAsc)
        } else if word == "aer_alko_desc"@ {
            Some(RecipeOrder::AerAlkoDesc)
        } else if word == "aer_superalko_asc"@ {
            Some(RecipeOrder::AerSuperalkoAsc)
        } else if word == "aer_superalko_desc"@ {
            Some(RecipeOrder::AerSuperalkoDesc)
        } else if word == "price_superalko_asc"@ {
            Some(RecipeOrder::PriceSuperalkoAsc)
        } else if word == "price_superalko_desc"@ {
            Some(RecipeOrder::PriceSuperalkoDesc)
        } else if word == "price_alko_asc"@ {
            Some(RecipeOrder::PriceAlkoAsc)
        } else if word == "price_alko_desc"@ {
            Some(RecipeOrder::PriceAlkoDesc)
        } else {
            None
        }
    }

    /// What is read from a value that should be a text and name one of
    /// these: `None` stands for a value that is no text.
    pub open spec fn read(text: Option<Seq<char>>) -> Result<RecipeOrder, Seq<char>> {
        parsed(text, |w: Seq<char>| RecipeOrder::named(w))
    }

    /// Reads the order of recipes from a value that should be a text.
    pub fn from_text(value: Option<&str>) -> (outcome: Result<RecipeOrder, TypeError>)
        ensures
            outcome_view(outcome) == RecipeOrder::read(
                match value {
                    Some(s) => Some(s@),
                    None => None,
                },
            ),
    {
        match value {
            Some(value) => {
                if same_text(value, "alphabetical") {
                    Ok(RecipeOrder::Alphabetical)
                } else if same_text(value, "abv_asc") {
                    Ok(RecipeOrder::AbvAsc)
                } else if same_text(value, "abv_desc") {
                    Ok(RecipeOrder::AbvDesc)
                } else if same_text(value, "servings_asc") {
                    Ok(RecipeOrder::ServingsAsc)
                } else if same_text(value, "servings_desc") {
                    Ok(RecipeOrder::ServingsDesc)
                } else if same_text(value, "aer_alko_asc") {
                    Ok(RecipeOrder::AerAlkoAsc)
                } else if same_text(value, "aer_alko_desc") {
                    Ok(RecipeOrder::AerAlkoDesc)
                } else if same_text(value, "aer_superalko_asc") {
                    Ok(RecipeOrder::AerSuperalkoAsc)
                } else if same_text(value, "aer_superalko_desc") {
                    Ok(RecipeOrder::AerSuperalkoDesc)
                } else if same_text(value, "price_superalko_asc") {
                    Ok(RecipeOrder::PriceSuperalkoAsc)
                } else if same_text(value, "price_superalko_desc") {
                    Ok(RecipeOrder::PriceSuperalkoDesc)
                } else if same_text(value, "price_alko_asc") {
                    Ok(RecipeOrder::PriceAlkoAsc)
                } else if same_text(value, "price_alko_desc") {
                    Ok(RecipeOrder::PriceAlkoDesc)
                } else {
                    Err(TypeError::new("Invalid variant"))
                }
            },
            None => Err(TypeError::new("Failed to parse value as string")),
        }
    }

    /// Reads it from a JSON value, by [`RecipeOrder::from_text`] on the text that
    /// the value holds, if it holds one.
    pub fn try_from(value: serde_json::Value) -> (outcome: Result<RecipeOrder, TypeError>)
        ensures
            outcome_view(outcome) == RecipeOrder::read(json_text_of(value)),
    {
        let text = json_text(&value);
        let outcome = match &text {
            Some(t) => RecipeOrder::from_text(Some(t.as_str())),
            None => RecipeOrder::from_text(None),
        };
        outcome
    }
}

#[derive(Clone, Copy, Debug, PartialEq, Eq, Structural, PartialOrd, Ord, Hash)]
pub enum RecipeAvailability {
    Any,
    Alko,
    Superalko,
}

impl RecipeAvailability {
    /// The availability that a word names.
    pub open spec fn named(word: Seq<char>) -> Option<RecipeAvailability> {
        if word == "any"@ {
            Some(RecipeAvailability::Any)
        } else if word == "alko"@ {
            Some(RecipeAvailability::Alko)
        } else if word == "superalko"@ {
            Some(RecipeAvailability::Superalko)
        } else {
            None
        }
    }

    /// What is read from a value that should be a text and name one of
    /// these: `None` stands for a value that is no text.
    pub open spec fn read(text: Option<Seq<char>>) -> Result<RecipeAvailability, Seq<char>> {
        parsed(text, |w: Seq<char>| RecipeAvailability::named(w))
    }

    /// Reads the availability from a value that should be a text.
    pub fn from_text(value: Option<&str>) -> (outcome: Result<RecipeAvailability, TypeError>)
        ensures
            outcome_view(outcome) == RecipeAvailability::read(
                match value {
                    Some(s) => Some(s@),
                    None => None,
                },
            ),
    {
        match value {
            Some(value) => {
                if same_text(value, "any") {
                    Ok(RecipeAvailability::Any)
                } else if same_text(value, "alko") {
                    Ok(RecipeAvailability::Alko)
                } else if same_text(value, "superalko") {
                    Ok(RecipeAvailability::Superalko)
                } else {
                    Err(TypeError::new("Invalid variant"))
                }
            },
            None => Err(TypeError::new("Failed to parse value as string")),
        }
    }

    /// Reads it from a JSON value, by [`RecipeAvailability::from_text`] on the text that
    /// the value holds, if it holds one.
    pub fn try_from(value: serde_json::Value) -> (outcome: Result<RecipeAvailability, TypeError>)
        ensures
            outcome_view(outcome) == RecipeAvailability::read(json_text_of(value)),
    {
        let text = json_text(&value);
        let outcome = match &text {
            Some(t) => RecipeAvailability::from_text(Some(t.as_str())),
            None => RecipeAvailability::from_text(None),
        };
        outcome
    }
}

#[derive(Clone, Copy, Debug, PartialEq, Eq, Structural, PartialOrd, Ord, Hash)]
pub enum ProductOrder {
    Alphabetical,
    PriceAsc,
    PriceDesc,
    UnitPriceAsc,
    UnitPriceDesc,
    AerAsc,
    AerDesc,
}

impl ProductOrder {
    /// The order of products that a word names.
    pub open spec fn named(word: Seq<char>) -> Option<ProductOrder> {
        if word == "alphabetical"@ {
            Some(ProductOrder::Alphabetical)
        } else if word == "price_asc"@ {
            Some(ProductOrder::PriceAsc)
        } else if word == "price_desc"@ {
            Some(ProductOrder::PriceDesc)
        } else if word == "unit_price_asc"@ {
            Some(ProductOrder::UnitPriceAsc)
        } else if word == "unit_price_desc"@ {
            Some(ProductOrder::UnitPriceDesc)
        } else if word == "aer_asc"@ {
            Some(ProductOrder::AerAsc)
        } else if word == "aer_desc"@ {
            Some(ProductOrder::AerDesc)
        } else {
            None
        }
    }

    /// What is read from a value that should be a text and name one of
    /// these: `None` stands for a value that is no text.
    pub open spec fn read(text: Option<Seq<char>>) -> Result<ProductOrder, Seq<char>> {
        parsed(text, |w: Seq<char>| ProductOrder::named(w))
    }

    /// Reads the order of products from a value that should be a text.
    pub fn from_text(value: Option<&str>) -> (outcome: Result<ProductOrder, TypeError>)
        ensures
            outcome_view(outcome) == ProductOrder::read(
                match value {
                    Some(s) => Some(s@),
                    None => None,
                },
            ),
    {
        match value {
            Some(value) => {
                if same_text(value, "alphabetical") {
                    Ok(ProductOrder::Alphabetical)
                } else if same_text(value, "price_asc") {
                    Ok(ProductOrder::PriceAsc)
                } else if same_text(value, "price_desc") {
                    Ok(ProductOrder::PriceDesc)
                } else if same_text(value, "unit_price_asc") {
                    Ok(ProductOrder::UnitPriceAsc)
                } else if same_text(value, "unit_price_desc") {
                    Ok(ProductOrder::UnitPriceDesc)
                } else if same_text(value, "aer_asc") {
                    Ok(ProductOrder::AerAsc)
                } else if same_text(value, "aer_desc") {
                    Ok(ProductOrder::AerDesc)
                } else {
                    Err(TypeError::new("Invalid variant"))
                }
            },
            None => Err(TypeError::new("Failed to parse value as string")),
        }
    }

    /// Reads it from a JSON value, by [`ProductOrder::from_text`] on the text that
    /// the value holds, if it holds one.
    pub fn try_from(value: serde_json::Value) -> (outcome: Result<ProductOrder, TypeError>)
        ensures
            outcome_view(outcome) == ProductOrder::read(json_text_of(value)),
    {
        let text = json_text(&value);
        let outcome = match &text {
            Some(t) => ProductOrder::from_text(Some(t.as_str())),
            None => ProductOrder::from_text(None),
        };
        outcome
    }
}

#[derive(Clone, Copy, Debug, PartialEq, Eq, Structural, PartialOrd, Ord, Hash)]
pub enum Retailer {
    Superalko,
    Alko,
}

impl UnitType {
    /// The name of the unit.
    pub open spec fn name(self) -> Seq<char> {
        match self {
            UnitType::Cl => "cl"@,
            UnitType::Ml => "ml"@,
            UnitType::Oz => "oz"@,
            UnitType::Kpl => "kpl"@,
            UnitType::Tl => "tl"@,
            UnitType::Dash => "dash"@,
        }
    }

    /// The name of the unit.
    pub fn to_string(&self) -> (text: String)
        ensures
            text@ == self.name(),
    {
        match self {
            UnitType::Cl => String::from_str("cl"),
            UnitType::Ml => String::from_str("ml"),
            UnitType::Oz => String::from_str("oz"),
            UnitType::Kpl => String::from_str("kpl"),
            UnitType::Tl => String::from_str("tl"),
            UnitType::Dash => String::from_str("dash"),
        }
    }
}

/// Every unit is read back from its name.
pub proof fn law_unit_name_round_trip(unit: UnitType)
    ensures
        UnitType::named(unit.name()) == Some(unit),
{
    reveal_strlit("cl");
    reveal_strlit("ml");
    reveal_strlit("oz");
    reveal_strlit("kpl");
    reveal_strlit("tl");
    reveal_strlit("dash");
    match unit {
        UnitType::Cl => {},
        UnitType::Ml => {
            assert("ml"@[0] != "cl"@[0]);
        },
        UnitType::Oz => {
            assert("oz"@[0] != "cl"@[0]);
            assert("oz"@[0] != "ml"@[0]);
        },
        UnitType::Kpl => {
            assert("kpl"@.len() != "cl"@.len());
        },
        UnitType::Tl => {
            assert("tl"@[0] != "cl"@[0]);
            assert("tl"@[0] != "ml"@[0]);
            assert("tl"@[0] != "oz"@[0]);
        },
        UnitType::Dash => {
            assert("dash"@.len() != "cl"@.len());
            assert("dash"@.len() != "kpl"@.len());
        },
    }
}

#[derive(Debug, Clone)]
pub struct User {
    pub id: Uuid,
    pub username: String,
    pub password: String,
    pub uid: UserRole,
}

#[derive(Debug, Clone)]
pub struct Category {
    pub id: Uuid,
    pub name: String,
}

#[derive(Debug, Clone)]
pub struct SubCategory {
    pub id: Uuid,
    pub name: String,
    pub category_id: Uuid,
    pub product_count: i32,
}

#[derive(Debug, Clone)]
pub struct IncredientFilterObject {
    pub incredient_id: Uuid,
    pub product_id: Uuid,
    pub product_name: String,
}

#[derive(Clone, Copy, Debug, PartialEq, Eq, Structural)]
pub struct IncredientFilterObjectNoName {
    pub incredient_id: Uuid,
    pub product_id: Uuid,
}

#[derive(Debug, Clone)]
pub struct IngredientFilterList {
    pub ingredient_id: Uuid,
    pub product_ids: Vec<Uuid>,
}

#[derive(Debug, Clone)]
pub struct RecipePart {
    pub recipe_id: Uuid,
    pub incredient_id: Uuid,
    pub amount: i32,
    pub unit: UnitType,
    pub name: String,
}

#[derive(Debug, Clone)]
pub struct IngredientsForDrink {
    pub recipe_id: Uuid,
    pub recipe_parts: Vec<RecipePartNoId>,
}

#[derive(Debug, Clone)]
pub struct RecipePartNoId {
    pub ingredient_id: Uuid,
    pub amount: i32,
    pub name: String,
    pub unit: UnitType,
}

#[derive(Debug, Default, Clone)]
pub struct Cabinet {
    pub id: Uuid,
    pub owner_id: Uuid,
    pub name: String,
    pub access_key: Option<String>,
}

#[derive(Debug, Default, Clone)]
pub struct CabinetMember {
    pub cabinet_id: Uuid,
    pub user_id: Uuid,
    pub user_username: String,
}

#[derive(Debug, Default, Clone, PartialEq, PartialOrd)]
pub struct RecipeTag {
    pub id: Uuid,
    pub name: String,
}

#[derive(Debug, Default, Clone, PartialEq, PartialOrd)]
pub struct LinkedRecipeTag {
    pub recipe_id: Uuid,
    pub tag_id: Uuid,
    pub tag_name: String,
}

/// One part of a recipe as the list of ingredients shows it: amount and unit
/// without a gap, a blank, the name, a comma and a blank.
pub open spec fn part_text(amount: int, unit: UnitType, name: Seq<char>) -> Seq<char> {
    decimal(amount) + unit.name() + " "@ + name + ", "@
}

/// The parts of a recipe as one line, after the heading.
pub open spec fn parts_text(parts: Seq<RecipePart>) -> Seq<char>
    decreases parts.len(),
{
    if parts.len() == 0 {
        "Ingredients: "@
    } else {
        parts_text(parts.drop_last()) + part_text(
            parts.last().amount as int,
            parts.last().unit,
            parts.last().name@,
        )
    }
}

impl RecipePart {
    /// The parts of a recipe as one line: the heading `Ingredients: `, then
    /// each part in order.
    pub fn into_recipe_string(list: &Vec<RecipePart>) -> (line: String)
        ensures
            line@ == parts_text(list@),
    {
        let mut s = String::from_str("Ingredients: ");
        let mut i: usize = 0;
        while i < list.len()
            invariant
                i <= list@.len(),
                s@ == parts_text(list@.take(i as int)),
            decreases list@.len() - i,
        {
            let part = &list[i];
            let ghost before = s@;
            s.append(decimal_i64(part.amount as i64).as_str());
            s.append(part.unit.to_string().as_str());
            s.append(" ");
            s.append(part.name.as_str());
            s.append(", ");
            proof {
                let upto = list@.take(i + 1);
                assert(upto.drop_last() =~= list@.take(i as int));
                assert(upto.last() == list@[i as int]);
                assert(s@ =~= before + part_text(part.amount as int, part.unit, part.name@));
            }
            i = i + 1;
        }
        assert(list@.take(list@.len() as int) =~= list@);
        s
    }
}

/// The part without the recipe it belongs to.
pub open spec fn bare_part(value: RecipePart) -> RecipePartNoId {
    RecipePartNoId {
        ingredient_id: value.incredient_id,
        amount: value.amount,
        name: value.name,
        unit: value.unit,
    }
}

impl RecipePartNoId {
    /// The part without the recipe it belongs to.
    pub fn from_part(value: RecipePart) -> (part: RecipePartNoId)
        ensures
            part == bare_part(value),
    {
        RecipePartNoId {
            ingredient_id: value.incredient_id,
            amount: value.amount,
            name: value.name,
            unit: value.unit,
        }
    }
}

impl From<RecipePart> for RecipePartNoId {
    fn from(value: RecipePart) -> (part: RecipePartNoId) {
        RecipePartNoId {
            ingredient_id: value.incredient_id,
            amount: value.amount,
            name: value.name,
            unit: value.unit,
        }
    }
}

impl vstd::std_specs::convert::FromSpecImpl<RecipePart> for RecipePartNoId {
    open spec fn obeys_from_spec() -> bool {
        true
    }

    open spec fn from_spec(value: RecipePart) -> RecipePartNoId {
        bare_part(value)
    }
}

} // verus!
