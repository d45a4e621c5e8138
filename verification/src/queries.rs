//! The text of the listing queries, and the other decisions that the
//! data-access functions take between their reads and writes.

use vstd::prelude::*;
use vstd::string::StringExecFns;
use crate::schema::{IncredientOrder, ProductOrder, RecipeAvailability, RecipeOrder};

verus! {

/// The characters of an optional piece of text, where none stands for
/// `default`.
pub open spec fn text_or(chosen: Option<Seq<char>>, default: Seq<char>) -> Seq<char> {
    match chosen {
        Some(text) => text,
        None => default,
    }
}

/// The column, and the direction, by which recipes are ordered; by name where no order is asked for.
pub open spec fn recipe_order_clause(order: Option<RecipeOrder>) -> Seq<char> {
    match order {
        Some(chosen) => match chosen {
            RecipeOrder::Alphabetical => "name"@,
            RecipeOrder::AbvAsc => "abv_average"@,
            RecipeOrder::AbvDesc => "abv_average DESC"@,
            RecipeOrder::ServingsAsc => "standard_servings"@,
            RecipeOrder::ServingsDesc => "standard_servings DESC"@,
            RecipeOrder::AerAlkoAsc => "alko_aer"@,
            RecipeOrder::AerAlkoDesc => "alko_aer DESC"@,
            RecipeOrder::AerSuperalkoAsc => "superalko_aer"@,
            RecipeOrder::AerSuperalkoDesc => "superalko_aer DESC"@,
            RecipeOrder::PriceSuperalkoAsc => "superalko_price_min"@,
            RecipeOrder::PriceSuperalkoDesc => "superalko_price_max DESC"@,
            RecipeOrder::PriceAlkoAsc => "alko_price_min"@,
            RecipeOrder::PriceAlkoDesc => "alko_price_max DESC"@,
        },
        None => "name"@,
    }
}

/// The column, and the direction, by which recipes are ordered; by name where no order is asked for.
pub fn recipe_order(order: Option<RecipeOrder>) -> (clause: &'static str)
    ensures
        clause@ == recipe_order_clause(order),
{
    match order {
        Some(chosen) => match chosen {
            RecipeOrder::Alphabetical => "name",
            RecipeOrder::AbvAsc => "abv_average",
            RecipeOrder::AbvDesc => "abv_average DESC",
            RecipeOrder::ServingsAsc => "standard_servings",
            RecipeOrder::ServingsDesc => "standard_servings DESC",
            RecipeOrder::AerAlkoAsc => "alko_aer",
            RecipeOrder::AerAlkoDesc => "alko_aer DESC",
            RecipeOrder::AerSuperalkoAsc => "superalko_aer",
            RecipeOrder::AerSuperalkoDesc => "superalko_aer DESC",
            RecipeOrder::PriceSuperalkoAsc => "superalko_price_min",
            RecipeOrder::PriceSuperalkoDesc => "superalko_price_max DESC",
            RecipeOrder::PriceAlkoAsc => "alko_price_min",
            RecipeOrder::PriceAlkoDesc => "alko_price_max DESC",
        },
        None => "name",
    }
}

/// The column, and the direction, by which ingredients are ordered; by name where no order is asked for.
pub open spec fn incredient_order_clause(order: Option<IncredientOrder>) -> Seq<char> {
    match order {
        Some(chosen) => match chosen {
            IncredientOrder::Alphabetical => "name"@,
            IncredientOrder::AbvAsc => "abv_average"@,
            IncredientOrder::AbvDesc => "abv_average DESC"@,
            IncredientOrder::PriceSuperalkoAsc => "superalko_price_min"@,
            IncredientOrder::PriceSuperalkoDesc => "superalko_price_max DESC"@,
            IncredientOrder::PriceAlkoAsc => "alko_price_min"@,
            IncredientOrder::PriceAlkoDesc => "alko_price_max DESC"@,
        },
        None => "name"@,
    }
}

/// The column, and the direction, by which ingredients are ordered; by name where no order is asked for.
pub fn incredient_order(order: Option<IncredientOrder>) -> (clause: &'static str)
    ensures
        clause@ == incredient_order_clause(order),
{
    match order {
        Some(chosen) => match chosen {
            IncredientOrder::Alphabetical => "name",
            IncredientOrder::AbvAsc => "abv_average",
            IncredientOrder::AbvDesc => "abv_average DESC",
            IncredientOrder::PriceSuperalkoAsc => "superalko_price_min",
            IncredientOrder::PriceSuperalkoDesc => "superalko_price_max DESC",
            IncredientOrder::PriceAlkoAsc => "alko_price_min",
            IncredientOrder::PriceAlkoDesc => "alko_price_max DESC",
        },
        None => "name",
    }
}

/// The column, and the direction, by which products are ordered; by name where no order is asked for.
pub open spec fn product_order_clause(order: Option<ProductOrder>) -> Seq<char> {
    match order {
        Some(chosen) => match chosen {
            ProductOrder::Alphabetical => "name"@,
            ProductOrder::PriceAsc => "p.price ASC"@,
            ProductOrder::PriceDesc => "p.price DESC"@,
            ProductOrder::UnitPriceAsc => "p.unit_price ASC"@,
            ProductOrder::UnitPriceDesc => "p.unit_price DESC"@,
            ProductOrder::AerAsc => "p.aer ASC"@,
            ProductOrder::AerDesc => "p.aer DESC"@,
        },
        None => "name"@,
    }
}

/// The column, and the direction, by which products are ordered; by name where no order is asked for.
pub fn product_order(order: Option<ProductOrder>) -> (clause: &'static str)
    ensures
        clause@ == product_order_clause(order),
{
    match order {
        Some(chosen) => match chosen {
            ProductOrder::Alphabetical => "name",
            ProductOrder::PriceAsc => "p.price ASC",
            ProductOrder::PriceDesc => "p.price DESC",
            ProductOrder::UnitPriceAsc => "p.unit_price ASC",
            ProductOrder::UnitPriceDesc => "p.unit_price DESC",
            ProductOrder::AerAsc => "p.aer ASC",
            ProductOrder::AerDesc => "p.aer DESC",
        },
        None => "name",
    }
}

/// The condition that keeps the recipes available at a retailer; none where any will do.
pub open spec fn recipe_availability_clause(availability: Option<RecipeAvailability>) -> Seq<char> {
    match availability {
        Some(chosen) => match chosen {
            RecipeAvailability::Any => ""@,
            RecipeAvailability::Alko => "AND r.available_alko"@,
            RecipeAvailability::Superalko => "AND r.available_superalko"@,
        },
        None => ""@,
    }
}

/// The condition that keeps the recipes available at a retailer; none where any will do.
pub fn recipe_availability(availability: Option<RecipeAvailability>) -> (clause: &'static str)
    ensures
        clause@ == recipe_availability_clause(availability),
{
    match availability {
        Some(chosen) => match chosen {
            RecipeAvailability::Any => "",
            RecipeAvailability::Alko => "AND r.available_alko",
            RecipeAvailability::Superalko => "AND r.available_superalko",
        },
        None => "",
    }
}

/// The condition that keeps the products of a retailer; none where any will do.
pub open spec fn product_availability_clause(availability: Option<RecipeAvailability>) -> Seq<char> {
    match availability {
        Some(chosen) => match chosen {
            RecipeAvailability::Any => ""@,
            RecipeAvailability::Alko => "AND p.retailer = 'alko'"@,
            RecipeAvailability::Superalko => "AND p.retailer = 'superalko'"@,
        },
        None => ""@,
    }
}

/// The condition that keeps the products of a retailer; none where any will do.
pub fn product_availability(availability: Option<RecipeAvailability>) -> (clause: &'static str)
    ensures
        clause@ == product_availability_clause(availability),
{
    match availability {
        Some(chosen) => match chosen {
            RecipeAvailability::Any => "",
            RecipeAvailability::Alko => "AND p.retailer = 'alko'",
            RecipeAvailability::Superalko => "AND p.retailer = 'superalko'",
        },
        None => "",
    }
}

/// The query that lists one page of recipes whose name is like a pattern. The conditions on the type and on the author are there where
/// `by_category` and `by_author` say so, and the parameters are numbered in
/// the order type, author, pattern, limit, offset, leaving out those that
/// are not there.
pub open spec fn recipes_query_text(by_category: bool, by_author: bool, availability: Option<RecipeAvailability>, order: Option<RecipeOrder>) -> Seq<char> {
    if by_category && by_author {
        "SELECT r.*, COUNT(rr) OVER() FROM drink_recipes r LEFT JOIN drink_recipes rr ON rr.id = r.id WHERE r.type = $1 AND r.author_id = $2 AND r.name ILIKE $3 "@ + recipe_availability_clause(availability) + " ORDER BY "@ + recipe_order_clause(order) + " LIMIT $4 OFFSET $5"@
    } else if by_category {
        "SELECT r.*, COUNT(rr) OVER() FROM drink_recipes r LEFT JOIN drink_recipes rr ON rr.id = r.id WHERE r.type = $1 AND r.name ILIKE $2 "@ + recipe_availability_clause(availability) + " ORDER BY "@ + recipe_order_clause(order) + " LIMIT $3 OFFSET $4"@
    } else if by_author {
        "SELECT r.*, COUNT(rr) OVER() FROM drink_recipes r LEFT JOIN drink_recipes rr ON rr.id = r.id WHERE r.author_id = $1 AND r.name ILIKE $2 "@ + recipe_availability_clause(availability) + " ORDER BY "@ + recipe_order_clause(order) + " LIMIT $3 OFFSET $4"@
    } else {
        "SELECT r.*, COUNT(rr) OVER() FROM drink_recipes r LEFT JOIN drink_recipes rr ON rr.id = r.id WHERE r.name ILIKE $1 "@ + recipe_availability_clause(availability) + " ORDER BY "@ + recipe_order_clause(order) + " LIMIT $2 OFFSET $3"@
    }
}

/// The query that lists one page of recipes whose name is like a pattern. The conditions on the type and on the author are there where
/// `by_category` and `by_author` say so, and the parameters are numbered in
/// the order type, author, pattern, limit, offset, leaving out those that
/// are not there.
pub fn recipes_query(by_category: bool, by_author: bool, availability: Option<RecipeAvailability>, order: Option<RecipeOrder>) -> (text: String)
    ensures
        text@ == recipes_query_text(by_category, by_author, availability, order),
{
    if by_category && by_author {
        String::from_str("SELECT r.*, COUNT(rr) OVER() FROM drink_recipes r LEFT JOIN drink_recipes rr ON rr.id = r.id WHERE r.type = $1 AND r.author_id = $2 AND r.name ILIKE $3 ").concat(recipe_availability(availability)).concat(" ORDER BY ").concat(recipe_order(order)).concat(" LIMIT $4 OFFSET $5")
    } else if by_category {
        String::from_str("SELECT r.*, COUNT(rr) OVER() FROM drink_recipes r LEFT JOIN drink_recipes rr ON rr.id = r.id WHERE r.type = $1 AND r.name ILIKE $2 ").concat(recipe_availability(availability)).concat(" ORDER BY ").concat(recipe_order(order)).concat(" LIMIT $3 OFFSET $4")
    } else if by_author {
        String::from_str("SELECT r.*, COUNT(rr) OVER() FROM drink_recipes r LEFT JOIN drink_recipes rr ON rr.id = r.id WHERE r.author_id = $1 AND r.name ILIKE $2 ").concat(recipe_availability(availability)).concat(" ORDER BY ").concat(recipe_order(order)).concat(" LIMIT $3 OFFSET $4")
    } else {
        String::from_str("SELECT r.*, COUNT(rr) OVER() FROM drink_recipes r LEFT JOIN drink_recipes rr ON rr.id = r.id WHERE r.name ILIKE $1 ").concat(recipe_availability(availability)).concat(" ORDER BY ").concat(recipe_order(order)).concat(" LIMIT $2 OFFSET $3")
    }
}

/// The query that lists one page of ingredients whose name is like a
/// pattern, with the parameters numbered in the order type, author, pattern,
/// limit, offset, leaving out those that are not there.
pub open spec fn incredients_query_text(by_category: bool, by_author: bool, order: Option<IncredientOrder>) -> Seq<char> {
    if by_category && by_author {
        "SELECT d.*, COUNT(dd) OVER() FROM drink_incredients d LEFT JOIN drink_incredients dd ON dd.id = d.id WHERE d.type = $1 AND d.author_id = $2 AND d.name ILIKE $3 ORDER BY "@ + incredient_order_clause(order) + " LIMIT $4 OFFSET $5"@
    } else if by_category {
        "SELECT d.*, COUNT(dd) OVER() FROM drink_incredients d LEFT JOIN drink_incredients dd ON dd.id = d.id WHERE d.type = $1 AND d.name ILIKE $2 ORDER BY "@ + incredient_order_clause(order) + " LIMIT $3 OFFSET $4"@
    } else if by_author {
        "SELECT d.*, COUNT(dd) OVER() FROM drink_incredients d LEFT JOIN drink_incredients dd ON dd.id = d.id WHERE d.author_id = $1 AND d.name ILIKE $2 ORDER BY "@ + incredient_order_clause(order) + " LIMIT $3 OFFSET $4"@
    } else {
        "SELECT d.*, COUNT(dd) OVER() FROM drink_incredients d LEFT JOIN drink_incredients dd ON dd.id = d.id WHERE d.name ILIKE $1 ORDER BY "@ + incredient_order_clause(order) + " LIMIT $2 OFFSET $3"@
    }
}

/// The query that lists one page of ingredients whose name is like a
/// pattern, with the parameters numbered in the order type, author, pattern,
/// limit, offset, leaving out those that are not there.
pub fn incredients_query(by_category: bool, by_author: bool, order: Option<IncredientOrder>) -> (text: String)
    ensures
        text@ == incredients_query_text(by_category, by_author, order),
{
    if by_category && by_author {
        String::from_str("SELECT d.*, COUNT(dd) OVER() FROM drink_incredients d LEFT JOIN drink_incredients dd ON dd.id = d.id WHERE d.type = $1 AND d.author_id = $2 AND d.name ILIKE $3 ORDER BY ").concat(incredient_order(order)).concat(" LIMIT $4 OFFSET $5")
    } else if by_category {
        String::from_str("SELECT d.*, COUNT(dd) OVER() FROM drink_incredients d LEFT JOIN drink_incredients dd ON dd.id = d.id WHERE d.type = $1 AND d.name ILIKE $2 ORDER BY ").concat(incredient_order(order)).concat(" LIMIT $3 OFFSET $4")
    } else if by_author {
        String::from_str("SELECT d.*, COUNT(dd) OVER() FROM drink_incredients d LEFT JOIN drink_incredients dd ON dd.id = d.id WHERE d.author_id = $1 AND d.name ILIKE $2 ORDER BY ").concat(incredient_order(order)).concat(" LIMIT $3 OFFSET $4")
    } else {
        String::from_str("SELECT d.*, COUNT(dd) OVER() FROM drink_incredients d LEFT JOIN drink_incredients dd ON dd.id = d.id WHERE d.name ILIKE $1 ORDER BY ").concat(incredient_order(order)).concat(" LIMIT $2 OFFSET $3")
    }
}

/// The query that lists one page of products whose name is like a pattern,
/// with the parameters numbered in the order category, subcategory,
/// pattern, limit, offset, leaving out those that are not there.
pub open spec fn products_query_text(by_category: bool, by_subcategory: bool, availability: Option<RecipeAvailability>, order: Option<ProductOrder>) -> Seq<char> {
    if by_category && by_subcategory {
        "SELECT p.id, p.name, p.href, p.img, p.retailer, p.unit_price, p.price, p.abv, p.volume, p.aer, COUNT(pp) OVER() FROM products p LEFT JOIN products pp ON pp.id = p.id WHERE p.category_id = $1 AND p.subcategory_id = $2 AND p.name ILIKE $3 "@ + product_availability_clause(availability) + " ORDER BY "@ + product_order_clause(order) + " LIMIT $4 OFFSET $5"@
    } else if by_category {
        "SELECT p.id, p.name, p.href, p.img, p.retailer, p.unit_price, p.price, p.abv, p.volume, p.aer, COUNT(pp) OVER() FROM products p LEFT JOIN products pp ON pp.id = p.id WHERE p.category_id = $1 AND p.name ILIKE $2 "@ + product_availability_clause(availability) + " ORDER BY "@ + product_order_clause(order) + " LIMIT $3 OFFSET $4"@
    } else if by_subcategory {
        "SELECT p.id, p.name, p.href, p.img, p.retailer, p.unit_price, p.price, p.abv, p.volume, p.aer, COUNT(pp) OVER() FROM products p LEFT JOIN products pp ON pp.id = p.id WHERE p.subcategory_id = $1 AND p.name ILIKE $2 "@ + product_availability_clause(availability) + " ORDER BY "@ + product_order_clause(order) + " LIMIT $3 OFFSET $4"@
    } else {
        "SELECT p.id, p.name, p.href, p.img, p.retailer, p.unit_price, p.price, p.abv, p.volume, p.aer, COUNT(pp) OVER() FROM products p LEFT JOIN products pp ON pp.id = p.id WHERE p.name ILIKE $1 "@ + product_availability_clause(availability) + " ORDER BY "@ + product_order_clause(order) + " LIMIT $2 OFFSET $3"@
    }
}

/// The query that lists one page of products whose name is like a pattern,
/// with the parameters numbered in the order category, subcategory,
/// pattern, limit, offset, leaving out those that are not there.
pub fn products_query(by_category: bool, by_subcategory: bool, availability: Option<RecipeAvailability>, order: Option<ProductOrder>) -> (text: String)
    ensures
        text@ == products_query_text(by_category, by_subcategory, availability, order),
{
    if by_category && by_subcategory {
        String::from_str("SELECT p.id, p.name, p.href, p.img, p.retailer, p.unit_price, p.price, p.abv, p.volume, p.aer, COUNT(pp) OVER() FROM products p LEFT JOIN products pp ON pp.id = p.id WHERE p.category_id = $1 AND p.subcategory_id = $2 AND p.name ILIKE $3 ").concat(product_availability(availability)).concat(" ORDER BY ").concat(product_order(order)).concat(" LIMIT $4 OFFSET $5")
    } else if by_category {
        String::from_str("SELECT p.id, p.name, p.href, p.img, p.retailer, p.unit_price, p.price, p.abv, p.volume, p.aer, COUNT(pp) OVER() FROM products p LEFT JOIN products pp ON pp.id = p.id WHERE p.category_id = $1 AND p.name ILIKE $2 ").concat(product_availability(availability)).concat(" ORDER BY ").concat(product_order(order)).concat(" LIMIT $3 OFFSET $4")
    } else if by_subcategory {
        String::from_str("SELECT p.id, p.name, p.href, p.img, p.retailer, p.unit_price, p.price, p.abv, p.volume, p.aer, COUNT(pp) OVER() FROM products p LEFT JOIN products pp ON pp.id = p.id WHERE p.subcategory_id = $1 AND p.name ILIKE $2 ").concat(product_availability(availability)).concat(" ORDER BY ").concat(product_order(order)).concat(" LIMIT $3 OFFSET $4")
    } else {
        String::from_str("SELECT p.id, p.name, p.href, p.img, p.retailer, p.unit_price, p.price, p.abv, p.volume, p.aer, COUNT(pp) OVER() FROM products p LEFT JOIN products pp ON pp.id = p.id WHERE p.name ILIKE $1 ").concat(product_availability(availability)).concat(" ORDER BY ").concat(product_order(order)).concat(" LIMIT $2 OFFSET $3")
    }
}

/// The query that lists the products that an ingredient's filter admits.
pub open spec fn product_filter_query_text(
    availability: Option<RecipeAvailability>,
    order: Option<ProductOrder>,
) -> Seq<char> {
    "SELECT p.*, COUNT(pp) OVER() FROM incredient_product_filters f RIGHT JOIN products p ON p.id = f.product_id RIGHT JOIN products pp ON pp.id = p.id WHERE f.incredient_id = $1 "@
        + product_availability_clause(availability) + " ORDER BY "@ + product_order_clause(order)
}

/// The query that lists the products that an ingredient's filter admits.
pub fn product_filter_query(availability: Option<RecipeAvailability>, order: Option<ProductOrder>)
    -> (text: String)
    ensures
        text@ == product_filter_query_text(availability, order),
{
    String::from_str(
        "SELECT p.*, COUNT(pp) OVER() FROM incredient_product_filters f RIGHT JOIN products p ON p.id = f.product_id RIGHT JOIN products pp ON pp.id = p.id WHERE f.incredient_id = $1 ",
    ).concat(product_availability(availability)).concat(" ORDER BY ").concat(product_order(order))
}

/// The products from which the cached figures of an ingredient are taken.
#[derive(Clone, Copy, Debug, PartialEq, Eq, Structural)]
pub enum FigureSource {
    /// All products of one subcategory.
    Subcategory(i32),
    /// All products of one category.
    Category(i32),
    /// The products that the ingredient's own filter lists.
    Filter,
}

/// Decides where the cached figures of an ingredient are taken from. The
/// static filters count only where they are in use; of the two, the category
/// goes before the subcategory.
pub fn figure_source(
    use_static_filter: bool,
    static_filter: Option<i32>,
    static_filter_c: Option<i32>,
) -> (source: FigureSource)
    ensures
        source == if use_static_filter && static_filter_c is Some {
            FigureSource::Category(static_filter_c->0)
        } else if use_static_filter && static_filter is Some {
            FigureSource::Subcategory(static_filter->0)
        } else {
            FigureSource::Filter
        },
{
    if !use_static_filter {
        return FigureSource::Filter;
    }
    match (static_filter, static_filter_c) {
        (Some(subcategory_id), None) => FigureSource::Subcategory(subcategory_id),
        (_, Some(category_id)) => FigureSource::Category(category_id),
        (None, None) => FigureSource::Filter,
    }
}

/// The largest number of rows that one statement inserts.
pub const ROWS_PER_STATEMENT: usize = 16383;

/// The number of rows, of `len` that are given, that one statement inserts:
/// all of them up to [`ROWS_PER_STATEMENT`], and no more.
pub fn rows_in_statement(len: usize) -> (taken: usize)
    ensures
        taken == if len <= ROWS_PER_STATEMENT {
            len
        } else {
            ROWS_PER_STATEMENT
        },
{
    if len <= ROWS_PER_STATEMENT {
        len
    } else {
        ROWS_PER_STATEMENT
    }
}

} // verus!
