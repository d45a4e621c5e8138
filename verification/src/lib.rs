//! Data-access and session rules of a drinks catalogue: the typed cache-aside
//! layer with epoch-based invalidation, and the value types, parsers and
//! permission rules that surround it.

pub mod cache;
pub mod constants;
pub mod cryptography;
pub mod error;
pub mod form;
pub mod grouping;
pub mod pagination;
pub mod permissions;
pub mod queries;
pub mod schema;
pub mod session;
pub mod similarity;
pub mod srs;
pub mod text;
pub mod users;

pub use cache::aside::{CacheEvent, CacheFault, CacheStep, OptionalStep};
pub use cache::key::{CacheKey, CacheKeyType};
pub use cache::lifetime::{CacheBind, CacheLifetime, ConflictingBindings};
pub use cache::value::RedisValue;
pub use constants::{INCREDIENT_COUNT_PER_PAGE, PRODUCT_COUNT_PER_PAGE, RECIPE_COUNT_PER_PAGE};
pub use cryptography::{generate_access_token, hash_pasword, verify_password};
pub use error::{CacheError, QueryError, StoreError, TypeError};
pub use pagination::PageContext;
pub use permissions::ActionType;
pub use schema::{
    Cabinet,
    CabinetMember,
    Category,
    IncredientFilterObject,
    IncredientFilterObjectNoName,
    IncredientOrder,
    IngredientFilterList,
    IngredientsForDrink,
    LinkedRecipeTag,
    ProductOrder,
    ProductType,
    RecipeAvailability,
    RecipeOrder,
    RecipePart,
    RecipePartNoId,
    RecipeTag,
    RecipeType,
    Retailer,
    SubCategory,
    UnitType,
    User,
    UserRole,
    Uuid,
};
pub use session::{
    verify_jwt_session,
    with_possible_session,
    with_session,
    CabinetRecipeAccessKey,
    JwtSessionData,
    SessionData,
};
pub use srs::{StandardRecipePart, StandardRecipeSyntax};
