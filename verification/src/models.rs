//! Types shared between the client and the server.

use vstd::prelude::*;

use crate::text::{
    all_white_space, lemma_trimmed_ignores_padding, lowercase, to_lowercase, trim, trimmed,
};

verus! {

/// An amount of an ingredient or of pantry stock.
///
/// The household types amounts as decimal numbers, which the browser and the
/// database keep as IEEE-754 doubles; this holds the bit pattern of that
/// double (`f64::to_bits`), so an amount passes through unchanged.
#[derive(Debug, Clone, Copy, PartialEq, Eq, Structural)]
pub struct Quantity {
    pub bits: u64,
}

/// The bit pattern of negative zero.
pub const NEGATIVE_ZERO_BITS: u64 = 0x8000_0000_0000_0000u64;

impl Quantity {
    /// The amount that stands for "no amount given".
    pub fn zero() -> (q: Quantity)
        ensures
            q.bits == 0,
    {
        Quantity { bits: 0 }
    }

    /// Whether the amount equals zero, as `== 0.0` answers it: both signed
    /// zeros count.
    pub open spec fn spec_is_zero(self) -> bool {
        self.bits == 0 || self.bits == NEGATIVE_ZERO_BITS
    }

    pub fn is_zero(&self) -> (r: bool)
        ensures
            r == self.spec_is_zero(),
            r == (self.bits == 0u64 || self.bits == 0x8000_0000_0000_0000u64),
    {
        self.bits == 0 || self.bits == NEGATIVE_ZERO_BITS
    }
}

/// An amount counts as zero exactly when it is positive or negative zero;
/// every other amount, however small, counts as given.
pub proof fn only_signed_zeros_are_zero(q: Quantity)
    ensures
        q.spec_is_zero() <==> (q.bits == 0u64 || q.bits == 0x8000_0000_0000_0000u64),
{
}

/// A recipe as stored, with its ingredients in the order they were entered.
#[derive(Debug, Clone, PartialEq)]
pub struct Recipe {
    pub id: i64,
    pub name: String,
    pub instructions: String,
    pub servings: i64,
    pub ingredients: Vec<Ingredient>,
    /// Identifies the current photo, and is `None` when there is none. Not the
    /// photo itself: the bytes come from `/photo/{id}`, and this goes in its
    /// query string so that replacing a photo produces a URL the browser has
    /// not cached.
    pub photo_version: Option<i64>,
}

/// One line of a recipe's ingredient list.
#[derive(Debug, Clone, PartialEq)]
pub struct Ingredient {
    pub name: String,
    pub quantity: Quantity,
    pub unit: String,
}

/// The characters of an ingredient line.
pub struct IngredientView {
    pub name: Seq<char>,
    pub quantity: Quantity,
    pub unit: Seq<char>,
}

impl View for Ingredient {
    type V = IngredientView;

    open spec fn view(&self) -> IngredientView {
        IngredientView { name: self.name@, quantity: self.quantity, unit: self.unit@ }
    }
}

impl Default for Ingredient {
    /// A blank line: no name, no amount, no unit.
    fn default() -> (r: Ingredient)
        ensures
            r.name@ == Seq::<char>::empty(),
            r.quantity.bits == 0,
            r.unit@ == Seq::<char>::empty(),
    {
        Ingredient { name: String::new(), quantity: Quantity::zero(), unit: String::new() }
    }
}

/// A recipe submitted from the browser, before the database assigns an id.
#[derive(Debug, Clone, PartialEq)]
pub struct NewRecipe {
    pub name: String,
    pub instructions: String,
    pub servings: i64,
    pub ingredients: Vec<Ingredient>,
}

impl Default for NewRecipe {
    fn default() -> (r: NewRecipe)
        ensures
            r.name@ == Seq::<char>::empty(),
            r.instructions@ == Seq::<char>::empty(),
            r.servings == 0,
            r.ingredients@ == Seq::<Ingredient>::empty(),
    {
        NewRecipe {
            name: String::new(),
            instructions: String::new(),
            servings: 0,
            ingredients: Vec::new(),
        }
    }
}

/// The meal of the day a recipe is planned for.
#[derive(Debug, Clone, Copy, PartialEq, Eq, Structural)]
pub enum MealSlot {
    Breakfast,
    Lunch,
    Dinner,
}

impl MealSlot {
    /// Every slot, in the order of the day.
    pub const ALL: [MealSlot; 3] = [MealSlot::Breakfast, MealSlot::Lunch, MealSlot::Dinner];

    /// The stored form of the slot, in lower case.
    pub open spec fn spec_as_str(self) -> Seq<char> {
        match self {
            MealSlot::Breakfast => "breakfast"@,
            MealSlot::Lunch => "lunch"@,
            MealSlot::Dinner => "dinner"@,
        }
    }

    /// The slot's name as shown to the household.
    pub open spec fn spec_label(self) -> Seq<char> {
        match self {
            MealSlot::Breakfast => "Breakfast"@,
            MealSlot::Lunch => "Lunch"@,
            MealSlot::Dinner => "Dinner"@,
        }
    }

    pub fn as_str(self) -> (s: &'static str)
        ensures
            s@ == self.spec_as_str(),
    {
        match self {
            MealSlot::Breakfast => "breakfast",
            MealSlot::Lunch => "lunch",
            MealSlot::Dinner => "dinner",
        }
    }

    pub fn label(self) -> (s: &'static str)
        ensures
            s@ == self.spec_label(),
    {
        match self {
            MealSlot::Breakfast => "Breakfast",
            MealSlot::Lunch => "Lunch",
            MealSlot::Dinner => "Dinner",
        }
    }
}

/// One planned meal: a recipe assigned to a date and slot.
#[derive(Debug, Clone, PartialEq)]
pub struct PlannedMeal {
    /// ISO-8601 `YYYY-MM-DD`.
    pub date: String,
    pub slot: MealSlot,
    pub recipe_id: i64,
    pub recipe_name: String,
}

/// Something already at home.
#[derive(Debug, Clone, PartialEq)]
pub struct PantryItem {
    pub id: i64,
    pub name: String,
    pub quantity: Quantity,
    pub unit: String,
}

/// A line on the generated shopping list, after pantry stock is subtracted.
#[derive(Debug, Clone, PartialEq)]
pub struct ShoppingItem {
    /// Stable identity for the tick-box state: "lowercased name|unit".
    pub key: String,
    pub name: String,
    pub quantity: Quantity,
    pub unit: String,
    pub checked: bool,
}

/// The key under which quantities are summed: the trimmed, lower-cased name
/// and unit, joined by `|`.
pub open spec fn spec_item_key(name: Seq<char>, unit: Seq<char>) -> Seq<char> {
    lowercase(trimmed(name)) + seq!['|'] + lowercase(trimmed(unit))
}

/// Groups quantities that can be summed. Two ingredients only combine when they
/// agree on both name and unit, since "2 cloves garlic" and "10 g garlic" have
/// no common scale.
pub fn item_key(name: &str, unit: &str) -> (key: String)
    ensures
        key@ == spec_item_key(name@, unit@),
{
    let mut key = to_lowercase(trim(name));
    crate::text::push_char(&mut key, '|');
    let unit_key = to_lowercase(trim(unit));
    key.append(unit_key.as_str());
    key
}

/// White space around a name or a unit does not change the key: "  Garlic "
/// and "Garlic" are summed together.
pub proof fn item_key_ignores_surrounding_white_space(
    name: Seq<char>,
    unit: Seq<char>,
    name_before: Seq<char>,
    name_after: Seq<char>,
    unit_before: Seq<char>,
    unit_after: Seq<char>,
)
    requires
        all_white_space(name_before),
        all_white_space(name_after),
        all_white_space(unit_before),
        all_white_space(unit_after),
    ensures
        spec_item_key(name_before + name + name_after, unit_before + unit + unit_after)
            == spec_item_key(name, unit),
{
    lemma_trimmed_ignores_padding(name_before, name, name_after);
    lemma_trimmed_ignores_padding(unit_before, unit, unit_after);
}

/// Ingredients whose trimmed, lower-cased names and units agree share a key,
/// whatever characters those hold.
pub proof fn item_key_same_for_same_parts(
    name1: Seq<char>,
    unit1: Seq<char>,
    name2: Seq<char>,
    unit2: Seq<char>,
)
    requires
        lowercase(trimmed(name1)) == lowercase(trimmed(name2)),
        lowercase(trimmed(unit1)) == lowercase(trimmed(unit2)),
    ensures
        spec_item_key(name1, unit1) == spec_item_key(name2, unit2),
{
}

/// Two ingredients share a key exactly when they agree on both the trimmed,
/// lower-cased name and the trimmed, lower-cased unit, provided neither of
/// those holds the `|` that joins them.
pub proof fn item_key_identifies_name_and_unit(
    name1: Seq<char>,
    unit1: Seq<char>,
    name2: Seq<char>,
    unit2: Seq<char>,
)
    requires
        !lowercase(trimmed(name1)).contains('|'),
        !lowercase(trimmed(unit1)).contains('|'),
        !lowercase(trimmed(name2)).contains('|'),
        !lowercase(trimmed(unit2)).contains('|'),
    ensures
        spec_item_key(name1, unit1) == spec_item_key(name2, unit2) <==> (lowercase(trimmed(name1))
            == lowercase(trimmed(name2)) && lowercase(trimmed(unit1)) == lowercase(
            trimmed(unit2),
        )),
{
    let a1 = lowercase(trimmed(name1));
    let b1 = lowercase(trimmed(unit1));
    let a2 = lowercase(trimmed(name2));
    let b2 = lowercase(trimmed(unit2));
    let k1 = spec_item_key(name1, unit1);
    let k2 = spec_item_key(name2, unit2);
    if k1 == k2 {
        if a1.len() < a2.len() {
            assert(k1[a1.len() as int] == '|');
            assert(k2[a1.len() as int] == a2[a1.len() as int]);
            assert(a2.contains(a2[a1.len() as int]));
        } else if a2.len() < a1.len() {
            assert(k2[a2.len() as int] == '|');
            assert(k1[a2.len() as int] == a1[a2.len() as int]);
            assert(a1.contains(a1[a2.len() as int]));
        }
        assert(a1.len() == a2.len());
        assert(a1 =~= k1.subrange(0, a1.len() as int));
        assert(a2 =~= k2.subrange(0, a2.len() as int));
        assert(b1 =~= k1.subrange(a1.len() + 1int, k1.len() as int));
        assert(b2 =~= k2.subrange(a2.len() + 1int, k2.len() as int));
    }
}

} // verus!
