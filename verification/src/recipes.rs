//! What the server does with recipes between the browser and SQLite: how
//! stored rows become the recipe list, how a submitted recipe is cleaned up
//! before it is stored, and how an uploaded photo is checked and served.

use std::collections::HashMap;
use vstd::prelude::*;

use crate::models::{Ingredient, IngredientView, NewRecipe, Recipe};
use crate::text::{lemma_trimmed_is_trimmed, owned, trim, trimmed};

verus! {

/// An ingredient row as stored: the line itself and the recipe it belongs to.
pub struct IngredientRow {
    pub recipe_id: i64,
    pub ingredient: Ingredient,
}

/// The ingredients that `rows` give the recipe `id`, in row order.
pub open spec fn ingredients_of(rows: Seq<IngredientRow>, id: i64) -> Seq<Ingredient>
    decreases rows.len(),
{
    if rows.len() == 0 {
        Seq::empty()
    } else {
        let earlier = ingredients_of(rows.drop_last(), id);
        if rows.last().recipe_id == id {
            earlier.push(rows.last().ingredient)
        } else {
            earlier
        }
    }
}

/// Whether a recipe before position `i` of the list has the same id as the
/// recipe at `i`.
pub open spec fn id_seen_before(recipes: Seq<Recipe>, i: int) -> bool {
    exists|j: int| 0 <= j < i && #[trigger] recipes[j].id == recipes[i].id
}

/// The two recipes agree on everything but their ingredients.
pub open spec fn same_but_ingredients(a: Recipe, b: Recipe) -> bool {
    &&& a.id == b.id
    &&& a.name@ == b.name@
    &&& a.instructions@ == b.instructions@
    &&& a.servings == b.servings
    &&& a.photo_version == b.photo_version
}

/// The ingredients the recipe at position `i` ends up with: those of its
/// rows, when it has any and no earlier recipe has taken them, else the ones
/// it came with.
pub open spec fn attached_ingredients(recipes: Seq<Recipe>, rows: Seq<IngredientRow>, i: int) -> Seq<
    Ingredient,
> {
    let found = ingredients_of(rows, recipes[i].id);
    if !id_seen_before(recipes, i) && found.len() > 0 {
        found
    } else {
        recipes[i].ingredients@
    }
}

proof fn lemma_ingredients_of_push(rows: Seq<IngredientRow>, row: IngredientRow, id: i64)
    ensures
        ingredients_of(rows.push(row), id) == (if row.recipe_id == id {
            ingredients_of(rows, id).push(row.ingredient)
        } else {
            ingredients_of(rows, id)
        }),
{
    assert(rows.push(row).drop_last() =~= rows);
}

/// Whether a row names the recipe `id`.
pub open spec fn row_names(id: i64) -> spec_fn(IngredientRow) -> bool {
    |row: IngredientRow| row.recipe_id == id
}

/// The ingredient line a row holds.
pub open spec fn row_line() -> spec_fn(IngredientRow) -> Ingredient {
    |row: IngredientRow| row.ingredient
}

/// The ingredients of a recipe are the lines of exactly the rows that name
/// it, in row order.
pub proof fn ingredients_of_are_its_rows(rows: Seq<IngredientRow>, id: i64)
    ensures
        ingredients_of(rows, id) == rows.filter(row_names(id)).map_values(row_line()),
    decreases rows.len(),
{
    reveal_with_fuel(Seq::<IngredientRow>::filter, 1);
    if rows.len() > 0 {
        ingredients_of_are_its_rows(rows.drop_last(), id);
        let earlier = rows.drop_last().filter(row_names(id));
        if rows.last().recipe_id == id {
            assert(rows.filter(row_names(id)) == earlier.push(rows.last()));
            assert(earlier.push(rows.last()).map_values(row_line()) =~= earlier.map_values(
                row_line(),
            ).push(rows.last().ingredient));
        } else {
            assert(rows.filter(row_names(id)) == earlier);
        }
    } else {
        assert(rows.filter(row_names(id)).map_values(row_line()) =~= Seq::<Ingredient>::empty());
    }
}

/// A recipe that is the first in the list with its id, and that some row
/// names, gets the lines of every row that names it, in row order, wherever
/// it stands in the list, the last place included.
pub proof fn first_recipe_with_an_id_gets_its_rows(
    recipes: Seq<Recipe>,
    rows: Seq<IngredientRow>,
    i: int,
)
    requires
        0 <= i < recipes.len(),
        forall|j: int| 0 <= j < i ==> recipes[j].id != recipes[i].id,
        exists|k: int| 0 <= k < rows.len() && rows[k].recipe_id == recipes[i].id,
    ensures
        attached_ingredients(recipes, rows, i) == rows.filter(row_names(recipes[i].id)).map_values(
            row_line(),
        ),
{
    let id = recipes[i].id;
    let k = choose|k: int| 0 <= k < rows.len() && rows[k].recipe_id == id;
    rows.lemma_filter_contains(row_names(id), k);
    ingredients_of_are_its_rows(rows, id);
    assert(!id_seen_before(recipes, i));
}

/// Gives each recipe the ingredients whose rows name it, keeping the order of
/// the rows, after fetching all ingredient rows in one query rather than one
/// query per recipe. The recipes keep their order.
pub fn attach_ingredients(recipes: Vec<Recipe>, rows: Vec<IngredientRow>) -> (out: Vec<Recipe>)
    ensures
        out@.len() == recipes@.len(),
        forall|i: int|
            0 <= i < recipes@.len() ==> {
                &&& same_but_ingredients(#[trigger] out@[i], recipes@[i])
                &&& out@[i].ingredients@ == attached_ingredients(recipes@, rows@, i)
            },
        forall|i: int|
            0 <= i < recipes@.len() && (forall|j: int|
                0 <= j < i ==> recipes@[j].id != recipes@[i].id) && (exists|k: int|
                0 <= k < rows@.len() && rows@[k].recipe_id == recipes@[i].id)
                ==> (#[trigger] out@[i]).ingredients@ == rows@.filter(
                row_names(recipes@[i].id),
            ).map_values(row_line()),
{
    let ghost all_rows = rows@;
    let ghost all_recipes_in = recipes@;
    let mut by_recipe: HashMap<i64, Vec<Ingredient>> = HashMap::new();
    for row in it: rows.into_iter()
        invariant
            it.seq() == all_rows,
            forall|k: i64|
                #![trigger by_recipe@.contains_key(k)]
                #![trigger ingredients_of(it.seq().take(it.index() as int), k)]
                {
                    &&& by_recipe@.contains_key(k) <==> ingredients_of(
                        it.seq().take(it.index() as int),
                        k,
                    ).len() > 0
                    &&& by_recipe@.contains_key(k) ==> by_recipe@[k]@ == ingredients_of(
                        it.seq().take(it.index() as int),
                        k,
                    )
                },
    {
        let ghost before = it.seq().take(it.index() as int);
        let ghost old_map = by_recipe@;
        let id = row.recipe_id;
        let ghost pushed = row;
        match by_recipe.remove(&id) {
            Some(mut list) => {
                list.push(row.ingredient);
                by_recipe.insert(id, list);
            },
            None => {
                let mut list: Vec<Ingredient> = Vec::new();
                list.push(row.ingredient);
                by_recipe.insert(id, list);
            },
        }
        proof {
            let after = it.seq().take(it.index() + 1);
            assert(after =~= before.push(pushed));
            assert forall|k: i64| #![trigger by_recipe@.contains_key(k)] {
                &&& by_recipe@.contains_key(k) <==> ingredients_of(after, k).len() > 0
                &&& by_recipe@.contains_key(k) ==> by_recipe@[k]@ == ingredients_of(after, k)
            } by {
                lemma_ingredients_of_push(before, pushed, k);
                if k != id {
                    assert(old_map.contains_key(k) == by_recipe@.contains_key(k));
                }
            }
        }
    }
    assert(all_rows.take(all_rows.len() as int) =~= all_rows);
    let ghost all_recipes = recipes@;
    let mut out: Vec<Recipe> = Vec::new();
    for recipe in it: recipes.into_iter()
        invariant
            it.seq() == all_recipes,
            out@.len() == it.index(),
            forall|i: int|
                0 <= i < it.index() ==> {
                    &&& same_but_ingredients(#[trigger] out@[i], all_recipes[i])
                    &&& out@[i].ingredients@ == attached_ingredients(all_recipes, all_rows, i)
                },
            forall|k: i64|
                #![trigger by_recipe@.contains_key(k)]
                {
                    &&& by_recipe@.contains_key(k) <==> (ingredients_of(all_rows, k).len() > 0
                        && !(exists|j: int| 0 <= j < it.index() && all_recipes[j].id == k))
                    &&& by_recipe@.contains_key(k) ==> by_recipe@[k]@ == ingredients_of(
                        all_rows,
                        k,
                    )
                },
    {
        let ghost i = it.index() as int;
        let ghost old_map = by_recipe@;
        let mut recipe = recipe;
        let ghost original = recipe;
        assert(original == all_recipes[i]);
        match by_recipe.remove(&recipe.id) {
            Some(list) => {
                recipe.ingredients = list;
            },
            None => {},
        }
        proof {
            assert(old_map.contains_key(original.id) <==> !id_seen_before(all_recipes, i)
                && ingredients_of(all_rows, original.id).len() > 0);
        }
        out.push(recipe);
        proof {
            assert forall|k: i64| #![trigger by_recipe@.contains_key(k)] {
                &&& by_recipe@.contains_key(k) <==> (ingredients_of(all_rows, k).len() > 0 && !(
                exists|j: int| 0 <= j < i + 1 && all_recipes[j].id == k))
                &&& by_recipe@.contains_key(k) ==> by_recipe@[k]@ == ingredients_of(all_rows, k)
            } by {
                if k != original.id {
                    assert(old_map.contains_key(k) == by_recipe@.contains_key(k));
                    if exists|j: int| 0 <= j < i + 1 && all_recipes[j].id == k {
                        let j = choose|j: int| 0 <= j < i + 1 && all_recipes[j].id == k;
                        assert(j < i);
                    }
                } else {
                    assert(0 <= i < i + 1 && all_recipes[i].id == k);
                }
            }
        }
    }
    proof {
        assert forall|i: int|
            0 <= i < all_recipes_in.len() && (forall|j: int|
                0 <= j < i ==> all_recipes_in[j].id != all_recipes_in[i].id) && (exists|k: int|
                0 <= k < all_rows.len() && all_rows[k].recipe_id == all_recipes_in[i].id)
            implies (#[trigger] out@[i]).ingredients@ == all_rows.filter(
            row_names(all_recipes_in[i].id),
        ).map_values(row_line()) by {
            first_recipe_with_an_id_gets_its_rows(all_recipes_in, all_rows, i);
        }
    }
    out
}

/// Why a submitted recipe was refused.
#[derive(Debug, Clone, Copy, PartialEq, Eq, Structural)]
pub enum RecipeError {
    /// The name was empty once surrounding white space was removed.
    MissingName,
}

impl RecipeError {
    /// The explanation shown to whoever submitted the recipe.
    pub fn message(&self) -> (m: String)
        ensures
            m@ == "A recipe needs a name"@,
    {
        owned("A recipe needs a name")
    }
}

/// A submitted recipe as it is written to the database: text trimmed, at
/// least one serving, and only the ingredient lines that have a name.
pub struct PreparedRecipe {
    pub name: String,
    pub instructions: String,
    pub servings: i64,
    pub ingredients: Vec<Ingredient>,
}

/// The ingredient lines of `lines` that keep a name once trimmed, with their
/// name and unit trimmed, in their original order.
pub open spec fn kept_ingredients(lines: Seq<Ingredient>) -> Seq<IngredientView>
    decreases lines.len(),
{
    if lines.len() == 0 {
        Seq::empty()
    } else {
        let earlier = kept_ingredients(lines.drop_last());
        let line = lines.last();
        if trimmed(line.name@).len() == 0 {
            earlier
        } else {
            earlier.push(
                IngredientView {
                    name: trimmed(line.name@),
                    quantity: line.quantity,
                    unit: trimmed(line.unit@),
                },
            )
        }
    }
}

/// Whether an ingredient line keeps a name once trimmed.
pub open spec fn named_line() -> spec_fn(Ingredient) -> bool {
    |line: Ingredient| trimmed(line.name@).len() > 0
}

/// An ingredient line with its name and unit trimmed and its amount as it was.
pub open spec fn cleaned_line() -> spec_fn(Ingredient) -> IngredientView {
    |line: Ingredient|
        IngredientView {
            name: trimmed(line.name@),
            quantity: line.quantity,
            unit: trimmed(line.unit@),
        }
}

/// The lines kept are exactly those with a name once trimmed, in their
/// order, each cleaned: its amount, zero or not, never decides whether it is
/// kept, and it is kept unchanged.
pub proof fn kept_lines_are_the_named_ones(lines: Seq<Ingredient>)
    ensures
        kept_ingredients(lines) == lines.filter(named_line()).map_values(cleaned_line()),
        kept_ingredients(lines).len() == lines.filter(named_line()).len(),
    decreases lines.len(),
{
    reveal_with_fuel(Seq::<Ingredient>::filter, 1);
    if lines.len() > 0 {
        kept_lines_are_the_named_ones(lines.drop_last());
        let earlier = lines.drop_last().filter(named_line());
        if trimmed(lines.last().name@).len() > 0 {
            assert(lines.filter(named_line()) == earlier.push(lines.last()));
            assert(earlier.push(lines.last()).map_values(cleaned_line()) =~= earlier.map_values(
                cleaned_line(),
            ).push(cleaned_line()(lines.last())));
        } else {
            assert(lines.filter(named_line()) == earlier);
        }
    } else {
        assert(lines.filter(named_line()).map_values(cleaned_line()) =~= Seq::<
            IngredientView,
        >::empty());
    }
}

/// The views of a list of ingredient lines.
pub open spec fn views(lines: Seq<Ingredient>) -> Seq<IngredientView> {
    lines.map_values(|line: Ingredient| line@)
}

/// Every kept line has a name, and it is already trimmed.
pub proof fn lemma_kept_names_are_trimmed(lines: Seq<Ingredient>)
    ensures
        forall|j: int|
            0 <= j < kept_ingredients(lines).len() ==> {
                &&& (#[trigger] kept_ingredients(lines)[j]).name.len() > 0
                &&& trimmed(kept_ingredients(lines)[j].name) == kept_ingredients(lines)[j].name
            },
    decreases lines.len(),
{
    if lines.len() > 0 {
        let earlier = kept_ingredients(lines.drop_last());
        lemma_kept_names_are_trimmed(lines.drop_last());
        lemma_trimmed_is_trimmed(lines.last().name@);
        assert forall|j: int| 0 <= j < kept_ingredients(lines).len() implies {
            &&& (#[trigger] kept_ingredients(lines)[j]).name.len() > 0
            &&& trimmed(kept_ingredients(lines)[j].name) == kept_ingredients(lines)[j].name
        } by {
            if j < earlier.len() {
                assert(kept_ingredients(lines)[j] == earlier[j]);
            }
        }
    }
}

/// Cleans up a recipe before it is stored. The name, instructions and each
/// ingredient's name and unit lose surrounding white space, servings are at
/// least one, and ingredient lines left without a name are dropped. A recipe
/// whose name is blank is refused.
pub fn prepare_recipe(recipe: &NewRecipe) -> (r: Result<PreparedRecipe, RecipeError>)
    ensures
        match r {
            Ok(prepared) => {
                &&& trimmed(recipe.name@).len() > 0
                &&& prepared.name@ == trimmed(recipe.name@)
                &&& prepared.instructions@ == trimmed(recipe.instructions@)
                &&& prepared.servings == (if recipe.servings < 1 {
                    1
                } else {
                    recipe.servings
                })
                &&& views(prepared.ingredients@) == kept_ingredients(recipe.ingredients@)
                &&& views(prepared.ingredients@) == recipe.ingredients@.filter(
                    named_line(),
                ).map_values(cleaned_line())
                &&& trimmed(prepared.name@) == prepared.name@
                &&& prepared.servings >= 1
                &&& forall|j: int|
                    0 <= j < prepared.ingredients@.len() ==> {
                        &&& (#[trigger] prepared.ingredients@[j]).name@.len() > 0
                        &&& trimmed(prepared.ingredients@[j].name@)
                            == prepared.ingredients@[j].name@
                    }
            },
            Err(e) => trimmed(recipe.name@).len() == 0 && e == RecipeError::MissingName,
        },
{
    let name = trim(recipe.name.as_str());
    if name.unicode_len() == 0 {
        return Err(RecipeError::MissingName);
    }
    let instructions = trim(recipe.instructions.as_str());
    let servings = if recipe.servings < 1 {
        1
    } else {
        recipe.servings
    };
    let mut ingredients: Vec<Ingredient> = Vec::new();
    let n = recipe.ingredients.len();
    for i in 0..n
        invariant
            n == recipe.ingredients@.len(),
            views(ingredients@) == kept_ingredients(recipe.ingredients@.take(i as int)),
    {
        let line = &recipe.ingredients[i];
        let line_name = trim(line.name.as_str());
        proof {
            assert(recipe.ingredients@.take(i + 1).drop_last() =~= recipe.ingredients@.take(
                i as int,
            ));
        }
        if line_name.unicode_len() != 0 {
            let kept = Ingredient {
                name: owned(line_name),
                quantity: line.quantity,
                unit: owned(trim(line.unit.as_str())),
            };
            let ghost before = ingredients@;
            ingredients.push(kept);
            proof {
                assert(views(ingredients@) =~= views(before).push(kept@));
            }
        }
    }
    proof {
        assert(recipe.ingredients@.take(n as int) =~= recipe.ingredients@);
        lemma_trimmed_is_trimmed(recipe.name@);
        lemma_kept_names_are_trimmed(recipe.ingredients@);
        kept_lines_are_the_named_ones(recipe.ingredients@);
        assert forall|j: int| 0 <= j < ingredients@.len() implies {
            &&& (#[trigger] ingredients@[j]).name@.len() > 0
            &&& trimmed(ingredients@[j].name@) == ingredients@[j].name@
        } by {
            assert(views(ingredients@)[j] == ingredients@[j]@);
            assert(kept_ingredients(recipe.ingredients@)[j] == ingredients@[j]@);
        }
    }
    Ok(
        PreparedRecipe {
            name: owned(name),
            instructions: owned(instructions),
            servings,
            ingredients,
        },
    )
}

} // verus!
