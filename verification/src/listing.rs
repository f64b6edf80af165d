//! The recipe list: what is shown in place of it while it loads or when it is
//! empty, and what each recipe's entry shows.

use vstd::prelude::*;

use crate::models::{Ingredient, Quantity, Recipe};
use crate::photos::{photo_url, spec_photo_url};
use crate::text::{decimal, owned, push_char, push_signed_decimal};

verus! {

/// The notice shown in place of the recipe list, given how loading it went:
/// still loading, failed with a reason, or loaded with so many recipes. None
/// when there are recipes to show.
pub open spec fn list_notice_text(loaded: Option<Result<nat, Seq<char>>>) -> Option<Seq<char>> {
    match loaded {
        None => Some("Loading…"@),
        Some(Err(reason)) => Some("Could not load recipes: "@ + reason),
        Some(Ok(count)) => if count == 0 {
            Some("No recipes yet. Add your first one below."@)
        } else {
            None
        },
    }
}

/// Once the list has loaded, a notice stands in its place exactly when there
/// are no recipes: with one recipe or more, the list itself is shown.
pub proof fn notice_only_for_an_empty_list(count: nat)
    ensures
        (list_notice_text(Some(Ok(count))) is None) <==> count >= 1,
        count == 0 ==> list_notice_text(Some(Ok(count))) == Some(
            "No recipes yet. Add your first one below."@,
        ),
{
}

/// The notice shown in place of the recipe list. Server and client both
/// first render "Loading…", so the page they produce agrees.
pub fn recipe_list_notice(loaded: Option<Result<usize, &str>>) -> (r: Option<String>)
    ensures
        match r {
            Some(t) => list_notice_text(
                match loaded {
                    None => None,
                    Some(Ok(n)) => Some(Ok(n as nat)),
                    Some(Err(e)) => Some(Err(e@)),
                },
            ) == Some(t@),
            None => list_notice_text(
                match loaded {
                    None => None,
                    Some(Ok(n)) => Some(Ok(n as nat)),
                    Some(Err(e)) => Some(Err(e@)),
                },
            ) is None,
        },
        match loaded {
            Some(Ok(count)) => (count == 0 ==> (r matches Some(t) && t@
                == "No recipes yet. Add your first one below."@)) && (count >= 1 ==> r is None),
            Some(Err(reason)) => r matches Some(t) && t@ == "Could not load recipes: "@ + reason@,
            None => r matches Some(t) && t@ == "Loading…"@,
        },
{
    match loaded {
        None => Some(owned("Loading…")),
        Some(Err(reason)) => {
            let mut t = owned("Could not load recipes: ");
            t.append(reason);
            Some(t)
        },
        Some(Ok(count)) => if count == 0 {
            Some(owned("No recipes yet. Add your first one below."))
        } else {
            None
        },
    }
}

/// The amount and unit that prefix an ingredient's name in the recipe list,
/// given the amount as displayed. Whatever was left blank is omitted, so a
/// bare "Salt" does not come out as "0  Salt"; a zero amount counts as blank.
pub open spec fn amount_prefix(quantity: Quantity, shown: Seq<char>, unit: Seq<char>) -> Seq<char> {
    let amount = if quantity.spec_is_zero() {
        Seq::<char>::empty()
    } else {
        shown
    };
    if amount.len() == 0 && unit.len() == 0 {
        Seq::empty()
    } else if amount.len() == 0 {
        unit + seq![' ']
    } else if unit.len() == 0 {
        amount + seq![' ']
    } else {
        amount + seq![' '] + unit + seq![' ']
    }
}

/// A given amount is shown: when the amount is not zero, the prefix begins
/// with the amount as displayed, followed by a space.
pub proof fn a_given_amount_is_shown(quantity: Quantity, shown: Seq<char>, unit: Seq<char>)
    requires
        quantity.bits != 0u64,
        quantity.bits != 0x8000_0000_0000_0000u64,
        shown.len() > 0,
    ensures
        amount_prefix(quantity, shown, unit).len() > shown.len(),
        amount_prefix(quantity, shown, unit).subrange(0, shown.len() as int) == shown,
        amount_prefix(quantity, shown, unit)[shown.len() as int] == ' ',
{
    let p = amount_prefix(quantity, shown, unit);
    if unit.len() == 0 {
        assert(p.subrange(0, shown.len() as int) =~= shown);
    } else {
        assert(p.subrange(0, shown.len() as int) =~= shown);
    }
}

/// A zero amount is left out: the prefix is the unit and a space, or nothing
/// when there is no unit either.
pub proof fn a_zero_amount_is_left_out(quantity: Quantity, shown: Seq<char>, unit: Seq<char>)
    requires
        quantity.bits == 0u64 || quantity.bits == 0x8000_0000_0000_0000u64,
    ensures
        amount_prefix(quantity, shown, unit) == (if unit.len() == 0 {
            Seq::<char>::empty()
        } else {
            unit.push(' ')
        }),
{
    if unit.len() > 0 {
        assert(unit + seq![' '] =~= unit.push(' '));
    }
}

/// Renders the quantity and unit prefix of an ingredient line; `shown` is
/// the amount as the browser displays the number.
pub fn format_amount(ingredient: &Ingredient, shown: &str) -> (r: String)
    ensures
        r@ == amount_prefix(ingredient.quantity, shown@, ingredient.unit@),
        ingredient.quantity.bits != 0u64 && ingredient.quantity.bits != 0x8000_0000_0000_0000u64
            && shown@.len() > 0 ==> r@.len() > shown@.len() && r@.subrange(
            0,
            shown@.len() as int,
        ) == shown@,
{
    proof {
        if ingredient.quantity.bits != 0u64 && ingredient.quantity.bits
            != 0x8000_0000_0000_0000u64 && shown@.len() > 0 {
            a_given_amount_is_shown(ingredient.quantity, shown@, ingredient.unit@);
        }
    }
    proof {
        reveal_strlit("");
    }
    let amount = if ingredient.quantity.is_zero() {
        ""
    } else {
        shown
    };
    assert(amount@ =~= if ingredient.quantity.spec_is_zero() {
        Seq::<char>::empty()
    } else {
        shown@
    });
    let amount_blank = amount.unicode_len() == 0;
    let unit_blank = ingredient.unit.as_str().unicode_len() == 0;
    if amount_blank && unit_blank {
        String::new()
    } else if amount_blank {
        let mut r = owned(ingredient.unit.as_str());
        push_char(&mut r, ' ');
        r
    } else if unit_blank {
        let mut r = owned(amount);
        push_char(&mut r, ' ');
        r
    } else {
        let mut r = owned(amount);
        push_char(&mut r, ' ');
        r.append(ingredient.unit.as_str());
        push_char(&mut r, ' ');
        r
    }
}

/// Whether the recipe list is fetched again after a delete: only when the
/// delete succeeded.
pub fn reload_after_delete<E>(deleted: &Result<(), E>) -> (reload: bool)
    ensures
        reload == deleted is Ok,
{
    deleted.is_ok()
}

/// What one entry of the recipe list shows.
pub struct RecipeCard {
    /// The recipe's name.
    pub heading: String,
    /// "serves N".
    pub servings: String,
    /// Where its photo is fetched from and the text that stands for it, when
    /// it has a photo.
    pub photo: Option<(String, String)>,
    /// One line per ingredient: the amount and unit, then the name. The list
    /// is left out when it is empty.
    pub ingredient_lines: Vec<String>,
    /// The instructions, left out when there are none.
    pub instructions: Option<String>,
}

/// The entry for `recipe` in the recipe list; `shown` holds each ingredient's
/// amount as the browser displays the number.
pub fn recipe_card(recipe: &Recipe, shown: &Vec<String>) -> (card: RecipeCard)
    requires
        shown@.len() == recipe.ingredients@.len(),
    ensures
        card.heading@ == recipe.name@,
        card.servings@ == "serves "@ + decimal(recipe.servings as int),
        match recipe.photo_version {
            Some(version) => card.photo matches Some((url, alt)) && url@ == spec_photo_url(
                recipe.id,
                version,
            ) && alt@ == "Photo of "@ + recipe.name@,
            None => card.photo is None,
        },
        card.ingredient_lines@.len() == recipe.ingredients@.len(),
        forall|i: int|
            0 <= i < recipe.ingredients@.len() ==> (#[trigger] card.ingredient_lines@[i])@
                == amount_prefix(
                recipe.ingredients@[i].quantity,
                shown@[i]@,
                recipe.ingredients@[i].unit@,
            ) + recipe.ingredients@[i].name@,
        recipe.instructions@.len() == 0 ==> card.instructions is None,
        recipe.instructions@.len() > 0 ==> (card.instructions matches Some(text) && text@
            == recipe.instructions@),
{
    let mut servings = owned("serves ");
    push_signed_decimal(&mut servings, recipe.servings);
    let photo = match recipe.photo_version {
        Some(version) => {
            let mut alt = owned("Photo of ");
            alt.append(recipe.name.as_str());
            Some((photo_url(recipe.id, version), alt))
        },
        None => None,
    };
    let mut lines: Vec<String> = Vec::new();
    let n = recipe.ingredients.len();
    for i in 0..n
        invariant
            n == recipe.ingredients@.len(),
            shown@.len() == n,
            lines@.len() == i,
            forall|j: int|
                0 <= j < i ==> (#[trigger] lines@[j])@ == amount_prefix(
                    recipe.ingredients@[j].quantity,
                    shown@[j]@,
                    recipe.ingredients@[j].unit@,
                ) + recipe.ingredients@[j].name@,
    {
        let line = &recipe.ingredients[i];
        let mut text = format_amount(line, shown[i].as_str());
        text.append(line.name.as_str());
        lines.push(text);
    }
    let instructions = if recipe.instructions.as_str().unicode_len() == 0 {
        None
    } else {
        Some(owned(recipe.instructions.as_str()))
    };
    RecipeCard {
        heading: owned(recipe.name.as_str()),
        servings,
        photo,
        ingredient_lines: lines,
        instructions,
    }
}

} // verus!
