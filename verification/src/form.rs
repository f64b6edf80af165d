//! The recipe form: what the household types, picks and removes before a
//! recipe is saved, and what saving does to the form.

use vstd::prelude::*;

use crate::models::{Ingredient, IngredientView, NewRecipe, Quantity};
use crate::photos::{photo_from_file, base64_encoded, too_large_message, too_large_text, MAX_PHOTO_BYTES};
use crate::text::{owned, parse_i64, parsed_i64};

verus! {

/// The characters of a form being filled in.
pub struct DraftView {
    pub name: Seq<char>,
    pub servings: i64,
    pub instructions: Seq<char>,
    pub ingredients: Seq<IngredientView>,
    /// The message shown under the form, if any.
    pub error: Option<Seq<char>>,
    /// Whether a save is under way.
    pub saving: bool,
    /// The chosen photo as (MIME type, base64).
    pub photo: Option<(Seq<char>, Seq<char>)>,
}

/// An ingredient row that has not been filled in.
pub open spec fn blank_row() -> IngredientView {
    IngredientView { name: Seq::empty(), quantity: Quantity { bits: 0 }, unit: Seq::empty() }
}

/// The form as it first appears, and again after a recipe is saved: empty,
/// two servings and a single blank ingredient row.
pub open spec fn fresh_draft() -> DraftView {
    DraftView {
        name: Seq::empty(),
        servings: 2,
        instructions: Seq::empty(),
        ingredients: seq![blank_row()],
        error: None,
        saving: false,
        photo: None,
    }
}

/// The recipe form's state. It always keeps at least one ingredient row, so
/// the form never becomes a dead end, and always asks for at least one
/// serving.
pub struct RecipeDraft {
    name: String,
    servings: i64,
    instructions: String,
    ingredients: Vec<Ingredient>,
    error: Option<String>,
    saving: bool,
    photo: Option<(String, String)>,
}

/// An exact copy of an ingredient line.
pub fn copy_ingredient(line: &Ingredient) -> (r: Ingredient)
    ensures
        r@ == line@,
{
    Ingredient { name: line.name.clone(), quantity: line.quantity, unit: line.unit.clone() }
}

fn blank_ingredient() -> (r: Ingredient)
    ensures
        r@ == blank_row(),
{
    let r = Ingredient { name: String::new(), quantity: Quantity::zero(), unit: String::new() };
    assert(r@ == blank_row());
    r
}

/// How an attempt to save the form ended.
pub enum SaveOutcome {
    /// The recipe was stored; `photo_error` says why its photo was not, if
    /// it was not.
    Saved { photo_error: Option<String> },
    /// The recipe was refused, for the reason given.
    Failed { message: String },
}

/// The message shown when a recipe was stored but its photo was not.
pub open spec fn photo_failed_text(reason: Seq<char>) -> Seq<char> {
    "Recipe saved, but the photo failed: "@ + reason
}

/// The message shown when a chosen photo could not be read.
pub open spec fn unreadable_photo_text(reason: Seq<char>) -> Seq<char> {
    "Could not read that photo: "@ + reason
}

impl View for RecipeDraft {
    type V = DraftView;

    closed spec fn view(&self) -> DraftView {
        DraftView {
            name: self.name@,
            servings: self.servings,
            instructions: self.instructions@,
            ingredients: self.ingredients@.map_values(|line: Ingredient| line@),
            error: match self.error {
                Some(e) => Some(e@),
                None => None,
            },
            saving: self.saving,
            photo: match self.photo {
                Some(p) => Some((p.0@, p.1@)),
                None => None,
            },
        }
    }
}

impl RecipeDraft {
    /// The form keeps at least one ingredient row, so that it never
    /// becomes a dead end, and asks for at least one serving. Every form
    /// this type hands out is so, and every change keeps it so.
    pub open spec fn wf(&self) -> bool {
        &&& self@.ingredients.len() >= 1
        &&& self@.servings >= 1
    }

    /// A fresh form.
    pub fn new() -> (d: RecipeDraft)
        ensures
            d@ == fresh_draft(),
            d.wf(),
    {
        let mut ingredients: Vec<Ingredient> = Vec::new();
        ingredients.push(blank_ingredient());
        let d = RecipeDraft {
            name: String::new(),
            servings: 2,
            instructions: String::new(),
            ingredients,
            error: None,
            saving: false,
            photo: None,
        };
        assert(d@.ingredients =~= seq![blank_row()]);
        d
    }

    pub fn name(&self) -> (r: &str)
        ensures
            r@ == self@.name,
    {
        self.name.as_str()
    }

    pub fn servings(&self) -> (r: i64)
        ensures
            r == self@.servings,
    {
        self.servings
    }

    pub fn instructions(&self) -> (r: &str)
        ensures
            r@ == self@.instructions,
    {
        self.instructions.as_str()
    }

    pub fn ingredients(&self) -> (r: &Vec<Ingredient>)
        ensures
            r@.map_values(|line: Ingredient| line@) == self@.ingredients,
    {
        &self.ingredients
    }

    pub fn error(&self) -> (r: Option<&str>)
        ensures
            match r {
                Some(e) => self@.error == Some(e@),
                None => self@.error is None,
            },
    {
        match &self.error {
            Some(e) => Some(e.as_str()),
            None => None,
        }
    }

    pub fn is_saving(&self) -> (r: bool)
        ensures
            r == self@.saving,
    {
        self.saving
    }

    pub fn photo(&self) -> (r: Option<(&str, &str)>)
        ensures
            match r {
                Some(p) => self@.photo == Some((p.0@, p.1@)),
                None => self@.photo is None,
            },
    {
        match &self.photo {
            Some(p) => Some((p.0.as_str(), p.1.as_str())),
            None => None,
        }
    }

    /// The name field was edited.
    pub fn set_name(&mut self, text: String)
        requires
            old(self).wf(),
        ensures
            final(self).wf(),
            final(self)@ == (DraftView { name: text@, ..old(self)@ }),
    {
        self.name = text;
    }

    /// The instructions field was edited.
    pub fn set_instructions(&mut self, text: String)
        requires
            old(self).wf(),
        ensures
            final(self).wf(),
            final(self)@ == (DraftView { instructions: text@, ..old(self)@ }),
    {
        self.instructions = text;
    }

    /// The servings field was edited. Text that is not a whole number leaves
    /// the servings as they were; a number below one counts as one.
    pub fn set_servings_text(&mut self, text: &str)
        requires
            old(self).wf(),
        ensures
            final(self).wf(),
            match parsed_i64(text@) {
                Some(v) => final(self)@ == (DraftView {
                    servings: if v < 1 {
                        1
                    } else {
                        v
                    },
                    ..old(self)@
                }),
                None => final(self)@ == old(self)@,
            },
    {
        match parse_i64(text) {
            Some(v) => {
                self.servings = if v < 1 {
                    1
                } else {
                    v
                };
            },
            None => {},
        }
    }

    /// Another blank ingredient row was asked for.
    pub fn add_ingredient(&mut self)
        requires
            old(self).wf(),
        ensures
            final(self).wf(),
            final(self)@ == (DraftView {
                ingredients: old(self)@.ingredients.push(blank_row()),
                ..old(self)@
            }),
    {
        let ghost before = self.ingredients@;
        self.ingredients.push(blank_ingredient());
        assert(self.ingredients@.map_values(|line: Ingredient| line@) =~= before.map_values(
            |line: Ingredient| line@,
        ).push(blank_row()));
    }

    /// Whether a row may be removed: not the last one, so that one row is
    /// always on screen.
    pub fn can_remove_ingredient(&self) -> (r: bool)
        ensures
            r == (self@.ingredients.len() > 1),
    {
        self.ingredients.len() > 1
    }

    /// The row at `index` was removed. The last remaining row cannot be.
    pub fn remove_ingredient(&mut self, index: usize)
        requires
            old(self).wf(),
            index < old(self)@.ingredients.len(),
        ensures
            final(self).wf(),
            old(self)@.ingredients.len() > 1 ==> final(self)@ == (DraftView {
                ingredients: old(self)@.ingredients.remove(index as int),
                ..old(self)@
            }),
            old(self)@.ingredients.len() <= 1 ==> final(self)@ == old(self)@,
    {
        if self.ingredients.len() > 1 {
            let ghost before = self.ingredients@;
            self.ingredients.remove(index);
            assert(self.ingredients@.map_values(|line: Ingredient| line@) =~= before.map_values(
                |line: Ingredient| line@,
            ).remove(index as int));
        }
    }

    /// The amount in the row at `index` was edited. An amount that does not
    /// read as a number is entered as zero.
    pub fn set_ingredient_quantity(&mut self, index: usize, quantity: Quantity)
        requires
            old(self).wf(),
            index < old(self)@.ingredients.len(),
        ensures
            final(self).wf(),
            final(self)@ == (DraftView {
                ingredients: old(self)@.ingredients.update(
                    index as int,
                    IngredientView { quantity, ..old(self)@.ingredients[index as int] },
                ),
                ..old(self)@
            }),
    {
        let ghost before = self.ingredients@;
        self.ingredients[index].quantity = quantity;
        assert(self.ingredients@.map_values(|line: Ingredient| line@) =~= before.map_values(
            |line: Ingredient| line@,
        ).update(
            index as int,
            IngredientView { quantity, ..before.map_values(|line: Ingredient| line@)[index as int] },
        ));
    }

    /// The unit in the row at `index` was edited.
    pub fn set_ingredient_unit(&mut self, index: usize, unit: String)
        requires
            old(self).wf(),
            index < old(self)@.ingredients.len(),
        ensures
            final(self).wf(),
            final(self)@ == (DraftView {
                ingredients: old(self)@.ingredients.update(
                    index as int,
                    IngredientView { unit: unit@, ..old(self)@.ingredients[index as int] },
                ),
                ..old(self)@
            }),
    {
        let ghost before = self.ingredients@;
        let ghost u = unit@;
        self.ingredients[index].unit = unit;
        assert(self.ingredients@.map_values(|line: Ingredient| line@) =~= before.map_values(
            |line: Ingredient| line@,
        ).update(
            index as int,
            IngredientView { unit: u, ..before.map_values(|line: Ingredient| line@)[index as int] },
        ));
    }

    /// The name in the row at `index` was edited.
    pub fn set_ingredient_name(&mut self, index: usize, name: String)
        requires
            old(self).wf(),
            index < old(self)@.ingredients.len(),
        ensures
            final(self).wf(),
            final(self)@ == (DraftView {
                ingredients: old(self)@.ingredients.update(
                    index as int,
                    IngredientView { name: name@, ..old(self)@.ingredients[index as int] },
                ),
                ..old(self)@
            }),
    {
        let ghost before = self.ingredients@;
        let ghost n = name@;
        self.ingredients[index].name = name;
        assert(self.ingredients@.map_values(|line: Ingredient| line@) =~= before.map_values(
            |line: Ingredient| line@,
        ).update(
            index as int,
            IngredientView { name: n, ..before.map_values(|line: Ingredient| line@)[index as int] },
        ));
    }

    /// A file was chosen as the photo. One over the limit is refused, with
    /// the reason shown, before it is read; the result says whether to read
    /// it.
    pub fn choose_photo_file(&mut self, size: u64) -> (read: bool)
        requires
            old(self).wf(),
        ensures
            final(self).wf(),
            read == (size <= MAX_PHOTO_BYTES),
            read ==> final(self)@ == old(self)@,
            !read ==> final(self)@ == (DraftView {
                error: Some(too_large_text(size as nat)),
                ..old(self)@
            }),
    {
        if size > MAX_PHOTO_BYTES {
            self.error = Some(too_large_message(size));
            false
        } else {
            true
        }
    }

    /// The chosen file was read: it becomes the photo, held as its type
    /// (`image/jpeg` when the browser does not say) and its base64, so that
    /// it can be previewed and posted without reading the file again.
    pub fn photo_read(&mut self, content_type: Option<String>, bytes: &[u8])
        requires
            old(self).wf(),
            bytes@.len() <= usize::MAX / 2,
        ensures
            final(self).wf(),
            final(self)@ == (DraftView {
                photo: Some(
                    (
                        match content_type {
                            Some(t) => t@,
                            None => "image/jpeg"@,
                        },
                        base64_encoded(bytes@),
                    ),
                ),
                error: None,
                ..old(self)@
            }),
    {
        self.photo = Some(photo_from_file(content_type, bytes));
        self.error = None;
    }

    /// The chosen file could not be read, for the reason given.
    pub fn photo_read_failed(&mut self, reason: &str)
        requires
            old(self).wf(),
        ensures
            final(self).wf(),
            final(self)@ == (DraftView { error: Some(unreadable_photo_text(reason@)), ..old(self)@ }),
    {
        let mut m = owned("Could not read that photo: ");
        m.append(reason);
        self.error = Some(m);
    }

    /// The photo was taken off the form.
    pub fn remove_photo(&mut self)
        requires
            old(self).wf(),
        ensures
            final(self).wf(),
            final(self)@ == (DraftView { photo: None, ..old(self)@ }),
    {
        self.photo = None;
    }

    /// Save was pressed: the form is marked as saving, its message is
    /// cleared, and the recipe to submit is what it holds.
    pub fn begin_save(&mut self) -> (recipe: NewRecipe)
        requires
            old(self).wf(),
        ensures
            final(self).wf(),
            final(self)@ == (DraftView { saving: true, error: None, ..old(self)@ }),
            recipe.name@ == old(self)@.name,
            recipe.instructions@ == old(self)@.instructions,
            recipe.servings == old(self)@.servings,
            recipe.ingredients@.map_values(|line: Ingredient| line@) == old(self)@.ingredients,
    {
        self.saving = true;
        self.error = None;
        let mut ingredients: Vec<Ingredient> = Vec::new();
        let n = self.ingredients.len();
        for i in 0..n
            invariant
                n == self.ingredients@.len(),
                ingredients@.len() == i,
                forall|j: int| 0 <= j < i ==> (#[trigger] ingredients@[j])@ == self.ingredients@[j]@,
        {
            ingredients.push(copy_ingredient(&self.ingredients[i]));
        }
        assert(ingredients@.map_values(|line: Ingredient| line@) =~= self.ingredients@.map_values(
            |line: Ingredient| line@,
        ));
        NewRecipe {
            name: self.name.clone(),
            instructions: self.instructions.clone(),
            servings: self.servings,
            ingredients,
        }
    }

    /// The photo to upload once the recipe is stored, as (type, base64).
    pub fn pending_photo(&self) -> (r: Option<(String, String)>)
        ensures
            match r {
                Some(p) => self@.photo == Some((p.0@, p.1@)),
                None => self@.photo is None,
            },
    {
        match &self.photo {
            Some(p) => Some((p.0.clone(), p.1.clone())),
            None => None,
        }
    }

    /// The save finished. A stored recipe empties the form, back to how it
    /// first appeared, keeping only the news of a photo that failed, which is
    /// reported rather than allowed to discard the typed-in text of a saved
    /// recipe. A refused recipe keeps everything that was typed, and shows
    /// the reason.
    pub fn finish_save(&mut self, outcome: SaveOutcome)
        requires
            old(self).wf(),
        ensures
            final(self).wf(),
            match outcome {
                SaveOutcome::Saved { photo_error } => final(self)@ == (DraftView {
                    error: match photo_error {
                        Some(reason) => Some(photo_failed_text(reason@)),
                        None => None,
                    },
                    ..fresh_draft()
                }),
                SaveOutcome::Failed { message } => final(self)@ == (DraftView {
                    error: Some(message@),
                    saving: false,
                    ..old(self)@
                }),
            },
    {
        match outcome {
            SaveOutcome::Saved { photo_error } => {
                self.error = match photo_error {
                    Some(reason) => {
                        let mut m = owned("Recipe saved, but the photo failed: ");
                        m.append(reason.as_str());
                        Some(m)
                    },
                    None => None,
                };
                self.name = String::new();
                self.instructions = String::new();
                self.servings = 2;
                let mut ingredients: Vec<Ingredient> = Vec::new();
                ingredients.push(blank_ingredient());
                self.ingredients = ingredients;
                self.photo = None;
                assert(self@.ingredients =~= seq![blank_row()]);
            },
            SaveOutcome::Failed { message } => {
                self.error = Some(message);
            },
        }
        self.saving = false;
    }
}

} // verus!
