use food_planner::camera::{captured_photo, check_frame_ready, describe_camera_error};
use food_planner::form::{RecipeDraft, SaveOutcome};
use food_planner::listing::{format_amount, recipe_card, recipe_list_notice, reload_after_delete};
use food_planner::models::{Ingredient, Quantity, Recipe};
use food_planner::picker::{picker_file_chosen, picker_file_read, PickerOutput, PickerState};
use food_planner::photos::MAX_PHOTO_BYTES;

fn amount(q: f64) -> Quantity {
    Quantity { bits: q.to_bits() }
}

#[test]
fn camera_errors_are_explained() {
    assert_eq!(describe_camera_error(None), "The camera could not be opened");
    let refused = "Permission to use the camera was refused. Allow it for this site in the browser's settings, then try again.";
    assert_eq!(describe_camera_error(Some("NotAllowedError")), refused);
    assert_eq!(describe_camera_error(Some("SecurityError")), refused);
    assert_eq!(describe_camera_error(Some("NotFoundError")), "No camera was found on this device.");
    assert_eq!(describe_camera_error(Some("OverconstrainedError")), "No camera was found on this device.");
    assert_eq!(describe_camera_error(Some("NotReadableError")), "The camera is already in use by another app.");
    assert_eq!(describe_camera_error(Some("AbortError")), "The camera could not be opened (AbortError).");
}

#[test]
fn frame_is_ready_once_it_has_dimensions() {
    assert_eq!(check_frame_ready(640, 480), Ok(()));
    let starting = Err("The camera is still starting up. Try again in a moment.".to_string());
    assert_eq!(check_frame_ready(0, 480), starting);
    assert_eq!(check_frame_ready(640, 0), starting);
}

#[test]
fn captured_photo_takes_the_payload() {
    assert_eq!(
        captured_photo("data:image/jpeg;base64,/9j/4AAQ"),
        Ok(("image/jpeg".to_string(), "/9j/4AAQ".to_string()))
    );
    assert_eq!(
        captured_photo("data:,"),
        Err("The frame came back in an unexpected format".to_string())
    );
}

#[test]
fn a_new_draft_has_one_blank_row_and_two_servings() {
    let draft = RecipeDraft::new();
    assert_eq!(draft.name(), "");
    assert_eq!(draft.servings(), 2);
    assert_eq!(draft.instructions(), "");
    assert_eq!(draft.ingredients(), &vec![Ingredient::default()]);
    assert_eq!(draft.error(), None);
    assert!(!draft.is_saving());
    assert_eq!(draft.photo(), None);
}

#[test]
fn the_last_row_cannot_be_removed() {
    let mut draft = RecipeDraft::new();
    assert!(!draft.can_remove_ingredient());
    draft.remove_ingredient(0);
    assert_eq!(draft.ingredients().len(), 1);
    draft.add_ingredient();
    assert!(draft.can_remove_ingredient());
    draft.set_ingredient_name(1, "eggs".to_string());
    draft.remove_ingredient(0);
    assert_eq!(draft.ingredients().len(), 1);
    assert_eq!(draft.ingredients()[0].name, "eggs");
}

#[test]
fn servings_text_is_parsed_and_kept_at_least_one() {
    let mut draft = RecipeDraft::new();
    draft.set_servings_text("5");
    assert_eq!(draft.servings(), 5);
    draft.set_servings_text("abc");
    assert_eq!(draft.servings(), 5);
    draft.set_servings_text("0");
    assert_eq!(draft.servings(), 1);
    draft.set_servings_text("-7");
    assert_eq!(draft.servings(), 1);
    draft.set_servings_text("");
    assert_eq!(draft.servings(), 1);
}

#[test]
fn editing_rows_changes_only_that_row() {
    let mut draft = RecipeDraft::new();
    draft.add_ingredient();
    draft.set_ingredient_quantity(0, amount(2.5));
    draft.set_ingredient_unit(0, "g".to_string());
    draft.set_ingredient_name(0, "butter".to_string());
    assert_eq!(draft.ingredients()[0], Ingredient { name: "butter".to_string(), quantity: amount(2.5), unit: "g".to_string() });
    assert_eq!(draft.ingredients()[1], Ingredient::default());
}

#[test]
fn saving_submits_what_was_typed() {
    let mut draft = RecipeDraft::new();
    draft.set_name("Toast".to_string());
    draft.set_instructions("Toast it.".to_string());
    draft.set_servings_text("1");
    draft.set_ingredient_name(0, "bread".to_string());
    let recipe = draft.begin_save();
    assert!(draft.is_saving());
    assert_eq!(recipe.name, "Toast");
    assert_eq!(recipe.instructions, "Toast it.");
    assert_eq!(recipe.servings, 1);
    assert_eq!(recipe.ingredients[0].name, "bread");
}

#[test]
fn a_saved_recipe_clears_the_form() {
    let mut draft = RecipeDraft::new();
    draft.set_name("Toast".to_string());
    draft.add_ingredient();
    draft.photo_read(Some("image/png".to_string()), b"hi");
    let _ = draft.begin_save();
    draft.finish_save(SaveOutcome::Saved { photo_error: None });
    assert_eq!(draft.name(), "");
    assert_eq!(draft.servings(), 2);
    assert_eq!(draft.ingredients(), &vec![Ingredient::default()]);
    assert_eq!(draft.photo(), None);
    assert_eq!(draft.error(), None);
    assert!(!draft.is_saving());
}

#[test]
fn a_failed_photo_is_reported_after_saving() {
    let mut draft = RecipeDraft::new();
    draft.set_name("Toast".to_string());
    let _ = draft.begin_save();
    draft.finish_save(SaveOutcome::Saved { photo_error: Some("That photo was empty".to_string()) });
    assert_eq!(draft.error(), Some("Recipe saved, but the photo failed: That photo was empty"));
    assert_eq!(draft.name(), "");
}

#[test]
fn a_refused_recipe_keeps_the_form() {
    let mut draft = RecipeDraft::new();
    draft.set_name("   ".to_string());
    let _ = draft.begin_save();
    draft.finish_save(SaveOutcome::Failed { message: "A recipe needs a name".to_string() });
    assert_eq!(draft.name(), "   ");
    assert_eq!(draft.error(), Some("A recipe needs a name"));
    assert!(!draft.is_saving());
}

#[test]
fn choosing_a_photo_file() {
    let mut draft = RecipeDraft::new();
    assert!(!draft.choose_photo_file(MAX_PHOTO_BYTES + 1));
    assert_eq!(draft.error(), Some("That photo is 15.0 MB; the limit is 15.0 MB"));
    assert!(draft.choose_photo_file(MAX_PHOTO_BYTES));
    draft.photo_read(None, b"hi");
    assert_eq!(draft.photo(), Some(("image/jpeg", "aGk=")));
    assert_eq!(draft.error(), None);
    assert_eq!(draft.pending_photo(), Some(("image/jpeg".to_string(), "aGk=".to_string())));
    draft.photo_read_failed("disk error");
    assert_eq!(draft.error(), Some("Could not read that photo: disk error"));
    draft.remove_photo();
    assert_eq!(draft.photo(), None);
    assert_eq!(draft.pending_photo(), None);
}

#[test]
fn format_amount_omits_what_is_blank() {
    let bare = Ingredient { name: "Salt".to_string(), quantity: amount(0.0), unit: String::new() };
    assert_eq!(format_amount(&bare, "0"), "");
    let unit_only = Ingredient { name: "Salt".to_string(), quantity: amount(0.0), unit: "pinch".to_string() };
    assert_eq!(format_amount(&unit_only, "0"), "pinch ");
    let amount_only = Ingredient { name: "eggs".to_string(), quantity: amount(2.0), unit: String::new() };
    assert_eq!(format_amount(&amount_only, "2"), "2 ");
    let both = Ingredient { name: "flour".to_string(), quantity: amount(1.5), unit: "kg".to_string() };
    assert_eq!(format_amount(&both, "1.5"), "1.5 kg ");
    let negative_zero = Ingredient { name: "x".to_string(), quantity: amount(-0.0), unit: "g".to_string() };
    assert_eq!(format_amount(&negative_zero, "-0"), "g ");
}

#[test]
fn picker_opens_and_closes_the_viewfinder() {
    let mut picker = PickerState::new();
    assert!(!picker.offers_camera());
    picker.camera_probed(true);
    assert!(picker.offers_camera());
    assert!(picker.can_open_viewfinder());
    picker.open_viewfinder();
    assert!(!picker.can_open_viewfinder());
    picker.camera_starting();
    assert!(!picker.can_capture());
    assert!(matches!(picker.camera_opened(Ok(())), PickerOutput::Nothing));
    assert!(picker.can_capture());
    assert!(picker.viewfinder_open);
    match picker.capture_finished(Err("The camera is still starting up. Try again in a moment.".to_string())) {
        PickerOutput::Error { message } => assert_eq!(message, "The camera is still starting up. Try again in a moment."),
        _ => panic!("expected an error"),
    }
    assert!(picker.viewfinder_open);
    match picker.capture_finished(Ok(("image/jpeg".to_string(), "QUJD".to_string()))) {
        PickerOutput::Photo { mime, data } => {
            assert_eq!(mime, "image/jpeg");
            assert_eq!(data, "QUJD");
        }
        _ => panic!("expected a photo"),
    }
    assert!(!picker.viewfinder_open);
}

#[test]
fn picker_closes_the_viewfinder_when_the_camera_is_refused() {
    let mut picker = PickerState::new();
    picker.open_viewfinder();
    picker.camera_starting();
    match picker.camera_opened(Err("No camera was found on this device.".to_string())) {
        PickerOutput::Error { message } => assert_eq!(message, "No camera was found on this device."),
        _ => panic!("expected an error"),
    }
    assert!(!picker.viewfinder_open);
    assert!(!picker.starting);
    picker.open_viewfinder();
    picker.cancel();
    assert!(!picker.viewfinder_open);
}

#[test]
fn picker_refuses_an_oversized_file() {
    assert!(matches!(picker_file_chosen(10), PickerOutput::Nothing));
    match picker_file_chosen(16252928) {
        PickerOutput::Error { message } => assert_eq!(message, "That photo is 15.5 MB; the limit is 15.0 MB"),
        _ => panic!("expected an error"),
    }
}

#[test]
fn recipe_list_notices() {
    assert_eq!(recipe_list_notice(None), Some("Loading…".to_string()));
    assert_eq!(recipe_list_notice(Some(Err("offline"))), Some("Could not load recipes: offline".to_string()));
    assert_eq!(recipe_list_notice(Some(Ok(0))), Some("No recipes yet. Add your first one below.".to_string()));
    assert_eq!(recipe_list_notice(Some(Ok(3))), None);
}

#[test]
fn recipe_card_shows_what_the_recipe_has() {
    let recipe = Recipe {
        id: 4,
        name: "Pancakes".to_string(),
        instructions: "Mix and fry.".to_string(),
        servings: 3,
        ingredients: vec![
            Ingredient { name: "flour".to_string(), quantity: amount(200.0), unit: "g".to_string() },
            Ingredient { name: "Salt".to_string(), quantity: amount(0.0), unit: String::new() },
        ],
        photo_version: Some(1700000000123),
    };
    let shown: Vec<String> = recipe.ingredients.iter().map(|i| format!("{}", f64::from_bits(i.quantity.bits))).collect();
    let card = recipe_card(&recipe, &shown);
    assert_eq!(card.heading, "Pancakes");
    assert_eq!(card.servings, "serves 3");
    assert_eq!(card.photo, Some(("/photo/4?v=1700000000123".to_string(), "Photo of Pancakes".to_string())));
    assert_eq!(card.ingredient_lines, vec!["200 g flour".to_string(), "Salt".to_string()]);
    assert_eq!(card.instructions, Some("Mix and fry.".to_string()));
}

#[test]
fn recipe_card_leaves_out_what_is_missing() {
    let recipe = Recipe {
        id: 1,
        name: "Water".to_string(),
        instructions: String::new(),
        servings: 1,
        ingredients: Vec::new(),
        photo_version: None,
    };
    let card = recipe_card(&recipe, &Vec::new());
    assert_eq!(card.photo, None);
    assert!(card.ingredient_lines.is_empty());
    assert_eq!(card.instructions, None);
}

#[test]
fn picker_hands_over_a_read_file() {
    match picker_file_read(None, Ok(b"hi".to_vec())) {
        PickerOutput::Photo { mime, data } => {
            assert_eq!(mime, "image/jpeg");
            assert_eq!(data, "aGk=");
        }
        _ => panic!("expected a photo"),
    }
    match picker_file_read(Some("image/png".to_string()), Ok(vec![0xFA, 0xEC, 0x20, 0x55, 0])) {
        PickerOutput::Photo { mime, data } => {
            assert_eq!(mime, "image/png");
            assert_eq!(data, "+uwgVQA=");
        }
        _ => panic!("expected a photo"),
    }
}

#[test]
fn picker_reports_an_unreadable_file() {
    match picker_file_read(None, Err("permission denied".to_string())) {
        PickerOutput::Error { message } => assert_eq!(message, "Could not read that photo: permission denied"),
        _ => panic!("expected an error"),
    }
}

#[test]
fn list_reloads_only_after_a_successful_delete() {
    assert!(reload_after_delete::<String>(&Ok(())));
    assert!(!reload_after_delete(&Err("offline".to_string())));
}
