use food_planner::models::{item_key, Ingredient, MealSlot, NewRecipe, Quantity};
use food_planner::form::RecipeDraft;
use food_planner::text::{after_first, find, push_signed_decimal, same_text, starts_with, trim};

#[test]
fn meal_slot_as_str_is_lower_case() {
    assert_eq!(MealSlot::Breakfast.as_str(), "breakfast");
    assert_eq!(MealSlot::Lunch.as_str(), "lunch");
    assert_eq!(MealSlot::Dinner.as_str(), "dinner");
}

#[test]
fn meal_slots_in_order_of_the_day() {
    assert_eq!(MealSlot::ALL, [MealSlot::Breakfast, MealSlot::Lunch, MealSlot::Dinner]);
}

#[test]
fn meal_slot_label_is_capitalised() {
    assert_eq!(MealSlot::Breakfast.label(), "Breakfast");
    assert_eq!(MealSlot::Lunch.label(), "Lunch");
    assert_eq!(MealSlot::Dinner.label(), "Dinner");
}

#[test]
fn item_key_trims_and_lowercases_both_parts() {
    assert_eq!(item_key("  Garlic ", " G "), "garlic|g");
    assert_eq!(item_key("Crème Fraîche", "ML"), "crème fraîche|ml");
}

#[test]
fn item_key_agrees_for_case_and_spacing() {
    assert_eq!(item_key("Garlic", "g"), item_key("\tgarlic  ", "G\n"));
}

#[test]
fn item_key_separates_units() {
    assert_ne!(item_key("garlic", "cloves"), item_key("garlic", "g"));
    assert_ne!(item_key("garlic", ""), item_key("garlic", "g"));
}

#[test]
fn item_key_of_blank_text() {
    assert_eq!(item_key("   ", ""), "|");
}

#[test]
fn quantity_zero_counts_both_signed_zeros() {
    assert!(Quantity { bits: 0.0f64.to_bits() }.is_zero());
    assert!(Quantity { bits: (-0.0f64).to_bits() }.is_zero());
    assert!(!Quantity { bits: 1.5f64.to_bits() }.is_zero());
    assert!(Quantity::zero().is_zero());
}

#[test]
fn default_ingredient_and_recipe_are_blank() {
    let line = Ingredient::default();
    assert_eq!(line.name, "");
    assert_eq!(line.unit, "");
    assert_eq!(line.quantity.bits, 0);
    let recipe = NewRecipe::default();
    assert_eq!(recipe.name, "");
    assert_eq!(recipe.servings, 0);
    assert!(recipe.ingredients.is_empty());
}

#[test]
fn trim_removes_unicode_white_space_at_both_ends() {
    assert_eq!(trim("  a b  "), "a b");
    assert_eq!(trim("\u{00A0}\tsalt\u{2003}\n"), "salt");
    assert_eq!(trim(" \t\n "), "");
    assert_eq!(trim(""), "");
    assert_eq!(trim("x"), "x");
}

#[test]
fn trim_agrees_with_str_trim() {
    for s in ["", " ", "a", " a", "a ", " a b ", "\r\n\tz\u{3000}", "\u{85}q\u{85}", "ab\u{200B}"] {
        assert_eq!(trim(s), s.trim());
    }
}

#[test]
fn same_text_compares_characters() {
    assert!(same_text("NotAllowedError", "NotAllowedError"));
    assert!(!same_text("NotAllowedError", "NotAllowed"));
    assert!(!same_text("a", "b"));
    assert!(same_text("", ""));
}

#[test]
fn starts_with_checks_the_prefix() {
    assert!(starts_with("image/png", "image/"));
    assert!(!starts_with("text/plain", "image/"));
    assert!(!starts_with("image", "image/"));
    assert!(starts_with("anything", ""));
}

#[test]
fn find_gives_the_first_occurrence() {
    assert_eq!(find("a;base64,b;base64,c", ";base64,"), Some(1));
    assert_eq!(find("abc", "d"), None);
    assert_eq!(find("abc", ""), Some(0));
    assert_eq!(find("ab", "abc"), None);
    assert_eq!(find("é;x", ";x"), Some(1));
}

#[test]
fn after_first_splits_once() {
    assert_eq!(after_first("data:image/jpeg;base64,QUJD", ";base64,"), Some("QUJD"));
    assert_eq!(after_first("x;base64,a;base64,b", ";base64,"), Some("a;base64,b"));
    assert_eq!(after_first("no separator", ";base64,"), None);
    assert_eq!(after_first("end;base64,", ";base64,"), Some(""));
}

#[test]
fn servings_text_follows_str_parse() {
    let cases: [(&str, i64); 10] = [
        ("12", 12),
        ("+3", 3),
        (" 5", 3),
        ("", 3),
        ("-", 3),
        ("1_0", 3),
        ("9223372036854775807", i64::MAX),
        ("9223372036854775808", 3),
        ("-4", 1),
        ("-9223372036854775808", 1),
    ];
    for (text, expected) in cases {
        let mut draft = RecipeDraft::new();
        draft.set_servings_text("3");
        draft.set_servings_text(text);
        assert_eq!(draft.servings(), expected, "text {:?}", text);
    }
}

#[test]
fn signed_decimal_matches_display() {
    for n in [0i64, 7, 10, 99, 100, -1, -10, 1700000000123, i64::MAX, i64::MIN] {
        let mut s = String::from("v=");
        push_signed_decimal(&mut s, n);
        assert_eq!(s, format!("v={}", n));
    }
}

#[test]
fn item_key_ignores_padding_on_both_parts() {
    for (name, unit) in [("Garlic", "g"), ("crème fraîche", "ml"), ("", ""), ("a b", "c d")] {
        let padded_name = format!(" \u{2003}{}\t ", name);
        let padded_unit = format!("\n{}  ", unit);
        assert_eq!(item_key(&padded_name, &padded_unit), item_key(name, unit));
    }
}
