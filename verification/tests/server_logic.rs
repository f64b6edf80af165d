use base64::engine::general_purpose::STANDARD;
use base64::Engine;
use food_planner::models::{Ingredient, NewRecipe, Quantity, Recipe};
use food_planner::photos::{
    check_photo, check_photo_file_size, decode_photo, photo_from_file, photo_response, photo_url,
    photo_version_after, listed_photo_version, MAX_REQUEST_BODY_BYTES,
    too_large_message, PhotoError, PhotoLookup, PhotoResponse, MAX_PHOTO_BYTES,
};
use food_planner::recipes::{attach_ingredients, prepare_recipe, IngredientRow, RecipeError};

fn line(name: &str, quantity: f64, unit: &str) -> Ingredient {
    Ingredient { name: name.to_string(), quantity: Quantity { bits: quantity.to_bits() }, unit: unit.to_string() }
}

fn recipe(id: i64, name: &str) -> Recipe {
    Recipe {
        id,
        name: name.to_string(),
        instructions: String::new(),
        servings: 2,
        ingredients: Vec::new(),
        photo_version: None,
    }
}

#[test]
fn attach_groups_rows_by_recipe_in_row_order() {
    let recipes = vec![recipe(2, "Carbonara"), recipe(1, "Pancakes"), recipe(3, "Toast")];
    let rows = vec![
        IngredientRow { recipe_id: 1, ingredient: line("flour", 200.0, "g") },
        IngredientRow { recipe_id: 2, ingredient: line("spaghetti", 400.0, "g") },
        IngredientRow { recipe_id: 1, ingredient: line("milk", 300.0, "ml") },
        IngredientRow { recipe_id: 2, ingredient: line("pancetta", 150.0, "g") },
        IngredientRow { recipe_id: 9, ingredient: line("orphan", 1.0, "") },
    ];
    let out = attach_ingredients(recipes, rows);
    assert_eq!(out.len(), 3);
    assert_eq!(out[0].name, "Carbonara");
    assert_eq!(out[0].ingredients, vec![line("spaghetti", 400.0, "g"), line("pancetta", 150.0, "g")]);
    assert_eq!(out[1].name, "Pancakes");
    assert_eq!(out[1].ingredients, vec![line("flour", 200.0, "g"), line("milk", 300.0, "ml")]);
    assert_eq!(out[2].name, "Toast");
    assert!(out[2].ingredients.is_empty());
}

#[test]
fn attach_gives_rows_to_the_first_recipe_with_the_id() {
    let mut second = recipe(5, "Second");
    second.ingredients = vec![line("kept", 1.0, "")];
    let recipes = vec![recipe(5, "First"), second];
    let rows = vec![IngredientRow { recipe_id: 5, ingredient: line("salt", 0.0, "") }];
    let out = attach_ingredients(recipes, rows);
    assert_eq!(out[0].ingredients, vec![line("salt", 0.0, "")]);
    assert_eq!(out[1].ingredients, vec![line("kept", 1.0, "")]);
}

#[test]
fn attach_with_nothing_to_attach() {
    assert!(attach_ingredients(Vec::new(), Vec::new()).is_empty());
    let out = attach_ingredients(vec![recipe(1, "A")], Vec::new());
    assert!(out[0].ingredients.is_empty());
    assert_eq!(out[0].id, 1);
}

#[test]
fn prepare_trims_and_drops_unnamed_lines() {
    let submitted = NewRecipe {
        name: "  Carbonara \n".to_string(),
        instructions: "\tBoil the pasta. ".to_string(),
        servings: 4,
        ingredients: vec![
            line(" spaghetti ", 400.0, " g "),
            line("   ", 3.0, "cups"),
            line("", 0.0, ""),
            line("pancetta", 150.0, "g"),
        ],
    };
    let prepared = prepare_recipe(&submitted).unwrap();
    assert_eq!(prepared.name, "Carbonara");
    assert_eq!(prepared.instructions, "Boil the pasta.");
    assert_eq!(prepared.servings, 4);
    assert_eq!(prepared.ingredients, vec![line("spaghetti", 400.0, "g"), line("pancetta", 150.0, "g")]);
}

#[test]
fn prepare_asks_for_at_least_one_serving() {
    let mut submitted = NewRecipe { name: "Toast".to_string(), ..NewRecipe::default() };
    submitted.servings = 0;
    assert_eq!(prepare_recipe(&submitted).unwrap().servings, 1);
    submitted.servings = -3;
    assert_eq!(prepare_recipe(&submitted).unwrap().servings, 1);
    submitted.servings = 1;
    assert_eq!(prepare_recipe(&submitted).unwrap().servings, 1);
}

#[test]
fn prepare_refuses_a_blank_name() {
    let submitted = NewRecipe { name: " \t ".to_string(), servings: 2, ..NewRecipe::default() };
    let err = prepare_recipe(&submitted).err().unwrap();
    assert_eq!(err, RecipeError::MissingName);
    assert_eq!(err.message(), "A recipe needs a name");
}

#[test]
fn decode_photo_accepts_an_image() {
    assert_eq!(decode_photo("image/png", "aGk=").unwrap(), b"hi".to_vec());
}

#[test]
fn decode_photo_refuses_bad_base64() {
    let err = decode_photo("image/png", "!!!").err().unwrap();
    assert_eq!(err, PhotoError::Undecodable);
    assert_eq!(err.message(), "That photo could not be decoded");
}

#[test]
fn decode_photo_refuses_an_empty_photo() {
    let err = decode_photo("image/png", "").err().unwrap();
    assert_eq!(err, PhotoError::Empty);
    assert_eq!(err.message(), "That photo was empty");
}

#[test]
fn decode_photo_refuses_what_is_not_an_image() {
    let err = decode_photo("text/plain", "aGk=").err().unwrap();
    assert_eq!(err, PhotoError::NotAnImage { mime: "text/plain".to_string() });
    assert_eq!(err.message(), "text/plain is not an image");
}

#[test]
fn decode_photo_enforces_the_limit() {
    let at_limit = vec![7u8; MAX_PHOTO_BYTES as usize];
    assert_eq!(decode_photo("image/jpeg", &STANDARD.encode(&at_limit)).unwrap().len(), at_limit.len());
    let over = vec![7u8; MAX_PHOTO_BYTES as usize + 1];
    let err = decode_photo("image/jpeg", &STANDARD.encode(&over)).err().unwrap();
    assert_eq!(err, PhotoError::TooLarge { size: MAX_PHOTO_BYTES + 1 });
    assert_eq!(err.message(), "That photo is 15.0 MB; the limit is 15.0 MB");
}

#[test]
fn check_photo_checks_in_order() {
    assert_eq!(check_photo("text/plain", None), Err(PhotoError::Undecodable));
    assert_eq!(check_photo("text/plain", Some(Vec::new())), Err(PhotoError::Empty));
    assert_eq!(check_photo("image/gif", Some(vec![1, 2])), Ok(vec![1, 2]));
}

#[test]
fn too_large_message_matches_float_formatting() {
    let mut sizes: Vec<u64> = vec![0, 1, 262144, 786432, 15728641, 15990784, 16252928, 104857600, 1048576 * 1000 + 524288];
    for k in 0..2000u64 {
        sizes.push(15728640 + k * 52429);
    }
    for size in sizes {
        let expected = format!(
            "That photo is {:.1} MB; the limit is {:.1} MB",
            size as f64 / 1_048_576.0,
            MAX_PHOTO_BYTES as f64 / 1_048_576.0
        );
        assert_eq!(too_large_message(size), expected, "size {}", size);
    }
}

#[test]
fn file_size_check_mirrors_the_server() {
    assert_eq!(check_photo_file_size(MAX_PHOTO_BYTES), Ok(()));
    assert_eq!(check_photo_file_size(0), Ok(()));
    assert_eq!(
        check_photo_file_size(MAX_PHOTO_BYTES + 1),
        Err(PhotoError::TooLarge { size: MAX_PHOTO_BYTES + 1 })
    );
}

#[test]
fn photo_from_file_encodes_and_defaults_the_type() {
    assert_eq!(photo_from_file(None, b"hi"), ("image/jpeg".to_string(), "aGk=".to_string()));
    assert_eq!(
        photo_from_file(Some("image/png".to_string()), &[0xFA, 0xEC, 0x20, 0x55, 0]),
        ("image/png".to_string(), "+uwgVQA=".to_string())
    );
}

#[test]
fn photo_url_carries_id_and_version() {
    assert_eq!(photo_url(7, 1700000000123), "/photo/7?v=1700000000123");
    assert_eq!(photo_url(-2, 0), "/photo/-2?v=0");
    assert_ne!(photo_url(1, 23), photo_url(12, 3));
    assert_ne!(photo_url(4, 1), photo_url(4, 2));
}

#[test]
fn photo_response_serves_the_stored_image() {
    match photo_response(PhotoLookup::Found { photo: Some(vec![1, 2, 3]), mime: Some("image/png".to_string()) }) {
        PhotoResponse::Image { content_type, cache_control, body } => {
            assert_eq!(content_type, "image/png");
            assert_eq!(cache_control, "public, max-age=31536000, immutable");
            assert_eq!(body, vec![1, 2, 3]);
        }
        _ => panic!("expected an image"),
    }
    match photo_response(PhotoLookup::Found { photo: Some(vec![9]), mime: None }) {
        PhotoResponse::Image { content_type, .. } => assert_eq!(content_type, "image/jpeg"),
        _ => panic!("expected an image"),
    }
}

#[test]
fn photo_response_without_a_photo() {
    assert!(matches!(photo_response(PhotoLookup::DatabaseUnavailable), PhotoResponse::InternalError));
    assert!(matches!(photo_response(PhotoLookup::QueryFailed), PhotoResponse::NotFound));
    assert!(matches!(photo_response(PhotoLookup::NoSuchRecipe), PhotoResponse::NotFound));
    assert!(matches!(
        photo_response(PhotoLookup::Found { photo: None, mime: Some("image/png".to_string()) }),
        PhotoResponse::NotFound
    ));
}

#[test]
fn photo_version_always_moves() {
    assert_eq!(photo_version_after(None, 1700000000123), Some(1700000000123));
    assert_eq!(photo_version_after(Some(1700000000123), 1700000000123), Some(1700000000124));
    assert_eq!(photo_version_after(Some(1700000000200), 1700000000123), Some(1700000000201));
    assert_eq!(photo_version_after(Some(5), 1700000000123), Some(1700000000123));
    assert_eq!(photo_version_after(None, -5), Some(1));
    assert_eq!(photo_version_after(Some(i64::MAX), 0), None);
}

#[test]
fn a_recipe_named_with_spaces_alone_is_refused() {
    let submitted = NewRecipe { name: "   ".to_string(), servings: 2, ..NewRecipe::default() };
    assert_eq!(prepare_recipe(&submitted).err(), Some(RecipeError::MissingName));
}

#[test]
fn a_cleared_photo_keeps_its_version_on_record() {
    let first = photo_version_after(None, 5).unwrap();
    assert_eq!(first, 5);
    // Cleared: the listing shows no photo, but the version stays on record.
    assert_eq!(listed_photo_version(false, Some(first)), None);
    let second = photo_version_after(Some(first), 5).unwrap();
    assert_eq!(second, 6);
    assert_ne!(photo_url(3, first), photo_url(3, second));
    assert_eq!(listed_photo_version(true, Some(second)), Some(6));
}

#[test]
fn request_limit_leaves_room_for_the_largest_photo() {
    let (_, data) = photo_from_file(None, &vec![0u8; MAX_PHOTO_BYTES as usize]);
    assert_eq!(data.len(), 20971520);
    assert!(data.len() as u64 + 1048576 <= MAX_REQUEST_BODY_BYTES);
    assert_eq!(MAX_REQUEST_BODY_BYTES, 24 * 1024 * 1024);
}
