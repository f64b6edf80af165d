//! A household food planner: recipes, a weekly meal plan, a shopping list
//! and a pantry. This crate holds the planner's rules and data handling;
//! the web server, the database and the browser sit around it.

pub mod camera;
pub mod form;
pub mod listing;
pub mod models;
pub mod photos;
pub mod picker;
pub mod recipes;
pub mod text;
