# Food Planner

A household food planner — recipes, a weekly meal plan, a generated shopping
list and a pantry — served from one machine on the local network.

This crate is the planner's logic, written in Verus and proved against its
contracts:

- `models` — the shared types, the meal slots, and the key under which
  shopping-list quantities are summed.
- `text` — trimming, lower-casing, searching and number formatting, stated
  over the characters of the text.
- `recipes` — how stored rows become the recipe list, and how a submitted
  recipe is cleaned up before it is stored.
- `photos` — the photo size limit, checking an upload, encoding a chosen file,
  photo versions and addresses, and answering a request for a stored photo.
- `form` — the recipe form's state and what each edit and save does to it.
- `picker` — the photo picker's viewfinder state.
- `listing` — what the recipe list and each of its entries show.
- `camera` — explaining a refused camera and reading a captured frame.

`app/` is the server around it: the SQLite database (via sqlx) and the HTTP
endpoints and photo route (via axum). Amounts cross the network as decimal
numbers and are held in the library as the bit pattern of the double, so they
pass through unchanged.

The database lives in `food-planner.db` in the working directory; override the
location with `FOOD_PLANNER_DB`. Migrations in `migrations/` run when the first
query opens the pool.
