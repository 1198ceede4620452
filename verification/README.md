# budget_manager

A small budget manager web application: users register and log in, keep
spending categories (which can be archived) and record expenses against them.

- `src/` is the library, verified with Verus. It decides what every route
  answers, from plain values: the forms posted, the records the database
  returned, the flash notice a page was handed. It returns page contents,
  responses, and the database writes or cookie changes the server must make.
  Passwords are hashed and checked with `bcrypt`; timestamps come from
  `chrono`.
  - `session`: who is asking, register, login, logout, home.
  - `categories`, `expenses`: the category, expense and report routes.
  - `flash`: flash notices and how pages read them.
  - `listing`: how pages list categories and expenses.
  - `models`, `forms`, `contexts`, `actions`: the data the routes work on.
  - `text`: decimal text of `i32` values.
  - `password`, `clock`: the calls into `bcrypt` and `chrono`.
  - `laws`: properties that relate several routes.
- `app/` is the web server (Rocket): request guards, PostgreSQL access through
  Diesel, private cookies, template rendering, and the floating-point handling
  of amounts.
