# orac

Orac is a Discord bot with a web dashboard. This crate holds the bot's logic
as a library verified with Verus, and the program around it.

- `src/` — the verified library: decimal text of Discord ids and row ids,
  the dashboard's decisions (who is signed in, who may see a guild, which
  channels may be added and in what order, what adding one stores, what the
  sign-in and OAuth forms answer, the start of the OAuth sign-in (with
  oauth2 building Discord's authorization URL), which guild access rows to
  write), password
  checking with bcrypt, the template filters, and the bot's event and command
  logic.
- `tests/` — tests of the library on concrete values.
- `app/` — the program: the Discord client (poise/serenity), the web server
  (axum, tower-sessions), the database (sea-orm) and its migrations. It reads
  and writes, and asks the library what to do in between.
