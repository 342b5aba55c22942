# discordia

The rules of a Discord bot that answers users according to how fond it is of
them, keeps their money and level records in Redis, and plays music.

- `src/` is the verified library: affinity scores and levels, user records,
  commands and their names, answer tags and filters, the choice of the best
  groups of answers, the music queues, the texts of the bot's messages, and
  the embeds and tables drawn with `twilight_embed_builder` and `prettytable`.
- `app/` is the bot itself: the Discord client (serenity), the Redis store,
  the voice player, and the floating-point experience formulas.
- `tests/` runs the library on concrete values.
