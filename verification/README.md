# rengo

The decision logic of Rengo-chan, a Discord bot that searches anime in the
Jikan (MyAnimeList) API and keeps a list of each user's saved anime, written
in Verus with its contracts proved.

- `src/` is the verified library: the search and details answers read out of
  JSON (`json`, `commands`, `interactions::anime_id`), the select menu and the
  embed, the "Add" button and the page buttons (`interactions`), the reply to a
  save, the page layout and picture layout, and the store's query parameters
  (`utils`), decimal numerals (`text`), and the laws that hold across them
  (`laws`).
- `app/` is the bot around it: the Discord client (serenity), the HTTP calls
  (reqwest), the SQLite store (rusqlite) and the drawing of the list picture
  (image, imageproc, ab_glyph). The drawing reads the fonts
  `NotoSansHK-Bold.ttf` and `NotoSansHK-Regular.ttf` from the working directory.
