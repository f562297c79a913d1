# slp_parquet

Writes the frame and item data of Slippi (Super Smash Bros. Melee) replays
as Parquet tables.

- `src/` is the verified library. It decides everything about the layout of
  the two tables: the schema text for the fields a replay carries
  (`schema`), the message types parsed from it (`message`), the order of the
  columns in a row group (`columns`), the row groups of the frame table and
  the index columns (`frames`). `versions` describes which optional blocks
  of fields a replay carries; `layers` holds the sequence lemmas shared by
  the schema and column proofs.
- `app/` opens the files and hands each column's values to the Parquet
  writer, in the order the library gives.
- `tests/` checks the library on concrete replays' layouts, including that
  the column order agrees with the schema as Parquet parses it.
