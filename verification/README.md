# music_bot

A Discord music bot, split in two:

- `src/` is the verified library: configuration defaults (`config`), the
  error type and its text (`error`), owner and guild checks (`checks`), the
  music commands' decisions and replies (`music`), the Lavalink event
  decisions (`events`), and decimal rendering and parsing (`text`).
- `app/` is the program: it reads the configuration file and the
  environment, talks to Discord (poise, serenity, songbird), Lavalink and
  Postgres, and hands the library plain values.

`tests/` runs the library on concrete values.
