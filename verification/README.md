# rsfb

A bot for Shakes & Fidget, built around a verified decision library.

- `src/` is the library, verified with Verus. Each routine of the bot
  (shop, inventory, fortress, underworld, daily rewards, guild, skills,
  mount, witch, arena and idle game, dungeons, pets, expeditions, city
  guard, mail) is a function from a snapshot of the game state to the next
  step, with a contract that states the step exactly. The round that chains
  the routines, the status table, the log lines and the settings are there
  too. The `law_*` proof functions state properties that hold across
  inputs and calls: what is bought only when affordable, what is harvested
  only when due, what is never looked at twice, and so on.
- `tests/` runs the library on concrete game situations.
- `app/` is the program: it logs in, turns the game state of `sf-api` into
  snapshots, sends the commands the library chooses, sleeps between
  actions, and prints the status table.

Run it with `rsfb <USERNAME> <PASSWORD> [--hidden]`; `--hidden` masks
character and guild names in the output. Settings are read from
`rsfb.toml` or `config.toml` when present.
