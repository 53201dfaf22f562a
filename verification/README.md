# megagame

A Discord bot that runs a "megagame": teams with their own roles, categories
and channels, menus through which players join and change teams, and a queue
of Discord tasks that the bot works through.

The game logic is a Verus library under `src/`, with contracts proved by
Verus:

- `ids`: Discord and database ids and their decimal text.
- `records`, `results`: the database rows that the logic reads and writes, and
  what a task hands back.
- `tasks`, `create_tasks`: the tasks the bot queues, with the builders of each,
  and the category task's flow.
- `components`, `messages`: buttons and select menus, whose custom ids are
  UUIDs under which the data of a press is stored, and the messages the game
  posts.
- `mechanics`: game mechanics as flows that name each piece of outside work
  and take back what came of it.
- `commands`, `handler`: slash commands and the answers to Discord events.
- `runner`, `queue`: what outside work each task calls for, and the task queue.
- `console`: the state of the console front end.
- `testing`: the bot's own checks against a test guild.

`app/` holds the program around the library: the Discord client, the database,
the migrations, serialization, and the loops that perform the actions the
library names. `tests/` runs the library on concrete values.
