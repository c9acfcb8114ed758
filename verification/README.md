# dancebattlez

The verified core of the DanceBattleZ web client (a dance-battle site): the
decisions its pages take between a request to the server and what they show.

- `src/` is the library, verified with Verus. Each page's logic is a set of
  functions from plain values (the status of a reply, its parsed body, the
  form's fields) to plain values (the notice to queue, the token to store, the
  page to open), with contracts that state the result exactly.
  - `pagination`, `notification`, `reply`, `status`, `text`, `time`: shared parts.
  - `session`, `router`: the shared flags, local storage values, request plans,
    the header, the token check.
  - `auth`, `profile`, `admin`: accounts and roles.
  - `callout`, `battle`, `battle_reply`, `main_menu`, `vote`, `vote_list`,
    `live_battle`: battles and votes.
  - `signed_vote` and the reply flow in `battle_reply`: the requests that
    follow one another (upload address, upload, store) written as step
    functions from a state and an event to the next state and an action.
- `tests/` runs the library on concrete values.
- `app/` is the shell around it: settings, local storage, the browser's
  location, the HTTP requests and uploads, the JSON models with their
  conversions, and the loops that run the step functions.
