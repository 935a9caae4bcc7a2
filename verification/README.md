# churl

The logic of a terminal HTTP client, written in Verus: what each key and each action
does, how responses, sequences of requests and load runs are taken in, how open
endpoints, settings and the tree of a workspace change, and where things stand on the
screen. Every function has a contract, and Verus proves that the code keeps it.

- `src/` is the library. `app` holds the state of the application, and `routing` decides
  which key does what. What has to be done outside (files, requests, the clipboard) is
  handed out as an `Effect`, and what came of it is handed back by a method of its own.
- `app/` is the program around it: it reads keys, draws the screen and carries out
  effects.
- `tests/` runs the library, with ratatui and edtui linked.

A function that the contracts believe without proof says so in its doc comment, which
begins with "Trusted".
