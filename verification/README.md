# Lemon Communicator

A small communication server: clients join over TCP with a JSON request,
are told of the changes of the network, are checked now and then, and may
report one another as dead. Nodes also keep a book of peers.

- `src/` is the library, verified with Verus: the registry of clients
  (`comms::client`), the change log and the messages (`comms::network`),
  the older form of the messages (`comms::responses`), the decisions of the
  connection handlers (`comms::client::client_handler`, `client_reqs`), the
  peer book and addresses (`peer`), a JSON model (`json`), the settings
  (`command_args`) and text helpers (`text`, `myio`).
- `app/` is the program around it: sockets, tasks, channels, the command
  line, and the JSON forms of the messages.
- `tests/` runs the library on concrete values.
