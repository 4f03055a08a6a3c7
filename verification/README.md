# enterprise_pw_demo

A password vault that AI agents reach through MCP, with DIDComm between the
bridge and the vault. `src/` is the verified core (Verus); `app/` holds the
programs around it: the vault service, the command-line client, the DIDComm
bridge, the MCP server and the bridge test client.

Modules of the library:

- `text`: prefix tests, Unicode white-space trimming, splitting at a character.
- `protocol`: message types, request and response bodies, how messages are
  addressed and threaded, how a reply from the vault is read.
- `vault`: the password table, how the vault answers a message (a password
  request, or a request for its keys), how the set-up wizard reads
  `identifier=password` lines.
- `service`: when the vault's listening loop gives up.
- `bridge`: the bridge's configuration file, requests and answers.
- `mcp`: the MCP server's tools, how it reads the bridge, what tools return.
- `client`: how the command-line client reads the vault's reply.
- `jsonrpc`: the test client's JSON-RPC numbering and checks.

The password table is a list of (key, password) pairs whose keys are distinct
by a type invariant, viewed as a `Map`, rather than a `HashMap<String,
String>`: the specifications that the verifier has for std's hash maps prove
little when the keys are `String`s, so lookup, replacement and key listing are
written and proved here instead. The configuration file still stores the
passwords as a JSON object, which the program reads into this table.
