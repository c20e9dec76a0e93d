# warp-mp-ipfs

Accounts on an IPFS node, verified with Verus.

`src/` is the library. It decides what an account does and does no input or
output: starting an account (`startup`), creating, looking up and changing an
identity (`create`, `lookup`, `update`) are state machines whose state is the
request to be carried out next. `recall` states what is found again of what was
created or changed. `data` holds the data object in which modules
exchange their payloads, `keypair` and `base58` the key pair of a node and the
text it is kept as, `extension` what an extension says about itself.

`app/` carries the requests out on the services around an account, holds the
serialised forms of the library's types, and has the foreign interface.

`tests/` runs the library.
