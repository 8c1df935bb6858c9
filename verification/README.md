# cdh_storage

Secure storage mounts for confidential containers: a path of an NFSv4 server, with an
optional eCryptfs layer over it.

- `src/` is the library, verified with Verus. It decides; it does no input or output.
  - `ecryptfs` derives keys from passphrases, builds the tokens that the kernel's
    keyrings take, and mounts the encrypted layer.
  - `networkdevice` waits for the network, mounts the server's path, puts the encrypted
    layer beside it, sets up the guest hooks, and unmounts.
  - `text` and `syscall` hold what both need.
- `app/` carries the decisions out: system calls, files, pauses, decoding of parameters.
- `tests/` runs the library.

Whatever takes several steps is a state machine. `action` says what is to be done, the
caller does it, and the next state comes from what came of it. Each machine has a model
(a type whose name ends in `View`) with the functions `action` and `after`; the contracts
say that the executable functions compute exactly these, and the `law_` proof functions
say where a whole run leads.

What is trusted rather than proved: that `sha2` computes a function of its input with 64
bytes, that `hex` writes lower-case digits, that `zeroize` holds the bytes it was given,
that `uuid` writes a random UUID, and two functions of the standard library
(`str::to_lowercase` and `u16::to_ne_bytes`).
