# spud

The verified core of Spud, a low-latency remote input tool: a client captures
keyboard and mouse input and streams it over UDP to a server, which injects
it; a TLS control channel sets up each session.

The library in `src/` is written in Verus, and Verus proves every function
in it against its contract. Where a result rests on chance or on the machine
(a fresh challenge, the host name), the contract states only what holds of
every outcome, which for a few such functions is nothing beyond their type:

* `net/` - the 5-byte event encoding and its batches (with redundancy), the
  control messages, the client's and the server's handshakes, batching and
  the datagram sequence, the server's handling
  of a datagram (replay checks, decryption, deduplication, key tracking,
  injection commands), the older string-named protocol, and passphrase
  authentication.
* `crypto.rs`, `session.rs` - the replay window, key derivation and packet
  sealing, session identifiers, the server's key tracker and bounded
  histories.
* `cert.rs`, `config.rs` - reading the stored certificate and key from PEM,
  making a new self-signed certificate, a certificate's identity (the
  SHA-256 of its public key info, found by a DER walk) and trust on first use,
  the settings and their defaults, and the trusted-server store.
* `discovery.rs` - which addresses are offered and advertised, in what order,
  and how a resolved mDNS service becomes a discovered server.
* `input/` - key names and scancode tables (evdev, macOS, X11 keysyms, window
  key codes), hotkey parsing, injector commands, and the decisions of the X11,
  macOS and Wayland capture loops.
* `views/`, `shell.rs` - the client's and the server's state machines behind
  the user interface, what their pages show, and the application around them.

Facts about outside crates (hashing, encryption, randomness, the clock,
PEM reading, certificate generation) are
stated at small trusted wrappers, each named after the call it makes.

`tests/` exercises the library on concrete values. `app/` is the command-line
front end: settings and certificates on disk, and a UDP input loop.
