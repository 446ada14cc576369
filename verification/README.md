# onedrive_driver_rs

A small server that lists and serves the files of a OneDrive folder through
Microsoft Graph, with an administrator account that stores the OneDrive
credentials.

The crate is split in two:

* `src/` is the library, written in Verus and verified: request validation,
  the segments of OneDrive paths and their percent-encoding, the Graph item
  and children URLs, the choice between a cached and a fresh access token,
  the reading of stored configuration, the checking and hashing of the
  administrator password (through bcrypt), the signing and checking of the
  administrator token (through jsonwebtoken), the order in which the
  administrator requests are checked, and the mapping of every failure to
  the status and message of an error answer. `src/text.rs` holds the string
  operations (trimming, splitting, joining, prefix stripping, substring
  search, decimal formatting and parsing) that the rest is stated in.
* `app/` is the program around it: the HTTP server (axum), the database
  (sea-orm on SQLite), the HTTP client (reqwest), the environment and the
  clocks, and the command line (clap). It performs the
  input and output and hands every decision to the library.

Time is given to the library as nanoseconds on a monotonic clock, so that
token expiry is a function of its inputs.
