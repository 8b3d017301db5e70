# cleanup

A Windows clean-up tool: it empties the temporary directories and the cache
of Microsoft Teams, clears the caches of Chrome, Edge and Firefox, and, after
confirmation, deletes the credentials stored in the Windows credential
manager (`cmdkey`).

- `src/` is the verified library (Verus):
  - `text.rs`: Unicode white space, trimming, and the trusted calls to
    `str::to_lowercase` and `String::from_utf8_lossy`;
  - `credentials.rs`: reading the listing of `cmdkey /list` (Portuguese and
    English), the confirmation answer, the deletion argument, the tally;
  - `locations.rs`: the directories and browser caches to clean, resolved
    from the environment variables;
  - `stats.rs`: the counts of removed items, freed bytes and errors: how a
    visited file counts once its removal settles (its size only if it was
    removed), an unreadable directory as one error, and the retry rule for a
    file that resists removal.
- `app/main.rs` is the program: it reads the environment, walks the file
  system, runs `taskkill` and `cmdkey`, and prints the report.
- `tests/` runs the library on concrete values.
