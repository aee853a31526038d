# zsh_sys

Verified models of the C-API helper layer that zsh modules written in Rust use:
parameter flags and kinds, the checks a parameter handle makes before it calls
into the shell, module feature tables, arithmetic values, token and
redirection classification, signal numbering and the deferred-signal queue,
option tables, and fixed-capacity scratch buffers.

- `src/` is the library, verified with Verus.  zsh's structures appear as plain
  values: pointers as addresses, function pointers as optional addresses.
- `tests/` exercises the library on concrete values.
- `app/` is the zsh module itself: the C layouts, the calls into the shell, the
  floating-point parts of arithmetic, and the self-test builtin.  It asks the
  library for every decision and performs the calls it allows.
