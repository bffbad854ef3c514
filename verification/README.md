# clack_extensions

Plain-value models of the CLAP plugin-API extensions (audio ports, parameters, GUI, context
menus, note ports and names, logging, and more), with their logic verified by Verus.

- `src/` is the verified library. Every C record of an extension has a model that holds plain
  values (byte buffers, integers, the bits of doubles), with the functions that read and write
  those records, the flag sets, the enumerations and their raw values, and the decisions a host
  or a plugin takes on the other side's answers. Contracts are stated over views of these
  records, and the round trips between writing a record and reading it back are proved.
- `tests/` exercises the library on concrete values, and checks the raw constants against
  `clap-sys`.
- `app/` holds what stays outside the verified part: conversions to and from the `clap-sys`
  records, native window handles of `raw-window-handle`, readable error texts, and the host side
  of plugin logging.

The `extern "C"` callbacks that register the extensions with a host or a plugin, and the calls
through the other side's function pointers, are not part of this crate: they need the
`clack-common`, `clack-host` and `clack-plugin` crates, which it does not depend on. What those
callbacks decide (which arguments are refused, what reaches the other side, what its answer
becomes) stands in `src/` as plain, verified functions.
