# base_gpui

Headless, verified state machines behind a menu / menubar component family
for GPUI applications, with the GPUI hosting around them.

- `src/` — the library, verified with Verus.
  - `direction.rs`: text direction and how horizontal arrows map to
    next/previous.
  - `menu/`: props, enums, detail records, part style states, the menu
    runtime (open/close protocol, roving highlight, typeahead, hover and
    child-close timers by generation, submenu links, safe-polygon target,
    focus bookkeeping, checkbox/radio values), the child wiring collector,
    the per-event decisions of the parts, character helpers for typeahead,
    and the laws (`menu/laws.rs`).
  - `menubar/`: props, style state, the menubar runtime (trigger slots,
    roving tab stop, open-menu identity and handoff bookkeeping), trigger
    slot wiring, and the laws (`menubar/laws.rs`).
- `tests/` — scenario tests of both runtimes and tests of every decision
  and helper on concrete values.
- `app/` — GPUI hosting: entities owning the runtimes, measured geometry,
  focus handles, timers, key bindings, the trigger/popup/item/root and
  menubar elements, and the meter component (floating point throughout).

Times handed to the runtimes are nanoseconds on a monotonic clock supplied
by the host; geometry stays with the host, which hands the runtimes the
facts they decide on (a point near the opening point, a polygon verdict, a
popup that fits).
