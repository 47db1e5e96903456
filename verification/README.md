# nono

The core of a process sandbox, with its behaviour stated as contracts and proved
by Verus.

Two halves stand side by side in `src/`:

- `capability_modes` is a filesystem vocabulary with one word per operation.
  Compiling a set of modes for Landlock or Seatbelt says of every mode whether it
  is enforced, bundled in, always allowed, refused or delegated; nothing is
  widened or dropped without an entry that names it. A grant that no rule can
  stand for ends the preparation of a run.
- `lifecycle` takes a run from a validated plan to a child that is confined and
  held, to its release, its end and the proof that nothing of it remains. It also
  holds the wire formats: status records, probe requests and control frames.

The library decides. It draws random bytes and reads the clock, and touches
nothing else of the machine. A method that has something done appends it to a
list of effects; what a driver observed comes back as an argument. `app/` is such
a driver: it forks, waits, signals and talks to sockets, and carries the copies
of the library's types that serde works on. The platform's own policy (its
rulesets and filters) is supplied to it through a trait.

Public proof functions whose names start with `law_` state what holds of the
library as a whole.
