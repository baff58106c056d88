# csgo_internal

The logic of an in-process CS:GO helper, verified with Verus.

- `src/` is the library: netvar offset tables built from the game's receive
  tables (`interfaces`), signature parsing and scanning over a module image
  (`memory`), entity handles, indices and flags, input buttons, studio-model
  address arithmetic (`structs`), the bunny-hop rule and the aim assist's
  configuration, readiness rules and target state (`script_engine`), and the
  entry point's decisions (`entry`). Verus proves every function against
  its contract. The only trusted item is the read of the once-cell that holds
  the netvar engine; what it returns depends on whether the cell was set, so
  the functions that read it promise nothing of it, and the engine's own
  lookup is proved exactly.
- `app/` is the injected DLL around it: the Windows entry point and hooks, the
  game's interfaces reached through virtual tables, memory layouts, vector
  geometry in floating point, and the Lua scripting host.
- `tests/` runs the library on concrete values.
