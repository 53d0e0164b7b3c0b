# cues_mantle

The host side of the Cues Mantle runtime, split in two.

- `src/` is the verified library (Verus). It holds the decisions of the
  runtime: the fuel meter and the watchdog that gate each tick of the script
  engine, the interceptor that prepares a script before it runs (removing the
  experience-mode tag, refusing scripts that read an undefined name), the
  status codes of the script host, the layout of the shared substrate and its
  named slots, the choice of the observed instant and the status label of the
  solar display, and the command-line choice of the test mode.
- `app/` is the program around it: the C interface of the embedded
  JavaScript engine, the WebAssembly solar model, the particle bridge, the
  GPU passes and the window loop. It calls the library for every decision
  listed above.

Modules of the library: `conduction::runtime` (metered runtime, errors,
laws on fuel), `conduction::script` (pattern search and removal on
characters), `substrate::buffer` and `substrate::schema` (shared memory),
`orrery::alignment` and `orrery::hub` (solar display), `mantle_core::engine`
(test mode from the command line), `metabolism::ecs`.
