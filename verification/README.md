# shendesk

The desktop platform's core as a verified library (`src/`), with the host adapters around it
(`app/`).

`src/` holds the services — tasks, configuration, authentication, files, images, office
documents, plugins and updates — together with their validators, state machines and event
bus, each with its contract proved by Verus.

The services talk to the outside world through traits: `PluginRepository`, `PluginRuntime`,
`FileRepository`, `ImageProcessor` and `AuthSessionStore`. Each trait states its method
contracts under a flag (`obeys_repository_contract`, `obeys_runtime_contract`,
`obeys_processor_contract`, `obeys_store_contract`) that defaults to `false`. The services'
contracts about what such a call is handed and how its answer is used hold for an
implementation that sets the flag and is verified against the contracts. In `src/`,
`MemoryPluginRepository` is such an implementation.

The adapters in `app/` keep the flags at `false`: the on-disk `LocalPluginRepository`, the
filesystem `LocalFileRepository`, the `LocalImageProcessor` and the `KeyringAuthSessionStore`.
None of the guarded contracts covers them. What the services check before and after those calls
(input validation, error mapping, events) is verified for every implementation. `app/` has no
plugin runtime and no update backend, because the WebAssembly engine and the desktop shell's
updater are not among its dependencies.
