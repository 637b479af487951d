# openhcl_reseal

The decisions of an OpenHCL guest and its host agent around sealing and
migration, written and verified in Verus.

`src/` is the verified library. Its functions work on plain values; whatever
needs the hardware, the host, the disk, a clock or an executor is performed by
the caller, which hands the outcome back to the function that decides what
comes next.

| Module | What it decides |
|---|---|
| `protector` | the bytes of a hardware key protector, and when its header is valid |
| `runtime_sealing` | checking a protector against the disk key, and creating a new one |
| `hardware_reseal` | when to reseal after a migration, and the steps of an attempt |
| `reseal_run` | what holds of every history of the resealing worker |
| `broker`, `client` | requests to the guest state store and their replies |
| `attest`, `gsp`, `wmi` | the host's attestation and guest state protection RPCs |
| `mesh_layer`, `tracing_setup` | trace events and the task that writes them to the host |
| `agent` | the life of the migration agent and its diagnostics replies |
| `bytes`, `text`, `hresult` | little-endian numbers, text, status codes |
| `trusted` | what is taken on trust of outside crates |

Laws that span several functions are the public proof functions whose names
start with `law_`.

`app/` is ordinary Rust around the library: drivers that make the outside
calls. The crates of the OpenHCL workspace are linked in builds with
`--cfg openhcl`, and the RPC entry points are built on Windows.
`tests/` runs the library against a software TEE, a store in memory and a
scripted WMI host.
