# cove_backup

The cloud backup of the Cove bitcoin wallet: enabling it, restoring a device
from it, keeping it in sync, and verifying it in depth, with passkeys (PRF
extension) wrapping the master key.

- `src/` is the library, verified with Verus. Each operation that talks to
  the keychain, the passkey service, the database or the cloud is a state
  machine: a function starts it, and each step names the work to do and
  takes its outcome back (`on_...` methods), so that every decision is
  proved for every outcome. The contracts are stated over the `spec`
  functions next to each type.
- `tests/` runs the library on concrete values.
- `app/` holds the managers that the UI talks to (state, channels, threads)
  and the drivers that carry each state machine to its end against the
  host's services.
