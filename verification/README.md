# opensovd

The fault and discovery logic of an SOVD (Service-Oriented Vehicle
Diagnostics) server, verified with Verus.

- `src/` is the verified library: the fault data model, how a fault
  provider's entry becomes the API's fault, the filter a listing hands to the
  provider, which error a fault request is answered with, the mDNS service
  record a server registers, and the entity changes an mDNS browse event
  stands for.
- `app/` holds what Verus does not verify: the JSON forms of the model, the
  async fault-provider trait, the axum routes, and the mDNS-SD daemon calls.
- `tests/` runs the library on concrete values.
