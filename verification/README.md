# nexus_staking

Verified models of the Nexus liquid-staking contracts on Nibiru, with the CosmWasm
entry points around them.

- `src/` is the library, verified with Verus. Each contract's storage is a value of a
  library type (`HubStore`, `PointSystem`, `RegistryStore`, `VaultStore`, the
  dispatchers' `Config`, `AvsStore`, `TokenStore`), and each entry point is a method
  whose contract states what it answers and how the storage changes. What the host
  provides (query answers, address checks) is passed in as plain values.
  - `staking/`: the hub: bonding (`bond`), slashing and queries (`contract`), the
    owner's settings (`config`), restaking, the storage (`state`), and checks that tell
    a caller beforehand whether an entry point would overflow (`checks`).
  - `validator_registry`: how an amount is spread over the validators, the stable
    ordering by delegated amount, and the registry's entry points.
  - `reward_dispatcher`, `rewards_dispatcher`: the fee split of staking rewards.
  - `point_system`, `vault`, `token`, `avs`: the smaller contracts.
  - `decimal`, `addr_map`, `host`: fixed-point decimals (the arithmetic is
    `cosmwasm_std`'s), ordered maps by address, and the values exchanged with the host.
- `app/` loads and saves the contracts' storage, asks the host what the library needs,
  calls the library and converts its answers into CosmWasm responses.
- `tests/` runs the library on concrete values.
