# joining_peer

The state of a node of a sectioned peer-to-peer network from its start until a section has approved
it as a member, verified with Verus.

A node first *bootstraps*: it asks peers for a section to join, gives up those that do not answer in
time, and follows referrals to other peers. Told of a section, it takes a name close to its
destination if it has none and *joins*: it asks the elders of the section to let it in, moves on to
later elders, and starts over if nobody lets it in.

The library does no I/O. Events go in as calls, and what is asked of the network and of the clock
comes out as a list of actions. What takes key material is made outside: `wanted`, `wants_new_id`,
`to_sign` and `keys_to_check` tell what, and the handlers take the results.

- `src/joining_peer.rs`: the state and its events
- `src/bootstrapping.rs`, `src/joining.rs`: its two stages
- `src/laws.rs`: what holds across events
- `src/pending.rs`: the set of awaited peers, on `fxhash::FxHashSet`
- `src/xor_space.rs`: names and prefixes
- `src/common.rs`: identity, timer and actions
- `app/`: a driver that runs a node on given services
