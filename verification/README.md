# stylus_social

The logic of a small social-content platform of Arbitrum Stylus contracts,
each entry point with a proved contract:

- `erc20`: the platform token (admin, transfer limit, per-account cooldown,
  minimum kept balance, supply cap, pause), with the ledger invariant that the
  balances sum to the total supply, kept by every call but a mint whose
  256-bit sum wraps (the cap is checked on the wrapped sum).
- `user_profiles`, `user_meta_data`, `safe_registration`: registration,
  reputation and stakes of users; names unique up to ASCII case.
- `communities`, `content_work`, `content_connector`, `connector`: communities,
  the content store and the front doors that post and read content.
- `voters`, `voting_connector`: one vote per address per content, tallies,
  and the checks before a stake is taken.

Each contract's storage is a value of the library; an entry point takes the
caller and block time as an `Env`, and hands the calls it makes on other
contracts back as `Call` values (or, where it waits on an answer, as a `Step`).
`app/` holds an in-memory host that routes those calls, and the Solidity ABI
of the token's events and errors.
