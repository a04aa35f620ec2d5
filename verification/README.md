# grok_oauth

Quota of Grok OAuth subscription accounts, as a library verified with Verus:

- `request`: the two billing requests, weekly and monthly, that ask the Grok CLI
  proxy for the usage of an account.
- `billing`: what the answers say of an account, what is kept of it and when its
  token counts as expired.
- `adapter`: what the provider pool knows of the provider, and when an account
  is exhausted.
- `refresh`: the refresh of all keys of a provider as a machine. It names the
  next action and is told the event that came of it.
- `laws`: what holds of these across functions.
- `headers`, `text`: header lines and text.
- `json`, `link`: what is relied on of the `serde_json` and `url` crates.
- `limits`: which texts their parsers can count through.

`app/` carries out the actions of a refresh and ties the adapter to the provider
pool. The services of the gateway and the pool come in through traits there.

A status of 403 never marks an account as invalid. A status of 401 does, where
no usage window could be read.
