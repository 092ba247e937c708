# templar_bots

A bot that liquidates positions on NEAR lending markets. It lists the markets that registries have
deployed, runs liquidations on each of them in rounds, and swaps tokens on the Rhea exchange or
through a solver of NEAR intents.

- `src/` holds what the bot decides and computes, verified with Verus: paging through registries,
  rounds and refreshes, waiting for transactions, the requests to the swap services and the messages
  that are signed. Nothing in it talks to the network; each step takes the last answer and the time.
- `app/` holds what runs around it: arguments, remote calls and waiting. How a market is liquidated
  and how a token is sent with a call come from the caller.
- `tests/` runs the library on concrete values.

The functions marked `external_body` and the `assume_specification` items are the outside calls whose
contracts are believed; the comment above each says what is claimed.
