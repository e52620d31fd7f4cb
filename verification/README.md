# rust_exchange

The bookkeeping of a small exchange, split into four services, as a Verus
library whose rules are stated as contracts and proved:

- `user_service`: user accounts with unique, non-empty user names.
- `order_service`: orders, listing by user, cancellation of open orders.
- `exchange_service`: trades, listing by order; `market`: the listed pairs
  and their quoted prices.
- `risk_service`: per-user order-value limits and the verdict on an order.

`table` is the keyed store the services share, `amount` holds binary64
values by their bit pattern and orders them as IEEE-754 does, `system`
wraps the two outside sources (random identifiers from `getrandom` and
`uuid`, the clock through `chrono`) so that neither can panic: when one
fails, the operation answers with an internal error. `api` holds what the
HTTP endpoints decide.

`app/` serves one service per process over HTTP with salvo
(`app <exchange|order|risk|user> [config.toml]`); it is ordinary Rust and is
not verified.
