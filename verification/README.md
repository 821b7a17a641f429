# exercises

A verified Rust library (checked with Verus) holding:

- `power`: `Power<T>` for `u32`, raising to a `u16`, `u32` or `&u32` exponent;
- `saturating`: `SaturatingU16`, conversions, saturating `+` and `==`;
- `heap`: a ticket record of three owned strings;
- `data`, `store`: tickets and a store that numbers them;
- `client`: the server's request step and a channel client.

`app/` holds what runs around the library: the server thread behind
`launch`, and two tokio TCP servers (`echoes`, `fixed_reply`).
