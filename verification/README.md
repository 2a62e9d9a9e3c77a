# zero2prod

A newsletter service. The library in `src/` holds, with proofs:

- `domain`: the checks on subscriber names and e-mail addresses
  (`generic_string_checks`, `SubscriberName::parse`, `SubscriberEmail::parse`)
  and the `NewSubscriber` they make up;
- `routes`: the decisions of the subscription and confirmation endpoints,
  which take the outcome of each database or mail round trip and say what
  comes next;
- `startup` and `decimal`: the listening address and decimal rendering.

`app/` is the web service itself: configuration, the actix-web server, the
PostgreSQL queries and the mail client, which call into the library for
every decision.
