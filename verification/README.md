# payrust

A PayPal REST API client. The library (`src/`) holds what the client computes and decides,
each function with a contract proved by Verus; `app/` holds the HTTP exchanges, the JSON
forms of the types and the handling of floating-point amounts.

- `models`: currencies and money (amounts written from minor units, read back exactly),
  orders, captures and refunds, webhook notifications and their signature headers.
- `api::order`: the order builder and the request it builds, whose amount is the sum of its
  breakdown.
- `client`: service addresses, authorization headers, the webhook verification request and
  the decisions on tokens and verification answers; the refund builder.
- `error`: the client's errors and how PayPal's error bodies map to them.
- `text`: decimal writing and reading of integers.
- `outside`: the types of other crates that the library's values carry.

Amounts given as `f64` are turned into `ScaledAmount`s (the amount rounded to whole units and
to hundredths) in `app/`; the builder reads them in the minor units of the order's currency.
