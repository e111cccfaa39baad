# watch_market

The verified core of a watch marketplace backend (shops, products, orders,
chats, invoices), written in Verus.

- `src/` is the library. Every function carries a contract that Verus
  proves: reading the bearer token and the token subject, the role gates,
  the checks on request bodies with the answer each refusal gives, the
  composition of the paginated list queries (filters, bound parameters and
  their `$k` placeholders), page counts, invoice numbers, `Range` headers,
  the stock reservation of an order, status changes and the notices they
  send, chat titles and message routing, and the product pages and
  invoices filled from HTML templates. Public proof functions (`law_*`)
  state the properties that relate several functions, such as the
  round trips of bearer headers, token subjects and byte ranges.
- Calls into bcrypt, into the `image` crate (decoding, resizing and
  encoding an uploaded image) and into `std::path`/`str::to_lowercase` stand behind
  small trusted wrappers whose contracts say what the outside code does.
- `app/` is the HTTP server (actix-web, tokio-postgres): it reads requests,
  runs the database statements and the file I/O, and hands plain values to
  the library. It serves `POST /api/hash_password`,
  `POST /api/auth/verify-token`, `GET /api/settings`,
  `POST /api/image/upload`, `POST /api/image/resize`,
  `GET /api/advertisements/{id}/video`, `POST /api/orders`,
  `PUT /api/orders/{id}`, `GET /api/orders/{id}/remind-seller`,
  `POST /api/refund-reasons`, `GET /api/counters/generate-invoice-id`,
  `POST /api/send-message`, `PUT /api/messages/{id}/status`,
  `DELETE /api/messages/{id}`, `GET /api/total-unread-counts`,
  `POST /api/update-instantio-state`, `GET /api/users/{id}/last-active-at`
  and `GET /api/chat-sessions/{id}`.
- `tests/` runs the library on concrete values.
