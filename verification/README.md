# random_number_api

A small web service with three endpoints:

- `GET /__healthcheck` answers `{"status": "ok"}`;
- `GET /random_number` asks an outside service for a number between 1 and 100
  and answers it multiplied by 100, or a 500 when the service fails or the
  product does not fit in 16 bits;
- `GET /error_test?first=..&last=..&favoriteNumber=..` checks its parameters
  and answers a 400 with a JSON message, a 500, or a greeting.

`src/` is the verified library: the answers of the handlers, the error type
and its HTTP form, the reading of the random number service's answer, and
decimal text. `app/` is the server around it: configuration, tracing, the HTTP
client, routing and the conversion of library values to HTTP responses.
