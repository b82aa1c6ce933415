# pictou_auth

The authentication of the pictou service, verified with Verus.

- `src/context.rs`: who is behind a request. Access tokens are issued, taken out of the
  `Authorization` header and checked.
- `src/refresh.rs`: a refresh token is traded for a new access token and a new refresh token.
- `src/clients.rs`: which login providers are switched on, and which routes are served.
- `src/jwt.rs`, `src/token.rs`: JSON Web Tokens, their claims and the rules they are held to.
- `src/bearer.rs`, `src/base64_text.rs`, `src/timestamp.rs`, `src/user_id.rs`, `src/error.rs`: header
  values, base64, instants, user ids and the answers to refused requests.
- `src/laws.rs`: what holds across these modules.
- `app/`: the HTTP extractor, the routes and the database queries, with actix-web and diesel.

`serde_json` carries the claims to and from `jsonwebtoken`: in the order of a token where it is
written, and as raw values, of which only strings and integers are looked into, where it is read.
