# tchatchers_front

The client side of tchatche.rs, a real-time chat, with its decisions
verified by Verus.

- `src/` is the verified library: routes and the authentication guard, the
  room feed as a state machine, the message buses, the HTTP request
  description and the renewal of expired tokens, the forms, toasts, modal
  and context menus, translations, the session cookie, and the logic of
  the `IntoApiResponse` and `ErrorWrapper` derives. Each public function
  states its result in its contract; the `law_*` proof functions state the
  properties that span several calls.
- `tests/` runs the library on concrete values.
- `app/` holds what talks to the browser and the compiler: cookies,
  location, HTTP, the socket, and the token streams of the derives.
