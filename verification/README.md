# xmpp

A small XMPP client library with its contracts proved by Verus.

- `src/` is the verified library: stream headers and packets and their text
  form (`packet`), the attributes of a header (`attrs`), JIDs and accounts
  (`jid`, `user`, `classes`), the opening of a stream with STARTTLS as a
  step-by-step state machine (`xmpp_stream`), the SASL PLAIN login and the
  stanzas a client sends (`sasl_auth`, `client`), the messages between the
  Godot threads (`bridge`), and the trusted wrappers around minidom, xml-rs,
  jid, sasl and base64 (`dom`, `xml_events`, `jid`, `sasl_auth`, `text`).
- `app/` holds what talks to the outside world: TCP and TLS sockets, DNS,
  JSON records of the accounts, and the Godot classes.
- `tests/` runs the library on concrete inputs.
