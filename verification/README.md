# rufish

A Redfish client for BMC/server out-of-band management.

- `src/` is the verified library. `client.rs` decides, for every operation
  (service root, systems, chassis, managers, power and thermal readings,
  processors, memory, storage, network interfaces, accounts, update and event
  services, logs, resets, boot overrides, raw GET/POST/PATCH/DELETE), which
  request is sent: method, URL, credentials and JSON body. It also judges the
  replies and keeps the session that a login opens and a logout closes.
  `json.rs` writes JSON string literals and parses reply bodies, `text.rs`
  holds the URL and number helpers, `types.rs` the resources and request
  bodies, `error.rs` the error type, and `laws.rs` the properties proved of
  the client as a whole.
- `app/` is the asynchronous client around it: it sends the requests with
  `reqwest`, hands the replies back to the library, and deserializes them
  into `serde` copies of the resource types.
