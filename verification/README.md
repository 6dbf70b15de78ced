# virtio_mem

A virtio-mem device model verified with Verus.

- `src/` is the verified library: the per-block plug bitmap (`bitmap`), the
  little-endian byte layouts of the configuration space and of guest
  requests and responses (`le`, `config_space`, `request`), the device and
  its handling of plug, unplug, unplug-all and state requests (`device`),
  snapshot save and restore (`persist`), the API requests on the device
  (`api`), and the laws that relate these operations (`laws`).
- `app/` holds what talks to the host: the page size, eventfds, guest memory
  and queue access, releasing host memory, interrupts, and the serde and
  error-display copies of the library's types.
- `tests/` exercises the library on concrete values.
