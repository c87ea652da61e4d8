# canlib

Support for Kvaser CANLib (CAN and CAN FD) with verified contracts.

- `src/` is the library, verified with Verus: status codes and errors
  (`error`), bus parameters and driver modes (`bus_params`), CAN messages and
  their flags and identifiers (`message`), bus status and statistics (`status`),
  the state of an open channel and the channel traits (`channel`), and the
  `embedded-can` decisions (`embedded_hal`), and, at the crate root, the text
  of the driver's NUL-terminated buffers and channel information. Every function takes the values the
  driver returned and states what it makes of them.
- `app/` makes the driver calls: it loads the CANLib shared library, owns the
  hardware channel (`HwChannel`), and implements the `embedded-can` and error
  display traits on top of the library.
- `tests/` exercises the library on concrete values.
