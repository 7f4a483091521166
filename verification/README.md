# keypoint

Logic of a wireless split keyboard: two halves with a memory-in-pixel panel each,
a trackpad on the left, a pointing stick on the right, and a USB receiver.

The library under `src/` is verified with Verus. It holds no hardware: drivers are
state machines that take what the board did and say what it is to do next, and
whatever was shared between tasks is a value that is passed in.

| module | what it does |
|---|---|
| `lpm009m360a` | panel framebuffer, rotation, and the frames that go over the bus |
| `renderers` | the status screen: animation, badge, battery filter, layer name |
| `text`, `label` | text through `embedded-graphics` and `heapless` |
| `trackpad`, `trackpoint`, `tp_diag` | the two pointing drivers and their counters |
| `pointing`, `pointer_speed`, `speed_control`, `scroll_key` | pointer modes and what changes them |
| `keymap` | the default keymap and encoder map |
| `connection`, `usb_diag`, `status_led`, `sleep_watch` | connection state and what follows it |
| `motion_pin`, `clock`, `board`, `bytes` | polling, time, radio address, bytes |

Functions named `law_...` are proofs of what holds across several functions.

`app/` puts the library on the boards with embassy and rmk. The acceleration curve
of the pointing stick is floating point and lives there.

The library allocates nothing and uses nothing of std that core does not have, but it
does not carry the `no_std` attribute, which a build for the chip has to add. Such a
build has not been tried: the library and its tests are built and run on a host.
