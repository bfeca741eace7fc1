# fastpotify

The rules of a music player, verified with Verus.

| Module | What it decides |
| --- | --- |
| `fade`, `envelope` | how a pause, a resume and a change of track fade the sound |
| `control` | the handoff between a track that is cut short and the next one |
| `queue` | what a fresh queue of sound starts with |
| `stream`, `device` | which output is opened, at what rate and with what buffer |
| `sink` | what starting, writing and stopping ask of the output, step by step |
| `memory` | what the interface remembers from one pass to the next |
| `motion`, `spark` | which values, rows and bursts move, and from where |
| `mini`, `skeleton` | what the small player and the placeholders show and do |
| `links`, `vibrancy` | links from the desktop, and the desktop behind the window |

Gains, volumes and animated values are held as the bit patterns of their
floating-point numbers: the library decides which number is used when, and the
arithmetic on it is done in `app/`, together with drawing, devices, threads and
clocks. `tests/` runs the library.
