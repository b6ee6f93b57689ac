# olha

A notification center for a Wayland desktop, with its decisions verified by Verus.

- `olhad` takes notifications from applications over D-Bus, runs them through rules, stores them,
  and announces them. Their content can be sealed at rest: writing takes a public key alone,
  reading takes the secret key, which is in memory only between an unlock and the next lock.
- `olha` lists, counts, shows and changes what is stored, follows what comes in, and manages the
  keys.
- `olha-popup` shows what comes in as a stack of pop-ups.

## Layout

`src/` is the library. It holds every rule of the three programs as functions from plain values to
plain values, each with a contract that Verus proves:

| module | what it decides |
| --- | --- |
| `text`, `json`, `time`, `pattern` | texts, JSON values, points in time, regular expressions |
| `crypto`, `encryption` | the primitives; sealed fields, wrapped keys, the state of the daemon's keys |
| `notification`, `store`, `queries`, `schema` | what a notification is, which row it becomes and is read from, which statements are run |
| `config`, `settings` | the configuration, and single settings in its text |
| `rules` | which rule applies to a notification, and which command it runs |
| `daemon` | what a call over the bus does, what the daemon starts with |
| `popup` | pop-up rules, heights, and what an event does to the stack |
| `keys`, `report` | making, wrapping and replacing keys, and what is said meanwhile |
| `cli`, `output` | what the command line asks for and prints |

What the library takes from other crates it takes through small functions whose contracts Verus
believes. Each says in its comment which outside function it calls and what is claimed of it.

`app/` is the program around the library: D-Bus, SQLite, files, child processes and windows. One
binary serves as all three programs, by the name that it is started under.

`tests/` runs the library on concrete values, with the outside crates linked.
