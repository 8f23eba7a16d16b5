# multiplus_ess_controller

A verified control core for the grid-setpoint loop of a Victron MultiPlus-II energy
storage system on a Venus GX, and the program around it.

The library in `src/` decides: the control laws and the learned feed-forward, the
composition of the command, who owns the loop, the safety supervisors, the battery limits,
the subsystems that accompany them, and which of their values a tick writes. Every function has
a contract, and the properties that span functions are public proof functions beside the
code that they speak of. It does no input or output and rests on no trusted item.

The program in `app/` reads the bus, hands plain values to the library and performs what
was decided. What stays with it is the input and output itself: how decimal fractions are
read from the command line, how links are resolved, the logs, and that a list of writes
ends with the first that fails.

**It controls grid-tied battery inverters. Use it at your own risk.**

## Numbers

Watts, volts, amperes, percent and seconds are held as whole counts of millionths
(`num::Num`), together with "not a number" and the two infinities, which behave as they do
in floating-point arithmetic. Products and quotients are rounded to the nearest millionth;
what outgrows the range, some nine million million either way, is held at its end, so that
what is computed from numbers stays a number. The covariance of the learned model spans many
orders of magnitude and is kept in a finer unit (`fine::Fine`).

## Layout

| module | what it decides |
|---|---|
| `control`, `rls` | the control laws, and the model that the adaptive one learns |
| `loop_core` | the composed command, ownership, the sanity supervisor, the write law |
| `socguard` | force-charge, discharge inhibit and charge floor |
| `battery_limits` | the charge and discharge bounds that follow the battery |
| `feedin`, `generator` | feed-in flags; never towards a generator |
| `gridmeter` | whether the meter can be relied on |
| `shore`, `pv`, `dess` | AC-input limit, solar curtailment, scheduled overrides |
| `hub4_service` | what is published, and overrides with a lifetime |
| `session` | a run: start-up, the read phase, the rules of the write phase, the way out |
| `cli`, `stage`, `telemetry`, `bus`, `text`, `states` | what surrounds them |
| `num`, `fine` | the arithmetic |

## Stages

`shadow` reads and never writes. `trim` steers the stock loop through its setpoint
override. `takeover` owns the loop. The last two need `--confirm` and the environment
variable `VENUS_ESS_LIVE=I_UNDERSTAND`.
