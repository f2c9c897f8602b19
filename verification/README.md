# bassin

Control logic of the SEACom test basin of ISEN: two arms (emitter and
receiver), each moved along X, Y, Z and θ by motor drivers, driven from a
BeagleBone and operated from a web interface.

`src/` is the verified library (Verus):

- `definitions`: doors, drivers, commands, positions, arms and their queue
  of positions, the status word;
- `error`: the hardware errors and their messages (`text` renders numbers);
- `driver_cn_pin`: the GPIO lines of a driver and the exchanges that move,
  reset and zero it, as state machines;
- `drivers_cn_rs232`: the I2C serial bridges of the drivers, their
  configuration, the target frames and the echoed transfer;
- `arm_backend`: the wiring of the back end, the status derived from the
  sensors, how commands expand over the drivers and how outcomes are
  gathered;
- `interface`: the state of the operator interface and how it follows the
  status of the basin;
- `beaglebone`: drivers wired directly to the BeagleBone header.

`app/` is the program around it: GPIO and I2C access, the WebSocket server,
the log files, the JSON forms of the messages, and (for the browser) the
egui interface. Coordinates are numbers there; the library holds them as
single precision bit patterns.
