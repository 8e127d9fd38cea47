# Particle Life

A simulation of particles sorted into types, where each type has an attraction or
repulsion value toward every other type. Particles move by those values alone; clusters,
orbiting pairs, chains and moving swarms emerge.

The library under `src/` is verified with Verus. It holds everything that is decided on
the processor:

| Module | What it does |
| --- | --- |
| `presets` | the eight interaction-matrix presets |
| `ui`, `color`, `panel` | layout, hit-testing, colours and geometry of the control panel |
| `camera` | zoom and pan over a world that wraps around |
| `grid` | the spatial grid, buffer sizes, bindings and compute passes |
| `params` | the parameters that the shaders read |
| `random` | random particles and matrices |
| `model` | the state of the program and one frame of it |
| `laws` | what holds over several operations |
| `units` | the number representations |

`app/` opens the window (nannou), talks to the graphics device (wgpu) and turns the
library's exact numbers into the single-precision numbers that the shaders read. Its
shaders are expected under `app/shaders/`.

## Numbers

There is no floating point in the library.

- Lengths count 2^-24 pixels (`PX` of them make a pixel).
- Interaction weights count 1 / `WEIGHT_ONE`. Hundredths are exact, and so is the weight
  that a drag adds.
- Zoom counts 1 / `ZOOM_ONE`, time counts nanoseconds. A step of zoom or pan is rounded
  down to the next unit, and so are the middle of a chevron, the place of the slider's
  handle and half the size of the window.
- Clip coordinates, colour channels and the logarithm of the speed are exact quotients
  (`Ratio`). `app/` rounds each of them once.

## Controls

| Input | Effect |
| --- | --- |
| **Space** | Cycle through interaction-matrix presets |
| **R** | Randomize the interaction matrix |
| **P** | Pause / resume |
| **F** | Toggle fullscreen |
| **=** / **-** | Zoom in / out |
| **Arrow keys** | Pan the camera |
| Drag the slider | Adjust simulation speed |
| Drag a matrix cell | Hand-tune attraction/repulsion between two types |
