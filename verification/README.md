# asteroids

A small asteroids game for raylib, split in two:

- `src/` is the verified library with the game's discrete rules:
  - `world`: the projectile and asteroid slot pools, firing, spawning into a
    free slot, collision resolution and retirement, with laws on what a hit
    costs and what firing adds;
  - `spawn`: where a new asteroid enters and which way it heads;
  - `shapes`: the asteroid outlines and their triangle fans;
  - `input`: the steering decision for each axis;
  - `settings`: the game's constants.
- `app/` is the raylib front end: window, input, floating-point motion and
  drawing.
