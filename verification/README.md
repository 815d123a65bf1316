# rustybird

The rules of a Flappy Bird style game, verified with Verus, and the program
that plays it with macroquad.

- `src/game.rs`: the screens of a round (intro, menu, transition, get-ready,
  playing, dying, game over), when the bird flaps, the score, the best score
  and the sprites of a round.
- `src/pipes.rs`: each pipe scores once, when the bird first gets past it.
- `src/digits.rs`: decimal digits of a score, the text the best score is saved
  under, and reading that text back.
- `src/input.rs`: mouse and touches folded into one pointer; the start button.
- `src/icon.rs`: the window icon decoded from `favicon.ico` and scaled to its
  three sizes.
- `src/random.rs`: random sprite choices.
- `app/main.rs`: window, assets, sound, motion, collision and drawing, which
  work in floating point and hand the library what they measure each frame.
