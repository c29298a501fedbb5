# angulito

Angulito measures angles in images and video frames, in the browser.

- `src/` is the verified library (Verus): the frame list and its selection
  (`frames`), sorting picked files into images and a video and the messages
  about what failed to load (`loading`), the pointers that pan and pinch the
  editor view (`pointers`), the drag and keyboard editing of the three angle
  points (`session`), and decimal text for messages, the overlay color and
  the name of an exported image (`text`, `naming`).
- `app/` is the Dioxus web app around it: the components, the DOM and canvas
  calls, and the floating-point geometry and zoom/pan math.
- `tests/` exercises the library on concrete values.
