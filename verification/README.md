# lib

Two small pieces of the Enso IDE, verified with Verus.

- `src/sbt.rs`: the command lines handed to the sbt build tool. `Sbt::concurrent_tasks`
  builds `all t1 t2 ...`; `Sbt::concurrent_tasks_chunked` cuts the tasks into chunks of
  at most `chunk_size` (zero meaning one chunk) and builds one such command per chunk;
  `SystemProperty::into_iter` gives the `-Dname=value` argument. The lemmas at the end
  state that the chunks, concatenated, give back the tasks, how large they are and how
  many there are.
- `src/visualization/`: the decisions of the graph editor's visualization container.
  `definition.rs` holds the paths that identify visualizations and the order of
  cycling through them; `container_model.rs` the state of the container's display
  hierarchy and its invariant; `container.rs` the reactions to the container's inputs
  and its outputs; `container_laws.rs` laws over sequences of inputs (when
  `is_selected` is emitted, when the loading spinner is shown). Every operation records the display changes it decides on as
  `ContainerAction`s, which the owner performs in order.
- `app/`: the display objects, shapes, sizes and event network that perform those
  actions on the GUI toolkit.
