# gasket

Stages of a data pipeline. A stage bootstraps its worker, has it schedule and
execute work units, and tears it down in the end. Work that fails is tried again
as far as the stage's policy allows.

- `src/` is the verified library. `runtime::StageMachine` decides what a stage
  does in each turn and where the turn leads; `runtime::Tether` tells from outside
  how a stage is doing; `retries` counts failures and sets delays; `metrics` holds
  the counters of a stage. `runtime::laws` states what holds of all runs of a
  stage, for instance that a dismissed stage ends.
- `app/` runs stages on threads of their own: it awaits the workers, emits the log
  and joins the threads.
- `tests/` runs the library on given values.
