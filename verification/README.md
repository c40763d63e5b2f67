# polars_vortex

The verified core of the Polars ↔ Vortex integration, written in Verus.

- `predicates::vortex_convertor` turns a Polars predicate (an `AExpr` arena) into a Vortex
  filter expression, refusing the shapes whose Vortex counterpart could fail at scan time and the
  literals Vortex cannot build (out-of-range decimals, datetimes and times, and datetimes whose
  time zone the machine's time-zone database does not know);
  `vx_model` / `vx_emit` describe Vortex dtypes, scalars and expressions as plain values and
  build the `vortex_array` values from those descriptions.
- `read::predicate` maps Polars scalars to Vortex scalars; `read::schema` maps a Vortex file's
  dtype to the polars-arrow schema; `read::file_stats` builds the per-file statistics table
  used for file pruning (exact statistics only).
- `read::options`, `session`, `scan`, `slice` and `stream` hold the scan options, the segment
  cache session, the lazy-scan arguments, pre-slices and the decisions of the streaming source
  and sink; `write` holds the write options and the chunk layout check.
- `pl_dtype`, `pl_scalar`, `aexpr` and `arrow_model` are the Polars-side values these functions
  read.

`app/` holds what Verus does not check: the process-wide session configured from the
environment and the floating-point rendering of statistics.
