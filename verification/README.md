# lenso_project_portfolio

The verified core of the Lenso Project Portfolio plugin: initiatives, their
ordered project membership, caller-supplied project snapshots, structured
health updates and snapshot-based rollups.

- `src/` is the library, proved with Verus: request validation (`text`,
  `dates`, `requests`, `config`), the storage rules that decide on what a
  PostgreSQL query returned (`domain`, `reorder`, `rollup`, `paging`), the
  authorization sequence as a state machine (`authorize`, `operations`), the
  mapping of refusals onto capability and Agent Tool errors (`errors`,
  `tools`, `portfolio_tools`, `admin_tools`), request hashing (`hashing`), and
  the properties that span these rules (`laws`).
- `app/` is the plugin around it: the capability handlers, the awaited
  dependency calls, the SQL transactions, serde copies of the records, and the
  two Agent Tool adapters.
- `tests/` exercises the library on concrete values.
