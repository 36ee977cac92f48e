# todo_backend

The JSON API of a TODO application (Axum over PostgreSQL), with its logic
verified by Verus.

- `src/` is the verified library: the title rule (`todo::model`), the
  decisions of the request handlers (`todo::handler`), the SQL statements and
  their bound values (`todo::repo`), the error answers (`error`), the settings
  (`config`), the CORS policy (`cors`) and the character-level facts they are
  stated over (`text`).
- `app/` is the server around it: reading the environment, the connection
  pool and migrations, running the statements with sqlx, the Axum router and
  the JSON forms of the types.
- `tests/` runs the library on concrete values.
