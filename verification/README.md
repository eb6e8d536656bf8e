# sqltui

The verified core of a terminal client for MySQL and PostgreSQL.

- `src/` is the library, checked by Verus: the connection tree (`connection_list`), the
  navigation of the application (`app`), the lists and panels of the main half of the screen
  (`lists`, `data_list`, `panel`), the configuration (`config`, `connection`, `database`), and
  the statements that the editors write (`mysql_table`, `pg_table`, `mysql_view`, `pg_view`, `mysql_user`,
  `pg_role`), with the text helpers they share (`text`, `form`, `diff`, `pattern`).
- `app/` is a small line-oriented front end that reads and writes the configuration file and
  drives the connection tree.
- `tests/` runs the library on concrete values.
