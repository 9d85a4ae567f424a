# spacetimedb_expr

Type checking of SQL expressions, `SELECT` lists, `LIMIT` clauses and literals against algebraic
types, verified with Verus.

The library (`src/`) takes a syntax tree, the tables in scope and the type that is expected, if any,
and gives back a typed expression or the reason why there is none.

| module      | what it holds                                                                   |
|-------------|---------------------------------------------------------------------------------|
| `ty`        | algebraic types and their mathematical content                                  |
| `value`     | values of these types                                                           |
| `decimal`   | exact decimal numbers and 256-bit integers                                      |
| `formats`   | hexadecimal texts and timestamps                                                |
| `literal`   | the value that the text of a literal denotes at a type, and array literals      |
| `ast`       | the syntax of expressions and `SELECT` lists                                    |
| `schema`    | tables and the scope                                                            |
| `expr`      | typed expressions and relational expressions                                    |
| `statement` | type checked statements                                                         |
| `typing`    | type checking                                                                   |
| `errors`    | why something is refused, also in words                                         |
| `names`     | what types are called in words                                                  |
| `laws`      | what holds of type checking and of literals as a whole                          |

Each function states over the mathematical contents what it returns, errors included.

Not proved are the functions marked `external_body`: each converts its arguments, makes one call into
`bigdecimal`, `ethnum`, `spacetimedb_lib` or `spacetimedb_sats` or builds one of its types, and
converts the result. Its comment says what is claimed of that.

Floats stay exact decimal numbers in the library. `app/` rounds them, and converts between the
library and the SQL parser, the schemas and the values of a database.
