# libcall

`libcall` calls C functions from shared libraries from the command line:

```bash
libcall -lm sqrt 16.0 :f64
# 4
```

The project has two parts.

- `src/` is a library verified with Verus. It holds every decision the tool
  makes: the token grammar and the typed values it yields, number syntax,
  type names, spec files turned into tokens, where a library is looked for,
  how each argument is passed and which C prototype a call uses, the
  callback signature and script, and the text and report of a result.
  Each public function states its result exactly in its `ensures`; the
  proof functions named `law_*` state properties that span functions, such
  as that a printed integer reads back as the same value.
- `app/` is the program around it: argument handling, reading spec files,
  the file system search, loading the library, the C call itself, the Lua
  callbacks, and printing.

`tests/` exercises the library on concrete inputs, including the
documented examples.
