# quest

The object model of Quest, a language in which everything is an object and
every operator is an attribute that an object, or its type, can redefine.

## Layout

- `src/object/heap.rs`: the heap of objects, handles to them, the values
  they hold and their own attributes.
- `src/object/semantics.rs`: what calling an attribute does, as mathematical
  functions from the heap before a call to the heap after it and the result.
- `src/object/dispatch.rs`: the interpreter that looks attributes up and runs
  them; each of its functions is proved to do what `semantics.rs` says.
- `src/object/object.rs`: what a handle can do (read, set, delete and call
  attributes, copy the object, compare it).
- `src/object/types/`: the built-in types and their native methods.
- `src/object/typed/`: blocks of code, operators (how they are written,
  how tightly they bind, and how a stream of operands and operators is
  evaluated) and bound methods.
- `src/object/map.rs`: tables of native methods that are built on first use.
- `src/object/laws.rs`, `src/object/depth.rs`: properties that hold for
  every heap: equality defaults, attributes as a key-value store, lists,
  numbers and texts, and that the depth limit on nested calls only cuts a
  call short.
- `app/`: running a text as a shell command, and numbers with fractions.

Calls nest at most `CALL_DEPTH` deep; a deeper call raises
`Error::RecursionLimit`.

An attribute key is any object. A variable used as a key stands for the
name it holds, so two variables with the same name reach the same
attribute; any other object is a key by itself, and a lookup under a key
that an object does not have raises `Error::MissingKey` (a missing name
raises `Error::AttrMissing`).

Texts are indexed from 1 with `[]` and `[]=`: `text[i]` is the character
at `i` (a negative index counts from the end, -1 being the last),
`text[i, j]` the characters from `i` through `j`; the index 0 is an
error, and a start outside the text gives null.
