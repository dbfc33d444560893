# polyhedra

A compiler for `.polyh` files, plain-English descriptions of 3D parts:

```
define bracket
  units mm
  cube
    width 60
    depth 40
    height 5
  end
  chamfer 1
end
```

The library under `src/` is written in Verus. Its functions are verified
against their contracts, except four small trusted wrappers whose contracts
Verus takes as given: `String::push` (`text::push_char`) and the path
functions `Path::extension`, `Path::parent` and `Path::file_stem`, whose
results the contracts name rather than spell out.

| module            | what it holds                                                        |
|-------------------|----------------------------------------------------------------------|
| `parser::lexer`   | tokens of a source text                                              |
| `parser::number`  | decimal value of number tokens                                       |
| `parser::grammar` | the grammar, as spec functions and the parser that meets them        |
| `parser::ast`     | the syntax tree and its mathematical model                           |
| `parser`          | `parse_str`: text to syntax tree, or the error with line and column  |
| `eval`            | syntax tree to shape plan (primitives, moves, booleans, units)       |
| `export`          | export formats and their names; `export::gltf` frames GLB files      |
| `cli`, `commands` | what the command-line modes decide, list and report                  |
| `units`           | millimetres per unit name, arithmetic step per name                  |
| `style`           | preset dimensions of named primitive styles                          |
| `shape_type`      | numeric ids of shape kinds                                           |
| `error`           | the error type and the sentence of each error                        |

Numbers are decimals (`Decimal`): a 64-bit mantissa and a power of ten.
A number keeps all its digits when they fit the mantissa and its leading
digits when they do not, so a plan states every length as the value written
in the file and the millimetres per unit it is measured in.

`app/` is the command-line program around the library: argument parsing
(`clap`), reading files, printing, watching the file system (`notify`), and
the floating-point parts (bounds of a plan, unit conversion of `f32`
values, vertex normals and the glTF JSON).

`tests/` runs the library on concrete inputs.
