# lsr

A small `ls` replacement. The library (`src/`) holds the listing's logic,
verified with Verus: which entries a directory listing keeps, the column
definitions, the text of each column, column widths, padding, colours and the
rendering of the rows. The program (`app/`) parses the arguments, reads the
directory and the entries' metadata, and prints.

Modules: `consts` (field, column-kind and colour numbers), `error`, `text`
(decimal notation), `rows` (rows and column definitions), `padding` (column
widths and padding), `render` (colours, cells, rendering), `listing` (entry
names and the filter), `laws` (properties that span several functions).
