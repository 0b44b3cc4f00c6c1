use vstd::prelude::*;

use crate::consts::{
    is_field, FIELDNAME_ACLS, FIELDNAME_FILETYPE, FIELDNAME_OWNER, FIELDNAME_SIZE,
    FIELDNAME_SRCNAME, FIELDNAME_TARGETNAME, FIELDNAME_TIMEISO, ROWDEF_ALIGN_LEFT,
    ROWDEF_ALIGN_RIGHT,
};
use crate::listing::{occurs_at, occurs_in, passes_filter, selected, stripped};
use crate::padding::{column_width, padded, spaces, text_width};
use crate::consts::{
    CLRID_BLUE, CLRID_DARK_GRAY, CLRID_GREEN, CLRID_LIGHT_BLUE, CLRID_LIGHT_CYAN, CLRID_LIGHT_GRAY,
    CLRID_LIGHT_GREEN, CLRID_LIGHT_MAGENTA, CLRID_LIGHT_RED, CLRID_LIGHT_YELLOW, CLRID_MAGENTA,
    CLRID_RED, COLDEF_ACLS, COLDEF_DEFAULT, COLDEF_FILETYPE, COLDEF_OWNER, COLDEF_PREVIEW,
    COLDEF_SIZE, COLDEF_SIZE_BYTES, COLDEF_SIZE_FILECOUNT, COLDEF_SRCNAME_DIR, COLDEF_SRCNAME_FILE,
    COLDEF_TARGETNAME, COLDEF_TIME, FIELDNAME_PREVIEW, FTYPE_DIR, FTYPE_FILE,
};
use crate::render::{
    spec_coldef, spec_color_code, spec_colorval, spec_colslisting, spec_rendered, CLR_END,
};
use crate::rows::{column_text, spec_rowdefs, ColumnFn, Row, RowInfo};
use crate::text::{decimal, digit_char};

verus! {

/// Every field that a listing shows names a column, and the short listing
/// shows only fields that the full listing shows too.
pub proof fn law_listed_fields_are_columns(full: bool, i: int)
    requires
        0 <= i < spec_colslisting(full).len(),
    ensures
        is_field(spec_colslisting(full)[i]),
        spec_colslisting(true).contains(spec_colslisting(full)[i]),
{
    let f = spec_colslisting(full)[i];
    if full {
        assert(spec_colslisting(true)[i] == f);
    } else {
        assert(spec_colslisting(true)[i + 3] == f);
    }
}

/// Whatever the file type and the field, the column kind that a cell gets
/// has a colour.
pub proof fn law_every_column_kind_has_a_colour(ftype: u8, field: u8)
    ensures
        spec_colorval(spec_coldef(ftype, field)) is Some,
{
}

/// The listing's column definitions hold, in the slot of each field, the
/// definition of that field, aligned left, whose function renders that
/// field's column.
pub proof fn law_rowdefs_name_their_slots(field: u8)
    requires
        is_field(field),
    ensures
        spec_rowdefs().slot(field).name == field,
        spec_rowdefs().slot(field).align == ROWDEF_ALIGN_LEFT,
        spec_rowdefs().slot(field).onlyfull,
        spec_rowdefs().slot(field).func == column_fn_of(field),
{
}

/// The column function that renders the field `field`.
pub open spec fn column_fn_of(field: u8) -> ColumnFn {
    if field == FIELDNAME_ACLS {
        ColumnFn::Acls
    } else if field == FIELDNAME_OWNER {
        ColumnFn::Owner
    } else if field == FIELDNAME_FILETYPE {
        ColumnFn::Filetype
    } else if field == FIELDNAME_SIZE {
        ColumnFn::Size
    } else if field == FIELDNAME_TIMEISO {
        ColumnFn::Timeiso
    } else if field == FIELDNAME_SRCNAME {
        ColumnFn::Srcname
    } else if field == FIELDNAME_TARGETNAME {
        ColumnFn::Targetname
    } else {
        ColumnFn::Preview
    }
}

/// A column is as wide as the widest of its texts: no row's text is wider
/// than the column, and, where there is a row, some row's text is exactly
/// as wide.
pub proof fn law_column_width_is_the_widest(rows: Seq<Row>, field: u8)
    ensures
        forall|i: int| 0 <= i < rows.len() ==> text_width(#[trigger] rows[i].render.field(field))
            <= column_width(rows, field),
        rows.len() == 0 ==> column_width(rows, field) == 0,
        rows.len() > 0 ==> exists|i: int|
            0 <= i < rows.len() && text_width(#[trigger] rows[i].render.field(field))
                == column_width(rows, field),
    decreases rows.len(),
{
    if rows.len() > 0 {
        let init = rows.drop_last();
        law_column_width_is_the_widest(init, field);
        assert forall|i: int| 0 <= i < rows.len() implies text_width(
            #[trigger] rows[i].render.field(field),
        ) <= column_width(rows, field) by {
            if i < rows.len() - 1 {
                assert(rows[i] == init[i]);
            }
        }
        if column_width(rows, field) == text_width(rows.last().render.field(field)) {
            assert(rows[rows.len() - 1] == rows.last());
        } else {
            let j = choose|j: int|
                0 <= j < init.len() && text_width(#[trigger] init[j].render.field(field))
                    == column_width(init, field);
            assert(rows[j] == init[j]);
        }
    }
}

/// A padded non-empty text is as long as the larger of the column width and
/// the text, and holds the text at its start where the column is aligned
/// left, at its end where it is aligned right, the rest being spaces.
pub proof fn law_padding_keeps_the_text(val: Seq<char>, padlen: nat, align: u8)
    requires
        val.len() > 0,
    ensures
        padded(val, padlen, align).len() == if padlen > val.len() {
            padlen
        } else {
            val.len()
        },
        align != ROWDEF_ALIGN_RIGHT ==> padded(val, padlen, align).subrange(0, val.len() as int)
            == val,
        align == ROWDEF_ALIGN_RIGHT ==> padded(val, padlen, align).subrange(
            padded(val, padlen, align).len() - val.len(),
            padded(val, padlen, align).len() as int,
        ) == val,
        forall|i: int|
            0 <= i < padded(val, padlen, align).len() ==> #[trigger] padded(val, padlen, align)[i]
                == ' ' || (align != ROWDEF_ALIGN_RIGHT && i < val.len() && padded(val, padlen, align)[i]
                == val[i]) || (align == ROWDEF_ALIGN_RIGHT && i >= padded(val, padlen, align).len()
                - val.len() && padded(val, padlen, align)[i] == val[i - (padded(
                val,
                padlen,
                align,
            ).len() - val.len())]),
{
    let n: nat = if padlen > val.len() {
        (padlen - val.len()) as nat
    } else {
        0
    };
    let p = padded(val, padlen, align);
    if align == ROWDEF_ALIGN_RIGHT {
        assert(p == spaces(n) + val);
        assert(p.subrange(p.len() - val.len(), p.len() as int) == val);
    } else {
        assert(p == val + spaces(n));
        assert(p.subrange(0, val.len() as int) == val);
    }
}

/// The number that a string of decimal digits denotes.
pub open spec fn decimal_value(s: Seq<char>) -> int
    decreases s.len(),
{
    if s.len() == 0 {
        0
    } else {
        decimal_value(s.drop_last()) * 10 + (s.last() as int - 48)
    }
}

/// The permission column reads back as the mode it was written from: its
/// characters are decimal digits, the first is no `0` unless the mode is 0,
/// and they denote the mode.
pub proof fn law_decimal_reads_back(n: nat)
    ensures
        decimal_value(decimal(n)) == n,
        forall|i: int| 0 <= i < decimal(n).len() ==> '0' <= #[trigger] decimal(n)[i] <= '9',
        decimal(n).len() > 1 ==> decimal(n)[0] != '0',
        decimal(n).len() >= 1,
        n >= 10 ==> decimal(n).len() > 1,
    decreases n,
{
    let d = decimal(n);
    if n >= 10 {
        law_decimal_reads_back(n / 10);
        let q = decimal((n / 10) as nat);
        assert(d == q.push(digit_char((n % 10) as nat)));
        assert(d.drop_last() == q);
        assert(d.last() == digit_char((n % 10) as nat));
        assert(digit_char((n % 10) as nat) as int == n % 10 + 48);
        assert(n == (n / 10) * 10 + n % 10);
        assert(decimal_value(d) == decimal_value(q) * 10 + (n % 10));
        assert(d[0] == q[0]);
        if q.len() == 1 {
            assert(n / 10 < 10);
            assert(q[0] == digit_char((n / 10) as nat));
            assert(digit_char((n / 10) as nat) as int == n / 10 + 48);
        }
        assert forall|i: int| 0 <= i < d.len() implies '0' <= #[trigger] d[i] <= '9' by {
            if i < d.len() - 1 {
                assert(d[i] == q[i]);
            }
        }
    } else {
        assert(d == seq![digit_char(n)]);
        assert(digit_char(n) as int == n + 48);
        assert(d.drop_last() =~= Seq::<char>::empty());
        assert(decimal_value(d) == decimal_value(d.drop_last()) * 10 + (d.last() as int - 48));
    }
}

/// Every entry that the listing keeps passes the filter, and with an empty
/// filter the listing keeps every entry, in order.
pub proof fn law_selection_filters(paths: Seq<Seq<char>>, filtres: Seq<char>)
    ensures
        forall|i: int|
            0 <= i < selected(paths, filtres).len() ==> passes_filter(
                #[trigger] selected(paths, filtres)[i],
                filtres,
            ),
        selected(paths, filtres).len() <= paths.len(),
        filtres.len() == 0 ==> selected(paths, filtres) == paths.map_values(
            |p: Seq<char>| stripped(p),
        ),
    decreases paths.len(),
{
    if paths.len() > 0 {
        law_selection_filters(paths.drop_last(), filtres);
        let rest = selected(paths.drop_last(), filtres);
        assert forall|i: int|
            0 <= i < selected(paths, filtres).len() implies passes_filter(
            #[trigger] selected(paths, filtres)[i],
            filtres,
        ) by {
            if i < rest.len() {
                assert(selected(paths, filtres)[i] == rest[i]);
            }
        }
        if filtres.len() == 0 {
            assert(paths.drop_last().map_values(|p: Seq<char>| stripped(p)).push(
                stripped(paths.last()),
            ) == paths.map_values(|p: Seq<char>| stripped(p)));
        }
    } else {
        assert(paths.map_values(|p: Seq<char>| stripped(p)) == Seq::<Seq<char>>::empty());
    }
}

/// A text occurs in another exactly where the other is made of some text,
/// then it, then some more text; and an entry passes the filter exactly
/// where its name is made that way around the filter (an empty filter is
/// made that way around any name).
pub proof fn law_filter_is_substring(name: Seq<char>, filtres: Seq<char>)
    ensures
        occurs_in(name, filtres) <==> exists|a: Seq<char>, b: Seq<char>|
            #[trigger] (a + filtres + b) == name,
        passes_filter(name, filtres) <==> exists|a: Seq<char>, b: Seq<char>|
            #[trigger] (a + filtres + b) == name,
{
    if occurs_in(name, filtres) {
        let i = choose|i: int| occurs_at(name, filtres, i);
        let a = name.take(i);
        let b = name.skip(i + filtres.len());
        assert(a + filtres + b =~= name);
    }
    if filtres.len() == 0 {
        assert(name + filtres + Seq::<char>::empty() =~= name);
    }
    if exists|a: Seq<char>, b: Seq<char>| #[trigger] (a + filtres + b) == name {
        let (a, b) = choose|a: Seq<char>, b: Seq<char>| #[trigger] (a + filtres + b) == name;
        assert(name.subrange(a.len() as int, (a.len() + filtres.len()) as int) =~= filtres);
        assert(occurs_at(name, filtres, a.len() as int));
    }
}

/// The name of an entry passes the filter: it holds the filter text.
pub open spec fn holds_text(name: Seq<char>, filtres: Seq<char>) -> bool {
    exists|a: Seq<char>, b: Seq<char>| #[trigger] (a + filtres + b) == name
}

/// The listing keeps, in order, exactly the names (paths without their first
/// two bytes) that hold the filter text: none that holds it is dropped and
/// none that lacks it is kept.
pub proof fn law_selection_keeps_exactly_the_matches(paths: Seq<Seq<char>>, filtres: Seq<char>)
    ensures
        selected(paths, filtres) == paths.map_values(|p: Seq<char>| stripped(p)).filter(
            |n: Seq<char>| holds_text(n, filtres),
        ),
    decreases paths.len(),
{
    let names = paths.map_values(|p: Seq<char>| stripped(p));
    let pred = |n: Seq<char>| holds_text(n, filtres);
    reveal_with_fuel(Seq::filter, 1);
    if paths.len() == 0 {
        assert(names =~= Seq::<Seq<char>>::empty());
    } else {
        law_selection_keeps_exactly_the_matches(paths.drop_last(), filtres);
        law_filter_is_substring(stripped(paths.last()), filtres);
        assert(names.drop_last() =~= paths.drop_last().map_values(|p: Seq<char>| stripped(p)));
        assert(names.last() == stripped(paths.last()));
    }
}

/// Each field of a column gets its own column kind: target names, names,
/// time, size, permissions, owner, file type and preview, with names and
/// sizes of directories kinds apart from those of files. Distinct fields get
/// distinct kinds, a field that names a column never gets the default kind,
/// and a field that names no column always does.
pub proof fn law_column_kinds(ftype: u8, field: u8, other: u8)
    ensures
        spec_coldef(ftype, FIELDNAME_TARGETNAME) == COLDEF_TARGETNAME,
        spec_coldef(FTYPE_DIR, FIELDNAME_SRCNAME) == COLDEF_SRCNAME_DIR,
        spec_coldef(FTYPE_FILE, FIELDNAME_SRCNAME) == COLDEF_SRCNAME_FILE,
        spec_coldef(ftype, FIELDNAME_TIMEISO) == COLDEF_TIME,
        spec_coldef(FTYPE_DIR, FIELDNAME_SIZE) == COLDEF_SIZE_FILECOUNT,
        spec_coldef(FTYPE_FILE, FIELDNAME_SIZE) == COLDEF_SIZE_BYTES,
        spec_coldef(ftype, FIELDNAME_ACLS) == COLDEF_ACLS,
        spec_coldef(ftype, FIELDNAME_OWNER) == COLDEF_OWNER,
        spec_coldef(ftype, FIELDNAME_FILETYPE) == COLDEF_FILETYPE,
        spec_coldef(ftype, FIELDNAME_PREVIEW) == COLDEF_PREVIEW,
        is_field(field) ==> spec_coldef(ftype, field) != COLDEF_DEFAULT,
        !is_field(field) ==> spec_coldef(ftype, field) == COLDEF_DEFAULT,
        is_field(field) && is_field(other) && field != other ==> spec_coldef(ftype, field)
            != spec_coldef(ftype, other),
        (spec_coldef(FTYPE_DIR, field) != spec_coldef(FTYPE_FILE, field)) <==> (field
            == FIELDNAME_SRCNAME || field == FIELDNAME_SIZE),
{
}

/// Each column kind has the colour of the same name: target names light
/// cyan, directory names light red, file names light green, time blue,
/// directory sizes magenta, file sizes green, permissions, owner, file type
/// and preview dark gray, the default light magenta; the plain size kind has
/// none. So directory names are coloured apart from file names, and names,
/// time and sizes apart from one another and from the gray columns.
pub proof fn law_kind_colours(coldef: u8, other: u8)
    ensures
        spec_colorval(COLDEF_TARGETNAME) == Some(CLRID_LIGHT_CYAN),
        spec_colorval(COLDEF_SRCNAME_DIR) == Some(CLRID_LIGHT_RED),
        spec_colorval(COLDEF_SRCNAME_FILE) == Some(CLRID_LIGHT_GREEN),
        spec_colorval(COLDEF_TIME) == Some(CLRID_BLUE),
        spec_colorval(COLDEF_SIZE_FILECOUNT) == Some(CLRID_MAGENTA),
        spec_colorval(COLDEF_SIZE_BYTES) == Some(CLRID_GREEN),
        spec_colorval(COLDEF_ACLS) == Some(CLRID_DARK_GRAY),
        spec_colorval(COLDEF_OWNER) == Some(CLRID_DARK_GRAY),
        spec_colorval(COLDEF_FILETYPE) == Some(CLRID_DARK_GRAY),
        spec_colorval(COLDEF_PREVIEW) == Some(CLRID_DARK_GRAY),
        spec_colorval(COLDEF_DEFAULT) == Some(CLRID_LIGHT_MAGENTA),
        spec_colorval(COLDEF_SIZE) is None,
        spec_colorval(coldef) is Some <==> (coldef <= COLDEF_DEFAULT && coldef != COLDEF_SIZE),
        spec_colorval(COLDEF_SRCNAME_DIR) != spec_colorval(COLDEF_SRCNAME_FILE),
        coldef <= COLDEF_SIZE_BYTES && other <= COLDEF_SIZE_BYTES && coldef != other
            ==> spec_colorval(coldef) != spec_colorval(other),
{
}

/// Each colour number gets the escape sequence of the colour of the same
/// name: a NUL, `33[`, the colour's code and `m` (light blue is written with
/// red's code); colouring ends with the code 0.
pub proof fn law_colour_codes()
    ensures
        spec_color_code(CLRID_RED) == Some(seq!['\0', '3', '3', '[', '3', '1', 'm']),
        spec_color_code(CLRID_MAGENTA) == Some(seq!['\0', '3', '3', '[', '3', '5', 'm']),
        spec_color_code(CLRID_LIGHT_MAGENTA) == Some(seq!['\0', '3', '3', '[', '9', '5', 'm']),
        spec_color_code(CLRID_GREEN) == Some(seq!['\0', '3', '3', '[', '3', '2', 'm']),
        spec_color_code(CLRID_LIGHT_GREEN) == Some(seq!['\0', '3', '3', '[', '9', '2', 'm']),
        spec_color_code(CLRID_LIGHT_CYAN) == Some(seq!['\0', '3', '3', '[', '9', '6', 'm']),
        spec_color_code(CLRID_LIGHT_YELLOW) == Some(seq!['\0', '3', '3', '[', '9', '3', 'm']),
        spec_color_code(CLRID_LIGHT_GRAY) == Some(seq!['\0', '3', '3', '[', '3', '7', 'm']),
        spec_color_code(CLRID_DARK_GRAY) == Some(seq!['\0', '3', '3', '[', '3', '0', 'm']),
        spec_color_code(CLRID_LIGHT_RED) == Some(seq!['\0', '3', '3', '[', '9', '1', 'm']),
        spec_color_code(CLRID_LIGHT_BLUE) == Some(seq!['\0', '3', '3', '[', '3', '1', 'm']),
        spec_color_code(CLRID_BLUE) == Some(seq!['\0', '3', '3', '[', '3', '4', 'm']),
        CLR_END@ == seq!['\0', '3', '3', '[', '0', 'm'],
        forall|clr: u8| #[trigger] spec_color_code(clr) is Some <==> clr <= CLRID_BLUE,
{
    reveal_strlit("\033[31m");
    reveal_strlit("\033[35m");
    reveal_strlit("\033[95m");
    reveal_strlit("\033[32m");
    reveal_strlit("\033[92m");
    reveal_strlit("\033[96m");
    reveal_strlit("\033[93m");
    reveal_strlit("\033[37m");
    reveal_strlit("\033[30m");
    reveal_strlit("\033[91m");
    reveal_strlit("\033[34m");
    reveal_strlit("\033[0m");
}

/// The rendered listing of `n` rows is `n` lines of `TEST`: every fifth
/// character, and no other, is a newline, there is none at the end, and the
/// other characters spell `TEST` over and over.
pub proof fn law_rendered_lines(n: nat)
    ensures
        n == 0 ==> spec_rendered(n).len() == 0,
        n >= 1 ==> spec_rendered(n).len() == 5 * n - 1,
        forall|i: int|
            0 <= i < spec_rendered(n).len() ==> #[trigger] spec_rendered(n)[i] == if i % 5 == 4 {
                '\n'
            } else {
                seq!['T', 'E', 'S', 'T'][i % 5]
            },
    decreases n,
{
    reveal_strlit("TEST");
    reveal_strlit("\n");
    let lines = Seq::new(n, |i: int| "TEST"@);
    if n == 0 {
        assert(lines.len() == 0);
    } else if n == 1 {
        assert(spec_rendered(n) == lines[0]);
    } else {
        law_rendered_lines((n - 1) as nat);
        let prev = Seq::new((n - 1) as nat, |i: int| "TEST"@);
        assert(lines.drop_last() =~= prev);
        assert(spec_rendered(n) == spec_rendered((n - 1) as nat) + "\n"@ + "TEST"@);
        let r = spec_rendered(n);
        let p = spec_rendered((n - 1) as nat);
        assert forall|i: int| 0 <= i < r.len() implies #[trigger] r[i] == if i % 5 == 4 {
            '\n'
        } else {
            seq!['T', 'E', 'S', 'T'][i % 5]
        } by {
            if i < p.len() {
                assert(r[i] == p[i]);
            } else if i == p.len() {
                assert(r[i] == '\n');
            } else {
                assert(r[i] == "TEST"@[i - p.len() - 1]);
                assert(i % 5 == i - p.len() - 1);
            }
        }
    }
}

/// The full listing shows every field once, in field order; the short one
/// shows the four fields from the size to the target name, in that order.
pub proof fn law_listing_order()
    ensures
        spec_colslisting(true).len() == 8,
        forall|i: int| 0 <= i < 8 ==> #[trigger] spec_colslisting(true)[i] == i,
        spec_colslisting(false).len() == 4,
        forall|i: int| 0 <= i < 4 ==> #[trigger] spec_colslisting(false)[i] == i + FIELDNAME_SIZE,
{
}

/// The permission column reads back as the entry's mode, and every other
/// column holds its own name in capitals, whatever the entry.
pub proof fn law_column_texts(info: RowInfo)
    ensures
        decimal_value(column_text(ColumnFn::Acls, info)) == info.mode,
        column_text(ColumnFn::Owner, info) == seq!['O', 'W', 'N', 'E', 'R'],
        column_text(ColumnFn::Filetype, info) == seq!['F', 'I', 'L', 'E', 'T', 'Y', 'P', 'E'],
        column_text(ColumnFn::Size, info) == seq!['S', 'I', 'Z', 'E'],
        column_text(ColumnFn::Timeiso, info) == seq!['T', 'I', 'M', 'E', 'I', 'S', 'O'],
        column_text(ColumnFn::Srcname, info) == seq!['S', 'R', 'C', 'N', 'A', 'M', 'E'],
        column_text(ColumnFn::Targetname, info) == seq![
            'T', 'A', 'R', 'G', 'E', 'T', 'N', 'A', 'M', 'E',
        ],
        column_text(ColumnFn::Preview, info) == seq!['P', 'R', 'E', 'V', 'I', 'E', 'W'],
{
    law_decimal_reads_back(info.mode as nat);
    reveal_strlit("OWNER");
    reveal_strlit("FILETYPE");
    reveal_strlit("SIZE");
    reveal_strlit("TIMEISO");
    reveal_strlit("SRCNAME");
    reveal_strlit("TARGETNAME");
    reveal_strlit("PREVIEW");
}

} // verus!
