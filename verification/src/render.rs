use vstd::prelude::*;

use crate::consts::{
    is_field, CLRID_BLUE, CLRID_DARK_GRAY, CLRID_GREEN, CLRID_LIGHT_BLUE, CLRID_LIGHT_CYAN,
    CLRID_LIGHT_GRAY, CLRID_LIGHT_GREEN, CLRID_LIGHT_MAGENTA, CLRID_LIGHT_RED, CLRID_LIGHT_YELLOW,
    CLRID_MAGENTA, CLRID_RED, CLRVAL_ACLS, CLRVAL_DEFAULT, CLRVAL_FILETYPE, CLRVAL_OWNER,
    CLRVAL_PREVIEW, CLRVAL_SIZE_BYTES, CLRVAL_SIZE_FILECOUNT, CLRVAL_SRCNAME_DIR,
    CLRVAL_SRCNAME_FILE, CLRVAL_TARGETNAME, CLRVAL_TIME, COLDEF_ACLS, COLDEF_DEFAULT,
    COLDEF_FILETYPE, COLDEF_OWNER, COLDEF_PREVIEW, COLDEF_SIZE_BYTES, COLDEF_SIZE_FILECOUNT,
    COLDEF_SRCNAME_DIR, COLDEF_SRCNAME_FILE, COLDEF_TARGETNAME, COLDEF_TIME, FIELDNAME_ACLS,
    FIELDNAME_FILETYPE, FIELDNAME_OWNER, FIELDNAME_PREVIEW, FIELDNAME_SIZE, FIELDNAME_SRCNAME,
    FIELDNAME_TARGETNAME, FIELDNAME_TIMEISO, FTYPE_DIR,
};
use crate::error::LsError;
use crate::padding::{addpadding, getcolpaddings, padded, RowPadding};
use crate::rows::{get_field_from_fdefs, get_rowrenderedfield, getrowdefs, AllRowDefs, Row};

verus! {

/// Terminal escape sequences of the colours, as the listing writes them.
pub const CLR_RED: &'static str = "\033[31m";
pub const CLR_MAGENTA: &'static str = "\033[35m";
pub const CLR_LIGHT_MAGENTA: &'static str = "\033[95m";
pub const CLR_GREEN: &'static str = "\033[32m";
pub const CLR_LIGHT_GREEN: &'static str = "\033[92m";
pub const CLR_LIGHT_CYAN: &'static str = "\033[96m";
pub const CLR_LIGHT_YELLOW: &'static str = "\033[93m";
pub const CLR_LIGHT_GRAY: &'static str = "\033[37m";
pub const CLR_DARK_GRAY: &'static str = "\033[30m";
pub const CLR_LIGHT_RED: &'static str = "\033[91m";
pub const CLR_LIGHT_BLUE: &'static str = "\033[31m";
pub const CLR_BLUE: &'static str = "\033[34m";
pub const CLR_END: &'static str = "\033[0m";

/// The fields that a listing shows, in order: the full listing shows every
/// column, the short one only size, time and the two names.
pub open spec fn spec_colslisting(full: bool) -> Seq<u8> {
    if full {
        seq![
            FIELDNAME_ACLS,
            FIELDNAME_OWNER,
            FIELDNAME_FILETYPE,
            FIELDNAME_SIZE,
            FIELDNAME_TIMEISO,
            FIELDNAME_SRCNAME,
            FIELDNAME_TARGETNAME,
            FIELDNAME_PREVIEW,
        ]
    } else {
        seq![FIELDNAME_SIZE, FIELDNAME_TIMEISO, FIELDNAME_SRCNAME, FIELDNAME_TARGETNAME]
    }
}

/// The fields that a listing shows, in order.
pub fn getcolslisting(full: bool) -> (r: Result<Vec<u8>, LsError>)
    ensures
        r matches Ok(v) && v@ == spec_colslisting(full),
{
    let mut out: Vec<u8> = Vec::new();
    if full {
        out.push(FIELDNAME_ACLS);
        out.push(FIELDNAME_OWNER);
        out.push(FIELDNAME_FILETYPE);
    }
    out.push(FIELDNAME_SIZE);
    out.push(FIELDNAME_TIMEISO);
    out.push(FIELDNAME_SRCNAME);
    out.push(FIELDNAME_TARGETNAME);
    if full {
        out.push(FIELDNAME_PREVIEW);
    }
    assert(out@ == spec_colslisting(full));
    Ok(out)
}

/// The column kind of the field `field` of an entry of file type `ftype`:
/// names and sizes of directories differ from those of files; a field that
/// names no column is of the default kind.
pub open spec fn spec_coldef(ftype: u8, field: u8) -> u8 {
    if field == FIELDNAME_TARGETNAME {
        COLDEF_TARGETNAME
    } else if field == FIELDNAME_SRCNAME {
        if ftype == FTYPE_DIR {
            COLDEF_SRCNAME_DIR
        } else {
            COLDEF_SRCNAME_FILE
        }
    } else if field == FIELDNAME_TIMEISO {
        COLDEF_TIME
    } else if field == FIELDNAME_SIZE {
        if ftype == FTYPE_DIR {
            COLDEF_SIZE_FILECOUNT
        } else {
            COLDEF_SIZE_BYTES
        }
    } else if field == FIELDNAME_ACLS {
        COLDEF_ACLS
    } else if field == FIELDNAME_OWNER {
        COLDEF_OWNER
    } else if field == FIELDNAME_FILETYPE {
        COLDEF_FILETYPE
    } else if field == FIELDNAME_PREVIEW {
        COLDEF_PREVIEW
    } else {
        COLDEF_DEFAULT
    }
}

/// The column kind of the field `field` of `row`.
pub fn getcolefs(row: &Row, field: u8) -> (r: Result<u8, LsError>)
    ensures
        r == Ok::<u8, LsError>(spec_coldef(row.info.ftype, field)),
{
    let col: u8 = if field == FIELDNAME_TARGETNAME {
        COLDEF_TARGETNAME
    } else if field == FIELDNAME_SRCNAME {
        if row.info.ftype == FTYPE_DIR {
            COLDEF_SRCNAME_DIR
        } else {
            COLDEF_SRCNAME_FILE
        }
    } else if field == FIELDNAME_TIMEISO {
        COLDEF_TIME
    } else if field == FIELDNAME_SIZE {
        if row.info.ftype == FTYPE_DIR {
            COLDEF_SIZE_FILECOUNT
        } else {
            COLDEF_SIZE_BYTES
        }
    } else if field == FIELDNAME_ACLS {
        COLDEF_ACLS
    } else if field == FIELDNAME_OWNER {
        COLDEF_OWNER
    } else if field == FIELDNAME_FILETYPE {
        COLDEF_FILETYPE
    } else if field == FIELDNAME_PREVIEW {
        COLDEF_PREVIEW
    } else {
        COLDEF_DEFAULT
    };
    Ok(col)
}

/// The colour of a column kind; `None` for a kind that has no colour.
pub open spec fn spec_colorval(coldef: u8) -> Option<u8> {
    if coldef == COLDEF_TARGETNAME {
        Some(CLRVAL_TARGETNAME)
    } else if coldef == COLDEF_SRCNAME_DIR {
        Some(CLRVAL_SRCNAME_DIR)
    } else if coldef == COLDEF_SRCNAME_FILE {
        Some(CLRVAL_SRCNAME_FILE)
    } else if coldef == COLDEF_TIME {
        Some(CLRVAL_TIME)
    } else if coldef == COLDEF_SIZE_FILECOUNT {
        Some(CLRVAL_SIZE_FILECOUNT)
    } else if coldef == COLDEF_SIZE_BYTES {
        Some(CLRVAL_SIZE_BYTES)
    } else if coldef == COLDEF_ACLS {
        Some(CLRVAL_ACLS)
    } else if coldef == COLDEF_OWNER {
        Some(CLRVAL_OWNER)
    } else if coldef == COLDEF_FILETYPE {
        Some(CLRVAL_FILETYPE)
    } else if coldef == COLDEF_PREVIEW {
        Some(CLRVAL_PREVIEW)
    } else if coldef == COLDEF_DEFAULT {
        Some(CLRVAL_DEFAULT)
    } else {
        None
    }
}

/// The colour of a column kind; `BadColdef` for a kind that has no colour.
pub fn getcolorval(coldef: u8) -> (r: Result<u8, LsError>)
    ensures
        spec_colorval(coldef) matches Some(c) ==> r == Ok::<u8, LsError>(c),
        spec_colorval(coldef) is None ==> r == Err::<u8, LsError>(LsError::BadColdef),
{
    if coldef == COLDEF_TARGETNAME {
        Ok(CLRVAL_TARGETNAME)
    } else if coldef == COLDEF_SRCNAME_DIR {
        Ok(CLRVAL_SRCNAME_DIR)
    } else if coldef == COLDEF_SRCNAME_FILE {
        Ok(CLRVAL_SRCNAME_FILE)
    } else if coldef == COLDEF_TIME {
        Ok(CLRVAL_TIME)
    } else if coldef == COLDEF_SIZE_FILECOUNT {
        Ok(CLRVAL_SIZE_FILECOUNT)
    } else if coldef == COLDEF_SIZE_BYTES {
        Ok(CLRVAL_SIZE_BYTES)
    } else if coldef == COLDEF_ACLS {
        Ok(CLRVAL_ACLS)
    } else if coldef == COLDEF_OWNER {
        Ok(CLRVAL_OWNER)
    } else if coldef == COLDEF_FILETYPE {
        Ok(CLRVAL_FILETYPE)
    } else if coldef == COLDEF_PREVIEW {
        Ok(CLRVAL_PREVIEW)
    } else if coldef == COLDEF_DEFAULT {
        Ok(CLRVAL_DEFAULT)
    } else {
        Err(LsError::BadColdef)
    }
}

/// The escape sequence of a colour; `None` for a number that names no colour.
pub open spec fn spec_color_code(clr: u8) -> Option<Seq<char>> {
    if clr == CLRID_RED {
        Some(CLR_RED@)
    } else if clr == CLRID_MAGENTA {
        Some(CLR_MAGENTA@)
    } else if clr == CLRID_LIGHT_MAGENTA {
        Some(CLR_LIGHT_MAGENTA@)
    } else if clr == CLRID_GREEN {
        Some(CLR_GREEN@)
    } else if clr == CLRID_LIGHT_GREEN {
        Some(CLR_LIGHT_GREEN@)
    } else if clr == CLRID_LIGHT_CYAN {
        Some(CLR_LIGHT_CYAN@)
    } else if clr == CLRID_LIGHT_YELLOW {
        Some(CLR_LIGHT_YELLOW@)
    } else if clr == CLRID_LIGHT_GRAY {
        Some(CLR_LIGHT_GRAY@)
    } else if clr == CLRID_DARK_GRAY {
        Some(CLR_DARK_GRAY@)
    } else if clr == CLRID_LIGHT_RED {
        Some(CLR_LIGHT_RED@)
    } else if clr == CLRID_LIGHT_BLUE {
        Some(CLR_LIGHT_BLUE@)
    } else if clr == CLRID_BLUE {
        Some(CLR_BLUE@)
    } else {
        None
    }
}

/// The escape sequence of a colour; `None` for a number that names no colour.
pub fn color_code(clr: u8) -> (r: Option<&'static str>)
    ensures
        spec_color_code(clr) matches Some(c) ==> (r matches Some(s) && s@ == c),
        spec_color_code(clr) is None ==> r is None,
{
    if clr == CLRID_RED {
        Some(CLR_RED)
    } else if clr == CLRID_MAGENTA {
        Some(CLR_MAGENTA)
    } else if clr == CLRID_LIGHT_MAGENTA {
        Some(CLR_LIGHT_MAGENTA)
    } else if clr == CLRID_GREEN {
        Some(CLR_GREEN)
    } else if clr == CLRID_LIGHT_GREEN {
        Some(CLR_LIGHT_GREEN)
    } else if clr == CLRID_LIGHT_CYAN {
        Some(CLR_LIGHT_CYAN)
    } else if clr == CLRID_LIGHT_YELLOW {
        Some(CLR_LIGHT_YELLOW)
    } else if clr == CLRID_LIGHT_GRAY {
        Some(CLR_LIGHT_GRAY)
    } else if clr == CLRID_DARK_GRAY {
        Some(CLR_DARK_GRAY)
    } else if clr == CLRID_LIGHT_RED {
        Some(CLR_LIGHT_RED)
    } else if clr == CLRID_LIGHT_BLUE {
        Some(CLR_LIGHT_BLUE)
    } else if clr == CLRID_BLUE {
        Some(CLR_BLUE)
    } else {
        None
    }
}

/// `val` in the colour `clr`: the colour's escape sequence, the text, and the
/// sequence that ends colouring; a number that names no colour leaves the
/// text as it is.
pub open spec fn colored(val: Seq<char>, clr: u8) -> Seq<char> {
    match spec_color_code(clr) {
        Some(code) => code + val + CLR_END@,
        None => val,
    }
}

/// Colours the text `val` with the colour `clr`.
pub fn addcolor(val: &String, clr: u8) -> (r: String)
    ensures
        r@ == colored(val@, clr),
{
    match color_code(clr) {
        Some(code) => {
            let mut out = code.to_string();
            out.append(val.as_str());
            out.append(CLR_END);
            out
        },
        None => val.clone(),
    }
}

/// The cell of the field `field` of `row`: its text padded to the column's
/// width and aligned as the column's definition says, in the colour of its
/// column kind.
pub open spec fn spec_pretty(row: Row, field: u8, colpaddings: RowPadding, fdefs: AllRowDefs) -> Seq<
    char,
> {
    colored(
        padded(row.render.field(field), colpaddings.pad(field) as nat, fdefs.slot(field).align),
        spec_colorval(spec_coldef(row.info.ftype, field))->Some_0,
    )
}

/// The cell of the field `field` of `row`.
pub fn makepretty(row: &Row, field: u8, colpaddings: &RowPadding, fdefs: &AllRowDefs) -> (r:
    String)
    requires
        is_field(field),
    ensures
        r@ == spec_pretty(*row, field, *colpaddings, *fdefs),
{
    let fdef_field = get_field_from_fdefs(field, fdefs).unwrap();
    let align: u8 = fdef_field.align;
    let col: u8 = getcolefs(row, field).unwrap();
    let clrval: u8 = getcolorval(col).unwrap();
    let textval: &String = get_rowrenderedfield(&row.render, field).unwrap();
    let paddedval: String = addpadding(field, textval, colpaddings, align).unwrap();
    addcolor(&paddedval, clrval)
}

/// The cells of `row` that the listing shows, in order.
pub fn structurecols(row: &Row, colpaddings: &RowPadding, fdefs: &AllRowDefs, full: bool) -> (r:
    Vec<String>)
    ensures
        r@.len() == spec_colslisting(full).len(),
        forall|i: int|
            0 <= i < r@.len() ==> (#[trigger] r@[i])@ == spec_pretty(
                *row,
                spec_colslisting(full)[i],
                *colpaddings,
                *fdefs,
            ),
{
    let colslisting: Vec<u8> = getcolslisting(full).unwrap();
    let mut ret: Vec<String> = Vec::new();
    let mut i: usize = 0;
    while i < colslisting.len()
        invariant
            colslisting@ == spec_colslisting(full),
            i <= colslisting@.len(),
            ret@.len() == i,
            forall|j: int|
                0 <= j < i ==> (#[trigger] ret@[j])@ == spec_pretty(
                    *row,
                    spec_colslisting(full)[j],
                    *colpaddings,
                    *fdefs,
                ),
        decreases colslisting@.len() - i,
    {
        let name: u8 = colslisting[i];
        assert(is_field(name));
        ret.push(makepretty(row, name, colpaddings, fdefs));
        i = i + 1;
    }
    ret
}

/// Renders one row of the listing. The cells are worked out, but the line
/// that comes out is the placeholder `TEST`.
pub fn rendercols(row: &Row, colpaddings: &RowPadding, fdefs: &AllRowDefs, full: bool) -> (r:
    Result<String, LsError>)
    ensures
        r matches Ok(s) && s@ == "TEST"@,
{
    let _structcols = structurecols(row, colpaddings, fdefs, full);
    Ok("TEST".to_string())
}

/// `lines` joined with newlines between them.
pub open spec fn join_lines(lines: Seq<Seq<char>>) -> Seq<char>
    decreases lines.len(),
{
    if lines.len() == 0 {
        seq![]
    } else if lines.len() == 1 {
        lines[0]
    } else {
        join_lines(lines.drop_last()) + "\n"@ + lines.last()
    }
}

/// The rendered listing of `n` rows: one line per row.
pub open spec fn spec_rendered(n: nat) -> Seq<char> {
    join_lines(Seq::new(n, |i: int| "TEST"@))
}

/// Renders the rows of a listing, one line per row, joined with newlines.
pub fn renderrows(files: Vec<Row>, full: bool) -> (r: Result<String, LsError>)
    ensures
        r matches Ok(s) && s@ == spec_rendered(files@.len()),
{
    let colpaddings: RowPadding = getcolpaddings(&files).unwrap();
    let fdefs: AllRowDefs = match getrowdefs() {
        Ok(v) => v,
        Err(e) => return Err(e),
    };
    let ghost lines: Seq<Seq<char>> = Seq::new(files@.len(), |i: int| "TEST"@);
    let mut out = String::new();
    let mut i: usize = 0;
    while i < files.len()
        invariant
            i <= files@.len(),
            lines == Seq::new(files@.len(), |k: int| "TEST"@),
            out@ == join_lines(lines.take(i as int)),
        decreases files@.len() - i,
    {
        let line = rendercols(&files[i], &colpaddings, &fdefs, full).unwrap();
        proof {
            assert(lines.take(i + 1).drop_last() == lines.take(i as int));
            assert(lines.take(i + 1).last() == line@);
        }
        if i > 0 {
            out.append("\n");
        } else {
            assert(lines.take(1) == seq![line@]);
        }
        out.append(line.as_str());
        i = i + 1;
    }
    assert(lines.take(files@.len() as int) == lines);
    Ok(out)
}

} // verus!
