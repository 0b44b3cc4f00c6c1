use vstd::prelude::*;

verus! {

/// Cells are padded on the right (text on the left).
pub const ROWDEF_ALIGN_LEFT: u8 = 0;
/// Cells are padded on the left (text on the right).
pub const ROWDEF_ALIGN_RIGHT: u8 = 1;

pub const FTYPE_DIR: u8 = 0;
pub const FTYPE_FILE: u8 = 1;

pub const CONTYPE_DIR: u8 = 0;
pub const CONTYPE_UNREADABLE: u8 = 1;
pub const CONTYPE_EMPTY: u8 = 2;
pub const CONTYPE_BINEXEC: u8 = 3;
pub const CONTYPE_BINOTHER: u8 = 4;
pub const CONTYPE_TEXT: u8 = 5;
pub const CONTYPE_OTHER: u8 = 6;

/// Column kinds, which decide the colour of a cell.
pub const COLDEF_TARGETNAME: u8 = 0;
pub const COLDEF_SRCNAME_DIR: u8 = 1;
pub const COLDEF_SRCNAME_FILE: u8 = 2;
pub const COLDEF_TIME: u8 = 3;
pub const COLDEF_SIZE_FILECOUNT: u8 = 4;
pub const COLDEF_SIZE_BYTES: u8 = 5;
pub const COLDEF_ACLS: u8 = 6;
pub const COLDEF_OWNER: u8 = 7;
pub const COLDEF_SIZE: u8 = 8;
pub const COLDEF_FILETYPE: u8 = 9;
pub const COLDEF_PREVIEW: u8 = 10;
pub const COLDEF_DEFAULT: u8 = 11;

/// Field numbers: one per column of a row.
pub const FIELDNAME_ACLS: u8 = 0;
pub const FIELDNAME_OWNER: u8 = 1;
pub const FIELDNAME_FILETYPE: u8 = 2;
pub const FIELDNAME_SIZE: u8 = 3;
pub const FIELDNAME_TIMEISO: u8 = 4;
pub const FIELDNAME_SRCNAME: u8 = 5;
pub const FIELDNAME_TARGETNAME: u8 = 6;
pub const FIELDNAME_PREVIEW: u8 = 7;

/// Colour numbers.
pub const CLRID_RED: u8 = 0;
pub const CLRID_MAGENTA: u8 = 1;
pub const CLRID_LIGHT_MAGENTA: u8 = 2;
pub const CLRID_GREEN: u8 = 3;
pub const CLRID_LIGHT_GREEN: u8 = 4;
pub const CLRID_LIGHT_CYAN: u8 = 5;
pub const CLRID_LIGHT_YELLOW: u8 = 6;
pub const CLRID_LIGHT_GRAY: u8 = 7;
pub const CLRID_DARK_GRAY: u8 = 8;
pub const CLRID_LIGHT_RED: u8 = 9;
pub const CLRID_LIGHT_BLUE: u8 = 10;
pub const CLRID_BLUE: u8 = 11;

/// The colour of each column kind.
pub const CLRVAL_TARGETNAME: u8 = CLRID_LIGHT_CYAN;
pub const CLRVAL_SRCNAME_DIR: u8 = CLRID_LIGHT_RED;
pub const CLRVAL_SRCNAME_FILE: u8 = CLRID_LIGHT_GREEN;
pub const CLRVAL_TIME: u8 = CLRID_BLUE;
pub const CLRVAL_SIZE_FILECOUNT: u8 = CLRID_MAGENTA;
pub const CLRVAL_SIZE_BYTES: u8 = CLRID_GREEN;
pub const CLRVAL_ACLS: u8 = CLRID_DARK_GRAY;
pub const CLRVAL_OWNER: u8 = CLRID_DARK_GRAY;
pub const CLRVAL_FILETYPE: u8 = CLRID_DARK_GRAY;
pub const CLRVAL_PREVIEW: u8 = CLRID_DARK_GRAY;
pub const CLRVAL_DEFAULT: u8 = CLRID_LIGHT_MAGENTA;

/// A field number names a column.
pub open spec fn is_field(field: u8) -> bool {
    field <= FIELDNAME_PREVIEW
}

/// A field that names a column is one of the eight field numbers.
pub proof fn lemma_field_cases(field: u8)
    requires
        is_field(field),
    ensures
        field == FIELDNAME_ACLS || field == FIELDNAME_OWNER || field == FIELDNAME_FILETYPE || field
            == FIELDNAME_SIZE || field == FIELDNAME_TIMEISO || field == FIELDNAME_SRCNAME || field
            == FIELDNAME_TARGETNAME || field == FIELDNAME_PREVIEW,
{
}

} // verus!
