use vstd::prelude::*;

use crate::consts::{lemma_field_cases, CONTYPE_DIR, FTYPE_DIR, FIELDNAME_ACLS, FIELDNAME_FILETYPE, FIELDNAME_OWNER, FIELDNAME_PREVIEW, FIELDNAME_SIZE, FIELDNAME_SRCNAME, FIELDNAME_TARGETNAME, FIELDNAME_TIMEISO, ROWDEF_ALIGN_LEFT, is_field};
use crate::error::LsError;
use crate::text::{decimal, u32_to_decimal};

verus! {

/// What the listing knows of one directory entry.
pub struct RowInfo {
    /// The entry's name, as listed.
    pub fname: String,
    /// The entry's permission bits and file type, as `stat` gives them.
    pub mode: u32,
    /// One of the `FTYPE_` numbers.
    pub ftype: u8,
    /// One of the `CONTYPE_` numbers.
    pub contenttype: u8,
}

/// The text of each column of one row.
pub struct RowRendered {
    pub acls: String,
    pub owner: String,
    pub filetype: String,
    pub size: String,
    pub timeiso: String,
    pub srcname: String,
    pub targetname: String,
    pub preview: String,
}

/// The column functions, one per column: which text a column gets.
#[derive(Debug, Clone, Copy, PartialEq, Eq, Structural)]
pub enum ColumnFn {
    Acls,
    Owner,
    Filetype,
    Size,
    Timeiso,
    Srcname,
    Targetname,
    Preview,
}

/// How a column is rendered: the field it shows, whether only the full
/// listing shows it, how its cells are aligned, and the column function that
/// gives its text.
#[derive(Debug, Clone, Copy, PartialEq, Eq, Structural)]
pub struct RowDef {
    pub name: u8,
    pub onlyfull: bool,
    pub align: u8,
    pub func: ColumnFn,
}

/// The definition of every column.
#[derive(Debug, Clone, Copy, PartialEq, Eq, Structural)]
pub struct AllRowDefs {
    pub acls: RowDef,
    pub owner: RowDef,
    pub filetype: RowDef,
    pub size: RowDef,
    pub timeiso: RowDef,
    pub srcname: RowDef,
    pub targetname: RowDef,
    pub preview: RowDef,
}

/// One entry of the listing: what is known of it and its rendered columns.
pub struct Row {
    pub info: RowInfo,
    pub render: RowRendered,
}

/// The text that the column function `func` gives an entry.
pub open spec fn column_text(func: ColumnFn, info: RowInfo) -> Seq<char> {
    match func {
        ColumnFn::Acls => decimal(info.mode as nat),
        ColumnFn::Owner => "OWNER"@,
        ColumnFn::Filetype => "FILETYPE"@,
        ColumnFn::Size => "SIZE"@,
        ColumnFn::Timeiso => "TIMEISO"@,
        ColumnFn::Srcname => "SRCNAME"@,
        ColumnFn::Targetname => "TARGETNAME"@,
        ColumnFn::Preview => "PREVIEW"@,
    }
}

/// The definition of the column that shows `name` with the function `func`.
pub open spec fn spec_rowdef(name: u8, func: ColumnFn) -> RowDef {
    RowDef { name: name, onlyfull: true, align: ROWDEF_ALIGN_LEFT, func: func }
}

/// The column definitions of the listing.
pub open spec fn spec_rowdefs() -> AllRowDefs {
    AllRowDefs {
        acls: spec_rowdef(FIELDNAME_ACLS, ColumnFn::Acls),
        owner: spec_rowdef(FIELDNAME_OWNER, ColumnFn::Owner),
        filetype: spec_rowdef(FIELDNAME_FILETYPE, ColumnFn::Filetype),
        size: spec_rowdef(FIELDNAME_SIZE, ColumnFn::Size),
        timeiso: spec_rowdef(FIELDNAME_TIMEISO, ColumnFn::Timeiso),
        srcname: spec_rowdef(FIELDNAME_SRCNAME, ColumnFn::Srcname),
        targetname: spec_rowdef(FIELDNAME_TARGETNAME, ColumnFn::Targetname),
        preview: spec_rowdef(FIELDNAME_PREVIEW, ColumnFn::Preview),
    }
}

impl AllRowDefs {
    /// The definition held in the slot of `field`.
    pub open spec fn slot(self, field: u8) -> RowDef
        recommends
            is_field(field),
    {
        if field == FIELDNAME_ACLS {
            self.acls
        } else if field == FIELDNAME_OWNER {
            self.owner
        } else if field == FIELDNAME_FILETYPE {
            self.filetype
        } else if field == FIELDNAME_SIZE {
            self.size
        } else if field == FIELDNAME_TIMEISO {
            self.timeiso
        } else if field == FIELDNAME_SRCNAME {
            self.srcname
        } else if field == FIELDNAME_TARGETNAME {
            self.targetname
        } else {
            self.preview
        }
    }
}

impl RowRendered {
    /// The text of the column `field`.
    pub open spec fn field(self, field: u8) -> Seq<char>
        recommends
            is_field(field),
    {
        if field == FIELDNAME_ACLS {
            self.acls@
        } else if field == FIELDNAME_OWNER {
            self.owner@
        } else if field == FIELDNAME_FILETYPE {
            self.filetype@
        } else if field == FIELDNAME_SIZE {
            self.size@
        } else if field == FIELDNAME_TIMEISO {
            self.timeiso@
        } else if field == FIELDNAME_SRCNAME {
            self.srcname@
        } else if field == FIELDNAME_TARGETNAME {
            self.targetname@
        } else {
            self.preview@
        }
    }

    /// Each column holds the text that the column definitions give it.
    pub open spec fn renders(self, fdefs: AllRowDefs, info: RowInfo) -> bool {
        forall|f: u8| #[trigger] is_field(f) ==> self.field(f) == column_text(fdefs.slot(f).func, info)
    }

    /// The columns of the row, each with its field number, in field order.
    pub fn into_iter(&self) -> (r: Vec<(u8, &String)>)
        ensures
            r@.len() == 8,
            forall|i: int| 0 <= i < 8 ==> (#[trigger] r@[i]).0 == i && r@[i].1@ == self.field(i as u8),
    {
        let mut v: Vec<(u8, &String)> = Vec::new();
        v.push((FIELDNAME_ACLS, &self.acls));
        v.push((FIELDNAME_OWNER, &self.owner));
        v.push((FIELDNAME_FILETYPE, &self.filetype));
        v.push((FIELDNAME_SIZE, &self.size));
        v.push((FIELDNAME_TIMEISO, &self.timeiso));
        v.push((FIELDNAME_SRCNAME, &self.srcname));
        v.push((FIELDNAME_TARGETNAME, &self.targetname));
        v.push((FIELDNAME_PREVIEW, &self.preview));
        assert forall|i: int| 0 <= i < 8 implies (#[trigger] v@[i]).0 == i && v@[i].1@ == self.field(i as u8) by {
            lemma_field_cases(i as u8);
        }
        v
    }
}

/// The permission column: the entry's mode in decimal.
pub fn col_acls(rowinfo: &RowInfo) -> (r: Result<String, LsError>)
    ensures
        r matches Ok(s) && s@ == column_text(ColumnFn::Acls, *rowinfo),
{
    Ok(u32_to_decimal(rowinfo.mode))
}

/// The owner column.
pub fn col_owner(rowinfo: &RowInfo) -> (r: Result<String, LsError>)
    ensures
        r matches Ok(s) && s@ == column_text(ColumnFn::Owner, *rowinfo),
{
    Ok("OWNER".to_string())
}

/// The file type column.
pub fn col_filetype(rowinfo: &RowInfo) -> (r: Result<String, LsError>)
    ensures
        r matches Ok(s) && s@ == column_text(ColumnFn::Filetype, *rowinfo),
{
    Ok("FILETYPE".to_string())
}

/// The size column.
pub fn col_size(rowinfo: &RowInfo) -> (r: Result<String, LsError>)
    ensures
        r matches Ok(s) && s@ == column_text(ColumnFn::Size, *rowinfo),
{
    Ok("SIZE".to_string())
}

/// The time column.
pub fn col_timeiso(rowinfo: &RowInfo) -> (r: Result<String, LsError>)
    ensures
        r matches Ok(s) && s@ == column_text(ColumnFn::Timeiso, *rowinfo),
{
    Ok("TIMEISO".to_string())
}

/// The source name column.
pub fn col_srcname(rowinfo: &RowInfo) -> (r: Result<String, LsError>)
    ensures
        r matches Ok(s) && s@ == column_text(ColumnFn::Srcname, *rowinfo),
{
    Ok("SRCNAME".to_string())
}

/// The target name column.
pub fn col_targetname(rowinfo: &RowInfo) -> (r: Result<String, LsError>)
    ensures
        r matches Ok(s) && s@ == column_text(ColumnFn::Targetname, *rowinfo),
{
    Ok("TARGETNAME".to_string())
}

/// The preview column.
pub fn col_preview(rowinfo: &RowInfo) -> (r: Result<String, LsError>)
    ensures
        r matches Ok(s) && s@ == column_text(ColumnFn::Preview, *rowinfo),
{
    Ok("PREVIEW".to_string())
}

/// Renders the column that `def` defines: calls its column function.
pub fn render_column(def: &RowDef, rowinfo: &RowInfo) -> (r: Result<String, LsError>)
    ensures
        r matches Ok(s) && s@ == column_text(def.func, *rowinfo),
{
    match def.func {
        ColumnFn::Acls => col_acls(rowinfo),
        ColumnFn::Owner => col_owner(rowinfo),
        ColumnFn::Filetype => col_filetype(rowinfo),
        ColumnFn::Size => col_size(rowinfo),
        ColumnFn::Timeiso => col_timeiso(rowinfo),
        ColumnFn::Srcname => col_srcname(rowinfo),
        ColumnFn::Targetname => col_targetname(rowinfo),
        ColumnFn::Preview => col_preview(rowinfo),
    }
}

/// The column definitions of the listing: every column shows its own field,
/// only in the full listing, aligned left.
pub fn getrowdefs() -> (r: Result<AllRowDefs, LsError>)
    ensures
        r == Ok::<AllRowDefs, LsError>(spec_rowdefs()),
{
    let rowdefs = AllRowDefs {
        acls: RowDef {
            name: FIELDNAME_ACLS,
            onlyfull: true,
            align: ROWDEF_ALIGN_LEFT,
            func: ColumnFn::Acls,
        },
        owner: RowDef {
            name: FIELDNAME_OWNER,
            onlyfull: true,
            align: ROWDEF_ALIGN_LEFT,
            func: ColumnFn::Owner,
        },
        filetype: RowDef {
            name: FIELDNAME_FILETYPE,
            onlyfull: true,
            align: ROWDEF_ALIGN_LEFT,
            func: ColumnFn::Filetype,
        },
        size: RowDef {
            name: FIELDNAME_SIZE,
            onlyfull: true,
            align: ROWDEF_ALIGN_LEFT,
            func: ColumnFn::Size,
        },
        timeiso: RowDef {
            name: FIELDNAME_TIMEISO,
            onlyfull: true,
            align: ROWDEF_ALIGN_LEFT,
            func: ColumnFn::Timeiso,
        },
        srcname: RowDef {
            name: FIELDNAME_SRCNAME,
            onlyfull: true,
            align: ROWDEF_ALIGN_LEFT,
            func: ColumnFn::Srcname,
        },
        targetname: RowDef {
            name: FIELDNAME_TARGETNAME,
            onlyfull: true,
            align: ROWDEF_ALIGN_LEFT,
            func: ColumnFn::Targetname,
        },
        preview: RowDef {
            name: FIELDNAME_PREVIEW,
            onlyfull: true,
            align: ROWDEF_ALIGN_LEFT,
            func: ColumnFn::Preview,
        },
    };
    Ok(rowdefs)
}

/// What the listing knows of the entry `fname`, whose mode is `mode`: every
/// entry is taken for a directory.
pub fn getrowinfo(fname: String, mode: u32) -> (r: Result<RowInfo, LsError>)
    ensures
        r matches Ok(info) && info.fname == fname && info.mode == mode && info.ftype == FTYPE_DIR
            && info.contenttype == CONTYPE_DIR,
{
    let ret = RowInfo { fname: fname, mode: mode, ftype: FTYPE_DIR, contenttype: CONTYPE_DIR };
    Ok(ret)
}

/// Renders every column of an entry: each slot's column function gives the
/// text of that slot's column.
pub fn get_fileinfo_rendered(fdefs: &AllRowDefs, rowinfo: &RowInfo) -> (r: Result<
    RowRendered,
    LsError,
>)
    ensures
        r matches Ok(rr) && rr.renders(*fdefs, *rowinfo),
{
    let val_acls = match render_column(&fdefs.acls, rowinfo) {
        Ok(v) => v,
        Err(e) => return Err(e),
    };
    let val_owner = match render_column(&fdefs.owner, rowinfo) {
        Ok(v) => v,
        Err(e) => return Err(e),
    };
    let val_filetype = match render_column(&fdefs.filetype, rowinfo) {
        Ok(v) => v,
        Err(e) => return Err(e),
    };
    let val_size = match render_column(&fdefs.size, rowinfo) {
        Ok(v) => v,
        Err(e) => return Err(e),
    };
    let val_timeiso = match render_column(&fdefs.timeiso, rowinfo) {
        Ok(v) => v,
        Err(e) => return Err(e),
    };
    let val_srcname = match render_column(&fdefs.srcname, rowinfo) {
        Ok(v) => v,
        Err(e) => return Err(e),
    };
    let val_targetname = match render_column(&fdefs.targetname, rowinfo) {
        Ok(v) => v,
        Err(e) => return Err(e),
    };
    let val_preview = match render_column(&fdefs.preview, rowinfo) {
        Ok(v) => v,
        Err(e) => return Err(e),
    };
    let ret = RowRendered {
        acls: val_acls,
        owner: val_owner,
        filetype: val_filetype,
        size: val_size,
        timeiso: val_timeiso,
        srcname: val_srcname,
        targetname: val_targetname,
        preview: val_preview,
    };
    assert(ret.renders(*fdefs, *rowinfo)) by {
        assert forall|f: u8| #[trigger] is_field(f) implies ret.field(f) == column_text(
            fdefs.slot(f).func,
            *rowinfo,
        ) by {
            lemma_field_cases(f);
        }
    }
    Ok(ret)
}

/// Builds the row of the entry `fname`, whose mode is `mode`, with the column
/// definitions `fdefs`.
pub fn buildrow(fname: String, mode: u32, fdefs: &AllRowDefs, full: bool) -> (r: Result<
    Row,
    LsError,
>)
    ensures
        r matches Ok(row) && row.info.fname == fname && row.info.mode == mode && row.info.ftype
            == FTYPE_DIR && row.info.contenttype == CONTYPE_DIR && row.render.renders(*fdefs, row.info),
{
    let rowinfo = match getrowinfo(fname, mode) {
        Ok(v) => v,
        Err(e) => return Err(e),
    };
    let rowrender = match get_fileinfo_rendered(fdefs, &rowinfo) {
        Ok(v) => v,
        Err(e) => return Err(e),
    };
    Ok(Row { info: rowinfo, render: rowrender })
}

/// The row of the entry with name `fname` and mode `mode`, rendered with the
/// listing's column definitions.
pub open spec fn is_row_of(row: Row, fname: Seq<char>, mode: u32) -> bool {
    &&& row.info.fname@ == fname
    &&& row.info.mode == mode
    &&& row.info.ftype == FTYPE_DIR
    &&& row.info.contenttype == CONTYPE_DIR
    &&& row.render.renders(spec_rowdefs(), row.info)
}

/// Builds the rows of the entries `files`, each given by its name and mode,
/// in the same order.
pub fn processrows(files: Vec<(String, u32)>, full: bool) -> (r: Result<Vec<Row>, LsError>)
    ensures
        r matches Ok(rows) && rows@.len() == files@.len() && forall|i: int|
            0 <= i < files@.len() ==> is_row_of(#[trigger] rows@[i], files@[i].0@, files@[i].1),
{
    let fdefs = match getrowdefs() {
        Ok(v) => v,
        Err(e) => return Err(e),
    };
    let mut out: Vec<Row> = Vec::new();
    let mut i: usize = 0;
    while i < files.len()
        invariant
            i <= files@.len(),
            fdefs == spec_rowdefs(),
            out@.len() == i,
            forall|j: int| 0 <= j < i ==> is_row_of(#[trigger] out@[j], files@[j].0@, files@[j].1),
        decreases files@.len() - i,
    {
        let fname = files[i].0.clone();
        let row = match buildrow(fname, files[i].1, &fdefs, full) {
            Ok(v) => v,
            Err(e) => return Err(e),
        };
        out.push(row);
        i = i + 1;
    }
    Ok(out)
}

/// The definition of the column `field`; `BadFdef` where `field` names no
/// column.
pub fn get_field_from_fdefs(field: u8, fdefs: &AllRowDefs) -> (r: Result<&RowDef, LsError>)
    ensures
        is_field(field) ==> r == Ok::<&RowDef, LsError>(&fdefs.slot(field)),
        !is_field(field) ==> r == Err::<&RowDef, LsError>(LsError::BadFdef),
{
    if field == FIELDNAME_ACLS {
        return Ok(&fdefs.acls);
    }
    if field == FIELDNAME_OWNER {
        return Ok(&fdefs.owner);
    }
    if field == FIELDNAME_FILETYPE {
        return Ok(&fdefs.filetype);
    }
    if field == FIELDNAME_SIZE {
        return Ok(&fdefs.size);
    }
    if field == FIELDNAME_TIMEISO {
        return Ok(&fdefs.timeiso);
    }
    if field == FIELDNAME_SRCNAME {
        return Ok(&fdefs.srcname);
    }
    if field == FIELDNAME_TARGETNAME {
        return Ok(&fdefs.targetname);
    }
    if field == FIELDNAME_PREVIEW {
        return Ok(&fdefs.preview);
    }
    Err(LsError::BadFdef)
}

/// The text of the column `field` of a rendered row; `BadField` where
/// `field` names no column.
pub fn get_rowrenderedfield(rowrendered: &RowRendered, field: u8) -> (r: Result<&String, LsError>)
    ensures
        is_field(field) ==> (r matches Ok(s) && s@ == rowrendered.field(field)),
        !is_field(field) ==> r == Err::<&String, LsError>(LsError::BadField),
{
    if field == FIELDNAME_ACLS {
        Ok(&rowrendered.acls)
    } else if field == FIELDNAME_OWNER {
        Ok(&rowrendered.owner)
    } else if field == FIELDNAME_FILETYPE {
        Ok(&rowrendered.filetype)
    } else if field == FIELDNAME_SIZE {
        Ok(&rowrendered.size)
    } else if field == FIELDNAME_TIMEISO {
        Ok(&rowrendered.timeiso)
    } else if field == FIELDNAME_SRCNAME {
        Ok(&rowrendered.srcname)
    } else if field == FIELDNAME_TARGETNAME {
        Ok(&rowrendered.targetname)
    } else if field == FIELDNAME_PREVIEW {
        Ok(&rowrendered.preview)
    } else {
        Err(LsError::BadField)
    }
}

} // verus!
