use lsr::consts::{
    CLRVAL_SIZE_FILECOUNT, COLDEF_ACLS, COLDEF_DEFAULT, COLDEF_SIZE, COLDEF_SIZE_BYTES,
    COLDEF_SIZE_FILECOUNT, COLDEF_SRCNAME_DIR, COLDEF_SRCNAME_FILE, CLRID_LIGHT_CYAN,
    CLRID_MAGENTA, CONTYPE_DIR, FIELDNAME_ACLS, FIELDNAME_FILETYPE, FIELDNAME_OWNER,
    FIELDNAME_PREVIEW, FIELDNAME_SIZE, FIELDNAME_SRCNAME, FIELDNAME_TARGETNAME,
    FIELDNAME_TIMEISO, FTYPE_DIR, FTYPE_FILE, ROWDEF_ALIGN_LEFT, ROWDEF_ALIGN_RIGHT,
};
use lsr::error::LsError;
use lsr::padding::{addpadding, getcolpaddings, RowPadding};
use lsr::render::{
    addcolor, color_code, getcolefs, getcolorval, getcolslisting, makepretty, rendercols,
    renderrows, structurecols, CLR_END, CLR_MAGENTA,
};
use lsr::rows::{
    buildrow, col_acls, col_owner, col_preview, get_field_from_fdefs, get_fileinfo_rendered,
    get_rowrenderedfield, getrowdefs, getrowinfo, processrows, render_column, AllRowDefs, ColumnFn, Row,
    RowDef, RowInfo, RowRendered,
};

fn info(mode: u32) -> RowInfo {
    getrowinfo("a".to_string(), mode).unwrap()
}

fn rendered(texts: [&str; 8]) -> RowRendered {
    RowRendered {
        acls: texts[0].to_string(),
        owner: texts[1].to_string(),
        filetype: texts[2].to_string(),
        size: texts[3].to_string(),
        timeiso: texts[4].to_string(),
        srcname: texts[5].to_string(),
        targetname: texts[6].to_string(),
        preview: texts[7].to_string(),
    }
}

fn row_with(texts: [&str; 8], ftype: u8) -> Row {
    Row {
        info: RowInfo { fname: "x".to_string(), mode: 0, ftype, contenttype: CONTYPE_DIR },
        render: rendered(texts),
    }
}

#[test]
fn colslisting_full_and_short() {
    assert_eq!(getcolslisting(true).unwrap(), vec![0, 1, 2, 3, 4, 5, 6, 7]);
    assert_eq!(
        getcolslisting(false).unwrap(),
        vec![FIELDNAME_SIZE, FIELDNAME_TIMEISO, FIELDNAME_SRCNAME, FIELDNAME_TARGETNAME]
    );
}

#[test]
fn colslisting_short_fields_are_in_full() {
    let full = getcolslisting(true).unwrap();
    for f in getcolslisting(false).unwrap() {
        assert!(full.contains(&f));
    }
}

#[test]
fn rowinfo_is_a_directory() {
    let i = getrowinfo("foo".to_string(), 33188).unwrap();
    assert_eq!(i.fname, "foo");
    assert_eq!(i.mode, 33188);
    assert_eq!(i.ftype, FTYPE_DIR);
    assert_eq!(i.contenttype, CONTYPE_DIR);
}

#[test]
fn acls_column_is_decimal_mode() {
    assert_eq!(col_acls(&info(16877)).unwrap(), "16877");
    assert_eq!(col_acls(&info(0)).unwrap(), "0");
    assert_eq!(col_acls(&info(u32::MAX)).unwrap(), "4294967295");
    assert_eq!(col_acls(&info(10)).unwrap(), "10");
}

#[test]
fn placeholder_columns() {
    assert_eq!(col_owner(&info(1)).unwrap(), "OWNER");
    assert_eq!(col_preview(&info(1)).unwrap(), "PREVIEW");
}

#[test]
fn render_column_calls_the_definition_function() {
    let def = RowDef { name: 200, onlyfull: true, align: ROWDEF_ALIGN_LEFT, func: ColumnFn::Size };
    assert_eq!(render_column(&def, &info(1)).unwrap(), "SIZE");
    let acls = RowDef { name: FIELDNAME_OWNER, onlyfull: false, align: 0, func: ColumnFn::Acls };
    assert_eq!(render_column(&acls, &info(755)).unwrap(), "755");
}

#[test]
fn rowdefs_name_their_slots() {
    let d = getrowdefs().unwrap();
    let funcs = [
        ColumnFn::Acls,
        ColumnFn::Owner,
        ColumnFn::Filetype,
        ColumnFn::Size,
        ColumnFn::Timeiso,
        ColumnFn::Srcname,
        ColumnFn::Targetname,
        ColumnFn::Preview,
    ];
    for f in 0u8..8 {
        let def = get_field_from_fdefs(f, &d).unwrap();
        assert_eq!(def.name, f);
        assert_eq!(def.func, funcs[f as usize]);
        assert!(def.onlyfull);
        assert_eq!(def.align, ROWDEF_ALIGN_LEFT);
    }
    assert_eq!(get_field_from_fdefs(8, &d).err(), Some(LsError::BadFdef));
}

#[test]
fn fileinfo_rendered_with_standard_defs() {
    let d = getrowdefs().unwrap();
    let r = get_fileinfo_rendered(&d, &info(420)).unwrap();
    assert_eq!(r.acls, "420");
    assert_eq!(r.owner, "OWNER");
    assert_eq!(r.filetype, "FILETYPE");
    assert_eq!(r.size, "SIZE");
    assert_eq!(r.timeiso, "TIMEISO");
    assert_eq!(r.srcname, "SRCNAME");
    assert_eq!(r.targetname, "TARGETNAME");
    assert_eq!(r.preview, "PREVIEW");
}

#[test]
fn fileinfo_rendered_follows_slot_functions() {
    let mut d: AllRowDefs = getrowdefs().unwrap();
    d.owner.func = ColumnFn::Preview;
    let r = get_fileinfo_rendered(&d, &info(7)).unwrap();
    assert_eq!(r.owner, "PREVIEW");
    d.size.name = 200;
    let r = get_fileinfo_rendered(&d, &info(7)).unwrap();
    assert_eq!(r.size, "SIZE");
    assert_eq!(r.acls, "7");
}

#[test]
fn buildrow_builds_info_and_render() {
    let d = getrowdefs().unwrap();
    let row = buildrow("b.txt".to_string(), 33261, &d, true).unwrap();
    assert_eq!(row.info.fname, "b.txt");
    assert_eq!(row.render.acls, "33261");
}

#[test]
fn processrows_keeps_order() {
    let rows = processrows(vec![("a".to_string(), 1), ("b".to_string(), 22)], false).unwrap();
    assert_eq!(rows.len(), 2);
    assert_eq!(rows[0].info.fname, "a");
    assert_eq!(rows[1].info.fname, "b");
    assert_eq!(rows[1].render.acls, "22");
    assert!(processrows(vec![], true).unwrap().is_empty());
}

#[test]
fn rowrenderedfield_and_into_iter_agree() {
    let r = rendered(["0", "1", "2", "3", "4", "5", "6", "7"]);
    let cols = r.into_iter();
    assert_eq!(cols.len(), 8);
    for (i, (f, v)) in cols.iter().enumerate() {
        assert_eq!(*f as usize, i);
        assert_eq!(get_rowrenderedfield(&r, *f).unwrap(), *v);
        assert_eq!(**v, i.to_string());
    }
    assert_eq!(get_rowrenderedfield(&r, 8).err(), Some(LsError::BadField));
    assert_eq!(get_rowrenderedfield(&r, FIELDNAME_PREVIEW).unwrap(), "7");
}

#[test]
fn coldefs_by_file_type() {
    let dir = row_with(["", "", "", "", "", "", "", ""], FTYPE_DIR);
    let file = row_with(["", "", "", "", "", "", "", ""], FTYPE_FILE);
    assert_eq!(getcolefs(&dir, FIELDNAME_SRCNAME).unwrap(), COLDEF_SRCNAME_DIR);
    assert_eq!(getcolefs(&file, FIELDNAME_SRCNAME).unwrap(), COLDEF_SRCNAME_FILE);
    assert_eq!(getcolefs(&dir, FIELDNAME_SIZE).unwrap(), COLDEF_SIZE_FILECOUNT);
    assert_eq!(getcolefs(&file, FIELDNAME_SIZE).unwrap(), COLDEF_SIZE_BYTES);
    assert_eq!(getcolefs(&dir, FIELDNAME_ACLS).unwrap(), COLDEF_ACLS);
    assert_eq!(getcolefs(&dir, 99).unwrap(), COLDEF_DEFAULT);
}

#[test]
fn colorvals() {
    assert_eq!(getcolorval(0).unwrap(), CLRID_LIGHT_CYAN);
    assert_eq!(getcolorval(COLDEF_SIZE_FILECOUNT).unwrap(), CLRID_MAGENTA);
    assert_eq!(getcolorval(COLDEF_SIZE), Err(LsError::BadColdef));
    assert_eq!(getcolorval(12), Err(LsError::BadColdef));
}

#[test]
fn every_column_kind_has_a_colour() {
    for ftype in [FTYPE_DIR, FTYPE_FILE] {
        let row = row_with(["", "", "", "", "", "", "", ""], ftype);
        for field in 0u8..=255 {
            let c = getcolefs(&row, field).unwrap();
            assert!(getcolorval(c).is_ok());
        }
    }
}

#[test]
fn colpaddings_are_widest_bytes() {
    let rows = vec![
        row_with(["a", "bb", "", "dddd", "", "", "", ""], FTYPE_DIR),
        row_with(["aaa", "b", "", "é", "", "", "", "x"], FTYPE_DIR),
    ];
    let p = getcolpaddings(&rows).unwrap();
    assert_eq!(
        p,
        RowPadding {
            acls: 3,
            owner: 2,
            filetype: 0,
            size: 4,
            timeiso: 0,
            srcname: 0,
            targetname: 0,
            preview: 1
        }
    );
}

#[test]
fn colpaddings_count_utf8_bytes() {
    let rows = vec![row_with(["ééé", "", "", "", "", "", "", ""], FTYPE_DIR)];
    assert_eq!(getcolpaddings(&rows).unwrap().acls, 6);
}

#[test]
fn colpaddings_wrap_past_255() {
    let long = "x".repeat(300);
    let rows = vec![row_with([long.as_str(), "", "", "", "", "", "", ""], FTYPE_DIR)];
    assert_eq!(getcolpaddings(&rows).unwrap().acls, 44);
}

#[test]
fn colpaddings_of_no_rows() {
    let p = getcolpaddings(&vec![]).unwrap();
    assert_eq!(p.acls, 0);
    assert_eq!(p.preview, 0);
}

#[test]
fn padding_left_and_right() {
    let p = RowPadding {
        acls: 5,
        owner: 1,
        filetype: 0,
        size: 0,
        timeiso: 0,
        srcname: 0,
        targetname: 0,
        preview: 0,
    };
    let v = "ab".to_string();
    assert_eq!(addpadding(FIELDNAME_ACLS, &v, &p, ROWDEF_ALIGN_LEFT).unwrap(), "ab   ");
    assert_eq!(addpadding(FIELDNAME_ACLS, &v, &p, ROWDEF_ALIGN_RIGHT).unwrap(), "   ab");
    assert_eq!(addpadding(FIELDNAME_OWNER, &v, &p, ROWDEF_ALIGN_LEFT).unwrap(), "ab");
    assert_eq!(addpadding(FIELDNAME_ACLS, &"".to_string(), &p, ROWDEF_ALIGN_LEFT).unwrap(), " ");
    assert_eq!(addpadding(42, &"".to_string(), &p, ROWDEF_ALIGN_LEFT).unwrap(), " ");
    assert_eq!(addpadding(42, &v, &p, ROWDEF_ALIGN_LEFT), Err(LsError::BadField));
}

#[test]
fn padding_counts_characters() {
    let p = RowPadding {
        acls: 4,
        owner: 0,
        filetype: 0,
        size: 0,
        timeiso: 0,
        srcname: 0,
        targetname: 0,
        preview: 0,
    };
    let v = "éé".to_string();
    assert_eq!(addpadding(FIELDNAME_ACLS, &v, &p, ROWDEF_ALIGN_LEFT).unwrap(), format!("{:<4}", v));
    assert_eq!(addpadding(FIELDNAME_ACLS, &v, &p, ROWDEF_ALIGN_RIGHT).unwrap(), format!("{:>4}", v));
}

#[test]
fn colour_codes() {
    assert_eq!(color_code(CLRID_MAGENTA), Some("\u{0}33[35m"));
    assert_eq!(color_code(12), None);
    assert_eq!(addcolor(&"hi".to_string(), CLRID_MAGENTA), format!("{}hi{}", CLR_MAGENTA, CLR_END));
    assert_eq!(addcolor(&"hi".to_string(), 99), "hi");
}

#[test]
fn makepretty_pads_and_colours() {
    let row = row_with(["", "", "", "12", "", "", "", ""], FTYPE_DIR);
    let mut p = getcolpaddings(&vec![]).unwrap();
    p.size = 4;
    let d = getrowdefs().unwrap();
    let cell = makepretty(&row, FIELDNAME_SIZE, &p, &d);
    assert_eq!(getcolorval(COLDEF_SIZE_FILECOUNT).unwrap(), CLRVAL_SIZE_FILECOUNT);
    assert_eq!(cell, format!("{}12  {}", CLR_MAGENTA, CLR_END));
    let owner = makepretty(&row, FIELDNAME_OWNER, &p, &d);
    assert_eq!(owner, "\u{0}33[30m \u{0}33[0m");
}

#[test]
fn structurecols_follow_listing() {
    let row = row_with(["a", "b", "c", "d", "e", "f", "g", "h"], FTYPE_DIR);
    let p = getcolpaddings(&vec![]).unwrap();
    let d = getrowdefs().unwrap();
    let full = structurecols(&row, &p, &d, true);
    let short = structurecols(&row, &p, &d, false);
    assert_eq!(full.len(), 8);
    assert_eq!(short.len(), 4);
    assert_eq!(short[0], full[FIELDNAME_SIZE as usize]);
    assert_eq!(full[FIELDNAME_TARGETNAME as usize], makepretty(&row, FIELDNAME_TARGETNAME, &p, &d));
    assert!(full[FIELDNAME_FILETYPE as usize].contains('c'));
}

#[test]
fn rendering_rows() {
    let d = getrowdefs().unwrap();
    let p = getcolpaddings(&vec![]).unwrap();
    let row = buildrow("a".to_string(), 1, &d, true).unwrap();
    assert_eq!(rendercols(&row, &p, &d, true).unwrap(), "TEST");
    let rows = processrows(vec![("a".to_string(), 1), ("b".to_string(), 2)], true).unwrap();
    assert_eq!(renderrows(rows, true).unwrap(), "TEST\nTEST");
    assert_eq!(renderrows(vec![], false).unwrap(), "");
    let one = processrows(vec![("a".to_string(), 1)], false).unwrap();
    assert_eq!(renderrows(one, false).unwrap(), "TEST");
}

#[test]
fn error_messages() {
    assert_eq!(LsError::BadFdef.message(), "Bad Fdef!");
    assert_eq!(LsError::BadField.message(), "Bad field");
    assert_eq!(LsError::BadColdef.message(), "Bad coldef");
}

#[test]
fn filetype_field_number() {
    assert_eq!(FIELDNAME_FILETYPE, 2);
    assert_eq!(FIELDNAME_OWNER, 1);
}
