use std::collections::HashMap;
use vstd::prelude::*;
use vstd::utf8::encode_utf8;

use crate::consts::{
    is_field, lemma_field_cases, FIELDNAME_ACLS, FIELDNAME_FILETYPE, FIELDNAME_OWNER, FIELDNAME_PREVIEW,
    FIELDNAME_SIZE, FIELDNAME_SRCNAME, FIELDNAME_TARGETNAME, FIELDNAME_TIMEISO, ROWDEF_ALIGN_RIGHT,
};
use crate::error::LsError;
use crate::rows::Row;

verus! {

broadcast use vstd::std_specs::hash::group_hash_axioms;

/// The width of each column.
#[derive(Debug, Clone, Copy, PartialEq, Eq, Structural)]
pub struct RowPadding {
    pub acls: u8,
    pub owner: u8,
    pub filetype: u8,
    pub size: u8,
    pub timeiso: u8,
    pub srcname: u8,
    pub targetname: u8,
    pub preview: u8,
}

impl RowPadding {
    /// The width of the column `field`.
    pub open spec fn pad(self, field: u8) -> u8
        recommends
            is_field(field),
    {
        if field == FIELDNAME_ACLS {
            self.acls
        } else if field == FIELDNAME_OWNER {
            self.owner
        } else if field == FIELDNAME_FILETYPE {
            self.filetype
        } else if field == FIELDNAME_SIZE {
            self.size
        } else if field == FIELDNAME_TIMEISO {
            self.timeiso
        } else if field == FIELDNAME_SRCNAME {
            self.srcname
        } else if field == FIELDNAME_TARGETNAME {
            self.targetname
        } else {
            self.preview
        }
    }

    /// The width of the column `field`; `BadField` where `field` names no
    /// column.
    pub fn padding_of(&self, field: u8) -> (r: Result<u8, LsError>)
        ensures
            is_field(field) ==> r == Ok::<u8, LsError>(self.pad(field)),
            !is_field(field) ==> r == Err::<u8, LsError>(LsError::BadField),
    {
        if field == FIELDNAME_ACLS {
            Ok(self.acls)
        } else if field == FIELDNAME_OWNER {
            Ok(self.owner)
        } else if field == FIELDNAME_FILETYPE {
            Ok(self.filetype)
        } else if field == FIELDNAME_SIZE {
            Ok(self.size)
        } else if field == FIELDNAME_TIMEISO {
            Ok(self.timeiso)
        } else if field == FIELDNAME_SRCNAME {
            Ok(self.srcname)
        } else if field == FIELDNAME_TARGETNAME {
            Ok(self.targetname)
        } else if field == FIELDNAME_PREVIEW {
            Ok(self.preview)
        } else {
            Err(LsError::BadField)
        }
    }
}

/// The width that a text takes in its column: its length in UTF-8 bytes,
/// kept to its low eight bits.
pub open spec fn text_width(s: Seq<char>) -> u8 {
    (encode_utf8(s).len() as usize) as u8
}

pub open spec fn max_u8(a: u8, b: u8) -> u8 {
    if b > a {
        b
    } else {
        a
    }
}

/// The width of the column `field` over `rows`: the greatest width of its
/// text in any row, and 0 where there is no row.
pub open spec fn column_width(rows: Seq<Row>, field: u8) -> u8
    decreases rows.len(),
{
    if rows.len() == 0 {
        0
    } else {
        max_u8(
            column_width(rows.drop_last(), field),
            text_width(rows.last().render.field(field)),
        )
    }
}

/// The widths of all columns over `rows`.
pub fn getcolpaddings(rows: &Vec<Row>) -> (r: Result<RowPadding, LsError>)
    ensures
        r matches Ok(p) && forall|f: u8| #[trigger] is_field(f) ==> p.pad(f) == column_width(rows@, f),
{
    let mut longest: HashMap<u8, u8> = HashMap::with_capacity(1);
    longest.insert(FIELDNAME_ACLS, 0);
    longest.insert(FIELDNAME_OWNER, 0);
    longest.insert(FIELDNAME_FILETYPE, 0);
    longest.insert(FIELDNAME_SIZE, 0);
    longest.insert(FIELDNAME_TIMEISO, 0);
    longest.insert(FIELDNAME_SRCNAME, 0);
    longest.insert(FIELDNAME_TARGETNAME, 0);
    longest.insert(FIELDNAME_PREVIEW, 0);
    proof {
        assert(rows@.take(0).len() == 0);
        assert forall|f: u8| #[trigger] is_field(f) implies longest@.contains_key(f) && longest@[f]
            == column_width(rows@.take(0), f) by {
            lemma_field_cases(f);
        }
    }
    let mut i: usize = 0;
    while i < rows.len()
        invariant
            i <= rows@.len(),
            forall|f: u8| #[trigger] is_field(f) ==> longest@.contains_key(f) && longest@[f]
                == column_width(rows@.take(i as int), f),
        decreases rows@.len() - i,
    {
        let cols = rows[i].render.into_iter();
        let ghost row = rows@[i as int];
        proof {
            assert(rows@.take(i + 1).drop_last() == rows@.take(i as int));
            assert(rows@.take(i + 1).last() == row);
        }
        let mut j: usize = 0;
        while j < cols.len()
            invariant
                i < rows@.len(),
                row == rows@[i as int],
                rows@.take(i + 1).drop_last() == rows@.take(i as int),
                rows@.take(i + 1).last() == row,
                cols@.len() == 8,
                forall|k: int| 0 <= k < 8 ==> (#[trigger] cols@[k]).0 == k && cols@[k].1@ == row.render.field(k as u8),
                j <= 8,
                forall|f: u8| #[trigger] is_field(f) ==> longest@.contains_key(f) && longest@[f]
                    == if f < j {
                        column_width(rows@.take(i + 1), f)
                    } else {
                        column_width(rows@.take(i as int), f)
                    },
            decreases 8 - j,
        {
            let colname: u8 = cols[j].0;
            let colval: &String = cols[j].1;
            let collen: u8 = colval.as_str().len() as u8;
            proof {
                assert(colname == j);
                assert(is_field(colname));
                assert(collen == text_width(row.render.field(colname)));
            }
            match longest.get(&colname) {
                Some(x) => {
                    let tmp_x: u8 = *x;
                    if collen > tmp_x {
                        longest.insert(colname, collen);
                    }
                },
                None => {},
            }
            proof {
                assert forall|f: u8| #[trigger] is_field(f) implies longest@.contains_key(f) && longest@[f]
                    == if f < j + 1 {
                        column_width(rows@.take(i + 1), f)
                    } else {
                        column_width(rows@.take(i as int), f)
                    } by {
                    if f == colname {
                        assert(column_width(rows@.take(i + 1), f) == max_u8(
                            column_width(rows@.take(i as int), f),
                            text_width(row.render.field(f)),
                        ));
                    }
                }
            }
            j = j + 1;
        }
        i = i + 1;
    }
    proof {
        assert(rows@.take(rows@.len() as int) == rows@);
    }
    let ret = RowPadding {
        acls: match longest.get(&FIELDNAME_ACLS) {
            Some(v) => *v,
            None => 0,
        },
        owner: match longest.get(&FIELDNAME_OWNER) {
            Some(v) => *v,
            None => 0,
        },
        filetype: match longest.get(&FIELDNAME_FILETYPE) {
            Some(v) => *v,
            None => 0,
        },
        size: match longest.get(&FIELDNAME_SIZE) {
            Some(v) => *v,
            None => 0,
        },
        timeiso: match longest.get(&FIELDNAME_TIMEISO) {
            Some(v) => *v,
            None => 0,
        },
        srcname: match longest.get(&FIELDNAME_SRCNAME) {
            Some(v) => *v,
            None => 0,
        },
        targetname: match longest.get(&FIELDNAME_TARGETNAME) {
            Some(v) => *v,
            None => 0,
        },
        preview: match longest.get(&FIELDNAME_PREVIEW) {
            Some(v) => *v,
            None => 0,
        },
    };
    proof {
        assert forall|f: u8| #[trigger] is_field(f) implies ret.pad(f) == column_width(rows@, f) by {
            lemma_field_cases(f);
        }
    }
    Ok(ret)
}

/// A run of `n` spaces.
pub open spec fn spaces(n: nat) -> Seq<char> {
    Seq::new(n, |i: int| ' ')
}

/// `val` padded with spaces to `padlen` characters, on the right where the
/// column is aligned left, on the left where it is aligned right; an empty
/// text becomes one space.
pub open spec fn padded(val: Seq<char>, padlen: nat, align: u8) -> Seq<char> {
    if val.len() == 0 {
        seq![' ']
    } else {
        let n: nat = if padlen > val.len() {
            (padlen - val.len()) as nat
        } else {
            0
        };
        if align == ROWDEF_ALIGN_RIGHT {
            spaces(n) + val
        } else {
            val + spaces(n)
        }
    }
}

/// Appends `n` spaces to `s`.
fn push_spaces(s: &mut String, n: usize)
    ensures
        final(s)@ == old(s)@ + spaces(n as nat),
{
    let mut k: usize = 0;
    while k < n
        invariant
            k <= n,
            s@ == old(s)@ + spaces(k as nat),
        decreases n - k,
    {
        proof {
            reveal_strlit(" ");
        }
        s.append(" ");
        assert(old(s)@ + spaces((k + 1) as nat) == (old(s)@ + spaces(k as nat)).push(' '));
        k = k + 1;
    }
}

/// Pads the text `val` of the column `field` to the column's width, aligned
/// as `align` says. An empty text becomes one space whatever the field;
/// otherwise a field that names no column gives `BadField`.
pub fn addpadding(field: u8, val: &String, colpaddings: &RowPadding, align: u8) -> (r: Result<
    String,
    LsError,
>)
    ensures
        val@.len() == 0 ==> (r matches Ok(s) && s@ == seq![' ']),
        val@.len() != 0 && is_field(field) ==> (r matches Ok(s) && s@ == padded(
            val@,
            colpaddings.pad(field) as nat,
            align,
        )),
        val@.len() != 0 && !is_field(field) ==> r == Err::<String, LsError>(LsError::BadField),
{
    if val.as_str().is_empty() {
        let sp = " ".to_string();
        proof {
            reveal_strlit(" ");
        }
        return Ok(sp);
    }
    let padlen: u8 = match colpaddings.padding_of(field) {
        Ok(p) => p,
        Err(e) => return Err(e),
    };
    let n: usize = val.as_str().unicode_len();
    let fill: usize = if (padlen as usize) > n {
        (padlen as usize) - n
    } else {
        0
    };
    let mut out = String::new();
    if align == ROWDEF_ALIGN_RIGHT {
        push_spaces(&mut out, fill);
        out.append(val.as_str());
    } else {
        out.append(val.as_str());
        push_spaces(&mut out, fill);
    }
    Ok(out)
}

} // verus!
