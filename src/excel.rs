//! Cleaning of spreadsheet rows read by the caller.
use vstd::prelude::*;

verus! {

/// `s` without leading and trailing white space, as Unicode defines it.
pub uninterp spec fn trimmed(s: Seq<char>) -> Seq<char>;

/// Relies on `str::trim`: removes leading and trailing characters with the
/// White_Space property; a string of white space alone becomes empty.
#[verifier::external_body]
fn trim_text(s: &str) -> (r: String)
    ensures
        r@ == trimmed(s@),
        s@.len() == 0 ==> r@.len() == 0,
{
    s.trim().to_string()
}

pub open spec fn cells_blank(row: Seq<String>) -> bool {
    forall|j: int| 0 <= j < row.len() ==> trimmed(#[trigger] row[j]@).len() == 0
}

pub open spec fn trimmed_row(row: Seq<String>) -> Seq<Seq<char>> {
    row.map_values(|c: String| trimmed(c@))
}

/// The rows kept by `clean_excel_data`, trimmed: those with a cell that is
/// not blank.
pub open spec fn cleaned_rows(data: Seq<Vec<String>>) -> Seq<Seq<Seq<char>>>
    decreases data.len(),
{
    if data.len() == 0 {
        Seq::empty()
    } else {
        let rest = cleaned_rows(data.drop_last());
        if cells_blank(data.last()@) {
            rest
        } else {
            rest.push(trimmed_row(data.last()@))
        }
    }
}

pub open spec fn rows_view(rows: Seq<Vec<String>>) -> Seq<Seq<Seq<char>>> {
    rows.map_values(|r: Vec<String>| r@.map_values(|c: String| c@))
}

/// Helpers for spreadsheet data.
pub struct ExcelUtils;

impl ExcelUtils {
    /// Whether the first row of `data` is exactly `expected_headers`.
    pub fn validate_excel_format(data: &[Vec<String>], expected_headers: &[String]) -> (r: bool)
        ensures
            r == (data@.len() > 0 && data@[0]@.len() == expected_headers@.len() && forall|i: int|
                0 <= i < expected_headers@.len() ==> #[trigger] data@[0]@[i]@ == expected_headers@[i]@),
    {
        if data.len() == 0 {
            return false;
        }
        let header = &data[0];
        if header.len() != expected_headers.len() {
            return false;
        }
        let mut i: usize = 0;
        while i < expected_headers.len()
            invariant
                data@.len() > 0,
                *header == data@[0],
                header@.len() == expected_headers@.len(),
                i <= expected_headers@.len(),
                forall|j: int| 0 <= j < i ==> #[trigger] data@[0]@[j]@ == expected_headers@[j]@,
            decreases expected_headers.len() - i,
        {
            if !crate::text::str_eq(header[i].as_str(), expected_headers[i].as_str()) {
                return false;
            }
            i = i + 1;
        }
        true
    }

    /// The cell text without surrounding white space.
    pub fn format_cell_value(value: &str) -> (r: String)
        ensures
            r@ == trimmed(value@),
    {
        trim_text(value)
    }

    /// Whether the cell holds only white space.
    pub fn is_cell_empty(value: &str) -> (r: bool)
        ensures
            r == (trimmed(value@).len() == 0),
    {
        let t = trim_text(value);
        t.as_str().unicode_len() == 0
    }

    /// Whether the rows below the header row number from `min_rows` to
    /// `max_rows`.
    pub fn validate_data_rows(data: &[Vec<String>], min_rows: usize, max_rows: usize) -> (r: bool)
        ensures
            r == ({
                let n: int = if data@.len() > 0 { data@.len() - 1 } else { 0 };
                min_rows <= n <= max_rows
            }),
    {
        let n: usize = if data.len() > 0 { data.len() - 1 } else { 0 };
        n >= min_rows && n <= max_rows
    }

    /// The rows with every cell trimmed, without the rows whose cells are
    /// all blank.
    pub fn clean_excel_data(data: &[Vec<String>]) -> (r: Vec<Vec<String>>)
        ensures
            rows_view(r@) == cleaned_rows(data@),
    {
        let mut out: Vec<Vec<String>> = Vec::new();
        let mut i: usize = 0;
        while i < data.len()
            invariant
                i <= data@.len(),
                rows_view(out@) == cleaned_rows(data@.subrange(0, i as int)),
            decreases data.len() - i,
        {
            let row = &data[i];
            let mut cleaned: Vec<String> = Vec::new();
            let mut blank = true;
            let mut j: usize = 0;
            while j < row.len()
                invariant
                    j <= row@.len(),
                    cleaned@.map_values(|c: String| c@) == trimmed_row(row@.subrange(0, j as int)),
                    blank == cells_blank(row@.subrange(0, j as int)),
                decreases row.len() - j,
            {
                let t = trim_text(row[j].as_str());
                let ghost before = cleaned@;
                if t.as_str().unicode_len() != 0 {
                    blank = false;
                }
                cleaned.push(t);
                proof {
                    let a = row@.subrange(0, j as int);
                    let b = row@.subrange(0, j + 1);
                    assert(b.drop_last() == a);
                    assert(cleaned@.map_values(|c: String| c@) == before.map_values(|c: String| c@).push(
                        trimmed(row@[j as int]@),
                    ));
                    assert(trimmed_row(b) == trimmed_row(a).push(trimmed(row@[j as int]@)));
                    if cells_blank(b) {
                        assert(trimmed(b[j as int]@).len() == 0);
                        assert forall|k: int| 0 <= k < a.len() implies trimmed(#[trigger] a[k]@).len() == 0 by {
                            assert(a[k] == b[k]);
                        }
                    }
                    if cells_blank(a) && trimmed(row@[j as int]@).len() == 0 {
                        assert forall|k: int| 0 <= k < b.len() implies trimmed(#[trigger] b[k]@).len() == 0 by {
                            if k < j {
                                assert(a[k] == b[k]);
                            }
                        }
                    }
                }
                j = j + 1;
            }
            assert(row@.subrange(0, row@.len() as int) == row@);
            let ghost before = out@;
            proof {
                assert(data@.subrange(0, i + 1).drop_last() == data@.subrange(0, i as int));
                assert(data@.subrange(0, i + 1).last() == data@[i as int]);
            }
            if !blank {
                out.push(cleaned);
                assert(rows_view(out@) == rows_view(before).push(trimmed_row(row@)));
            }
            i = i + 1;
        }
        assert(data@.subrange(0, data@.len() as int) == data@);
        out
    }
}

} // verus!
