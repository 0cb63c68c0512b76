//! The response envelopes and paging of the HTTP layer.
use vstd::prelude::*;

verus! {

/// The envelope of a response: a code, a message and maybe data.
pub struct AjaxResult<T> {
    pub code: i32,
    pub msg: String,
    pub data: Option<T>,
}

impl<T> AjaxResult<T> {
    /// Code 200, the standard success message, and `data`.
    pub fn success(data: T) -> (r: AjaxResult<T>)
        ensures
            r.code == 200,
            r.msg@ == "操作成功"@,
            r.data == Some(data),
    {
        AjaxResult { code: 200, msg: "操作成功".to_owned(), data: Some(data) }
    }

    /// Code 200, `msg`, no data.
    pub fn success_msg(msg: &str) -> (r: AjaxResult<T>)
        ensures
            r.code == 200,
            r.msg@ == msg@,
            r.data is None,
    {
        AjaxResult { code: 200, msg: msg.to_owned(), data: None }
    }

    /// Code 500, `msg`, no data.
    pub fn error(msg: &str) -> (r: AjaxResult<T>)
        ensures
            r.code == 500,
            r.msg@ == msg@,
            r.data is None,
    {
        AjaxResult { code: 500, msg: msg.to_owned(), data: None }
    }

    /// `code`, `msg`, no data.
    pub fn error_with_code(code: i32, msg: &str) -> (r: AjaxResult<T>)
        ensures
            r.code == code,
            r.msg@ == msg@,
            r.data is None,
    {
        AjaxResult { code, msg: msg.to_owned(), data: None }
    }
}

/// The envelope of a page of rows.
pub struct TableDataInfo<T> {
    pub code: i32,
    pub msg: String,
    pub rows: Vec<T>,
    pub total: i64,
}

impl<T> TableDataInfo<T> {
    /// Code 200, the standard query message, the rows and the total count.
    pub fn success(rows: Vec<T>, total: i64) -> (r: TableDataInfo<T>)
        ensures
            r.code == 200,
            r.msg@ == "查询成功"@,
            r.rows == rows,
            r.total == total,
    {
        TableDataInfo { code: 200, msg: "查询成功".to_owned(), rows, total }
    }

    /// Code 500, `msg`, no rows.
    pub fn error(msg: &str) -> (r: TableDataInfo<T>)
        ensures
            r.code == 500,
            r.msg@ == msg@,
            r.rows@.len() == 0,
            r.total == 0,
    {
        TableDataInfo { code: 500, msg: msg.to_owned(), rows: Vec::new(), total: 0 }
    }
}

/// The paging parameters of a request.
pub struct PageDomain {
    pub page_num: Option<i32>,
    pub page_size: Option<i32>,
    pub order_by_column: Option<String>,
    /// `asc` or `desc`.
    pub is_asc: Option<String>,
}

impl Default for PageDomain {
    /// The first page of ten, ascending.
    fn default() -> (r: PageDomain)
        ensures
            r.page_num == Some(1i32),
            r.page_size == Some(10i32),
            r.order_by_column is None,
            r.is_asc matches Some(s) && s@ == "asc"@,
    {
        PageDomain {
            page_num: Some(1),
            page_size: Some(10),
            order_by_column: None,
            is_asc: Some("asc".to_owned()),
        }
    }
}

/// `a / b` rounded up, for `b > 0`.
pub open spec fn ceil_div_pos(a: int, b: int) -> int
    recommends
        b > 0,
{
    if a >= 0 {
        (a + b - 1) / b
    } else {
        -((-a) / b)
    }
}

/// The number of pages of `size` rows that `total` rows fill, rounded up and
/// held to the range of `i32`. A size of zero gives the largest count for
/// some rows, zero for none, and the smallest for a negative total.
pub open spec fn page_count(total: int, size: int) -> i32 {
    let q: int = if size > 0 {
        ceil_div_pos(total, size)
    } else if size < 0 {
        ceil_div_pos(-total, -size)
    } else if total > 0 {
        i32::MAX as int
    } else if total == 0 {
        0
    } else {
        i32::MIN as int
    };
    if q > i32::MAX {
        i32::MAX
    } else if q < i32::MIN {
        i32::MIN
    } else {
        q as i32
    }
}

/// One page of a listing.
pub struct PageResult<T> {
    pub page_num: i32,
    pub page_size: i32,
    pub total: i64,
    pub list: Vec<T>,
}

impl<T> PageResult<T> {
    pub fn new(page_num: i32, page_size: i32, total: i64, list: Vec<T>) -> (r: PageResult<T>)
        ensures
            r.page_num == page_num,
            r.page_size == page_size,
            r.total == total,
            r.list == list,
    {
        PageResult { page_num, page_size, total, list }
    }

    /// The number of pages, rounded up.
    pub fn total_pages(&self) -> (r: i32)
        ensures
            r == page_count(self.total as int, self.page_size as int),
    {
        let total = self.total as i128;
        let size = self.page_size as i128;
        let q: i128 = if size > 0 {
            if total >= 0 {
                (total + size - 1) / size
            } else {
                -((-total) / size)
            }
        } else if size < 0 {
            if -total >= 0 {
                (-total + (-size) - 1) / (-size)
            } else {
                -(total / (-size))
            }
        } else if total > 0 {
            i32::MAX as i128
        } else if total == 0 {
            0
        } else {
            i32::MIN as i128
        };
        if q > i32::MAX as i128 {
            i32::MAX
        } else if q < i32::MIN as i128 {
            i32::MIN
        } else {
            q as i32
        }
    }

    /// Whether a page follows this one.
    pub fn has_next(&self) -> (r: bool)
        ensures
            r == (self.page_num < page_count(self.total as int, self.page_size as int)),
    {
        self.page_num < self.total_pages()
    }

    /// Whether a page comes before this one.
    pub fn has_prev(&self) -> (r: bool)
        ensures
            r == (self.page_num > 1),
    {
        self.page_num > 1
    }
}

} // verus!
