//! Builders of SQL fragments.
use vstd::prelude::*;
use crate::text::{join, join_strings, push_char, push_signed_decimal, push_str, signed_decimal, views_of};

verus! {

/// Where a LIKE pattern puts its wildcards.
#[derive(Debug, Clone, Copy, PartialEq, Eq, Structural)]
pub enum LikePattern {
    /// `%value%`
    Contains,
    /// `value%`
    StartsWith,
    /// `%value`
    EndsWith,
}

/// The state of a connection pool.
#[derive(Debug, Clone, Copy, PartialEq, Eq, Structural)]
pub struct PoolStatus {
    /// Connections open.
    pub size: u32,
    /// Connections idle.
    pub idle: usize,
    pub max_size: u32,
    pub min_size: u32,
}

/// A quoted SQL literal: `'s'`.
pub open spec fn quoted(s: Seq<char>) -> Seq<char> {
    seq!['\''] + s + seq!['\'']
}

pub open spec fn quoted_all(v: Seq<Seq<char>>) -> Seq<Seq<char>> {
    v.map_values(|s: Seq<char>| quoted(s))
}

/// What `escape_sql_string` writes for one character.
pub open spec fn escape_char(c: char) -> Seq<char> {
    if c == '\'' {
        seq!['\'', '\'']
    } else if c == '\\' {
        seq!['\\', '\\']
    } else if c == '\0' {
        seq!['\\', '0']
    } else if c == '\n' {
        seq!['\\', 'n']
    } else if c == '\r' {
        seq!['\\', 'r']
    } else if c == '\x1a' {
        seq!['\\', 'Z']
    } else {
        seq![c]
    }
}

pub open spec fn escaped(s: Seq<char>) -> Seq<char>
    decreases s.len(),
{
    if s.len() == 0 {
        Seq::empty()
    } else {
        escaped(s.drop_last()) + escape_char(s.last())
    }
}

/// Whether `p` occurs in `s`.
pub open spec fn occurs_in(p: Seq<char>, s: Seq<char>) -> bool {
    exists|i: int| 0 <= i && i + p.len() <= s.len() && #[trigger] s.subrange(i, i + p.len()) == p
}

/// The upper case form of `s`, by Unicode's mapping.
pub uninterp spec fn upper_of(s: Seq<char>) -> Seq<char>;

/// Relies on `str::to_uppercase`: the characters mapped to upper case; the
/// result depends on the characters alone.
#[verifier::external_body]
fn to_upper(s: &str) -> (r: String)
    ensures
        r@ == upper_of(s@),
{
    s.to_uppercase()
}

/// Whether `p` occurs in `s`.
pub fn contains_text(s: &str, p: &str) -> (r: bool)
    ensures
        r == occurs_in(p@, s@),
{
    let n = s.unicode_len();
    let m = p.unicode_len();
    if m > n {
        return false;
    }
    let mut i: usize = 0;
    while i <= n - m
        invariant
            n == s@.len(),
            m == p@.len(),
            m <= n,
            i <= n - m + 1,
            forall|k: int| 0 <= k < i ==> #[trigger] s@.subrange(k, k + m) != p@,
        decreases n - i,
    {
        let mut j: usize = 0;
        let mut same = true;
        while j < m
            invariant
                n == s@.len(),
                m == p@.len(),
                i + m <= n,
                j <= m,
                same == (forall|l: int| 0 <= l < j ==> s@[i + l] == p@[l]),
            decreases m - j,
        {
            if s.get_char(i + j) != p.get_char(j) {
                same = false;
            }
            j = j + 1;
        }
        if same {
            assert(s@.subrange(i as int, i + m) == p@);
            return true;
        }
        assert(s@.subrange(i as int, i + m) != p@) by {
            let l = choose|l: int| 0 <= l < m && s@[i + l] != p@[l];
            assert(s@.subrange(i as int, i + m)[l] == s@[i + l]);
        }
        i = i + 1;
    }
    assert(!occurs_in(p@, s@)) by {
        if occurs_in(p@, s@) {
            let k = choose|k: int| 0 <= k && k + m <= n && #[trigger] s@.subrange(k, k + m) == p@;
            assert(k < i);
        }
    }
    false
}

/// Builders of SQL fragments.
pub struct DatabaseUtils;

impl DatabaseUtils {
    /// `base_sql`, then ` ORDER BY order` when an order is given, then
    /// ` LIMIT page_size OFFSET (page_num - 1) * page_size`.
    pub fn build_pagination_sql(base_sql: &str, page_num: i32, page_size: i32, order_by: Option<&str>) -> (r: String)
        requires
            i32::MIN <= (page_num - 1) * page_size <= i32::MAX,
        ensures
            r@ == base_sql@ + (match order_by {
                Some(o) => " ORDER BY "@ + o@,
                None => Seq::<char>::empty(),
            }) + " LIMIT "@ + signed_decimal(page_size as int) + " OFFSET "@ + signed_decimal(
                (page_num - 1) * page_size,
            ),
    {
        let mut sql = base_sql.to_owned();
        match order_by {
            Some(order) => {
                push_str(&mut sql, " ORDER BY ");
                push_str(&mut sql, order);
            },
            None => {},
        }
        let offset = (page_num as i64 - 1) * page_size as i64;
        push_str(&mut sql, " LIMIT ");
        push_signed_decimal(&mut sql, page_size as i64);
        push_str(&mut sql, " OFFSET ");
        push_signed_decimal(&mut sql, offset);
        sql
    }

    /// The query that counts the rows of `base_sql`.
    pub fn build_count_sql(base_sql: &str) -> (r: String)
        ensures
            r@ == "SELECT COUNT(*) as total FROM ("@ + base_sql@ + ") as count_table"@,
    {
        let mut sql = "SELECT COUNT(*) as total FROM (".to_owned();
        push_str(&mut sql, base_sql);
        push_str(&mut sql, ") as count_table");
        sql
    }

    /// ` WHERE c1 AND c2 ...`, or nothing when there is no condition.
    pub fn build_where_conditions(conditions: &[String]) -> (r: String)
        ensures
            r@ == (if conditions@.len() == 0 {
                Seq::<char>::empty()
            } else {
                " WHERE "@ + join(views_of(conditions@), " AND "@)
            }),
    {
        if conditions.len() == 0 {
            String::new()
        } else {
            let mut sql = " WHERE ".to_owned();
            let joined = join_strings(conditions, " AND ");
            push_str(&mut sql, joined.as_str());
            sql
        }
    }

    /// `column IN ('v1','v2',...)`, or nothing when there is no value.
    pub fn build_in_condition(column: &str, values: &[String]) -> (r: String)
        ensures
            r@ == (if values@.len() == 0 {
                Seq::<char>::empty()
            } else {
                column@ + " IN ("@ + join(quoted_all(views_of(values@)), ","@) + ")"@
            }),
    {
        if values.len() == 0 {
            return String::new();
        }
        let mut quoted_values: Vec<String> = Vec::new();
        let mut i: usize = 0;
        while i < values.len()
            invariant
                i <= values@.len(),
                views_of(quoted_values@) == quoted_all(views_of(values@.subrange(0, i as int))),
            decreases values.len() - i,
        {
            let mut q = "'".to_owned();
            proof {
                reveal_strlit("'");
            }
            push_str(&mut q, values[i].as_str());
            push_char(&mut q, '\'');
            assert(q@ == quoted(values@[i as int]@));
            let ghost before = quoted_values@;
            quoted_values.push(q);
            proof {
                reveal_strlit("'");
                assert(views_of(quoted_values@) == views_of(before).push(q@));
                assert(views_of(values@.subrange(0, i + 1)) == views_of(values@.subrange(0, i as int)).push(
                    values@[i as int]@,
                ));
            }
            i = i + 1;
        }
        assert(values@.subrange(0, values@.len() as int) == values@);
        let mut sql = column.to_owned();
        push_str(&mut sql, " IN (");
        let joined = join_strings(quoted_values.as_slice(), ",");
        push_str(&mut sql, joined.as_str());
        push_str(&mut sql, ")");
        sql
    }

    /// `column LIKE '...'` with the wildcards where `pattern` puts them.
    pub fn build_like_condition(column: &str, value: &str, pattern: LikePattern) -> (r: String)
        ensures
            r@ == column@ + " LIKE '"@ + (match pattern {
                LikePattern::Contains => "%"@ + value@ + "%'"@,
                LikePattern::StartsWith => value@ + "%'"@,
                LikePattern::EndsWith => "%"@ + value@ + "'"@,
            }),
    {
        let mut sql = column.to_owned();
        push_str(&mut sql, " LIKE '");
        match pattern {
            LikePattern::Contains => {
                push_str(&mut sql, "%");
                push_str(&mut sql, value);
                push_str(&mut sql, "%'");
            },
            LikePattern::StartsWith => {
                push_str(&mut sql, value);
                push_str(&mut sql, "%'");
            },
            LikePattern::EndsWith => {
                push_str(&mut sql, "%");
                push_str(&mut sql, value);
                push_str(&mut sql, "'");
            },
        }
        sql
    }

    /// `column >= 'start'`, `column <= 'end'`, or both joined by ` AND `.
    pub fn build_range_condition(column: &str, start: Option<&str>, end: Option<&str>) -> (r: String)
        ensures
            r@ == (match (start, end) {
                (Some(s), Some(e)) => column@ + " >= '"@ + s@ + "'"@ + " AND "@ + column@ + " <= '"@ + e@ + "'"@,
                (Some(s), None) => column@ + " >= '"@ + s@ + "'"@,
                (None, Some(e)) => column@ + " <= '"@ + e@ + "'"@,
                (None, None) => Seq::<char>::empty(),
            }),
    {
        let mut sql = String::new();
        match start {
            Some(s) => {
                push_str(&mut sql, column);
                push_str(&mut sql, " >= '");
                push_str(&mut sql, s);
                push_str(&mut sql, "'");
            },
            None => {},
        }
        match end {
            Some(e) => {
                if start.is_some() {
                    push_str(&mut sql, " AND ");
                }
                push_str(&mut sql, column);
                push_str(&mut sql, " <= '");
                push_str(&mut sql, e);
                push_str(&mut sql, "'");
            },
            None => {},
        }
        sql
    }

    /// `s` with quotes doubled and backslashes, NUL, line feed, carriage
    /// return and SUB written as escapes.
    pub fn escape_sql_string(s: &str) -> (r: String)
        ensures
            r@ == escaped(s@),
    {
        let n = s.unicode_len();
        let mut out = String::new();
        let mut i: usize = 0;
        while i < n
            invariant
                n == s@.len(),
                i <= n,
                out@ == escaped(s@.subrange(0, i as int)),
            decreases n - i,
        {
            let c = s.get_char(i);
            let ghost before = out@;
            if c == '\'' {
                push_char(&mut out, '\'');
                push_char(&mut out, '\'');
            } else if c == '\\' {
                push_char(&mut out, '\\');
                push_char(&mut out, '\\');
            } else if c == '\0' {
                push_char(&mut out, '\\');
                push_char(&mut out, '0');
            } else if c == '\n' {
                push_char(&mut out, '\\');
                push_char(&mut out, 'n');
            } else if c == '\r' {
                push_char(&mut out, '\\');
                push_char(&mut out, 'r');
            } else if c == '\x1a' {
                push_char(&mut out, '\\');
                push_char(&mut out, 'Z');
            } else {
                push_char(&mut out, c);
            }
            assert(out@ == before + escape_char(c));
            assert(s@.subrange(0, i + 1).drop_last() == s@.subrange(0, i as int));
            i = i + 1;
        }
        assert(s@.subrange(0, n as int) == s@);
        out
    }

    /// Whether none of the words that mark a write or a script occurs in the
    /// upper case form of `sql`.
    pub fn is_sql_safe(sql: &str) -> (r: bool)
        ensures
            r == !(exists|k: int| 0 <= k < dangerous_patterns().len() && #[trigger] occurs_in(dangerous_patterns()[k], upper_of(sql@))),
    {
        let upper = to_upper(sql);
        let patterns: [&str; 17] = [
            "DROP", "DELETE", "UPDATE", "INSERT", "ALTER", "CREATE", "TRUNCATE",
            "EXEC", "EXECUTE", "UNION", "SCRIPT", "javascript:", "vbscript:",
            "onload", "onerror", "onclick", "onmouseover",
        ];
        let mut i: usize = 0;
        while i < 17
            invariant
                i <= 17,
                upper@ == upper_of(sql@),
                forall|k: int| 0 <= k < 17 ==> #[trigger] patterns[k]@ == dangerous_patterns()[k],
                forall|k: int| 0 <= k < i ==> !occurs_in(#[trigger] dangerous_patterns()[k], upper@),
            decreases 17 - i,
        {
            let pat = patterns[i];
            assert(pat@ == patterns[i as int]@);
            assert(pat@ == dangerous_patterns()[i as int]);
            let found = contains_text(upper.as_str(), pat);
            assert(upper@ == upper_of(sql@));
            assert(found == occurs_in(pat@, upper_of(sql@)));
            if found {
                assert(occurs_in(dangerous_patterns()[i as int], upper_of(sql@)));
                return false;
            }
            i = i + 1;
        }
        true
    }
}

/// The words that `is_sql_safe` looks for.
pub open spec fn dangerous_patterns() -> Seq<Seq<char>> {
    seq![
        "DROP"@, "DELETE"@, "UPDATE"@, "INSERT"@, "ALTER"@, "CREATE"@, "TRUNCATE"@,
        "EXEC"@, "EXECUTE"@, "UNION"@, "SCRIPT"@, "javascript:"@, "vbscript:"@,
        "onload"@, "onerror"@, "onclick"@, "onmouseover"@,
    ]
}

} // verus!
