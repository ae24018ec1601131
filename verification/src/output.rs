//! What the CLI prints: fixed-width tables, `key: value` listings, report
//! messages, and the `--json` mode in which only JSON documents come out.

use vstd::prelude::*;

use crate::json::{
    compact, compact_text, fields_view, items_view, jget, json_view, lemma_element_decreases,
    lemma_fields_view, lemma_items_view, lemma_items_view_ext, Json, JsonV,
};
use crate::text::{chars_of, dashes, is_ws, join, owned, repeat_char, spaces, trim_end, trim_end_str};

verus! {

/// Global output mode, selected by the top-level `--json` flag.
#[derive(Debug, Clone, Copy, PartialEq, Eq, Structural)]
pub enum Format {
    Human,
    Json,
}

/// One unit of output: a text line, or a JSON document printed pretty.
pub enum Out {
    Line(String),
    Pretty(Json),
}

pub enum OutV {
    Line(Seq<char>),
    Pretty(JsonV),
}

impl View for Out {
    type V = OutV;

    open spec fn view(&self) -> OutV {
        match self {
            Out::Line(s) => OutV::Line(s@),
            Out::Pretty(j) => OutV::Pretty(j@),
        }
    }
}

/// The text printed for one unit of output: the line itself, or the document
/// as `serde_json` writes it pretty.
pub open spec fn printed_text(o: OutV) -> Seq<char> {
    match o {
        OutV::Line(l) => l,
        OutV::Pretty(v) => crate::json::json_pretty(v),
    }
}

/// The text to print for one unit of output (see `printed_text`).
pub fn out_text(o: &Out) -> (r: String)
    ensures
        r@ == printed_text(o@),
{
    match o {
        Out::Line(l) => l.clone(),
        Out::Pretty(j) => crate::json::pretty(j),
    }
}

pub open spec fn outs(v: Seq<Out>) -> Seq<OutV> {
    v.map_values(|o: Out| o@)
}

pub open spec fn opt_view(v: Option<&Json>) -> Option<JsonV> {
    match v {
        Some(x) => Some(x@),
        None => None,
    }
}

/// How one value shows in a table cell.
pub open spec fn cell_of(x: JsonV) -> Seq<char>
    decreases x,
{
    match x {
        JsonV::Null => "-"@,
        JsonV::Str(s) => if s.len() == 0 {
            "-"@
        } else {
            s
        },
        JsonV::Bool(b) => if b {
            "true"@
        } else {
            "false"@
        },
        JsonV::Number(d, _) => d,
        JsonV::Array(a) => cell_list(a),
        JsonV::Object(_) => compact(x),
    }
}

/// The cells of the elements, joined with `,`.
pub open spec fn cell_list(a: Seq<JsonV>) -> Seq<char>
    decreases a,
{
    if a.len() == 0 {
        Seq::empty()
    } else if a.len() == 1 {
        cell_of(a[0])
    } else {
        cell_list(a.drop_last()) + ","@ + cell_of(a.last())
    }
}

/// A table cell for a possibly missing value: a missing value shows as `-`.
pub open spec fn cell_text(v: Option<JsonV>) -> Seq<char> {
    match v {
        None => "-"@,
        Some(x) => cell_of(x),
    }
}

/// What a table cell shows: `-` for a missing, `null` or empty-string value;
/// a non-empty string as it is; `true`/`false`; a number as it prints; the
/// cells of an array's elements separated by commas (one element shows alone,
/// none show as nothing).
pub proof fn law_cell_text(v: Option<JsonV>)
    ensures
        v is None ==> cell_text(v) == "-"@,
        v == Some(JsonV::Null) ==> cell_text(v) == "-"@,
        v == Some(JsonV::Str(Seq::<char>::empty())) ==> cell_text(v) == "-"@,
        forall|s: Seq<char>| v == Some(JsonV::Str(s)) && s.len() > 0 ==> cell_text(v) == s,
        v == Some(JsonV::Bool(true)) ==> cell_text(v) == "true"@,
        v == Some(JsonV::Bool(false)) ==> cell_text(v) == "false"@,
        forall|d: Seq<char>, j: Seq<char>| v == Some(JsonV::Number(d, j)) ==> cell_text(v) == d,
        v == Some(JsonV::Array(Seq::<JsonV>::empty())) ==> cell_text(v) == Seq::<char>::empty(),
        forall|x: JsonV| v == Some(JsonV::Array(seq![x])) ==> cell_text(v) == cell_of(x),
        forall|a: Seq<JsonV>, x: JsonV| a.len() > 0 && v == Some(JsonV::Array(a.push(x))) ==> cell_text(v)
            == cell_of(JsonV::Array(a)) + ","@ + cell_of(x),
{
    assert forall|a: Seq<JsonV>, x: JsonV| a.len() > 0 && v == Some(JsonV::Array(a.push(x))) implies cell_text(v)
        == cell_of(JsonV::Array(a)) + ","@ + cell_of(x) by {
        assert(a.push(x).drop_last() =~= a);
    }
}

/// The rows of a listing: the `values` array of a pagination wrapper, or the
/// value itself when it is an array, or nothing.
pub open spec fn paginated(v: JsonV) -> Seq<JsonV> {
    match jget(v, "values"@) {
        Some(JsonV::Array(a)) => a,
        _ => match v {
            JsonV::Array(a) => a,
            _ => Seq::empty(),
        },
    }
}

fn cell_of_value(x: &Json) -> (r: String)
    ensures
        r@ == cell_of(x@),
    decreases x,
{
    match x {
        Json::Null => owned("-"),
        Json::Str(s) => if s.as_str().is_empty() {
            owned("-")
        } else {
            s.clone()
        },
        Json::Bool(b) => if *b {
            owned("true")
        } else {
            owned("false")
        },
        Json::Number { display, json } => display.clone(),
        Json::Array(a) => {
            let ghost m = items_view(a@);
            proof {
                lemma_items_view(a@);
                assert(m.take(0) =~= Seq::<JsonV>::empty());
            }
            let mut body = String::new();
            let mut i: usize = 0;
            while i < a.len()
                invariant
                    i <= a@.len(),
                    m == items_view(a@),
                    m.len() == a@.len(),
                    forall|j: int| 0 <= j < a@.len() ==> #[trigger] m[j] == json_view(a@[j]),
                    body@ == cell_list(m.take(i as int)),
                    *x == Json::Array(*a),
                decreases a.len() - i,
            {
                proof {
                    lemma_element_decreases(*x, *a, i as int);
                    assert(m.take(i + 1).drop_last() =~= m.take(i as int));
                    assert(m.take(i + 1).last() == m[i as int]);
                    if i == 0 {
                        assert(m.take(1) =~= seq![m[0]]);
                    }
                }
                let t = cell_of_value(&a[i]);
                if i > 0 {
                    body.append(",");
                }
                body.append(t.as_str());
                i = i + 1;
            }
            assert(m.take(a@.len() as int) =~= m);
            body
        },
        Json::Object(_) => compact_text(x),
    }
}

/// Compact display of a table cell (`-` for a missing, null or empty value).
pub fn cell_to_string(v: Option<&Json>) -> (r: String)
    ensures
        r@ == cell_text(opt_view(v)),
{
    match v {
        None => owned("-"),
        Some(x) => cell_of_value(x),
    }
}

/// The rows of a listing response (see `paginated`).
pub fn paginated_values(v: &Json) -> (r: Vec<Json>)
    ensures
        items_view(r@) == paginated(v@),
{
    let src: Option<&Vec<Json>> = match v.get("values") {
        Some(Json::Array(a)) => Some(a),
        _ => match v {
            Json::Array(a) => Some(a),
            _ => None,
        },
    };
    match src {
        None => {
            assert(items_view(Seq::<Json>::empty()) =~= Seq::<JsonV>::empty());
            Vec::new()
        },
        Some(a) => {
            let mut out: Vec<Json> = Vec::new();
            let mut i: usize = 0;
            while i < a.len()
                invariant
                    i <= a@.len(),
                    out@.len() == i,
                    forall|j: int| 0 <= j < i ==> json_view(#[trigger] out@[j]) == json_view(a@[j]),
                decreases a.len() - i,
            {
                out.push(a[i].copy());
                i = i + 1;
            }
            proof {
                lemma_items_view(a@);
                lemma_items_view_ext(out@, items_view(a@));
            }
            out
        },
    }
}

pub open spec fn max_nat(a: nat, b: nat) -> nat {
    if a >= b {
        a
    } else {
        b
    }
}

/// `s` padded with spaces on the right to `w` characters (never cut).
pub open spec fn padded(s: Seq<char>, w: nat) -> Seq<char> {
    s + spaces(if w > s.len() {
        (w - s.len()) as nat
    } else {
        0
    })
}

pub open spec fn string_views(v: Seq<String>) -> Seq<Seq<char>> {
    v.map_values(|s: String| s@)
}

pub open spec fn nat_views(v: Seq<usize>) -> Seq<nat> {
    v.map_values(|w: usize| w as nat)
}

/// One table line: each cell padded to its column width, cells separated by
/// two spaces, trailing whitespace removed.
pub open spec fn row_line(cells: Seq<Seq<char>>, ws: Seq<nat>) -> Seq<char> {
    trim_end(join(Seq::new(cells.len(), |i: int| padded(cells[i], ws[i])), "  "@))
}

proof fn lemma_join_step(p: Seq<Seq<char>>, sep: Seq<char>, i: int)
    requires
        0 <= i < p.len(),
    ensures
        join(p.take(i + 1), sep) == if i == 0 {
            p[0]
        } else {
            join(p.take(i), sep) + sep + p[i]
        },
{
    let q = p.take(i + 1);
    if i > 0 {
        assert(q.drop_last() =~= p.take(i));
        assert(q.last() == p[i]);
    } else {
        assert(q.len() == 1);
    }
}

/// Lays out one table line (see `row_line`).
fn row_line_exec(cells: &Vec<String>, widths: &Vec<usize>) -> (r: String)
    requires
        cells@.len() <= widths@.len(),
    ensures
        r@ == row_line(string_views(cells@), nat_views(widths@)),
{
    let ghost parts = Seq::new(
        cells@.len(),
        |i: int| padded(string_views(cells@)[i], nat_views(widths@)[i]),
    );
    let mut body = String::new();
    let mut i: usize = 0;
    assert(parts.take(0) =~= Seq::<Seq<char>>::empty());
    while i < cells.len()
        invariant
            i <= cells@.len() <= widths@.len(),
            parts == Seq::new(
                cells@.len(),
                |i: int| padded(string_views(cells@)[i], nat_views(widths@)[i]),
            ),
            body@ == join(parts.take(i as int), "  "@),
        decreases cells.len() - i,
    {
        let n = chars_of(cells[i].as_str()).len();
        let pad: usize = if widths[i] > n {
            widths[i] - n
        } else {
            0
        };
        let fill = repeat_char(' ', pad);
        proof {
            lemma_join_step(parts, "  "@, i as int);
            assert(fill@ =~= spaces(pad as nat));
        }
        if i > 0 {
            body.append("  ");
        }
        body.append(cells[i].as_str());
        body.append(fill.as_str());
        assert(parts[i as int] =~= cells@[i as int]@ + fill@);
        i = i + 1;
    }
    assert(parts.take(cells@.len() as int) =~= parts);
    trim_end_str(body.as_str())
}

pub open spec fn col_views(cols: Seq<(&str, &str)>) -> Seq<(Seq<char>, Seq<char>)> {
    cols.map_values(|p: (&str, &str)| (p.0@, p.1@))
}

/// The cell texts: row `r`, column `c` shows member `cols[c].0` of `rows[r]`.
pub open spec fn cell_grid(rows: Seq<JsonV>, cols: Seq<(Seq<char>, Seq<char>)>) -> Seq<
    Seq<Seq<char>>,
> {
    Seq::new(
        rows.len(),
        |r: int| Seq::new(cols.len(), |c: int| cell_text(jget(rows[r], cols[c].0))),
    )
}

/// Width of column `c`: the byte length of its header, widened to the
/// character count of its longest cell.
pub open spec fn column_width(grid: Seq<Seq<Seq<char>>>, header: Seq<char>, c: int) -> nat
    decreases grid.len(),
{
    if grid.len() == 0 {
        vstd::utf8::encode_utf8(header).len()
    } else {
        max_nat(column_width(grid.drop_last(), header, c), grid.last()[c].len())
    }
}

pub open spec fn column_widths(grid: Seq<Seq<Seq<char>>>, cols: Seq<(Seq<char>, Seq<char>)>) -> Seq<
    nat,
> {
    Seq::new(cols.len(), |c: int| column_width(grid, cols[c].1, c))
}

proof fn lemma_column_width_bounds(grid: Seq<Seq<Seq<char>>>, header: Seq<char>, c: int)
    ensures
        column_width(grid, header, c) >= vstd::utf8::encode_utf8(header).len(),
        forall|r: int| 0 <= r < grid.len() ==> column_width(grid, header, c) >= (#[trigger] grid[r])[c].len(),
        column_width(grid, header, c) == vstd::utf8::encode_utf8(header).len() || exists|r: int|
            0 <= r < grid.len() && column_width(grid, header, c) == (#[trigger] grid[r])[c].len(),
    decreases grid.len(),
{
    if grid.len() > 0 {
        let g = grid.drop_last();
        lemma_column_width_bounds(g, header, c);
        assert forall|r: int| 0 <= r < grid.len() implies column_width(grid, header, c) >= (#[trigger] grid[r])[c].len() by {
            if r < g.len() {
                assert(g[r] == grid[r]);
            }
        }
        if column_width(grid, header, c) != vstd::utf8::encode_utf8(header).len() {
            if column_width(grid, header, c) == grid.last()[c].len() {
                assert(grid[grid.len() - 1] == grid.last());
            } else {
                let r = choose|r: int| 0 <= r < g.len() && column_width(g, header, c) == (#[trigger] g[r])[c].len();
                assert(g[r] == grid[r]);
            }
        }
    }
}

/// Every column of a table is as wide as the widest of its header (counted
/// in bytes) and of its cells in every row (counted in characters): no cell
/// is wider than its column, and the column is no wider than needed.
pub proof fn law_columns_fit_cells(rows: Seq<JsonV>, cols: Seq<(Seq<char>, Seq<char>)>, c: int)
    requires
        0 <= c < cols.len(),
    ensures
        column_widths(cell_grid(rows, cols), cols)[c] >= vstd::utf8::encode_utf8(cols[c].1).len(),
        forall|r: int|
            0 <= r < rows.len() ==> column_widths(cell_grid(rows, cols), cols)[c] >= cell_text(
                jget(#[trigger] rows[r], cols[c].0),
            ).len(),
        column_widths(cell_grid(rows, cols), cols)[c] == vstd::utf8::encode_utf8(cols[c].1).len() || exists|r: int|
            0 <= r < rows.len() && column_widths(cell_grid(rows, cols), cols)[c] == cell_text(
                jget(#[trigger] rows[r], cols[c].0),
            ).len(),
{
    let g = cell_grid(rows, cols);
    lemma_column_width_bounds(g, cols[c].1, c);
    assert forall|r: int| 0 <= r < rows.len() implies column_widths(g, cols)[c] >= cell_text(
        jget(#[trigger] rows[r], cols[c].0),
    ).len() by {
        assert(g[r][c] == cell_text(jget(rows[r], cols[c].0)));
    }
    if column_widths(g, cols)[c] != vstd::utf8::encode_utf8(cols[c].1).len() {
        let r = choose|r: int| 0 <= r < g.len() && column_width(g, cols[c].1, c) == (#[trigger] g[r])[c].len();
        assert(g[r][c] == cell_text(jget(rows[r], cols[c].0)));
    }
}

/// The lines of a table: `(no results)` when there are no rows; otherwise the
/// header line, a line of dashes as wide as each column, and one line per row.
pub open spec fn table_lines(rows: Seq<JsonV>, cols: Seq<(Seq<char>, Seq<char>)>) -> Seq<Seq<char>> {
    if rows.len() == 0 {
        seq!["(no results)"@]
    } else {
        let g = cell_grid(rows, cols);
        let w = column_widths(g, cols);
        seq![
            row_line(Seq::new(cols.len(), |c: int| cols[c].1), w),
            row_line(Seq::new(cols.len(), |c: int| dashes(w[c])), w),
        ] + Seq::new(rows.len(), |r: int| row_line(g[r], w))
    }
}

/// A table without rows is the single line `(no results)`; otherwise it has
/// a header line, a rule line, and one line per row, and the rule line holds
/// only dashes and spaces.
pub proof fn law_table_shape(rows: Seq<JsonV>, cols: Seq<(Seq<char>, Seq<char>)>)
    ensures
        rows.len() == 0 ==> table_lines(rows, cols) == seq!["(no results)"@],
        rows.len() > 0 ==> table_lines(rows, cols).len() == rows.len() + 2,
        rows.len() > 0 ==> forall|j: int| 0 <= j < table_lines(rows, cols)[1].len() ==> (
            #[trigger] table_lines(rows, cols)[1][j] == '-' || table_lines(rows, cols)[1][j] == ' '),
{
    if rows.len() > 0 {
        let g = cell_grid(rows, cols);
        let w = column_widths(g, cols);
        let cells = Seq::new(cols.len(), |c: int| dashes(w[c]));
        lemma_row_line_chars(cells, w);
    }
}

proof fn lemma_row_line_chars(cells: Seq<Seq<char>>, ws: Seq<nat>)
    requires
        forall|c: int, j: int| 0 <= c < cells.len() && 0 <= j < cells[c].len() ==> (#[trigger] cells[c][j]) == '-',
    ensures
        forall|j: int| 0 <= j < row_line(cells, ws).len() ==> (#[trigger] row_line(cells, ws)[j] == '-' || row_line(
            cells,
            ws,
        )[j] == ' '),
{
    reveal_strlit("  ");
    let parts = Seq::new(cells.len(), |i: int| padded(cells[i], ws[i]));
    assert forall|i: int, j: int| 0 <= i < parts.len() && 0 <= j < parts[i].len() implies (#[trigger] parts[i][j]
        == '-' || parts[i][j] == ' ') by {
        if j >= cells[i].len() {
            assert(parts[i][j] == ' ');
        }
    }
    assert forall|j: int| 0 <= j < "  "@.len() implies #[trigger] "  "@[j] == ' ' by {}
    lemma_join_chars(parts, "  "@);
    let joined = join(parts, "  "@);
    lemma_trim_end_sub(joined);
    assert(row_line(cells, ws) == trim_end(joined));
    assert forall|j: int| 0 <= j < row_line(cells, ws).len() implies (#[trigger] row_line(cells, ws)[j] == '-'
        || row_line(cells, ws)[j] == ' ') by {
        assert(trim_end(joined)[j] == joined[j]);
    }
}

proof fn lemma_join_chars(parts: Seq<Seq<char>>, sep: Seq<char>)
    requires
        forall|i: int, j: int| 0 <= i < parts.len() && 0 <= j < parts[i].len() ==> (#[trigger] parts[i][j] == '-'
            || parts[i][j] == ' '),
        forall|j: int| 0 <= j < sep.len() ==> #[trigger] sep[j] == ' ',
    ensures
        forall|j: int| 0 <= j < join(parts, sep).len() ==> (#[trigger] join(parts, sep)[j] == '-' || join(parts, sep)[j]
            == ' '),
    decreases parts.len(),
{
    if parts.len() > 1 {
        let p = parts.drop_last();
        assert forall|i: int, j: int| 0 <= i < p.len() && 0 <= j < p[i].len() implies (#[trigger] p[i][j] == '-'
            || p[i][j] == ' ') by {
            assert(p[i] == parts[i]);
        }
        lemma_join_chars(p, sep);
        let a = join(p, sep);
        let l = parts.last();
        assert forall|j: int| 0 <= j < join(parts, sep).len() implies (#[trigger] join(parts, sep)[j] == '-' || join(
            parts,
            sep,
        )[j] == ' ') by {
            if j < a.len() {
                assert(join(parts, sep)[j] == a[j]);
            } else if j < a.len() + sep.len() {
                assert(join(parts, sep)[j] == sep[j - a.len()]);
            } else {
                assert(join(parts, sep)[j] == l[j - a.len() - sep.len()]);
                assert(l == parts[parts.len() - 1]);
            }
        }
    } else if parts.len() == 1 {
        assert forall|j: int| 0 <= j < join(parts, sep).len() implies (#[trigger] join(parts, sep)[j] == '-' || join(
            parts,
            sep,
        )[j] == ' ') by {
            assert(join(parts, sep) == parts[0]);
        }
    }
}

proof fn lemma_trim_end_sub(s: Seq<char>)
    ensures
        trim_end(s).len() <= s.len(),
        forall|j: int| 0 <= j < trim_end(s).len() ==> trim_end(s)[j] == s[j],
    decreases s.len(),
{
    if s.len() > 0 && is_ws(s.last()) {
        lemma_trim_end_sub(s.drop_last());
        assert forall|j: int| 0 <= j < trim_end(s).len() implies trim_end(s)[j] == s[j] by {
            assert(s.drop_last()[j] == s[j]);
        }
    }
}

/// Renders `rows` (each a JSON object) as a fixed-width text table with the
/// given `(key, header)` columns, in order.
pub fn render_table(rows: &[Json], columns: &[(&str, &str)]) -> (r: Vec<String>)
    ensures
        string_views(r@) == table_lines(items_view(rows@), col_views(columns@)),
{
    if rows.len() == 0 {
        let v = vec![owned("(no results)")];
        assert(string_views(v@) =~= seq!["(no results)"@]);
        return v;
    }
    let ghost rv = items_view(rows@);
    let ghost cv = col_views(columns@);
    let ghost g = cell_grid(rv, cv);
    proof {
        lemma_items_view(rows@);
    }
    let ncol = columns.len();
    let mut widths: Vec<usize> = Vec::new();
    let mut c: usize = 0;
    while c < ncol
        invariant
            c <= ncol == columns@.len() == cv.len(),
            cv == col_views(columns@),
            widths@.len() == c,
            forall|k: int| 0 <= k < c ==> #[trigger] widths@[k] == column_width(g.take(0), cv[k].1, k),
        decreases ncol - c,
    {
        let w = columns[c].1.as_bytes().len();
        proof {
            assert(g.take(0).len() == 0);
            assert(cv[c as int].1 == columns@[c as int].1@);
        }
        widths.push(w);
        c = c + 1;
    }
    let mut grid: Vec<Vec<String>> = Vec::new();
    let mut r: usize = 0;
    while r < rows.len()
        invariant
            r <= rows@.len() == rv.len(),
            ncol == columns@.len() == cv.len(),
            rv == items_view(rows@),
            forall|j: int| 0 <= j < rows@.len() ==> #[trigger] rv[j] == json_view(rows@[j]),
            cv == col_views(columns@),
            g == cell_grid(rv, cv),
            grid@.len() == r,
            forall|rr: int| 0 <= rr < r ==> #[trigger] string_views(grid@[rr]@) == g[rr],
            widths@.len() == ncol,
            forall|k: int| 0 <= k < ncol ==> #[trigger] widths@[k] == column_width(g.take(r as int), cv[k].1, k),
        decreases rows.len() - r,
    {
        let mut cells: Vec<String> = Vec::new();
        let mut c: usize = 0;
        proof {
            assert(g.take(r + 1).drop_last() =~= g.take(r as int));
            assert(g.take(r + 1).last() == g[r as int]);
        }
        while c < ncol
            invariant
                r < rows@.len() == rv.len(),
                c <= ncol == columns@.len() == cv.len(),
                forall|j: int| 0 <= j < rows@.len() ==> #[trigger] rv[j] == json_view(rows@[j]),
                cv == col_views(columns@),
                g == cell_grid(rv, cv),
                g.take(r + 1).drop_last() == g.take(r as int),
                g.take(r + 1).last() == g[r as int],
                cells@.len() == c,
                forall|k: int| 0 <= k < c ==> #[trigger] cells@[k]@ == g[r as int][k],
                widths@.len() == ncol,
                forall|k: int|
                    0 <= k < c ==> #[trigger] widths@[k] == column_width(g.take(r + 1), cv[k].1, k),
                forall|k: int|
                    c <= k < ncol ==> #[trigger] widths@[k] == column_width(g.take(r as int), cv[k].1, k),
            decreases ncol - c,
        {
            let s = cell_to_string(rows[r].get(columns[c].0));
            let n = chars_of(s.as_str()).len();
            proof {
                assert(cv[c as int].0 == columns@[c as int].0@);
                assert(g[r as int][c as int] == cell_text(jget(rv[r as int], cv[c as int].0)));
            }
            if n > widths[c] {
                widths.set(c, n);
            }
            cells.push(s);
            c = c + 1;
        }
        proof {
            assert(string_views(cells@) =~= g[r as int]);
        }
        grid.push(cells);
        r = r + 1;
    }
    proof {
        assert(g.take(rows@.len() as int) =~= g);
        assert(nat_views(widths@) =~= column_widths(g, cv));
    }
    let mut headers: Vec<String> = Vec::new();
    let mut rules: Vec<String> = Vec::new();
    let mut c: usize = 0;
    while c < ncol
        invariant
            c <= ncol == columns@.len() == cv.len(),
            cv == col_views(columns@),
            widths@.len() == ncol,
            headers@.len() == c,
            rules@.len() == c,
            forall|k: int| 0 <= k < c ==> #[trigger] headers@[k]@ == cv[k].1,
            forall|k: int| 0 <= k < c ==> #[trigger] rules@[k]@ == dashes(widths@[k] as nat),
        decreases ncol - c,
    {
        headers.push(owned(columns[c].1));
        let d = repeat_char('-', widths[c]);
        assert(d@ =~= dashes(widths@[c as int] as nat));
        rules.push(d);
        c = c + 1;
    }
    let ghost w = column_widths(g, cv);
    proof {
        assert forall|rr: int| 0 <= rr < grid@.len() implies (#[trigger] grid@[rr])@.len() == ncol by {
            assert(string_views(grid@[rr]@).len() == g[rr].len());
        }
        assert(string_views(headers@) =~= Seq::new(cv.len(), |c: int| cv[c].1));
        assert(string_views(rules@) =~= Seq::new(cv.len(), |c: int| dashes(w[c])));
    }
    let mut out: Vec<String> = Vec::new();
    out.push(row_line_exec(&headers, &widths));
    out.push(row_line_exec(&rules, &widths));
    let mut r: usize = 0;
    while r < rows.len()
        invariant
            r <= rows@.len() == grid@.len() == g.len(),
            widths@.len() == ncol,
            nat_views(widths@) == w,
            forall|rr: int| 0 <= rr < grid@.len() ==> #[trigger] string_views(grid@[rr]@) == g[rr],
            forall|rr: int| 0 <= rr < grid@.len() ==> (#[trigger] grid@[rr])@.len() == ncol,
            out@.len() == r + 2,
            out@[0]@ == row_line(Seq::new(cv.len(), |c: int| cv[c].1), w),
            out@[1]@ == row_line(Seq::new(cv.len(), |c: int| dashes(w[c])), w),
            forall|rr: int| 0 <= rr < r ==> #[trigger] out@[rr + 2]@ == row_line(g[rr], w),
        decreases rows.len() - r,
    {
        proof {
            assert(string_views(grid@[r as int]@).len() == g[r as int].len());
        }
        out.push(row_line_exec(&grid[r], &widths));
        r = r + 1;
    }
    proof {
        let t = table_lines(rv, cv);
        assert(string_views(out@) =~= t) by {
            assert(t.len() == out@.len());
            assert forall|i: int| 0 <= i < t.len() implies #[trigger] string_views(out@)[i] == t[i] by {
                if i >= 2 {
                    assert(out@[(i - 2) + 2]@ == row_line(g[i - 2], w));
                }
            }
        }
    }
    out
}

/// How a member value shows in a `key: value` listing.
pub open spec fn member_text(x: JsonV) -> Seq<char> {
    match x {
        JsonV::Str(s) => s,
        JsonV::Null => "-"@,
        _ => compact(x),
    }
}

/// The byte length of the longest key (0 for no keys).
pub open spec fn key_width(fs: Seq<(Seq<char>, JsonV)>) -> nat
    decreases fs.len(),
{
    if fs.len() == 0 {
        0
    } else {
        max_nat(key_width(fs.drop_last()), vstd::utf8::encode_utf8(fs.last().0).len())
    }
}

/// One line per member: the key padded to the key width, two spaces, the value.
pub open spec fn object_lines(fs: Seq<(Seq<char>, JsonV)>) -> Seq<Seq<char>> {
    Seq::new(
        fs.len(),
        |i: int| padded(fs[i].0, key_width(fs)) + "  "@ + member_text(fs[i].1),
    )
}

pub open spec fn lines_out(ls: Seq<Seq<char>>) -> Seq<OutV> {
    ls.map_values(|l: Seq<char>| OutV::Line(l))
}

/// Output of a single object: the JSON document in JSON mode; `key: value`
/// lines for an object in human mode; the JSON document for anything else.
pub open spec fn object_output(format: Format, v: JsonV) -> Seq<OutV> {
    if format == Format::Json {
        seq![OutV::Pretty(v)]
    } else {
        match v {
            JsonV::Object(fs) => lines_out(object_lines(fs)),
            _ => seq![OutV::Pretty(v)],
        }
    }
}

/// Output of an operation that returns data: in JSON mode only the data.
pub open spec fn data_output(format: Format, msg: Seq<char>, data: JsonV) -> Seq<OutV> {
    if format == Format::Json {
        seq![OutV::Pretty(data)]
    } else {
        seq![OutV::Line(msg), OutV::Pretty(data)]
    }
}

/// Output of an operation without a meaningful response: in JSON mode the
/// status document, in human mode the message.
pub open spec fn status_output(format: Format, msg: Seq<char>, status: JsonV) -> Seq<OutV> {
    if format == Format::Json {
        seq![OutV::Pretty(status)]
    } else {
        seq![OutV::Line(msg)]
    }
}

/// A plain line for a listing entry: a string as it is, anything else as
/// compact JSON.
pub open spec fn entry_line(v: JsonV) -> Seq<char> {
    match v {
        JsonV::Str(s) => s,
        _ => compact(v),
    }
}

/// Output of a plain listing: the response in JSON mode, else one line per row.
pub open spec fn list_output(format: Format, resp: JsonV) -> Seq<OutV> {
    if format == Format::Json {
        seq![OutV::Pretty(resp)]
    } else {
        paginated(resp).map_values(|v: JsonV| OutV::Line(entry_line(v)))
    }
}

/// The output of one object: in human mode, aligned `key: value` lines
/// (see `object_output`).
pub fn render_object(format: Format, value: &Json) -> (r: Vec<Out>)
    ensures
        outs(r@) == object_output(format, value@),
{
    if format == Format::Json {
        let v = vec![Out::Pretty(value.copy())];
        assert(outs(v@) =~= object_output(format, value@));
        return v;
    }
    match value {
        Json::Object(fs) => {
            let ghost m = fields_view(fs@);
            proof {
                lemma_fields_view(fs@);
            }
            let mut width: usize = 0;
            let mut i: usize = 0;
            while i < fs.len()
                invariant
                    i <= fs@.len() == m.len(),
                    m == fields_view(fs@),
                    forall|j: int| 0 <= j < fs@.len() ==> #[trigger] m[j] == (fs@[j].0@, json_view(fs@[j].1)),
                    width as nat == key_width(m.take(i as int)),
                decreases fs.len() - i,
            {
                let n = fs[i].0.as_str().as_bytes().len();
                proof {
                    assert(m.take(i + 1).drop_last() =~= m.take(i as int));
                    assert(m.take(i + 1).last() == m[i as int]);
                }
                if n > width {
                    width = n;
                }
                i = i + 1;
            }
            assert(m.take(fs@.len() as int) =~= m);
            let mut out: Vec<Out> = Vec::new();
            let mut i: usize = 0;
            while i < fs.len()
                invariant
                    i <= fs@.len() == m.len(),
                    m == fields_view(fs@),
                    forall|j: int| 0 <= j < fs@.len() ==> #[trigger] m[j] == (fs@[j].0@, json_view(fs@[j].1)),
                    width as nat == key_width(m),
                    outs(out@) == lines_out(object_lines(m)).take(i as int),
                decreases fs.len() - i,
            {
                let k = &fs[i].0;
                let n = chars_of(k.as_str()).len();
                let pad: usize = if width > n {
                    width - n
                } else {
                    0
                };
                let mut line = k.clone();
                let fill = repeat_char(' ', pad);
                line.append(fill.as_str());
                line.append("  ");
                let x = &fs[i].1;
                let shown = match x {
                    Json::Str(s) => s.clone(),
                    Json::Null => owned("-"),
                    _ => compact_text(x),
                };
                line.append(shown.as_str());
                proof {
                    assert(fill@ =~= spaces(pad as nat));
                    assert(line@ =~= object_lines(m)[i as int]);
                }
                let o = Out::Line(line);
                let ghost prev = out@;
                assert(o@ == OutV::Line(object_lines(m)[i as int]));
                out.push(o);
                proof {
                    assert(out@ == prev.push(o));
                    assert(outs(out@) =~= outs(prev).push(o@));
                    assert(lines_out(object_lines(m)).take(i + 1) =~= lines_out(object_lines(m)).take(
                        i as int,
                    ).push(OutV::Line(object_lines(m)[i as int])));
                }
                i = i + 1;
            }
            assert(lines_out(object_lines(m)).take(fs@.len() as int) =~= lines_out(object_lines(m)));
            out
        },
        _ => {
            let v = vec![Out::Pretty(value.copy())];
            assert(outs(v@) =~= object_output(format, value@));
            v
        },
    }
}

/// Reports an operation that returns data (create, upload, launch).
pub fn report_data(format: Format, human_msg: &str, data: &Json) -> (r: Vec<Out>)
    ensures
        outs(r@) == data_output(format, human_msg@, data@),
{
    let v = match format {
        Format::Json => vec![Out::Pretty(data.copy())],
        Format::Human => vec![Out::Line(owned(human_msg)), Out::Pretty(data.copy())],
    };
    assert(outs(v@) =~= data_output(format, human_msg@, data@));
    v
}

/// Reports an operation without a meaningful response body (delete, cancel,
/// membership changes).
pub fn report_status(format: Format, human_msg: &str, json_status: &Json) -> (r: Vec<Out>)
    ensures
        outs(r@) == status_output(format, human_msg@, json_status@),
{
    let v = match format {
        Format::Json => vec![Out::Pretty(json_status.copy())],
        Format::Human => vec![Out::Line(owned(human_msg))],
    };
    assert(outs(v@) =~= status_output(format, human_msg@, json_status@));
    v
}

/// Prints a plain listing, one entry per line (lockbox names, metric names).
pub fn render_list(format: Format, resp: &Json) -> (r: Vec<Out>)
    ensures
        outs(r@) == list_output(format, resp@),
{
    if format == Format::Json {
        let v = vec![Out::Pretty(resp.copy())];
        assert(outs(v@) =~= list_output(format, resp@));
        return v;
    }
    let rows = paginated_values(resp);
    let ghost p = paginated(resp@);
    proof {
        lemma_items_view(rows@);
    }
    let mut out: Vec<Out> = Vec::new();
    let mut i: usize = 0;
    while i < rows.len()
        invariant
            i <= rows@.len() == p.len(),
            p == items_view(rows@),
            forall|j: int| 0 <= j < rows@.len() ==> #[trigger] p[j] == json_view(rows@[j]),
            outs(out@) =~= p.take(i as int).map_values(|v: JsonV| OutV::Line(entry_line(v))),
        decreases rows.len() - i,
    {
        let line = match &rows[i] {
            Json::Str(s) => s.clone(),
            other => compact_text(other),
        };
        let o = Out::Line(line);
        let ghost prev = out@;
        assert(o@ == OutV::Line(entry_line(p[i as int])));
        out.push(o);
        proof {
            assert(out@ == prev.push(o));
            assert(outs(out@) =~= outs(prev).push(o@));
            assert(p.take(i + 1).map_values(|v: JsonV| OutV::Line(entry_line(v))) =~= p.take(
                i as int,
            ).map_values(|v: JsonV| OutV::Line(entry_line(v))).push(OutV::Line(entry_line(p[i as int]))));
        }
        i = i + 1;
    }
    assert(p.take(rows@.len() as int) =~= p);
    out
}

} // verus!
