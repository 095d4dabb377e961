//! Extraction of the error counters from the modem's diagnostics page.
use vstd::prelude::*;
use crate::counts::ErrorCount;
use crate::decimal::{decimal_value, parse_u64};

verus! {

/// The boundary between two cells of a table row on the diagnostics page.
pub const ROW_SEPARATOR: &'static str = "</?t[rd]></?t[rd]>";

/// The pieces of `text` between the matches of the regular expression
/// `pattern`, as `regex::Regex::split` yields them.
pub uninterp spec fn regex_split(pattern: Seq<char>, text: Seq<char>) -> Seq<Seq<char>>;

#[verifier::external_type_specification]
#[verifier::external_body]
pub struct ExRegexError(regex::Error);

/// The lines of `text`, split at every `'\n'`; there is always at least one.
pub open spec fn lines_of(text: Seq<char>) -> Seq<Seq<char>>
    decreases text.len(),
{
    if text.len() == 0 {
        seq![Seq::empty()]
    } else {
        let before = lines_of(text.drop_last());
        if text.last() == '\n' {
            before.push(Seq::empty())
        } else {
            before.update(before.len() - 1, before.last().push(text.last()))
        }
    }
}

/// Relies on `str::split` with a `char` pattern: the pieces between the
/// newlines, in order, the empty ones included.
#[verifier::external_body]
pub(crate) fn split_lines(text: &str) -> (r: Vec<String>)
    ensures
        r.deep_view() == lines_of(text@),
{
    text.split('\n').map(String::from).collect()
}

/// Relies on `regex::Regex::new` to compile `pattern`, and on
/// `regex::Regex::split` for the fields of each line. The cell separator is
/// valid syntax and far below the default size limit, so it compiles.
#[verifier::external_body]
fn split_fields(pattern: &str, lines: &Vec<String>) -> (r: Result<Vec<Vec<String>>, regex::Error>)
    ensures
        pattern@ == ROW_SEPARATOR@ ==> r is Ok,
        r matches Ok(rows) ==> rows.len() == lines.len() && forall|i: int|
            0 <= i < lines.len() ==> #[trigger] rows.deep_view()[i] == regex_split(
                pattern@,
                lines[i]@,
            ),
{
    let re = regex::Regex::new(pattern)?;
    Ok(lines.iter().map(|l| re.split(l).map(String::from).collect()).collect())
}

/// Why a page could not be read.
#[derive(Clone, Copy, Debug, PartialEq, Eq, Structural)]
pub enum ParseError {
    /// A channel row whose counters are not decimal numbers.
    MalformedRow { row: usize },
    /// A total that does not fit in 64 bits.
    Overflow,
}

/// A row of a locked downstream channel with 256-QAM modulation.
pub open spec fn qualifies(fields: Seq<Seq<char>>) -> bool {
    fields.len() > 5 && fields[2] == "Locked"@ && fields[3] == "QAM256"@
}

/// The correctable-error field of a row: third from last.
pub open spec fn correctable_field(fields: Seq<Seq<char>>) -> Seq<char> {
    fields[fields.len() - 3]
}

/// The uncorrectable-error field of a row: second from last.
pub open spec fn uncorrectable_field(fields: Seq<Seq<char>>) -> Seq<char> {
    fields[fields.len() - 2]
}

/// A row that contributes nothing, or both of whose counters are numbers.
pub open spec fn row_well_formed(fields: Seq<Seq<char>>) -> bool {
    qualifies(fields) ==> decimal_value(correctable_field(fields)) is Some && decimal_value(
        uncorrectable_field(fields),
    ) is Some
}

pub open spec fn row_correctable(fields: Seq<Seq<char>>) -> nat {
    if qualifies(fields) && row_well_formed(fields) {
        decimal_value(correctable_field(fields))->0
    } else {
        0
    }
}

pub open spec fn row_uncorrectable(fields: Seq<Seq<char>>) -> nat {
    if qualifies(fields) && row_well_formed(fields) {
        decimal_value(uncorrectable_field(fields))->0
    } else {
        0
    }
}

/// The sum of the correctable counters of the qualifying rows.
pub open spec fn total_correctable(rows: Seq<Seq<Seq<char>>>) -> nat
    decreases rows.len(),
{
    if rows.len() == 0 {
        0
    } else {
        total_correctable(rows.drop_last()) + row_correctable(rows.last())
    }
}

/// The sum of the uncorrectable counters of the qualifying rows.
pub open spec fn total_uncorrectable(rows: Seq<Seq<Seq<char>>>) -> nat
    decreases rows.len(),
{
    if rows.len() == 0 {
        0
    } else {
        total_uncorrectable(rows.drop_last()) + row_uncorrectable(rows.last())
    }
}

pub open spec fn all_rows_well_formed(rows: Seq<Seq<Seq<char>>>) -> bool {
    forall|i: int| 0 <= i < rows.len() ==> row_well_formed(#[trigger] rows[i])
}

/// What a page whose lines split into `rows` amounts to.
pub open spec fn counts_result(rows: Seq<Seq<Seq<char>>>, r: Result<ErrorCount, ParseError>) -> bool {
    match r {
        Ok(c) => all_rows_well_formed(rows) && c.correctable as nat == total_correctable(rows)
            && c.uncorrectable as nat == total_uncorrectable(rows),
        Err(ParseError::MalformedRow { row }) => row < rows.len() && !row_well_formed(rows[row as int])
            && forall|j: int| 0 <= j < row ==> row_well_formed(#[trigger] rows[j]),
        Err(ParseError::Overflow) => all_rows_well_formed(rows) && (total_correctable(rows)
            > u64::MAX || total_uncorrectable(rows) > u64::MAX),
    }
}

/// Rows that are not locked 256-QAM channel rows add nothing to either
/// total, wherever they are appended.
pub proof fn lemma_other_rows_add_nothing(rows: Seq<Seq<Seq<char>>>, others: Seq<Seq<Seq<char>>>)
    requires
        forall|i: int| 0 <= i < others.len() ==> !qualifies(#[trigger] others[i]),
    ensures
        total_correctable(rows + others) == total_correctable(rows),
        total_uncorrectable(rows + others) == total_uncorrectable(rows),
    decreases others.len(),
{
    if others.len() == 0 {
        assert(rows + others =~= rows);
    } else {
        let shorter = others.drop_last();
        lemma_other_rows_add_nothing(rows, shorter);
        assert((rows + others).drop_last() =~= rows + shorter);
        assert((rows + others).last() == others.last());
    }
}

/// The totals of two runs of rows, one after the other, are the sums of
/// their totals.
pub proof fn lemma_totals_add(first: Seq<Seq<Seq<char>>>, second: Seq<Seq<Seq<char>>>)
    ensures
        total_correctable(first + second) == total_correctable(first) + total_correctable(second),
        total_uncorrectable(first + second) == total_uncorrectable(first) + total_uncorrectable(
            second,
        ),
    decreases second.len(),
{
    if second.len() == 0 {
        assert(first + second =~= first);
    } else {
        let shorter = second.drop_last();
        lemma_totals_add(first, shorter);
        assert((first + second).drop_last() =~= first + shorter);
        assert((first + second).last() == second.last());
    }
}

/// The fields of each line of a page.
pub open spec fn page_rows(page: Seq<char>) -> Seq<Seq<Seq<char>>> {
    lines_of(page).map_values(|line: Seq<char>| regex_split(ROW_SEPARATOR@, line))
}

fn text_eq(a: &str, b: &str) -> (r: bool)
    ensures
        r == (a@ == b@),
{
    let n = a.unicode_len();
    if n != b.unicode_len() {
        return false;
    }
    let mut i: usize = 0;
    while i < n
        invariant
            i <= n,
            n == a@.len(),
            n == b@.len(),
            a@.subrange(0, i as int) == b@.subrange(0, i as int),
        decreases n - i,
    {
        if a.get_char(i) != b.get_char(i) {
            return false;
        }
        assert(a@.subrange(0, i + 1) =~= a@.subrange(0, i as int).push(a@[i as int]));
        assert(b@.subrange(0, i + 1) =~= b@.subrange(0, i as int).push(b@[i as int]));
        i = i + 1;
    }
    assert(a@ =~= a@.subrange(0, n as int));
    assert(b@ =~= b@.subrange(0, n as int));
    true
}

/// Sums the counters of the qualifying rows, each row given as its fields.
/// The first row whose counters are not numbers is reported; so is a total
/// that does not fit in 64 bits.
pub fn count_errors(rows: &Vec<Vec<String>>) -> (r: Result<ErrorCount, ParseError>)
    ensures
        counts_result(rows.deep_view(), r),
{
    let ghost all = rows.deep_view();
    let mut acc_c: u128 = 0;
    let mut acc_u: u128 = 0;
    let mut i: usize = 0;
    while i < rows.len()
        invariant
            i <= rows.len(),
            all == rows.deep_view(),
            all_rows_well_formed(all.take(i as int)),
            acc_c as nat == total_correctable(all.take(i as int)),
            acc_u as nat == total_uncorrectable(all.take(i as int)),
            acc_c <= i * (u64::MAX as u128),
            acc_u <= i * (u64::MAX as u128),
        decreases rows.len() - i,
    {
        let fields = &rows[i];
        let n = fields.len();
        let ghost f = all[i as int];
        assert(f == fields.deep_view());
        assert(all.take(i + 1).drop_last() =~= all.take(i as int));
        assert(all.take(i + 1).last() == f);
        let mut c: u64 = 0;
        let mut u: u64 = 0;
        if n > 5 && text_eq(fields[2].as_str(), "Locked") && text_eq(fields[3].as_str(), "QAM256") {
            assert(qualifies(f));
            match (parse_u64(fields[n - 3].as_str()), parse_u64(fields[n - 2].as_str())) {
                (Some(pc), Some(pu)) => {
                    c = pc;
                    u = pu;
                },
                _ => {
                    assert(!row_well_formed(f));
                    assert forall|j: int| 0 <= j < i implies row_well_formed(#[trigger] all[j]) by {
                        assert(all.take(i as int)[j] == all[j]);
                    }
                    return Err(ParseError::MalformedRow { row: i });
                },
            }
        } else {
            assert(!qualifies(f));
        }
        assert(row_well_formed(f));
        assert(c as nat == row_correctable(f));
        assert(u as nat == row_uncorrectable(f));
        assert(acc_c + c <= (i + 1) * (u64::MAX as u128)) by (nonlinear_arith)
            requires
                acc_c <= i * (u64::MAX as u128),
                c <= u64::MAX,
                i < usize::MAX,
        ;
        assert(acc_u + u <= (i + 1) * (u64::MAX as u128)) by (nonlinear_arith)
            requires
                acc_u <= i * (u64::MAX as u128),
                u <= u64::MAX,
                i < usize::MAX,
        ;
        acc_c = acc_c + c as u128;
        acc_u = acc_u + u as u128;
        assert forall|j: int| 0 <= j < i + 1 implies row_well_formed(
            #[trigger] all.take(i + 1)[j],
        ) by {
            if j < i {
                assert(all.take(i + 1)[j] == all.take(i as int)[j]);
            }
        }
        i = i + 1;
    }
    assert(all.take(i as int) =~= all);
    if acc_c > u64::MAX as u128 || acc_u > u64::MAX as u128 {
        return Err(ParseError::Overflow);
    }
    Ok(ErrorCount { correctable: acc_c as u64, uncorrectable: acc_u as u64 })
}

/// Reads the error counters off the text of a diagnostics page.
pub fn page_error_count(page: &str) -> (r: Result<ErrorCount, ParseError>)
    ensures
        counts_result(page_rows(page@), r),
{
    let lines = split_lines(page);
    match split_fields(ROW_SEPARATOR, &lines) {
        Ok(rows) => {
            assert(rows.deep_view() =~= page_rows(page@)) by {
                assert forall|i: int| 0 <= i < rows.len() implies #[trigger] rows.deep_view()[i]
                    == page_rows(page@)[i] by {
                    assert(lines[i]@ == lines.deep_view()[i]);
                }
            }
            count_errors(&rows)
        },
        Err(_) => vstd::pervasive::unreached(),
    }
}

} // verus!
