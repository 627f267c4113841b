//! Column layout and the cells of the short grid and the long table.
use vstd::prelude::*;
use vstd::string::StringExecFns;
use crate::structs::{FileInfo, Params};
use crate::utils::file::{check_display_name, checked_display_name};
use crate::utils::format::{shortened, show_size, shown_amount, shown_unit, shorten_filename};
use crate::utils::fuzzy_time::{elapsed_phrase, fuzzy_time};
use crate::utils::style::{ansi, style_code, Style};
use crate::utils::text::{dec_digits, decimal, push_char};

verus! {

/// What `strip_ansi_escapes::strip_str` leaves of a text.
pub uninterp spec fn stripped(s: Seq<char>) -> Seq<char>;

/// Relies on `strip_ansi_escapes::strip_str`: the text without its terminal
/// escape sequences, a function of the text alone.
#[verifier::external_body]
fn strip_styling(s: &str) -> (r: String)
    ensures
        r@ == stripped(s@),
{
    strip_ansi_escapes::strip_str(s)
}

/// The earliest time the long table writes out as a date: the start of the
/// year 1, in seconds from the epoch.
pub const EARLIEST_CLOCK_SECS: i64 = -62135596800;

/// The latest time the long table writes out as a date: the end of the year
/// 9998, in seconds from the epoch. With any local offset the year stays
/// within four digits.
pub const LATEST_CLOCK_SECS: i64 = 253370764799;

/// The shape of a date and time written as `%a %b %e %T %Y` with a
/// four-digit year, such as "Sat Oct 17 21:44:03 2026": 24 characters, the
/// fields split by spaces and the time by colons.
pub open spec fn clock_shape(d: Seq<char>) -> bool {
    &&& d.len() == 24
    &&& d[3] == ' '
    &&& d[7] == ' '
    &&& d[10] == ' '
    &&& d[13] == ':'
    &&& d[16] == ':'
    &&& d[19] == ' '
}

/// Relies on `chrono`: `DateTime::from_timestamp`, which gives a time for
/// every second within chrono's range of about 262,000 years either side,
/// then `with_timezone(&Local)` and `format("%c")`, which without locales is
/// `%a %b %e %T %Y`: three-letter day and month names, the day padded to
/// two places, and a year of four digits for the years 0 to 9999.
#[verifier::external_body]
fn local_clock_text(secs: i64, nanos: u32) -> (r: Option<String>)
    requires
        EARLIEST_CLOCK_SECS <= secs <= LATEST_CLOCK_SECS,
        nanos < 1_000_000_000,
    ensures
        r is Some,
        r matches Some(t) ==> clock_shape(t@),
{
    chrono::DateTime::from_timestamp(secs, nanos).map(
        |dt| dt.with_timezone(&chrono::Local).format("%c").to_string(),
    )
}

/// Relies on `SystemTime::duration_since(UNIX_EPOCH)`: how far the time lies
/// after the epoch (`Ok`) or before it (`Err`), as whole seconds and the
/// nanoseconds beyond them, which are below one second.
#[verifier::external_body]
fn epoch_offset(t: std::time::SystemTime) -> (r: Result<(u64, u32), (u64, u32)>)
    ensures
        match r {
            Ok(d) => d.1 < 1_000_000_000,
            Err(d) => d.1 < 1_000_000_000,
        },
{
    match t.duration_since(std::time::UNIX_EPOCH) {
        Ok(d) => Ok((d.as_secs(), d.subsec_nanos())),
        Err(e) => Err((e.duration().as_secs(), e.duration().subsec_nanos())),
    }
}

/// Seconds from the epoch (rounded down) and the nanoseconds beyond them
/// for a time `offset` after (`Ok`) or before (`Err`) the epoch, where the
/// seconds lie within the range the long table writes out as dates.
pub open spec fn timestamp_of(offset: Result<(u64, u32), (u64, u32)>) -> Option<(i64, u32)> {
    match offset {
        Ok((s, n)) => if s <= LATEST_CLOCK_SECS {
            Some((s as i64, n))
        } else {
            None
        },
        Err((s, n)) => if n == 0 {
            if s <= -EARLIEST_CLOCK_SECS {
                Some((-(s as int) as i64, 0u32))
            } else {
                None
            }
        } else if s + 1 <= -EARLIEST_CLOCK_SECS {
            Some(((-(s as int) - 1) as i64, (1_000_000_000 - n) as u32))
        } else {
            None
        },
    }
}

/// The timestamp of a time's offset from the epoch: see [`timestamp_of`].
pub fn unix_timestamp(offset: Result<(u64, u32), (u64, u32)>) -> (r: Option<(i64, u32)>)
    requires
        match offset {
            Ok(d) => d.1 < 1_000_000_000,
            Err(d) => d.1 < 1_000_000_000,
        },
    ensures
        r == timestamp_of(offset),
        r matches Some(t) ==> EARLIEST_CLOCK_SECS <= t.0 <= LATEST_CLOCK_SECS && t.1 < 1_000_000_000,
{
    match offset {
        Ok((s, n)) => {
            if s <= 253370764799 {
                Some((s as i64, n))
            } else {
                None
            }
        },
        Err((s, n)) => {
            if n == 0 {
                if s <= 62135596800 {
                    Some((-(s as i64), 0))
                } else {
                    None
                }
            } else if s < 62135596800 {
                Some((-(s as i64) - 1, 1_000_000_000 - n))
            } else {
                None
            }
        },
    }
}

/// The date and time at `secs` seconds and `nanos` nanoseconds from the
/// epoch, in the local time zone; "?" outside the years 1 to 9998 or for
/// nanoseconds of a second or more.
pub fn clock_text(secs: i64, nanos: u32) -> (r: String)
    ensures
        EARLIEST_CLOCK_SECS <= secs <= LATEST_CLOCK_SECS && nanos < 1_000_000_000 ==> clock_shape(r@),
        !(EARLIEST_CLOCK_SECS <= secs <= LATEST_CLOCK_SECS && nanos < 1_000_000_000) ==> r@ == seq!['?'],
{
    if EARLIEST_CLOCK_SECS <= secs && secs <= LATEST_CLOCK_SECS && nanos < 1_000_000_000 {
        match local_clock_text(secs, nanos) {
            Some(t) => t,
            None => unknown_date(),
        }
    } else {
        unknown_date()
    }
}

fn unknown_date() -> (r: String)
    ensures
        r@ == seq!['?'],
{
    let mut s = String::new();
    push_char(&mut s, '?');
    s
}

/// Whether `d` can be the time column under `params`: a fuzzy phrase, or
/// a local date and time (or "?" where the time is out of range).
pub open spec fn date_fits(d: Seq<char>, params: Params) -> bool {
    if params.fuzzy_time {
        exists|e: Option<u64>| d == elapsed_phrase(e)
    } else {
        clock_shape(d) || d == seq!['?']
    }
}

/// Whether every one of `dates` can be a time column under `params`.
pub open spec fn dates_fit(dates: Seq<Seq<char>>, params: Params) -> bool {
    forall|i: int| 0 <= i < dates.len() ==> #[trigger] date_fits(dates[i], params)
}

/// The largest of `s`, or 0 for none.
pub open spec fn max_of(s: Seq<int>) -> int
    decreases s.len(),
{
    if s.len() == 0 {
        0
    } else {
        let m = max_of(s.drop_last());
        if s.last() > m {
            s.last()
        } else {
            m
        }
    }
}

proof fn lemma_max_of_push(s: Seq<int>, x: int)
    ensures
        max_of(s.push(x)) == if x > max_of(s) { x } else { max_of(s) },
{
    assert(s.push(x).drop_last() =~= s);
}

proof fn lemma_max_of_nonneg(s: Seq<int>)
    ensures
        max_of(s) >= 0,
    decreases s.len(),
{
    if s.len() > 0 {
        lemma_max_of_nonneg(s.drop_last());
    }
}

/// The number of grid columns for names of these visible lengths: the
/// terminal width over the longest length plus a gap of two, at least one.
pub open spec fn grid_columns(lens: Seq<int>, terminal_width: int) -> int {
    let c = terminal_width / (max_of(lens) + 2);
    if c < 1 {
        1
    } else {
        c
    }
}

/// The number of grid columns for names whose visible lengths are `lens`.
pub fn columns_for(lens: &Vec<usize>, terminal_width: usize) -> (r: usize)
    ensures
        r == grid_columns(lens@.map_values(|l: usize| l as int), terminal_width as int),
        r >= 1,
{
    let ghost ls = lens@.map_values(|l: usize| l as int);
    let mut m: usize = 0;
    let mut i: usize = 0;
    while i < lens.len()
        invariant
            i <= lens@.len(),
            ls == lens@.map_values(|l: usize| l as int),
            m as int == max_of(ls.subrange(0, i as int)),
        decreases lens@.len() - i,
    {
        proof {
            assert(ls.subrange(0, i + 1) =~= ls.subrange(0, i as int).push(ls[i as int]));
            lemma_max_of_push(ls.subrange(0, i as int), ls[i as int]);
        }
        if lens[i] > m {
            m = lens[i];
        }
        i = i + 1;
    }
    assert(ls.subrange(0, lens@.len() as int) =~= ls);
    let width: u128 = m as u128 + 2;
    let c: u128 = terminal_width as u128 / width;
    if c < 1 {
        1
    } else {
        c as usize
    }
}

/// The visible lengths of the names the grid shows.
pub open spec fn grid_name_lens(infos: Seq<FileInfo>) -> Seq<int> {
    infos.map_values(|i: FileInfo| stripped(checked_display_name(i)).len() as int)
}

/// How many entries fit on a row of the grid: see [`grid_columns`]; names
/// are measured without their styling.
pub fn plan_grid(file_info: &Vec<FileInfo>, terminal_width: usize) -> (r: usize)
    ensures
        r == grid_columns(grid_name_lens(file_info@), terminal_width as int),
        r >= 1,
{
    let mut lens: Vec<usize> = Vec::new();
    let mut i: usize = 0;
    while i < file_info.len()
        invariant
            i <= file_info@.len(),
            lens@.map_values(|l: usize| l as int) == grid_name_lens(file_info@.subrange(0, i as int)),
        decreases file_info@.len() - i,
    {
        let name = check_display_name(&file_info[i]);
        let clean = strip_styling(name.as_str());
        let l = clean.as_str().unicode_len();
        let ghost old_lens = lens@;
        lens.push(l);
        assert(lens@.map_values(|l: usize| l as int) =~= old_lens.map_values(|l: usize| l as int).push(l as int));
        assert(grid_name_lens(file_info@.subrange(0, i + 1)) =~= grid_name_lens(file_info@.subrange(0, i as int)).push(l as int));
        i = i + 1;
    }
    assert(file_info@.subrange(0, file_info@.len() as int) =~= file_info@);
    columns_for(&lens, terminal_width)
}

/// The text of a grid cell: the icon and a space where there is one, then
/// the name.
pub open spec fn grid_cell(info: FileInfo) -> Seq<char> {
    match info.item_icon {
        Some(icon) => seq![icon.glyph(), ' '] + checked_display_name(info),
        None => checked_display_name(info),
    }
}

fn grid_cell_text(info: &FileInfo) -> (r: String)
    ensures
        r@ == grid_cell(*info),
{
    let name = check_display_name(info);
    match info.item_icon {
        Some(icon) => {
            let mut s = icon.as_string();
            push_char(&mut s, ' ');
            s.append(name.as_str());
            assert(s@ =~= grid_cell(*info));
            s
        },
        None => name,
    }
}

/// The rows of the short grid: the cells in order, `columns` to a row.
pub fn short_rows(file_info: &Vec<FileInfo>, columns: usize) -> (r: Vec<Vec<String>>)
    requires
        columns >= 1,
    ensures
        r@.len() == (file_info@.len() + columns - 1) / columns as int,
        forall|row: int|
            0 <= row < r@.len() ==> #[trigger] r@[row]@.len() == if (row + 1) * columns
                <= file_info@.len() {
                columns as int
            } else {
                file_info@.len() - row * columns
            },
        forall|row: int, k: int|
            0 <= row < r@.len() && 0 <= k < r@[row]@.len() ==> #[trigger] r@[row]@[k]@ == grid_cell(
                file_info@[row * columns + k],
            ),
{
    let n = file_info.len();
    let mut rows: Vec<Vec<String>> = Vec::new();
    let mut start: usize = 0;
    assert((0 + columns - 1) / columns as int == 0) by (nonlinear_arith)
        requires
            columns >= 1,
    ;
    assert(0 * columns == 0) by (nonlinear_arith);
    while start < n
        invariant
            n == file_info@.len(),
            columns >= 1,
            start <= n,
            start as int == rows@.len() * columns || start == n,
            rows@.len() == (start + columns - 1) / columns as int,
            forall|row: int|
                0 <= row < rows@.len() ==> #[trigger] rows@[row]@.len() == if (row + 1) * columns
                    <= n {
                    columns as int
                } else {
                    n - row * columns
                },
            forall|row: int, k: int|
                0 <= row < rows@.len() && 0 <= k < rows@[row]@.len() ==> #[trigger] rows@[row]@[k]@
                    == grid_cell(file_info@[row * columns + k]),
        decreases n - start,
    {
        let end = if n - start > columns {
            start + columns
        } else {
            n
        };
        let mut row: Vec<String> = Vec::new();
        let mut i: usize = start;
        while i < end
            invariant
                start <= i <= end <= n == file_info@.len(),
                row@.len() == i - start,
                forall|k: int| 0 <= k < row@.len() ==> #[trigger] row@[k]@ == grid_cell(
                    file_info@[start + k],
                ),
            decreases end - i,
        {
            row.push(grid_cell_text(&file_info[i]));
            i = i + 1;
        }
        let ghost rows_len = rows@.len();
        assert(start as int == rows_len * columns) by (nonlinear_arith)
            requires
                start as int == rows_len * columns || start == n,
                start < n,
        ;
        rows.push(row);
        proof {
            assert((end as int + columns - 1) / columns as int == rows_len + 1) by (nonlinear_arith)
                requires
                    start as int == rows_len * columns,
                    columns >= 1,
                    start < end <= start + columns,
            ;
            if end < n {
                assert(end as int == (rows_len + 1) * columns) by (nonlinear_arith)
                    requires
                        start as int == rows_len * columns,
                        end == start + columns,
                ;
            }
            assert((rows_len + 1) * columns == rows_len * columns + columns) by (nonlinear_arith);
        }
        start = end;
    }
    rows
}

/// The time column for an entry: a fuzzy phrase, or the local date and
/// time.
pub fn date_text(info: &FileInfo, params: &Params) -> (r: String)
    ensures
        date_fits(r@, *params),
{
    if params.fuzzy_time {
        fuzzy_time(info.mtime)
    } else {
        match unix_timestamp(epoch_offset(info.mtime)) {
            Some((secs, nanos)) => clock_text(secs, nanos),
            None => unknown_date(),
        }
    }
}

/// Width of the type and permission column of an entry.
pub open spec fn mode_width(i: FileInfo) -> int {
    i.mode@.len() as int + 2
}

/// Width of the owner column of an entry.
pub open spec fn user_width(i: FileInfo) -> int {
    i.user@.len() as int + 1
}

/// Width of the group column of an entry.
pub open spec fn group_width(i: FileInfo) -> int {
    i.group@.len() as int + 1
}

/// Width of the size and unit columns of an entry.
pub open spec fn size_width(i: FileInfo, human: bool) -> int {
    shown_amount(i.size as nat, human).len() as int + shown_unit(i.size as nat, human).len() as int + 1
}

/// Width of the time column for a time text.
pub open spec fn date_width(d: Seq<char>) -> int {
    d.len() as int + 2
}

/// The width all columns but the name need: the widest of each, plus two
/// for the icon where icons are shown.
pub open spec fn fixed_width(infos: Seq<FileInfo>, dates: Seq<Seq<char>>, params: Params) -> int {
    max_of(infos.map_values(|i: FileInfo| mode_width(i))) + max_of(
        infos.map_values(|i: FileInfo| user_width(i)),
    ) + max_of(infos.map_values(|i: FileInfo| group_width(i))) + max_of(
        infos.map_values(|i: FileInfo| size_width(i, params.human_readable)),
    ) + max_of(dates.map_values(|d: Seq<char>| date_width(d))) + if params.no_icons {
        0int
    } else {
        2int
    }
}

/// The width left for names: the terminal width less the fixed columns, a
/// border allowance of 4, one separator per column (8 with icons, 7
/// without) and one more; never below zero.
pub open spec fn name_budget(
    infos: Seq<FileInfo>,
    dates: Seq<Seq<char>>,
    params: Params,
    terminal_width: int,
) -> int {
    let seps = if params.no_icons {
        7int
    } else {
        8int
    };
    let a = terminal_width - fixed_width(infos, dates, params) - 4 - seps - 1;
    if a < 0 {
        0
    } else {
        a
    }
}

/// [`fixed_width`], capped at the largest `usize`.
pub open spec fn capped_fixed_width(infos: Seq<FileInfo>, dates: Seq<Seq<char>>, params: Params) -> int {
    if fixed_width(infos, dates, params) > usize::MAX {
        usize::MAX as int
    } else {
        fixed_width(infos, dates, params)
    }
}

/// The characters of each string.
pub open spec fn string_views(v: Seq<String>) -> Seq<Seq<char>> {
    v.map_values(|s: String| s@)
}

/// The fixed columns' width (capped at `usize::MAX`) and the width left for
/// names, given the time text of each entry.
pub fn column_widths_with_dates(
    file_info: &Vec<FileInfo>,
    dates: &Vec<String>,
    params: &Params,
    terminal_width: usize,
) -> (r: (usize, usize))
    requires
        dates@.len() == file_info@.len(),
    ensures
        r.0 == capped_fixed_width(file_info@, string_views(dates@), *params),
        r.1 == name_budget(file_info@, string_views(dates@), *params, terminal_width as int),
{
    let ghost infos = file_info@;
    let ghost dv = string_views(dates@);
    let ghost human = params.human_readable;
    let mut m_mode: u128 = 0;
    let mut m_user: u128 = 0;
    let mut m_group: u128 = 0;
    let mut m_size: u128 = 0;
    let mut m_date: u128 = 0;
    let mut i: usize = 0;
    while i < file_info.len()
        invariant
            infos == file_info@,
            dv == string_views(dates@),
            human == params.human_readable,
            dates@.len() == infos.len(),
            i <= infos.len(),
            m_mode as int == max_of(infos.subrange(0, i as int).map_values(|x: FileInfo| mode_width(x))),
            m_user as int == max_of(infos.subrange(0, i as int).map_values(|x: FileInfo| user_width(x))),
            m_group as int == max_of(infos.subrange(0, i as int).map_values(|x: FileInfo| group_width(x))),
            m_size as int == max_of(infos.subrange(0, i as int).map_values(|x: FileInfo| size_width(x, human))),
            m_date as int == max_of(dv.subrange(0, i as int).map_values(|d: Seq<char>| date_width(d))),
            m_mode <= usize::MAX as u128 + 2,
            m_user <= usize::MAX as u128 + 2,
            m_group <= usize::MAX as u128 + 2,
            m_size <= 2 * (usize::MAX as u128) + 1,
            m_date <= usize::MAX as u128 + 2,
        decreases infos.len() - i,
    {
        let info = &file_info[i];
        let (amount, unit) = show_size(info.size, params.human_readable);
        let w_mode: u128 = info.mode.as_str().unicode_len() as u128 + 2;
        let w_user: u128 = info.user.as_str().unicode_len() as u128 + 1;
        let w_group: u128 = info.group.as_str().unicode_len() as u128 + 1;
        let w_size: u128 = amount.as_str().unicode_len() as u128 + unit.as_str().unicode_len() as u128 + 1;
        let w_date: u128 = dates[i].as_str().unicode_len() as u128 + 2;
        proof {
            let pre = infos.subrange(0, i as int);
            let next = infos.subrange(0, i + 1);
            assert(next =~= pre.push(infos[i as int]));
            assert(next.map_values(|x: FileInfo| mode_width(x)) =~= pre.map_values(|x: FileInfo| mode_width(x)).push(mode_width(infos[i as int])));
            assert(next.map_values(|x: FileInfo| user_width(x)) =~= pre.map_values(|x: FileInfo| user_width(x)).push(user_width(infos[i as int])));
            assert(next.map_values(|x: FileInfo| group_width(x)) =~= pre.map_values(|x: FileInfo| group_width(x)).push(group_width(infos[i as int])));
            assert(next.map_values(|x: FileInfo| size_width(x, human)) =~= pre.map_values(|x: FileInfo| size_width(x, human)).push(size_width(infos[i as int], human)));
            let dpre = dv.subrange(0, i as int);
            assert(dv.subrange(0, i + 1).map_values(|d: Seq<char>| date_width(d)) =~= dpre.map_values(|d: Seq<char>| date_width(d)).push(date_width(dv[i as int])));
            lemma_max_of_push(pre.map_values(|x: FileInfo| mode_width(x)), mode_width(infos[i as int]));
            lemma_max_of_push(pre.map_values(|x: FileInfo| user_width(x)), user_width(infos[i as int]));
            lemma_max_of_push(pre.map_values(|x: FileInfo| group_width(x)), group_width(infos[i as int]));
            lemma_max_of_push(pre.map_values(|x: FileInfo| size_width(x, human)), size_width(infos[i as int], human));
            lemma_max_of_push(dpre.map_values(|d: Seq<char>| date_width(d)), date_width(dv[i as int]));
        }
        if w_mode > m_mode {
            m_mode = w_mode;
        }
        if w_user > m_user {
            m_user = w_user;
        }
        if w_group > m_group {
            m_group = w_group;
        }
        if w_size > m_size {
            m_size = w_size;
        }
        if w_date > m_date {
            m_date = w_date;
        }
        i = i + 1;
    }
    proof {
        assert(infos.subrange(0, infos.len() as int) =~= infos);
        assert(dv.subrange(0, infos.len() as int) =~= dv);
    }
    let icon_width: u128 = if params.no_icons {
        0
    } else {
        2
    };
    let total: u128 = m_mode + m_user + m_group + m_size + m_date + icon_width;
    let seps: u128 = if params.no_icons {
        7
    } else {
        8
    };
    let used: u128 = total + 4 + seps + 1;
    let tw: u128 = terminal_width as u128;
    let available: usize = if tw > used {
        (tw - used) as usize
    } else {
        0
    };
    let fixed: usize = if total > usize::MAX as u128 {
        usize::MAX
    } else {
        total as usize
    };
    (fixed, available)
}

/// The fixed columns' width and the width left for names in the long
/// table, with the time column as it is shown now.
pub fn calculate_column_widths(file_info: &Vec<FileInfo>, params: &Params, terminal_width: usize) -> (r: (usize, usize))
    ensures
        exists|dates: Seq<Seq<char>>|
            #![trigger name_budget(file_info@, dates, *params, terminal_width as int)]
            dates.len() == file_info@.len() && dates_fit(dates, *params) && r.0
                == capped_fixed_width(file_info@, dates, *params) && r.1 == name_budget(
                file_info@,
                dates,
                *params,
                terminal_width as int,
            ),
{
    let dates = all_dates(file_info, params);
    column_widths_with_dates(file_info, &dates, params, terminal_width)
}

fn all_dates(file_info: &Vec<FileInfo>, params: &Params) -> (r: Vec<String>)
    ensures
        r@.len() == file_info@.len(),
        dates_fit(string_views(r@), *params),
{
    let mut dates: Vec<String> = Vec::new();
    let mut i: usize = 0;
    while i < file_info.len()
        invariant
            i <= file_info@.len(),
            dates@.len() == i,
            dates_fit(string_views(dates@), *params),
        decreases file_info@.len() - i,
    {
        let d = date_text(&file_info[i], params);
        let ghost before = dates@;
        dates.push(d);
        proof {
            assert(string_views(dates@) =~= string_views(before).push(d@));
            assert forall|k: int| 0 <= k < dates@.len() implies #[trigger] date_fits(
                string_views(dates@)[k],
                *params,
            ) by {
                if k < before.len() {
                    assert(string_views(before)[k] == string_views(dates@)[k]);
                }
            }
        }
        i = i + 1;
    }
    dates
}

/// One cell of the long table.
#[derive(Debug)]
pub struct Cell {
    pub text: String,
    /// Whether the cell is aligned to the right of its column.
    pub align_right: bool,
}

/// The text and alignment of each cell.
pub open spec fn cells_view(v: Seq<Cell>) -> Seq<(Seq<char>, bool)> {
    v.map_values(|c: Cell| (c.text@, c.align_right))
}

/// The name column of the long table: the shown name, fitted into the
/// width left for names where shortening is asked for.
pub open spec fn long_name(info: FileInfo, params: Params, available: nat) -> Seq<char> {
    if params.shorten_names {
        shortened(checked_display_name(info), available)
    } else {
        checked_display_name(info)
    }
}

/// The cells of one row of the long table: type and permissions, link
/// count, owner, group, size (right-aligned), unit where there is one, time
/// (right-aligned), icon where there is one, and name.
pub open spec fn long_cells(info: FileInfo, params: Params, date: Seq<char>, available: nat) -> Seq<(Seq<char>, bool)> {
    let human = params.human_readable;
    let unit = shown_unit(info.size as nat, human);
    seq![
        (info.file_type@ + info.mode@ + seq![' '], false),
        (dec_digits(info.nlink as nat), false),
        (seq![' '] + ansi(Style::Cyan) + info.user@, false),
        (ansi(Style::Green) + info.group@ + seq![' '], false),
        (shown_amount(info.size as nat, human), true),
    ] + (if unit.len() > 0 {
        seq![(unit, false)]
    } else {
        seq![]
    }) + seq![(seq![' '] + ansi(Style::Yellow) + date + seq![' '], true)] + (match info.item_icon {
        Some(icon) => seq![(seq![icon.glyph(), ' '], false)],
        None => seq![],
    }) + seq![(long_name(info, params, available), false)]
}

fn cell(text: String, align_right: bool) -> (r: Cell)
    ensures
        r.text@ == text@,
        r.align_right == align_right,
{
    Cell { text, align_right }
}

/// The cells of the long table's row for `info`, with its time text `date`
/// and `available` columns for the name.
pub fn long_row(info: &FileInfo, params: &Params, date: &str, available: usize) -> (r: Vec<Cell>)
    ensures
        cells_view(r@) == long_cells(*info, *params, date@, available as nat),
{
    let mut row: Vec<Cell> = Vec::new();
    let mut c0 = info.file_type.clone();
    c0.append(info.mode.as_str());
    push_char(&mut c0, ' ');
    assert(c0@ =~= info.file_type@ + info.mode@ + seq![' ']);
    row.push(cell(c0, false));
    row.push(cell(decimal(info.nlink), false));
    let mut c2 = String::new();
    push_char(&mut c2, ' ');
    c2.append(style_code(Style::Cyan));
    c2.append(info.user.as_str());
    assert(c2@ =~= seq![' '] + ansi(Style::Cyan) + info.user@);
    row.push(cell(c2, false));
    let mut c3 = String::from_str(style_code(Style::Green));
    c3.append(info.group.as_str());
    push_char(&mut c3, ' ');
    assert(c3@ =~= ansi(Style::Green) + info.group@ + seq![' ']);
    row.push(cell(c3, false));
    let (amount, unit) = show_size(info.size, params.human_readable);
    row.push(cell(amount, true));
    let ghost fixed = cells_view(row@);
    let has_unit = unit.as_str().unicode_len() > 0;
    if has_unit {
        row.push(cell(unit, false));
    }
    let ghost with_unit = cells_view(row@);
    let mut c6 = String::new();
    push_char(&mut c6, ' ');
    c6.append(style_code(Style::Yellow));
    c6.append(date);
    push_char(&mut c6, ' ');
    assert(c6@ =~= seq![' '] + ansi(Style::Yellow) + date@ + seq![' ']);
    row.push(cell(c6, true));
    let ghost with_date = cells_view(row@);
    match info.item_icon {
        Some(icon) => {
            let mut c7 = icon.as_string();
            push_char(&mut c7, ' ');
            assert(c7@ =~= seq![icon.glyph(), ' ']);
            row.push(cell(c7, false));
        },
        None => {},
    }
    let ghost with_icon = cells_view(row@);
    let shown = check_display_name(info);
    let name = if params.shorten_names {
        shorten_filename(shown.as_str(), available)
    } else {
        shown
    };
    row.push(cell(name, false));
    proof {
        let human = params.human_readable;
        let u = shown_unit(info.size as nat, human);
        assert(fixed =~= seq![
            (info.file_type@ + info.mode@ + seq![' '], false),
            (dec_digits(info.nlink as nat), false),
            (seq![' '] + ansi(Style::Cyan) + info.user@, false),
            (ansi(Style::Green) + info.group@ + seq![' '], false),
            (shown_amount(info.size as nat, human), true),
        ]);
        assert(with_unit =~= fixed + (if u.len() > 0 {
            seq![(u, false)]
        } else {
            seq![]
        }));
        assert(with_date =~= with_unit + seq![(seq![' '] + ansi(Style::Yellow) + date@ + seq![' '], true)]);
        assert(with_icon =~= with_date + (match info.item_icon {
            Some(icon) => seq![(seq![icon.glyph(), ' '], false)],
            None => seq![],
        }));
        assert(cells_view(row@) =~= with_icon + seq![(long_name(*info, *params, available as nat), false)]);
    }
    row
}

/// `rows` is the long table for these entries and time texts: one row per
/// entry, the names fitted into the width left for them.
pub open spec fn is_long_table(
    rows: Seq<Vec<Cell>>,
    infos: Seq<FileInfo>,
    params: Params,
    dates: Seq<Seq<char>>,
    terminal_width: int,
) -> bool {
    &&& dates.len() == infos.len()
    &&& rows.len() == infos.len()
    &&& forall|i: int|
        0 <= i < rows.len() ==> #[trigger] cells_view(rows[i]@) == long_cells(
            infos[i],
            params,
            dates[i],
            name_budget(infos, dates, params, terminal_width) as nat,
        )
}

/// The rows of the long table, given the time text of each entry.
pub fn long_rows_with_dates(
    file_info: &Vec<FileInfo>,
    dates: &Vec<String>,
    params: &Params,
    terminal_width: usize,
) -> (r: Vec<Vec<Cell>>)
    requires
        dates@.len() == file_info@.len(),
    ensures
        is_long_table(r@, file_info@, *params, string_views(dates@), terminal_width as int),
{
    let (_, available) = column_widths_with_dates(file_info, dates, params, terminal_width);
    let mut rows: Vec<Vec<Cell>> = Vec::new();
    let mut i: usize = 0;
    while i < file_info.len()
        invariant
            i <= file_info@.len() == dates@.len(),
            available == name_budget(file_info@, string_views(dates@), *params, terminal_width as int),
            rows@.len() == i,
            forall|k: int|
                0 <= k < i ==> #[trigger] cells_view(rows@[k]@) == long_cells(
                    file_info@[k],
                    *params,
                    dates@[k]@,
                    available as nat,
                ),
        decreases file_info@.len() - i,
    {
        rows.push(long_row(&file_info[i], params, dates[i].as_str(), available));
        i = i + 1;
    }
    assert(forall|k: int| 0 <= k < dates@.len() ==> string_views(dates@)[k] == dates@[k]@);
    rows
}

/// The rows of the long table, with the time column as it is shown now.
pub fn long_rows(file_info: &Vec<FileInfo>, params: &Params, terminal_width: usize) -> (r: Vec<Vec<Cell>>)
    ensures
        exists|dates: Seq<Seq<char>>|
            #![trigger is_long_table(r@, file_info@, *params, dates, terminal_width as int)]
            dates_fit(dates, *params) && is_long_table(
                r@,
                file_info@,
                *params,
                dates,
                terminal_width as int,
            ),
{
    let dates = all_dates(file_info, params);
    long_rows_with_dates(file_info, &dates, params, terminal_width)
}

} // verus!
