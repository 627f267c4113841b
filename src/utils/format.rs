//! Permission strings, byte sizes and name shortening.
use vstd::prelude::*;
use crate::utils::text::{chars_of, dec_digits, decimal, digit_char, has_suffix, push_char, push_range, string_of};

verus! {

/// The letter shown for the `i`-th of the nine permission bits, highest first.
pub open spec fn perm_letter(i: int) -> char {
    if i % 3 == 0 {
        'r'
    } else if i % 3 == 1 {
        'w'
    } else {
        'x'
    }
}

/// The mask of the `i`-th permission bit, from owner read (0o400) down to
/// other execute (0o001).
pub open spec fn perm_mask(i: int) -> u32 {
    (0o400u32 >> (i as u32)) as u32
}

/// The symbolic `rwx` form of the low nine bits of `mode`.
pub open spec fn rwx_of(mode: u32) -> Seq<char> {
    Seq::new(9, |i: int| if mode & perm_mask(i) != 0 { perm_letter(i) } else { '-' })
}

/// Renders the permission bits of `mode` as nine characters: owner, group
/// and other, each as read, write and execute, `-` where a bit is clear.
pub fn mode_to_rwx(mode: u32) -> (r: String)
    ensures
        r@ == rwx_of(mode),
{
    let mut rwx = String::new();
    let mut i: u32 = 0;
    while i < 9
        invariant
            i <= 9,
            rwx@ == rwx_of(mode).subrange(0, i as int),
        decreases 9 - i,
    {
        let mask: u32 = 0o400u32 >> i;
        let c = if mode & mask != 0 {
            if i % 3 == 0 {
                'r'
            } else if i % 3 == 1 {
                'w'
            } else {
                'x'
            }
        } else {
            '-'
        };
        push_char(&mut rwx, c);
        assert(rwx@ =~= rwx_of(mode).subrange(0, i + 1));
        i = i + 1;
    }
    assert(rwx@ =~= rwx_of(mode));
    rwx
}

/// `1024` to the power `k`.
pub open spec fn pow1024(k: nat) -> nat
    decreases k,
{
    if k == 0 {
        1
    } else {
        1024 * pow1024((k - 1) as nat)
    }
}

/// The index of the unit a size is shown in: the largest `k <= 5` with
/// `1024^k <= size`, or 0.
pub open spec fn unit_index(size: nat) -> nat {
    if size >= pow1024(5) {
        5
    } else if size >= pow1024(4) {
        4
    } else if size >= pow1024(3) {
        3
    } else if size >= pow1024(2) {
        2
    } else if size >= pow1024(1) {
        1
    } else {
        0
    }
}

/// Units step by exactly 1024: a size shown in unit `k` is at least
/// `1024^k` (bytes aside) and, below the largest unit, under `1024^(k+1)`.
pub proof fn lemma_unit_steps(size: nat)
    ensures
        unit_index(size) <= 5,
        size >= 1 ==> pow1024(unit_index(size)) <= size,
        unit_index(size) < 5 ==> size < pow1024(unit_index(size) + 1),
{
    reveal_with_fuel(pow1024, 6);
}

/// The name of unit `k`: B, KB, MB, GB, TB, PB.
pub open spec fn unit_name(k: nat) -> Seq<char> {
    if k == 0 {
        seq!['B']
    } else if k == 1 {
        seq!['K', 'B']
    } else if k == 2 {
        seq!['M', 'B']
    } else if k == 3 {
        seq!['G', 'B']
    } else if k == 4 {
        seq!['T', 'B']
    } else {
        seq!['P', 'B']
    }
}

/// `num / den` rounded to the nearest integer, ties to the even one.
pub open spec fn round_half_even(num: nat, den: nat) -> nat
    recommends
        den > 0,
{
    let q = num / den;
    let r = num % den;
    if 2 * r > den || (2 * r == den && q % 2 == 1) {
        q + 1
    } else {
        q
    }
}

/// `size / 1024^k` in tenths, rounded to the nearest tenth.
pub open spec fn scaled_tenths(size: nat, k: nat) -> nat {
    round_half_even(10 * size, pow1024(k))
}

/// A count of tenths written with one decimal place, such as `15` as "1.5".
pub open spec fn one_decimal(tenths: nat) -> Seq<char> {
    dec_digits(tenths / 10) + seq!['.', digit_char(tenths % 10)]
}

/// The amount part of a human-readable size, always with one decimal.
pub open spec fn human_amount(size: nat) -> Seq<char> {
    one_decimal(scaled_tenths(size, unit_index(size)))
}

/// The amount shown in the size column: the raw byte count, or in
/// human-readable form the scaled value, without a decimal where it is whole.
pub open spec fn shown_amount(size: nat, human: bool) -> Seq<char> {
    if !human {
        dec_digits(size)
    } else if size % pow1024(unit_index(size)) == 0 {
        dec_digits(size / pow1024(unit_index(size)))
    } else {
        human_amount(size)
    }
}

/// The unit shown in the size column: none for raw byte counts.
pub open spec fn shown_unit(size: nat, human: bool) -> Seq<char> {
    if human {
        unit_name(unit_index(size))
    } else {
        seq![]
    }
}

/// The unit for `size` and its power of 1024.
fn unit_of(size: u64) -> (r: (usize, u64))
    ensures
        r.0 == unit_index(size as nat),
        r.1 as nat == pow1024(r.0 as nat),
        r.0 <= 5,
        r.1 >= 1,
        size < 16384 * r.1,
{
    reveal_with_fuel(pow1024, 6);
    if size >= 1125899906842624 {
        (5, 1125899906842624)
    } else if size >= 1099511627776 {
        (4, 1099511627776)
    } else if size >= 1073741824 {
        (3, 1073741824)
    } else if size >= 1048576 {
        (2, 1048576)
    } else if size >= 1024 {
        (1, 1024)
    } else {
        (0, 1)
    }
}

fn unit_str(k: usize) -> (r: String)
    requires
        k <= 5,
    ensures
        r@ == unit_name(k as nat),
{
    let mut s = String::new();
    if k == 0 {
        push_char(&mut s, 'B');
        return s;
    } else if k == 1 {
        push_char(&mut s, 'K');
    } else if k == 2 {
        push_char(&mut s, 'M');
    } else if k == 3 {
        push_char(&mut s, 'G');
    } else if k == 4 {
        push_char(&mut s, 'T');
    } else {
        push_char(&mut s, 'P');
    }
    push_char(&mut s, 'B');
    s
}

fn tenths_text(t: u64) -> (r: String)
    ensures
        r@ == one_decimal(t as nat),
{
    let mut s = decimal(t / 10);
    push_char(&mut s, '.');
    let d = t % 10;
    let last = decimal(d);
    proof {
        reveal_with_fuel(dec_digits, 1);
    }
    assert(last@ == seq![digit_char(d as nat)]);
    push_char(&mut s, last.as_str().get_char(0));
    assert(s@ =~= one_decimal(t as nat));
    s
}

/// Scales a byte count to its unit in steps of exactly 1024 and gives the
/// amount with one decimal, rounded to the nearest tenth, and the unit name
/// (B, KB, MB, GB, TB or PB).
pub fn human_readable_format(size: u64) -> (r: (String, String))
    ensures
        r.0@ == human_amount(size as nat),
        r.1@ == unit_name(unit_index(size as nat)),
{
    let (k, d) = unit_of(size);
    let num: u128 = 10 * (size as u128);
    let den: u128 = d as u128;
    let q: u128 = num / den;
    let rem: u128 = num % den;
    let t: u128 = if 2 * rem > den || (2 * rem == den && q % 2 == 1) {
        q + 1
    } else {
        q
    };
    assert(q < 163840) by (nonlinear_arith)
        requires
            q == num / den,
            den >= 1,
            num == 10 * (size as u128),
            size < 16384 * den,
    ;
    (tenths_text(t as u64), unit_str(k))
}

/// The size column of a listing: the byte count as is, or in human-readable
/// form the amount (whole amounts without a decimal) and its unit.
pub fn show_size(size: u64, human_readable: bool) -> (r: (String, String))
    ensures
        r.0@ == shown_amount(size as nat, human_readable),
        r.1@ == shown_unit(size as nat, human_readable),
{
    if human_readable {
        let (k, d) = unit_of(size);
        if size % d == 0 {
            (decimal(size / d), unit_str(k))
        } else {
            human_readable_format(size)
        }
    } else {
        (decimal(size), String::new())
    }
}

/// The position of the last `.` in `s`, if any.
pub open spec fn last_dot(s: Seq<char>) -> Option<int>
    decreases s.len(),
{
    if s.len() == 0 {
        None
    } else if s.last() == '.' {
        Some(s.len() - 1)
    } else {
        last_dot(s.drop_last())
    }
}

/// Where the extension of a name begins: at its last `.`, or at its end.
pub open spec fn ext_start(s: Seq<char>) -> int {
    match last_dot(s) {
        Some(p) => p,
        None => s.len() as int,
    }
}

/// The extension of a name, from its last `.` on (empty if it has none).
pub open spec fn extension_of(s: Seq<char>) -> Seq<char> {
    s.subrange(ext_start(s), s.len() as int)
}

/// A name fitted into `width` characters. Names that fit are kept. Otherwise
/// the extension is kept and the middle of the base name gives way to "...",
/// the rest of the width shared between the front and the back of the base
/// name, the front taking the odd character. Where not even three characters
/// of the base name would remain, the name is cut at `width`.
pub open spec fn shortened(s: Seq<char>, width: nat) -> Seq<char> {
    if s.len() <= width {
        s
    } else {
        let p = ext_start(s);
        let base = s.subrange(0, p);
        let ext = s.subrange(p, s.len() as int);
        if width < 6 + ext.len() {
            s.subrange(0, width as int)
        } else {
            let avail = width - 3 - ext.len();
            let front = (avail + 1) / 2;
            let back = avail - front;
            base.subrange(0, front) + seq!['.', '.', '.'] + base.subrange(
                base.len() - back,
                base.len() as int,
            ) + ext
        }
    }
}

proof fn lemma_last_dot(s: Seq<char>)
    ensures
        match last_dot(s) {
            Some(p) => 0 <= p < s.len() && s[p] == '.' && forall|k: int| p < k < s.len() ==> s[k] != '.',
            None => forall|k: int| 0 <= k < s.len() ==> s[k] != '.',
        },
    decreases s.len(),
{
    if s.len() > 0 && s.last() != '.' {
        let t = s.drop_last();
        lemma_last_dot(t);
        assert forall|k: int| 0 <= k < t.len() implies t[k] == s[k] by {}
    }
}

/// Fitting a name that is too long gives exactly `width` characters, and
/// keeps its extension whenever the width leaves room for it, three
/// characters of the base name and the ellipsis.
pub proof fn lemma_shortened_fits(s: Seq<char>, width: nat)
    requires
        s.len() > width,
    ensures
        shortened(s, width).len() == width,
        width >= 6 + extension_of(s).len() ==> has_suffix(shortened(s, width), extension_of(s)),
{
    lemma_last_dot(s);
    let r = shortened(s, width);
    let ext = extension_of(s);
    if width >= 6 + ext.len() {
        assert(r.subrange(r.len() - ext.len(), r.len() as int) =~= ext);
    }
}

/// Fits `filename` into `max_width` characters: see [`shortened`].
pub fn shorten_filename(filename: &str, max_width: usize) -> (r: String)
    ensures
        r@ == shortened(filename@, max_width as nat),
{
    let cs = chars_of(filename);
    let n = cs.len();
    if n <= max_width {
        return string_of(&cs);
    }
    let mut p: usize = n;
    assert(cs@.subrange(0, n as int) =~= cs@);
    while p > 0 && cs[p - 1] != '.'
        invariant
            p <= n == cs@.len(),
            last_dot(cs@) == last_dot(cs@.subrange(0, p as int)),
        decreases p,
    {
        assert(cs@.subrange(0, p - 1) =~= cs@.subrange(0, p as int).drop_last());
        p = p - 1;
    }
    let ghost q = cs@.subrange(0, p as int);
    if p == 0 {
        assert(last_dot(q) == None::<int>);
        p = n;
    } else {
        assert(q.last() == '.');
        assert(last_dot(q) == Some((p - 1) as int));
        p = p - 1;
    }
    assert(p as int == ext_start(cs@));
    let ext_len = n - p;
    if max_width < 6 || max_width - 6 < ext_len {
        let mut v: Vec<char> = Vec::new();
        push_range(&mut v, &cs, 0, max_width);
        assert(v@ =~= shortened(cs@, max_width as nat));
        return string_of(&v);
    }
    let avail = max_width - 3 - ext_len;
    let front = (avail + 1) / 2;
    let back = avail - front;
    let mut v: Vec<char> = Vec::new();
    push_range(&mut v, &cs, 0, front);
    v.push('.');
    v.push('.');
    v.push('.');
    push_range(&mut v, &cs, p - back, p);
    push_range(&mut v, &cs, p, n);
    let ghost base = cs@.subrange(0, p as int);
    assert(base.subrange(0, front as int) =~= cs@.subrange(0, front as int));
    assert(base.subrange(base.len() - back, base.len() as int) =~= cs@.subrange(p - back, p as int));
    assert(v@ =~= shortened(cs@, max_width as nat));
    string_of(&v)
}

} // verus!
